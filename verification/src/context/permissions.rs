//! Permissions, the roles that bundle them, and sets of them.

use vstd::prelude::*;
use vstd::string::*;
use crate::error::Error;
use crate::util::misc::{lowercase_of, same_text};

verus! {

/// A named bundle of permissions.
#[derive(Debug, Clone, Copy, PartialEq, Eq, Structural)]
pub enum Role {
    Root,
    Agent,
}

impl Role {
    /// The permissions that the role bundles.
    pub open spec fn granted(&self) -> Set<Permission> {
        match self {
            Role::Root => set![
                Permission::TenantCreate,
                Permission::TenantRead,
                Permission::TenantUpdate,
            ],
            Role::Agent => set![
                Permission::AuditMetaRead,
                Permission::PolicyCreate,
                Permission::PolicyRead,
                Permission::PolicyUpdate,
                Permission::TokenCreate,
                Permission::TokenRead,
            ],
        }
    }

    /// The role that a lower-case name stands for.
    pub open spec fn named(lower: Seq<char>) -> Option<Role> {
        if lower == "root"@ {
            Some(Role::Root)
        } else if lower == "agent"@ {
            Some(Role::Agent)
        } else {
            None
        }
    }

    /// The role that a lower-case name stands for.
    pub fn from_lowercase(lower: &str) -> (role: Option<Role>)
        ensures
            role == Role::named(lower@),
    {
        if same_text(lower, "root") {
            Some(Role::Root)
        } else if same_text(lower, "agent") {
            Some(Role::Agent)
        } else {
            None
        }
    }

    /// The permissions that the role bundles.
    pub fn permissions(&self) -> (set: PermissionSet)
        ensures
            set@ == self.granted(),
    {
        let permissions = match self {
            Role::Root => vec![
                Permission::TenantCreate,
                Permission::TenantRead,
                Permission::TenantUpdate,
            ],
            Role::Agent => vec![
                Permission::AuditMetaRead,
                Permission::PolicyCreate,
                Permission::PolicyRead,
                Permission::PolicyUpdate,
                Permission::TokenCreate,
                Permission::TokenRead,
            ],
        };
        proof {
            let listed = permissions@;
            assert(listed.to_set() =~= self.granted()) by {
                assert forall|p: Permission| self.granted().contains(p) implies listed.contains(
                    p,
                ) by {
                    let i = choose|i: int| 0 <= i < listed.len() && listed[i] == p;
                    assert(listed[i] == p);
                }
            }
        }
        PermissionSet::from_slice(permissions.as_slice())
    }
}

/// Every role grants something, and a permission is granted by exactly
/// one role: by `Root` where it needs no tenant, by `Agent` where it
/// needs one.
pub proof fn lemma_roles_split_permissions(permission: Permission)
    ensures
        !Role::Root.granted().is_empty(),
        !Role::Agent.granted().is_empty(),
        Role::Root.granted().contains(permission) <==> !permission.needs_tenant(),
        Role::Agent.granted().contains(permission) <==> permission.needs_tenant(),
{
    assert(Role::Root.granted().contains(Permission::TenantCreate));
    assert(Role::Agent.granted().contains(Permission::TokenCreate));
}

impl TryFrom<String> for Role {
    type Error = Error;

    /// Reads a role from its name, in any case. The error carries the
    /// text as it was given.
    fn try_from(value: String) -> (role: Result<Role, Error>)
        ensures
            match Role::named(lowercase_of(value@)) {
                Some(named) => role == Ok::<Role, Error>(named),
                None => role == Err::<Role, Error>(Error::UnknownRole(value)),
            },
    {
        let lower = value.as_str().to_lowercase();
        match Role::from_lowercase(lower.as_str()) {
            Some(named) => Ok(named),
            None => Err(Error::UnknownRole(value)),
        }
    }
}

impl vstd::std_specs::convert::TryFromSpecImpl<String> for Role {
    open spec fn obeys_try_from_spec() -> bool {
        true
    }

    open spec fn try_from_spec(value: String) -> Result<Role, Error> {
        match Role::named(lowercase_of(value@)) {
            Some(named) => Ok(named),
            None => Err(Error::UnknownRole(value)),
        }
    }
}

/// One thing that a caller may be allowed to do.
#[derive(Debug, Hash, Clone, Copy, PartialEq, Eq, Structural)]
pub enum Permission {
    TenantCreate,
    TenantRead,
    TenantUpdate,
    //
    AuditMetaRead,
    //
    PolicyCreate,
    PolicyRead,
    PolicyUpdate,
    TokenCreate,
    TokenRead,
}

impl Permission {
    /// Whether the permission only makes sense within a tenant. Managing
    /// tenants does not; everything else does.
    pub open spec fn needs_tenant(&self) -> bool {
        !(*self is TenantCreate || *self is TenantRead || *self is TenantUpdate)
    }

    #[verifier::when_used_as_spec(needs_tenant)]
    pub fn is_tenant_required(&self) -> (required: bool)
        ensures
            required == self.needs_tenant(),
    {
        match self {
            Permission::TenantCreate | Permission::TenantRead | Permission::TenantUpdate => false,
            _ => true,
        }
    }
}

/// A set of permissions. It is kept as a list in which nothing occurs
/// twice: of a hash set whose keys have a derived `Hash` and `Eq`, nothing
/// can be proved.
pub struct PermissionSet {
    items: Vec<Permission>,
}

impl View for PermissionSet {
    type V = Set<Permission>;

    closed spec fn view(&self) -> Set<Permission> {
        self.items@.to_set()
    }
}

impl PermissionSet {
    #[verifier::type_invariant]
    spec fn listed_once(&self) -> bool {
        self.items@.no_duplicates()
    }

    /// The empty set.
    pub fn new() -> (set: PermissionSet)
        ensures
            set@ == Set::<Permission>::empty(),
    {
        let set = PermissionSet { items: Vec::new() };
        assert(set.items@.to_set() =~= Set::<Permission>::empty());
        set
    }

    /// Whether `permission` is in the set.
    pub fn contains(&self, permission: &Permission) -> (found: bool)
        ensures
            found == self@.contains(*permission),
    {
        let mut i: usize = 0;
        while i < self.items.len()
            invariant
                i <= self.items@.len(),
                forall|j: int| 0 <= j < i ==> self.items@[j] != *permission,
            decreases self.items@.len() - i,
        {
            if self.items[i] == *permission {
                return true;
            }
            i = i + 1;
        }
        false
    }

    /// The number of permissions in the set.
    pub fn len(&self) -> (count: usize)
        ensures
            count == self@.len(),
    {
        proof {
            use_type_invariant(self);
            self.items@.unique_seq_to_set();
        }
        self.items.len()
    }

    /// The set with `permission` added. Says whether it was new.
    pub fn insert(&mut self, permission: Permission) -> (added: bool)
        ensures
            final(self)@ == old(self)@.insert(permission),
            added == !old(self)@.contains(permission),
    {
        if self.contains(&permission) {
            assert(self@.insert(permission) =~= self@);
            false
        } else {
            proof {
                use_type_invariant(&*self);
            }
            let ghost before = self.items@;
            let mut items: Vec<Permission> = Vec::new();
            std::mem::swap(&mut items, &mut self.items);
            items.push(permission);
            self.items = items;
            proof {
                before.lemma_push_to_set_commute(permission);
            }
            true
        }
    }

    /// The set of the permissions listed in `permissions`.
    pub fn from_slice(permissions: &[Permission]) -> (set: PermissionSet)
        ensures
            set@ == permissions@.to_set(),
    {
        let mut set = PermissionSet::new();
        let mut i: usize = 0;
        while i < permissions.len()
            invariant
                i <= permissions@.len(),
                set@ == permissions@.take(i as int).to_set(),
            decreases permissions@.len() - i,
        {
            let ghost seen = permissions@.take(i as int);
            set.insert(permissions[i]);
            assert(permissions@.take(i + 1) =~= seen.push(permissions@[i as int]));
            proof {
                seen.lemma_push_to_set_commute(permissions@[i as int]);
            }
            i = i + 1;
        }
        assert(permissions@.take(i as int) =~= permissions@);
        set
    }

    /// The permissions that are in this set or in `other`.
    pub fn union(&self, other: &PermissionSet) -> (both: PermissionSet)
        ensures
            both@ == self@.union(other@),
    {
        let mut both = PermissionSet::from_slice(self.items.as_slice());
        let mut i: usize = 0;
        while i < other.items.len()
            invariant
                i <= other.items@.len(),
                both@ == self@.union(other.items@.take(i as int).to_set()),
            decreases other.items@.len() - i,
        {
            let ghost seen = other.items@.take(i as int);
            both.insert(other.items[i]);
            assert(other.items@.take(i + 1) =~= seen.push(other.items@[i as int]));
            proof {
                seen.lemma_push_to_set_commute(other.items@[i as int]);
            }
            assert(self@.union(seen.push(other.items@[i as int]).to_set()) =~= self@.union(
                seen.to_set(),
            ).insert(other.items@[i as int]));
            i = i + 1;
        }
        assert(other.items@.take(i as int) =~= other.items@);
        both
    }
}

} // verus!
