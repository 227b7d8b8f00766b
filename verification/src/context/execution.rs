//! The execution context: the caller, the tenant the call is for, and the
//! permissions the caller holds. Every operation asks it first.

use vstd::prelude::*;
use vstd::string::*;
use crate::context::permissions::{Permission, PermissionSet};
use crate::error::Error;
use crate::util::misc::{lowercase_of, same_text};

verus! {

/// The kind of a caller.
#[derive(Debug, Copy, Clone, PartialEq, Eq, Structural)]
pub enum CallerType {
    USER,
    SERVICE,
}

impl CallerType {
    /// The name of the caller type, in capitals.
    pub open spec fn name(&self) -> Seq<char> {
        match self {
            CallerType::USER => "USER"@,
            CallerType::SERVICE => "SERVICE"@,
        }
    }

    /// The caller type that a lower-case name stands for.
    pub open spec fn named(lower: Seq<char>) -> Option<CallerType> {
        if lower == "user"@ {
            Some(CallerType::USER)
        } else if lower == "service"@ {
            Some(CallerType::SERVICE)
        } else {
            None
        }
    }

    /// The caller type that a lower-case name stands for.
    pub fn from_lowercase(lower: &str) -> (caller_type: Option<CallerType>)
        ensures
            caller_type == CallerType::named(lower@),
    {
        if same_text(lower, "user") {
            Some(CallerType::USER)
        } else if same_text(lower, "service") {
            Some(CallerType::SERVICE)
        } else {
            None
        }
    }

    /// The name of the caller type, in capitals.
    pub fn to_string(&self) -> (name: String)
        ensures
            name@ == self.name(),
    {
        match self {
            CallerType::USER => "USER".to_string(),
            CallerType::SERVICE => "SERVICE".to_string(),
        }
    }
}

impl TryFrom<String> for CallerType {
    type Error = Error;

    /// Reads a caller type from its name, in any case. The error carries
    /// the text in lower case.
    fn try_from(s: String) -> (caller_type: Result<CallerType, Error>)
        ensures
            match CallerType::named(lowercase_of(s@)) {
                Some(named) => caller_type == Ok::<CallerType, Error>(named),
                None => (caller_type matches Err(Error::UnknownCallerType(text)) && text@
                    == lowercase_of(s@)),
            },
    {
        let lower = s.as_str().to_lowercase();
        match CallerType::from_lowercase(lower.as_str()) {
            Some(named) => Ok(named),
            None => Err(Error::UnknownCallerType(lower)),
        }
    }
}

/// The error of `try_from` carries a text that is made on the way, and no
/// spec function can name the `String` that holds it. So `try_from` is
/// described by its own `ensures`, and not by the function below.
impl vstd::std_specs::convert::TryFromSpecImpl<String> for CallerType {
    open spec fn obeys_try_from_spec() -> bool {
        false
    }

    open spec fn try_from_spec(s: String) -> Result<CallerType, Error> {
        arbitrary()
    }
}

/// The identity that makes a call.
#[derive(Debug, Clone, PartialEq, Eq)]
pub struct Caller {
    pub caller_id: String,
    pub caller_type: CallerType,
}

impl Caller {
    pub fn new(caller_id: String, caller_type: CallerType) -> (caller: Caller)
        ensures
            caller.caller_id == caller_id,
            caller.caller_type == caller_type,
    {
        Caller { caller_id, caller_type }
    }
}

/// The pattern that a tenant id matches from its first character to its
/// last.
pub const TENANT_ID_PATTERN: &'static str = "^[a-zA-Z0-9_-]{2,}$";

/// Whether `c` may stand in a tenant id: an ASCII letter or digit, an
/// underscore or a hyphen.
pub open spec fn is_tenant_id_char(c: char) -> bool {
    ||| 'a' <= c <= 'z'
    ||| 'A' <= c <= 'Z'
    ||| '0' <= c <= '9'
    ||| c == '_'
    ||| c == '-'
}

/// Whether `text` is a tenant id: two characters or more, each of them
/// one that may stand in a tenant id.
pub open spec fn is_tenant_id(text: Seq<char>) -> bool {
    &&& text.len() >= 2
    &&& forall|i: int| 0 <= i < text.len() ==> is_tenant_id_char(#[trigger] text[i])
}

/// `regex::Regex::new` on the pattern for tenant ids, then
/// `regex::Regex::is_match` on `text`. The pattern is anchored at both
/// ends of the text and repeats one class of characters twice or more, so
/// the contract says that there is a match exactly where `text` is a
/// tenant id. The pattern compiles; were it refused, nothing would match.
#[verifier::external_body]
fn matches_tenant_id(pattern: &str, text: &str) -> (hit: bool)
    requires
        pattern@ == TENANT_ID_PATTERN@,
    ensures
        hit == is_tenant_id(text@),
{
    match regex::Regex::new(pattern) {
        Ok(compiled) => compiled.is_match(text),
        Err(_) => false,
    }
}

/// The key that scopes an operation to a tenant.
#[derive(Debug, PartialEq, Eq)]
pub struct TenantId(String);

impl Clone for TenantId {
    fn clone(&self) -> (copy: TenantId)
        ensures
            copy@ == self@,
    {
        proof {
            use_type_invariant(self);
        }
        TenantId(self.0.clone())
    }
}

impl View for TenantId {
    type V = Seq<char>;

    closed spec fn view(&self) -> Seq<char> {
        self.0@
    }
}

impl TenantId {
    #[verifier::type_invariant]
    spec fn well_formed(&self) -> bool {
        is_tenant_id(self.0@)
    }

    /// The id as text.
    pub fn to_string(&self) -> (text: String)
        ensures
            text@ == self@,
            is_tenant_id(text@),
    {
        proof {
            use_type_invariant(self);
        }
        self.0.clone()
    }
}

impl core::ops::Deref for TenantId {
    type Target = String;

    fn deref(&self) -> (text: &String)
        ensures
            text@ == self@,
            is_tenant_id(text@),
    {
        proof {
            use_type_invariant(self);
        }
        &self.0
    }
}

impl TryFrom<String> for TenantId {
    type Error = Error;

    /// Accepts `s` as a tenant id where it is one, and says that it is
    /// invalid where it is not.
    fn try_from(s: String) -> (id: Result<TenantId, Error>)
        ensures
            is_tenant_id(s@) ==> (id matches Ok(accepted) && accepted@ == s@),
            !is_tenant_id(s@) ==> id == Err::<TenantId, Error>(Error::InvalidTenantId(s)),
    {
        if matches_tenant_id(TENANT_ID_PATTERN, s.as_str()) {
            Ok(TenantId(s))
        } else {
            Err(Error::InvalidTenantId(s))
        }
    }
}

impl vstd::std_specs::convert::TryFromSpecImpl<String> for TenantId {
    open spec fn obeys_try_from_spec() -> bool {
        true
    }

    closed spec fn try_from_spec(s: String) -> Result<TenantId, Error> {
        if is_tenant_id(s@) {
            Ok(TenantId(s))
        } else {
            Err(Error::InvalidTenantId(s))
        }
    }
}

/// The answer to the question whether an operation is authorized.
#[derive(Debug, Clone, Copy, PartialEq, Eq, Structural)]
pub enum PermissionControlState {
    Authorized,
    Missing,
    TenantRequired,
}

/// The answer for a permission, given whether the call is for a tenant
/// and whether the permission is held. The tenant is looked at first: a
/// permission that needs one is never reported missing without one.
pub open spec fn control_state(
    permission: Permission,
    has_tenant: bool,
    held: bool,
) -> PermissionControlState {
    if permission.needs_tenant() && !has_tenant {
        PermissionControlState::TenantRequired
    } else if held {
        PermissionControlState::Authorized
    } else {
        PermissionControlState::Missing
    }
}

/// Without a tenant, a permission that needs one gets the answer that a
/// tenant is required, whether or not it is held.
pub proof fn lemma_tenant_required_comes_first(permission: Permission, held: bool)
    requires
        permission.needs_tenant(),
    ensures
        control_state(permission, false, held) == PermissionControlState::TenantRequired,
{
}

/// For a permission that needs no tenant the answer depends on whether it
/// is held and on nothing else, and never is that a tenant is required.
pub proof fn lemma_tenant_free_goes_by_membership(
    permission: Permission,
    has_tenant: bool,
    held: bool,
)
    requires
        !permission.needs_tenant(),
    ensures
        control_state(permission, has_tenant, held) == if held {
            PermissionControlState::Authorized
        } else {
            PermissionControlState::Missing
        },
        control_state(permission, has_tenant, held) != PermissionControlState::TenantRequired,
{
}

/// What an operation is authorized against: the caller, the tenant the
/// call is for, and the permissions the caller holds.
pub struct ExecutionContext {
    pub caller: Caller,
    pub tenant: Option<TenantId>,
    permissions: PermissionSet,
}

impl ExecutionContext {
    /// The caller.
    pub closed spec fn who(&self) -> Caller {
        self.caller
    }

    /// The tenant the call is for, where it is for one.
    pub closed spec fn scope(&self) -> Option<TenantId> {
        self.tenant
    }

    /// The permissions that the caller holds.
    pub closed spec fn held(&self) -> Set<Permission> {
        self.permissions@
    }

    pub fn new(tenant: Option<TenantId>, caller: Caller, permissions: PermissionSet) -> (context:
        ExecutionContext)
        ensures
            context.who() == caller,
            context.scope() == tenant,
            context.held() == permissions@,
    {
        ExecutionContext { tenant, caller, permissions }
    }

    /// The name of the caller's type.
    pub fn caller_type_name(&self) -> (name: String)
        ensures
            name@ == self.who().caller_type.name(),
    {
        self.caller.caller_type.to_string()
    }

    /// The caller's id.
    pub fn caller_id(&self) -> (id: String)
        ensures
            id == self.who().caller_id,
    {
        self.caller.caller_id.clone()
    }

    /// The tenant's id as text; empty where the call is for no tenant.
    pub fn tenant_text(&self) -> (text: String)
        ensures
            match self.scope() {
                Some(tenant) => text@ == tenant@,
                None => text@ == Seq::<char>::empty(),
            },
    {
        match &self.tenant {
            Some(tenant) => tenant.to_string(),
            None => String::new(),
        }
    }

    /// Whether the context authorizes an operation that needs
    /// `permission`.
    pub fn has_permission(&self, permission: &Permission) -> (state: PermissionControlState)
        ensures
            state == control_state(
                *permission,
                self.scope() is Some,
                self.held().contains(*permission),
            ),
    {
        if permission.is_tenant_required() && self.tenant.is_none() {
            return PermissionControlState::TenantRequired;
        }
        if self.permissions.contains(permission) {
            return PermissionControlState::Authorized;
        }
        PermissionControlState::Missing
    }
}

} // verus!
