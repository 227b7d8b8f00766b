use std::ops::Deref;

use tokend::context::Permission::{
    AuditMetaRead, PolicyCreate, PolicyRead, PolicyUpdate, TenantCreate, TenantRead, TenantUpdate,
    TokenCreate, TokenRead,
};
use tokend::context::PermissionControlState::{Authorized, Missing, TenantRequired};
use tokend::context::{
    Caller, CallerType, ExecutionContext, Permission, PermissionSet, Role, TenantId,
};
use tokend::error::Error as CError;

#[test]
fn caller_type_from_string_case_insensitive() {
    for t in vec![
        ("USER".to_string(), CallerType::USER),
        ("SERVICE".to_string(), CallerType::SERVICE),
    ] {
        let caller_type: CallerType = t.0.try_into().unwrap();
        assert_eq!(caller_type, t.1);
    }
}

#[test]
fn caller_type_from_string() {
    for t in vec![
        ("user".to_string(), CallerType::USER),
        ("service".to_string(), CallerType::SERVICE),
    ] {
        let caller_type: CallerType = t.0.try_into().unwrap();
        assert_eq!(caller_type, t.1);
    }
}

#[test]
fn caller_type_from_unknown_string() {
    let res: Result<CallerType, CError> = "grumpf".to_string().try_into();
    assert!(res.is_err());
}

#[test]
fn caller_type_unknown_carries_lowercased_text() {
    let res: Result<CallerType, CError> = "GrumPF".to_string().try_into();
    match res {
        Err(CError::UnknownCallerType(text)) => assert_eq!(text, "grumpf"),
        _ => panic!("Invalid error"),
    }
}

#[test]
fn caller_type_from_mixed_case() {
    let caller_type: CallerType = "SeRvIcE".to_string().try_into().unwrap();
    assert_eq!(caller_type, CallerType::SERVICE);
    assert_eq!(CallerType::from_lowercase("user"), Some(CallerType::USER));
    assert_eq!(CallerType::from_lowercase("USER"), None);
}

#[test]
fn caller_type_to_string() {
    assert_eq!("USER".to_string(), CallerType::USER.to_string());
    assert_eq!("SERVICE".to_string(), CallerType::SERVICE.to_string());
}

#[test]
fn tenant_id_from_string() {
    let tid: Result<TenantId, CError> = "idfm".to_string().try_into();
    assert!(tid.is_ok());
    assert_eq!(tid.unwrap().deref(), &"idfm".to_string());
}

#[test]
fn tenant_id_from_string_reject_empty_or_one_letter_string() {
    let tid: Result<TenantId, CError> = "".to_string().try_into();
    assert!(tid.is_err());
    match tid.err().unwrap() {
        CError::InvalidTenantId(_) => {}
        _ => panic!("Invalid error"),
    }

    let tid: Result<TenantId, CError> = "i".to_string().try_into();
    assert!(tid.is_err());
    match tid.err().unwrap() {
        CError::InvalidTenantId(_) => {}
        _ => panic!("Invalid error"),
    }
}

#[test]
fn tenant_id_from_string_reject_not_ascii_char() {
    let tid: Result<TenantId, CError> = "az:er".to_string().try_into();
    assert!(tid.is_err());
}

#[test]
fn tenant_id_accepts_every_allowed_kind_of_character() {
    let tid: Result<TenantId, CError> = "aZ09_-".to_string().try_into();
    assert_eq!(tid.unwrap().to_string(), "aZ09_-");
    let two: Result<TenantId, CError> = "--".to_string().try_into();
    assert!(two.is_ok());
}

#[test]
fn tenant_id_rejects_what_is_outside_the_pattern() {
    for text in vec!["ab\n", " ab", "a b", "été", "ab/", "ab."] {
        let tid: Result<TenantId, CError> = text.to_string().try_into();
        match tid {
            Err(CError::InvalidTenantId(refused)) => assert_eq!(refused, text),
            _ => panic!("Invalid error"),
        }
    }
}

fn sample_caller() -> Caller {
    Caller::new("007".to_string(), CallerType::USER)
}

#[test]
fn execution_context_has_permission_when_tenant_is_missing() {
    let ctx = ExecutionContext::new(
        None,
        sample_caller(),
        PermissionSet::from_slice(&[TenantRead, PolicyCreate, TokenCreate]),
    );
    assert_eq!(ctx.has_permission(&TenantRead), Authorized);
    assert_eq!(ctx.has_permission(&PolicyCreate), TenantRequired);
    assert_eq!(ctx.has_permission(&PolicyUpdate), TenantRequired);
    assert_eq!(ctx.has_permission(&PolicyRead), TenantRequired);
    assert_eq!(ctx.has_permission(&TokenRead), TenantRequired);
    assert_eq!(ctx.has_permission(&TokenCreate), TenantRequired);
}

#[test]
fn execution_context_has_permission_when_tenant_is_present() {
    let tenant: TenantId = "idfm".to_string().try_into().unwrap();
    let ctx = ExecutionContext::new(
        Some(tenant),
        sample_caller(),
        PermissionSet::from_slice(&[PolicyCreate, TenantRead, TokenRead]),
    );
    assert_eq!(ctx.has_permission(&TenantRead), Authorized);
    assert_eq!(ctx.has_permission(&PolicyCreate), Authorized);
    assert_eq!(ctx.has_permission(&PolicyUpdate), Missing);
    assert_eq!(ctx.has_permission(&PolicyRead), Missing);
    assert_eq!(ctx.has_permission(&TokenRead), Authorized);
    assert_eq!(ctx.has_permission(&TokenCreate), Missing);
}

fn all_permissions() -> Vec<Permission> {
    vec![
        TenantCreate,
        TenantRead,
        TenantUpdate,
        AuditMetaRead,
        PolicyCreate,
        PolicyRead,
        PolicyUpdate,
        TokenCreate,
        TokenRead,
    ]
}

#[test]
fn tenant_required_comes_before_membership() {
    let none = ExecutionContext::new(None, sample_caller(), PermissionSet::new());
    let all = ExecutionContext::new(
        None,
        sample_caller(),
        PermissionSet::from_slice(&all_permissions()),
    );
    for p in all_permissions() {
        if p.is_tenant_required() {
            assert_eq!(none.has_permission(&p), TenantRequired);
            assert_eq!(all.has_permission(&p), TenantRequired);
        }
    }
}

#[test]
fn tenant_free_permissions_go_by_membership_alone() {
    let tenant: TenantId = "idfm".to_string().try_into().unwrap();
    let held = PermissionSet::from_slice(&[TenantCreate, TenantUpdate]);
    let with = ExecutionContext::new(Some(tenant), sample_caller(), held.union(&PermissionSet::new()));
    let without = ExecutionContext::new(None, sample_caller(), held);
    for p in all_permissions() {
        if !p.is_tenant_required() {
            let expected = if p == TenantRead { Missing } else { Authorized };
            assert_eq!(with.has_permission(&p), expected);
            assert_eq!(without.has_permission(&p), expected);
        }
    }
}

#[test]
fn role_from_string_case_insensitive() {
    for t in vec![
        ("AGENT".to_string(), Role::Agent),
        ("ROOT".to_string(), Role::Root),
    ] {
        let role: Role = t.0.try_into().unwrap();
        assert_eq!(role, t.1);
    }
}

#[test]
fn role_from_string() {
    for t in vec![
        ("agent".to_string(), Role::Agent),
        ("root".to_string(), Role::Root),
    ] {
        let role: Role = t.0.try_into().unwrap();
        assert_eq!(role, t.1);
    }
}

#[test]
fn role_from_unknown_string() {
    let res: Result<Role, CError> = "grumpf".to_string().try_into();
    assert!(res.is_err());
}

#[test]
fn role_unknown_carries_text_as_given() {
    let res: Result<Role, CError> = "GrumPF".to_string().try_into();
    match res {
        Err(CError::UnknownRole(text)) => assert_eq!(text, "GrumPF"),
        _ => panic!("Invalid error"),
    }
}

#[test]
fn role_permissions_root() {
    let role = Role::Root;
    let perms = role.permissions();
    assert_eq!(&perms.contains(&TenantCreate), &true);
    assert_eq!(&perms.contains(&TenantRead), &true);
    assert_eq!(&perms.contains(&TenantUpdate), &true);
    //
    assert_eq!(&perms.contains(&AuditMetaRead), &false);
    assert_eq!(&perms.contains(&PolicyCreate), &false);
}

#[test]
fn role_permissions_agent() {
    let role = Role::Agent;
    let perms = role.permissions();
    assert_eq!(&perms.contains(&TenantCreate), &false);
    assert_eq!(&perms.contains(&TenantRead), &false);
    assert_eq!(&perms.contains(&TenantUpdate), &false);
    //
    assert_eq!(&perms.contains(&AuditMetaRead), &true);
    assert_eq!(&perms.contains(&PolicyCreate), &true);
}

#[test]
fn role_permissions_are_total_and_split_by_tenant_need() {
    let root = Role::Root.permissions();
    let agent = Role::Agent.permissions();
    assert_eq!(root.len(), 3);
    assert_eq!(agent.len(), 6);
    for p in all_permissions() {
        assert_eq!(root.contains(&p), !p.is_tenant_required());
        assert_eq!(agent.contains(&p), p.is_tenant_required());
    }
    assert_eq!(root.union(&agent).len(), 9);
}

#[test]
fn permission_set_holds_each_permission_once() {
    let mut set = PermissionSet::new();
    assert_eq!(set.len(), 0);
    assert!(set.insert(TokenRead));
    assert!(!set.insert(TokenRead));
    assert!(set.insert(TokenCreate));
    assert_eq!(set.len(), 2);
    assert!(set.contains(&TokenRead));
    assert!(!set.contains(&PolicyRead));
    let doubled = PermissionSet::from_slice(&[TokenRead, TokenRead, PolicyRead]);
    assert_eq!(doubled.len(), 2);
    assert_eq!(set.union(&doubled).len(), 3);
}

#[test]
fn permission_is_tenant_required() {
    assert_eq!(TenantCreate.is_tenant_required(), false);
    assert_eq!(TenantRead.is_tenant_required(), false);
    assert_eq!(TenantUpdate.is_tenant_required(), false);
    //
    assert_eq!(AuditMetaRead.is_tenant_required(), true);
    assert_eq!(PolicyCreate.is_tenant_required(), true);
    assert_eq!(PolicyUpdate.is_tenant_required(), true);
    assert_eq!(PolicyRead.is_tenant_required(), true);
}
