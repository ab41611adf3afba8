use session_auth::backend::{
    all_permissions, has_permission, permission_step, start_permission_query, PermissionQuery,
    PermissionStep,
};
use session_auth::service::{gate_request, AuthManager, RequestGate, INTERNAL_SERVER_ERROR};
use std::collections::HashSet;

fn set(items: &[&str]) -> HashSet<String> {
    items.iter().map(|s| s.to_string()).collect()
}

#[test]
fn all_permissions_unites_user_and_group() {
    let all = all_permissions(set(&["read", "write"]), set(&["write", "admin"]));
    assert_eq!(all, set(&["read", "write", "admin"]));
}

#[test]
fn no_permissions_at_all() {
    let all = all_permissions(HashSet::<u64>::new(), HashSet::new());
    assert!(all.is_empty());
}

#[test]
fn has_permission_checks_membership() {
    let all = all_permissions(set(&["read"]), set(&["admin"]));
    assert!(has_permission(&all, &"read".to_string()));
    assert!(has_permission(&all, &"admin".to_string()));
    assert!(!has_permission(&all, &"write".to_string()));
}

#[test]
fn integer_permissions() {
    let user: HashSet<u64> = [1, 2].into_iter().collect();
    let group: HashSet<u64> = [3].into_iter().collect();
    let all = all_permissions(user, group);
    assert!(has_permission(&all, &3));
    assert!(!has_permission(&all, &4));
    assert_eq!(all.len(), 3);
}

#[test]
fn missing_session_is_server_error() {
    assert_eq!(gate_request(false), RequestGate::Respond(500));
    assert_eq!(INTERNAL_SERVER_ERROR, 500);
    assert_eq!(gate_request(true), RequestGate::Proceed);
}

#[test]
fn auth_manager_keeps_parts() {
    let mut m = AuthManager::new(1u8, "backend", "user_key");
    assert_eq!(m.data_key(), "user_key");
    assert_eq!(*m.backend(), "backend");
    *m.get_mut() = 2;
    assert_eq!(*m.get_mut(), 2);
}

#[test]
fn gathering_looks_up_user_then_group() {
    let (state, step) = start_permission_query::<String, String>();
    assert!(matches!(state, PermissionQuery::AwaitingUser));
    assert!(matches!(step, PermissionStep::FetchUser));
    let (state, step) = permission_step::<String, String>(state, Ok(set(&["read"])));
    assert!(matches!(step, PermissionStep::FetchGroup));
    match &state {
        PermissionQuery::AwaitingGroup(u) => assert_eq!(*u, set(&["read"])),
        _ => panic!("expected the user's permissions kept"),
    }
    let (_, step) = permission_step::<String, String>(state, Ok(set(&["admin"])));
    match step {
        PermissionStep::Finish(Ok(all)) => assert_eq!(all, set(&["read", "admin"])),
        _ => panic!("expected the union"),
    }
}

#[test]
fn failed_user_lookup_ends_gathering() {
    let (state, _) = start_permission_query::<String, String>();
    let (_, step) = permission_step(state, Err::<HashSet<String>, String>("db down".to_string()));
    match step {
        PermissionStep::Finish(Err(e)) => assert_eq!(e, "db down"),
        _ => panic!("expected the error"),
    }
}

#[test]
fn failed_group_lookup_ends_gathering() {
    let state = PermissionQuery::AwaitingGroup(set(&["read"]));
    let (_, step) = permission_step(state, Err::<HashSet<String>, String>("groups down".to_string()));
    match step {
        PermissionStep::Finish(Err(e)) => assert_eq!(e, "groups down"),
        _ => panic!("expected the error"),
    }
}
