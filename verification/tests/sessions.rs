use miracle_backend::ids::UserId;
use miracle_backend::modules::auth::{resolve_principal, session_admits, LoginRequest};

#[test]
fn only_active_sessions_of_able_users_are_admitted() {
    assert!(session_admits(true, Some(true)));
    assert!(!session_admits(false, Some(true)));
    assert!(!session_admits(true, Some(false)));
    assert!(!session_admits(true, None));

    let p = resolve_principal(UserId(3), 9, true, Some(true), vec!["order.update".to_string()]).unwrap();
    assert_eq!((p.user_id, p.session_id), (UserId(3), 9));
    assert_eq!(p.permissions, vec!["order.update".to_string()]);
    assert!(resolve_principal(UserId(3), 9, false, Some(true), vec![]).is_none());
    assert!(resolve_principal(UserId(3), 9, true, None, vec![]).is_none());
    assert!(resolve_principal(UserId(3), 9, true, Some(false), vec![]).is_none());
}

#[test]
fn login_attempts_use_the_normalised_address() {
    let login = LoginRequest { email: "  Ana@Example.COM ".into(), password: "secret".into() }.into_command();
    assert_eq!(login.email, "ana@example.com");
    assert_eq!(login.password, "secret");
    assert!(login.user_agent.is_none() && login.ip_address.is_none());
}
