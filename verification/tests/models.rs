use judge_auth::cli::{calc_log_level, LogLevel};
use judge_auth::models::{Contest, PublicContest, PublicUser, User, select_public_contests};
use judge_auth::replies::{
    forbidden, internal_server_error, json_error, json_ok, method_not_allowed,
};

fn user(username: &str, permissions: &[&str]) -> User {
    User {
        id: 7,
        username: username.to_string(),
        display_name: username.to_uppercase(),
        password_hash: String::new(),
        password_salt: String::new(),
        permissions: permissions.iter().map(|p| p.to_string()).collect(),
    }
}

#[test]
fn permission_check_is_exact_membership() {
    let u = user("alice", &["judge", "admin"]);
    assert!(u.is_admin());
    assert!(u.has_permission("judge"));
    assert!(!u.has_permission("Admin"));
    assert!(!u.has_permission("adm"));
    assert!(!user("bob", &[]).is_admin());
}

#[test]
fn public_user_strips_credentials() {
    let u = user("alice", &["admin"]);
    let p = PublicUser::from(u);
    assert_eq!(p.id, 7);
    assert_eq!(p.username, "alice");
    assert_eq!(p.display_name, "ALICE");
}

#[test]
fn public_contest_selection_keeps_public_rows_in_order() {
    let contests = vec![
        Contest { id: 1, public: true, slug: "a".into(), title: "A".into() },
        Contest { id: 2, public: false, slug: "b".into(), title: "B".into() },
        Contest { id: 3, public: true, slug: "c".into(), title: "C".into() },
    ];
    let selected = select_public_contests(contests);
    assert_eq!(selected.len(), 2);
    assert_eq!(selected[0].id, 1);
    assert_eq!(selected[0].slug, "a");
    assert_eq!(selected[1].id, 3);
    assert_eq!(selected[1].title, "C");

    let hidden = Contest { id: 9, public: false, slug: "x".into(), title: "X".into() };
    let stripped = PublicContest::from(hidden);
    assert_eq!(stripped.id, 9);
}

#[test]
fn log_level_follows_verbosity_and_quiet() {
    assert_eq!(calc_log_level(0, true), LogLevel::Off);
    assert_eq!(calc_log_level(5, true), LogLevel::Off);
    assert_eq!(calc_log_level(0, false), LogLevel::Warn);
    assert_eq!(calc_log_level(1, false), LogLevel::Info);
    assert_eq!(calc_log_level(2, false), LogLevel::Debug);
    assert_eq!(calc_log_level(3, false), LogLevel::Trace);
    assert_eq!(calc_log_level(-1, false), LogLevel::Trace);
}

#[test]
fn json_envelopes() {
    let ok = json_ok(Some(5u32));
    assert!(ok.success);
    assert_eq!(ok.data, Some(5));
    assert!(ok.message.is_none());

    let err = json_error("boom");
    assert!(!err.success);
    assert!(err.data.is_none());
    assert_eq!(err.message.unwrap(), "boom");
}

#[test]
fn default_handler_replies() {
    let r = method_not_allowed();
    assert_eq!(r.status, 405);
    assert_eq!(r.body.message.unwrap(), "Method not allowed.");

    let r = forbidden();
    assert_eq!(r.status, 403);
    assert_eq!(r.body.message.unwrap(), "Forbidden.");

    let r = internal_server_error();
    assert_eq!(r.status, 500);
    assert_eq!(r.body.message.unwrap(), "Unexpected internal server error.");
}
