use judge_auth::models::{Contest, User};
use judge_auth::services::{
    contest_details, contests_listing, create_problem_decision, delete_problem_decision,
    delete_problem_reply, submit_decision, ContestDetails, ContestsListing, CreateProblemAction,
    DeleteProblemAction, SubmitAction,
};
use judge_auth::session::{ResolveError, Session};
use judge_auth::token::Claims;

fn session_for(username: &str, id: i32) -> Session {
    Session {
        user: User {
            id,
            username: username.to_string(),
            display_name: username.to_string(),
            password_hash: String::new(),
            password_salt: String::new(),
            permissions: vec![],
        },
        claims: Claims { exp: 10_000, sub: username.to_string(), refresh: false },
    }
}

fn contests() -> Vec<Contest> {
    vec![
        Contest { id: 1, public: true, slug: "open".into(), title: "Open".into() },
        Contest { id: 2, public: false, slug: "secret".into(), title: "Secret".into() },
    ]
}

#[test]
fn submit_needs_a_session_and_a_problem() {
    // An identity failure keeps its 401; only a permission failure is 403.
    let r = submit_decision(Err(ResolveError::Unauthorized), Some(4), "rs".into(), "fn".into());
    match r {
        SubmitAction::Reject(rep) => {
            assert_eq!(rep.status, 401);
            assert_eq!(rep.body.message.unwrap(), "Unauthorized.");
        },
        SubmitAction::Insert(_) => panic!("rejected session must not insert"),
    }

    let r = submit_decision(Err(ResolveError::Forbidden), Some(4), "rs".into(), "fn".into());
    match r {
        SubmitAction::Reject(rep) => {
            assert_eq!(rep.status, 403);
            assert_eq!(rep.body.message.unwrap(), "Not enough permission.");
        },
        SubmitAction::Insert(_) => panic!("rejected session must not insert"),
    }

    let r = submit_decision(Ok(session_for("alice", 9)), None, "rs".into(), "fn".into());
    match r {
        SubmitAction::Reject(rep) => {
            assert_eq!(rep.status, 400);
            assert_eq!(rep.body.message.unwrap(), "Problem not found.");
        },
        SubmitAction::Insert(_) => panic!("missing problem must not insert"),
    }

    let r = submit_decision(Ok(session_for("alice", 9)), Some(4), "rust".into(), "fn main".into());
    match r {
        SubmitAction::Insert(ns) => {
            assert_eq!(ns.user_id, 9);
            assert_eq!(ns.problem_id, 4);
            assert_eq!(ns.language, "rust");
            assert_eq!(ns.source_code, "fn main");
        },
        SubmitAction::Reject(_) => panic!("a complete submission must insert"),
    }
}

#[test]
fn delete_problem_is_gated_then_checked() {
    match delete_problem_decision(Err(ResolveError::Unauthorized), true) {
        DeleteProblemAction::Answer(rep) => assert_eq!(rep.status, 401),
        DeleteProblemAction::Delete => panic!("unauthorized must not delete"),
    }
    match delete_problem_decision(Err(ResolveError::Forbidden), true) {
        DeleteProblemAction::Answer(rep) => assert_eq!(rep.status, 403),
        DeleteProblemAction::Delete => panic!("forbidden must not delete"),
    }
    match delete_problem_decision(Ok(session_for("root", 1)), false) {
        DeleteProblemAction::Answer(rep) => {
            assert_eq!(rep.status, 404);
            assert_eq!(rep.body.message.unwrap(), "Not found.");
        },
        DeleteProblemAction::Delete => panic!("an unknown problem must not delete"),
    }
    assert!(matches!(
        delete_problem_decision(Ok(session_for("root", 1)), true),
        DeleteProblemAction::Delete
    ));

    let ok = delete_problem_reply(true, "");
    assert_eq!(ok.status, 200);
    assert!(ok.body.success);
    let failed = delete_problem_reply(false, "Failed to delete problem p1: gone");
    assert_eq!(failed.status, 500);
    assert_eq!(failed.body.message.unwrap(), "Failed to delete problem p1: gone");
}

#[test]
fn create_problem_is_gated_by_the_session() {
    match create_problem_decision(Err(ResolveError::Unauthorized)) {
        CreateProblemAction::Answer(rep) => assert_eq!(rep.status, 401),
        CreateProblemAction::Insert => panic!("unauthorized must not insert"),
    }
    match create_problem_decision(Err(ResolveError::Forbidden)) {
        CreateProblemAction::Answer(rep) => assert_eq!(rep.status, 403),
        CreateProblemAction::Insert => panic!("forbidden must not insert"),
    }
    assert!(matches!(create_problem_decision(Ok(session_for("root", 1))), CreateProblemAction::Insert));
}

#[test]
fn contest_detail_depends_on_the_viewer() {
    assert!(matches!(contest_details(None, true), ContestDetails::NotFound));

    let c = Contest { id: 2, public: false, slug: "secret".into(), title: "Secret".into() };
    match contest_details(Some(c), true) {
        ContestDetails::Full(f) => {
            assert_eq!(f.id, 2);
            assert!(!f.public);
        },
        _ => panic!("an administrator sees the full row"),
    }

    let c = Contest { id: 2, public: false, slug: "secret".into(), title: "Secret".into() };
    match contest_details(Some(c), false) {
        ContestDetails::Public(p) => {
            assert_eq!(p.id, 2);
            assert_eq!(p.slug, "secret");
        },
        _ => panic!("anyone else sees the public projection"),
    }
}

#[test]
fn contest_listing_depends_on_the_viewer() {
    match contests_listing(contests(), true) {
        ContestsListing::Full(f) => assert_eq!(f.len(), 2),
        _ => panic!("an administrator sees every row"),
    }
    match contests_listing(contests(), false) {
        ContestsListing::Public(p) => {
            assert_eq!(p.len(), 1);
            assert_eq!(p[0].slug, "open");
        },
        _ => panic!("anyone else sees only the public rows"),
    }
}
