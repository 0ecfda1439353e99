//! The decisions of the data endpoints that sit behind the session gate.
//! The storage work — loading, inserting, deleting rows — belongs to the
//! surrounding process; what stands here decides, from the session outcome
//! and from what the store reported, what each endpoint answers or does
//! next.

use vstd::prelude::*;

use crate::models::{strip_contest, visible_contests, Contest, PublicContest,
    select_public_contests};
use crate::replies::{error_reply, json_ok, not_found, resolve_failure_reply, Reply};
use crate::session::{ResolveError, Session};

verus! {

/// A submission row as it is first persisted.
pub struct NewSubmission {
    pub user_id: i32,
    pub problem_id: i32,
    pub language: String,
    pub source_code: String,
}

/// What the submit endpoint does once the session and the problem lookup
/// are in.
pub enum SubmitAction {
    /// Answer without persisting anything.
    Reject(Reply<()>),
    /// Persist this row and answer with what the store returns.
    Insert(NewSubmission),
}

/// Decides a submission: a session that did not resolve keeps its own
/// status — 401 for an identity failure, 403 for a missing capability — an
/// unknown problem is a client error, and otherwise the row to insert is
/// built from the resolved user and the problem that was found.
pub fn submit_decision(
    session: Result<Session, ResolveError>,
    problem_id: Option<i32>,
    language: String,
    source_code: String,
) -> (r: SubmitAction)
    ensures
        session matches Err(e) ==> (r matches SubmitAction::Reject(rep) && rep.status == (
        if e == ResolveError::Forbidden {
            403u16
        } else {
            401u16
        }) && !rep.body.success && (rep.body.message matches Some(m) && m@ == (
        if e == ResolveError::Forbidden {
            "Not enough permission."@
        } else {
            "Unauthorized."@
        }))),
        session is Ok && problem_id is None ==> (r matches SubmitAction::Reject(rep) && rep.status
            == 400 && !rep.body.success && (rep.body.message matches Some(m) && m@
            == "Problem not found."@)),
        session matches Ok(s) ==> (problem_id matches Some(pid) ==> (r matches SubmitAction::Insert(
            ns,
        ) && ns.user_id == s.user.id && ns.problem_id == pid && ns.language@ == language@
            && ns.source_code@ == source_code@)),
{
    let session = match session {
        Ok(s) => s,
        Err(e) => {
            return SubmitAction::Reject(resolve_failure_reply(e));
        },
    };
    match problem_id {
        None => SubmitAction::Reject(error_reply(400, "Problem not found.")),
        Some(problem_id) => SubmitAction::Insert(
            NewSubmission { user_id: session.user.id, problem_id, language, source_code },
        ),
    }
}

/// What the create-problem endpoint does once the session is in.
pub enum CreateProblemAction {
    /// Answer without persisting anything.
    Answer(Reply<()>),
    /// Persist the submitted problem and answer with what the store returns.
    Insert,
}

/// Decides a problem creation: only the administrator gate stands before the
/// insert, and a session that did not resolve keeps its own status.
pub fn create_problem_decision(session: Result<Session, ResolveError>) -> (r: CreateProblemAction)
    ensures
        session matches Err(e) ==> (r matches CreateProblemAction::Answer(rep) && rep.status == (
        if e == ResolveError::Forbidden {
            403u16
        } else {
            401u16
        }) && !rep.body.success),
        session is Ok ==> r is Insert,
{
    match session {
        Err(e) => CreateProblemAction::Answer(resolve_failure_reply(e)),
        Ok(_) => CreateProblemAction::Insert,
    }
}

/// What the delete-problem endpoint does once the session and the problem
/// lookup are in.
pub enum DeleteProblemAction {
    /// Answer without touching the store.
    Answer(Reply<()>),
    /// Delete the row and answer with `delete_problem_reply`.
    Delete,
}

/// Decides a deletion: a failed session resolution keeps its own status
/// (401 or 403), an unknown problem is not found, and only then is the row
/// deleted.
pub fn delete_problem_decision(
    session: Result<Session, ResolveError>,
    problem_found: bool,
) -> (r: DeleteProblemAction)
    ensures
        session matches Err(e) ==> (r matches DeleteProblemAction::Answer(rep) && rep.status == (
            if e == ResolveError::Forbidden {
                403u16
            } else {
                401u16
            }) && !rep.body.success),
        session is Ok && !problem_found ==> (r matches DeleteProblemAction::Answer(rep)
            && rep.status == 404 && !rep.body.success && (rep.body.message matches Some(m) && m@
            == "Not found."@)),
        session is Ok && problem_found ==> r is Delete,
{
    match session {
        Err(e) => DeleteProblemAction::Answer(resolve_failure_reply(e)),
        Ok(_) => {
            if !problem_found {
                DeleteProblemAction::Answer(not_found())
            } else {
                DeleteProblemAction::Delete
            }
        },
    }
}

/// The answer once the store reported on the deletion: plain success, or a
/// bare server error carrying the detail the caller composed.
pub fn delete_problem_reply(deleted: bool, detail: &str) -> (r: Reply<()>)
    ensures
        deleted ==> r.status == 200 && r.body.success && r.body.message is None,
        !deleted ==> r.status == 500 && !r.body.success && (r.body.message matches Some(m) && m@
            == detail@),
{
    if deleted {
        Reply { status: 200, body: json_ok(None) }
    } else {
        error_reply(500, detail)
    }
}

/// What the contest-detail endpoint shows: nothing, the full row for an
/// administrator, or the public projection for anyone else.
pub enum ContestDetails {
    NotFound,
    Full(Contest),
    Public(PublicContest),
}

/// Decides the contest-detail answer from the loaded row and whether the
/// viewer is an administrator.
pub fn contest_details(contest: Option<Contest>, admin: bool) -> (r: ContestDetails)
    ensures
        contest is None ==> r is NotFound,
        contest matches Some(c) ==> (admin ==> (r matches ContestDetails::Full(f) && f@ == c@)),
        contest matches Some(c) ==> (!admin ==> (r matches ContestDetails::Public(p) && p@
            == strip_contest(c@))),
{
    match contest {
        None => ContestDetails::NotFound,
        Some(c) => {
            if admin {
                ContestDetails::Full(c)
            } else {
                ContestDetails::Public(PublicContest::from(c))
            }
        },
    }
}

/// What the contest-listing endpoint shows: every row for an administrator,
/// the public projections of the public rows for anyone else.
pub enum ContestsListing {
    Full(Vec<Contest>),
    Public(Vec<PublicContest>),
}

/// Decides the contest listing from the loaded rows and whether the viewer
/// is an administrator.
pub fn contests_listing(contests: Vec<Contest>, admin: bool) -> (r: ContestsListing)
    ensures
        admin ==> (r matches ContestsListing::Full(f) && f.deep_view() == contests.deep_view()),
        !admin ==> (r matches ContestsListing::Public(p) && p.deep_view() == visible_contests(
            contests.deep_view(),
        )),
{
    if admin {
        ContestsListing::Full(contests)
    } else {
        ContestsListing::Public(select_public_contests(contests))
    }
}

} // verus!
