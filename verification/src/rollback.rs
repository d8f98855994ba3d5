//! Which rollback the command line performs for the options it was given.
use vstd::prelude::*;

use crate::types::opt_view;

verus! {

/// The options of a rollback request.
pub struct RollbackRequest {
    pub id: Option<String>,
    pub session: Option<String>,
    pub file: Option<String>,
    pub steps: Option<usize>,
}

/// What a rollback request asks for.
pub enum RollbackPlan {
    /// List the snapshots of a session.
    ListSnapshots { session: String },
    /// Nothing to list: no session was given and none is known.
    NoSessionToList,
    /// A rollback was asked for without naming its session.
    MissingSession,
    /// Undo the last `steps` changes of a session.
    UndoSteps { session: String, steps: usize },
    /// Restore one snapshot.
    RestoreSnapshot { session: String, id: String },
    /// Restore one file.
    RestoreFile { session: String, file: String },
    /// Restore every file that a session changed.
    RestoreSession { session: String },
}

/// Whether a request names no snapshot, file or number of steps.
pub open spec fn names_no_target(req: RollbackRequest) -> bool {
    req.id is None && req.file is None && req.steps is None
}

/// Whether a request only lists snapshots: it gives no option at all.
pub open spec fn is_listing(req: RollbackRequest) -> bool {
    names_no_target(req) && req.session is None
}

/// The session a listing shows: the last known one, else none (the empty
/// text).
pub open spec fn latest_session(known: Seq<String>) -> Seq<char> {
    if known.len() > 0 {
        known.last()@
    } else {
        Seq::empty()
    }
}

/// The latest known session is the last one the trace log lists; with none
/// listed there is none.
pub proof fn lemma_latest_session_is_last(known: Seq<String>)
    ensures
        known.len() > 0 ==> latest_session(known) == known[known.len() - 1]@,
        known.len() == 0 ==> latest_session(known).len() == 0,
{
}

/// The session a rollback works on: the one named, else none (the empty text).
pub open spec fn named_session(req: RollbackRequest) -> Seq<char> {
    match req.session {
        Some(s) => s@,
        None => Seq::empty(),
    }
}

/// Whether planning a request reads the list of known sessions.
pub fn needs_known_sessions(req: &RollbackRequest) -> (res: bool)
    ensures
        res == is_listing(*req),
{
    req.id.is_none() && req.file.is_none() && req.steps.is_none() && req.session.is_none()
}

/// Plans a rollback request, given the sessions known to the trace log in
/// the order it lists them (read only when `needs_known_sessions` holds).
///
/// A request with no option at all lists the snapshots of the last known
/// session (with none known there is nothing to list). Any other request
/// needs a named session; a number of steps then comes first, a snapshot id
/// second, a file third, and a request naming only its session restores
/// everything that session changed.
pub fn plan_rollback(req: &RollbackRequest, known_sessions: &Vec<String>) -> (plan: RollbackPlan)
    ensures
        is_listing(*req) ==> {
            let s = latest_session(known_sessions@);
            if s.len() == 0 {
                plan is NoSessionToList
            } else {
                plan matches RollbackPlan::ListSnapshots { session } && session@ == s
            }
        },
        !is_listing(*req) ==> {
            let s = named_session(*req);
            if s.len() == 0 {
                plan is MissingSession
            } else if req.steps is Some {
                plan matches RollbackPlan::UndoSteps { session, steps } && session@ == s
                    && req.steps == Some(steps)
            } else if req.id is Some {
                plan matches RollbackPlan::RestoreSnapshot { session, id } && session@ == s
                    && opt_view(req.id) == Some(id@)
            } else if req.file is Some {
                plan matches RollbackPlan::RestoreFile { session, file } && session@ == s
                    && opt_view(req.file) == Some(file@)
            } else {
                plan matches RollbackPlan::RestoreSession { session } && session@ == s
            }
        },
        is_listing(*req) && known_sessions@.len() > 0 && known_sessions@[known_sessions@.len() - 1]@.len() > 0
            ==> (plan matches RollbackPlan::ListSnapshots { session }
                && session@ == known_sessions@[known_sessions@.len() - 1]@),
        is_listing(*req) && (known_sessions@.len() == 0 || known_sessions@[known_sessions@.len() - 1]@.len() == 0)
            ==> plan is NoSessionToList,
        req.id is None && req.file is None && req.steps is None && req.session is Some
            && req.session->0@.len() > 0 ==> (plan matches RollbackPlan::RestoreSession { session }
                && session@ == req.session->0@),
        req.session is None && !is_listing(*req) ==> plan is MissingSession,
        // A rollback that changes files always names its session.
        plan matches RollbackPlan::UndoSteps { session, .. } ==> session@.len() > 0,
        plan matches RollbackPlan::RestoreSnapshot { session, .. } ==> session@.len() > 0,
        plan matches RollbackPlan::RestoreFile { session, .. } ==> session@.len() > 0,
        plan matches RollbackPlan::RestoreSession { session } ==> session@.len() > 0,
{
    if req.id.is_none() && req.file.is_none() && req.steps.is_none() && req.session.is_none() {
        let n = known_sessions.len();
        let session = if n > 0 {
            known_sessions[n - 1].clone()
        } else {
            String::new()
        };
        if session.as_str().is_empty() {
            RollbackPlan::NoSessionToList
        } else {
            RollbackPlan::ListSnapshots { session }
        }
    } else {
        let session = match &req.session {
            Some(s) => s.clone(),
            None => String::new(),
        };
        if session.as_str().is_empty() {
            RollbackPlan::MissingSession
        } else if let Some(steps) = req.steps {
            RollbackPlan::UndoSteps { session, steps }
        } else if let Some(id) = &req.id {
            RollbackPlan::RestoreSnapshot { session, id: id.clone() }
        } else if let Some(file) = &req.file {
            RollbackPlan::RestoreFile { session, file: file.clone() }
        } else {
            RollbackPlan::RestoreSession { session }
        }
    }
}

} // verus!
