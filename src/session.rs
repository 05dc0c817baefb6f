use vstd::prelude::*;
use crate::error::Error;
use crate::request::{BuiltPair, DiffRequest};

verus! {

/// Where the view cursor of a session stands: at the top-level entries, or
/// at the children of one path.
#[derive(Debug, Clone, PartialEq, Eq)]
pub enum Cursor {
    Roots,
    Path(String),
}

/// A diff computed from two snapshot files, ready to become the session's.
pub struct BuiltDiff<D> {
    pub diff: D,
    pub older_file: String,
    pub newer_file: String,
}

/// The diff session: at most one computed diff, the two files it was built
/// from, and where its view cursor stands.
pub struct DiffState<D> {
    diff: Option<D>,
    older_file: Option<String>,
    newer_file: Option<String>,
    cursor: Cursor,
}

/// The text of an optional string.
pub open spec fn opt_text(s: Option<String>) -> Option<Seq<char>> {
    match s {
        Some(t) => Some(t@),
        None => None,
    }
}

fn clone_opt(s: &Option<String>) -> (r: Option<String>)
    ensures
        opt_text(r) == opt_text(*s),
{
    match s {
        Some(t) => Some(t.clone()),
        None => None,
    }
}

impl<D> DiffState<D> {
    /// The diff the session holds, if any.
    pub closed spec fn current(&self) -> Option<D> {
        self.diff
    }

    /// The older file of the stored diff, if any.
    pub closed spec fn older_file_text(&self) -> Option<Seq<char>> {
        opt_text(self.older_file)
    }

    /// The newer file of the stored diff, if any.
    pub closed spec fn newer_file_text(&self) -> Option<Seq<char>> {
        opt_text(self.newer_file)
    }

    /// Where the view cursor stands.
    pub closed spec fn cursor_at(&self) -> Cursor {
        self.cursor
    }

    /// A session is ready once it holds a diff.
    pub open spec fn ready(&self) -> bool {
        self.current() is Some
    }

    /// The session that a built diff leaves behind: it holds that diff and its
    /// files, with the cursor at the roots, whatever was there before.
    pub closed spec fn committed(self, b: BuiltDiff<D>) -> Self {
        DiffState {
            diff: Some(b.diff),
            older_file: Some(b.older_file),
            newer_file: Some(b.newer_file),
            cursor: Cursor::Roots,
        }
    }

    /// The session after a diff request whose outcome is `outcome`: a built
    /// diff replaces the session wholesale, a failure leaves it untouched.
    pub open spec fn after_request(self, outcome: Result<BuiltDiff<D>, Error>) -> Self {
        match outcome {
            Ok(b) => self.committed(b),
            Err(_) => self,
        }
    }

    /// The empty session, as at process start.
    pub fn new() -> (r: Self)
        ensures
            r.current() is None,
            r.older_file_text() is None,
            r.newer_file_text() is None,
            r.cursor_at() == Cursor::Roots,
    {
        DiffState { diff: None, older_file: None, newer_file: None, cursor: Cursor::Roots }
    }

    /// Where the view cursor stands.
    pub fn cursor(&self) -> (r: &Cursor)
        ensures
            *r == self.cursor_at(),
    {
        &self.cursor
    }

    /// Whether the session holds a diff.
    pub fn is_ready(&self) -> (r: bool)
        ensures
            r == self.ready(),
    {
        self.diff.is_some()
    }
}

/// Stores the outcome of a diff request in the session: a built diff
/// replaces whatever the session held, and a failure is handed back with
/// the session left as it was.
pub fn diff<D>(state: &mut DiffState<D>, outcome: Result<BuiltDiff<D>, Error>) -> (r: Result<
    (),
    Error,
>)
    ensures
        *final(state) == old(state).after_request(outcome),
        match outcome {
            Ok(_) => r is Ok,
            Err(e) => r == Err::<(), Error>(e),
        },
{
    match outcome {
        Ok(b) => {
            state.diff = Some(b.diff);
            state.older_file = Some(b.older_file);
            state.newer_file = Some(b.newer_file);
            state.cursor = Cursor::Roots;
            Ok(())
        },
        Err(e) => Err(e),
    }
}

/// The files of the stored diff, newer first.
pub fn get_diffing_files<D>(state: &DiffState<D>) -> (r: (Option<String>, Option<String>))
    ensures
        opt_text(r.0) == state.newer_file_text(),
        opt_text(r.1) == state.older_file_text(),
{
    (clone_opt(&state.newer_file), clone_opt(&state.older_file))
}

/// Moves the view cursor to the top-level entries and hands out the stored
/// diff to be read there; fails with `NoDiffValue` on an empty session,
/// which it leaves as it was.
pub fn get_diff_root_nodes<D>(state: &mut DiffState<D>) -> (r: Result<&mut D, Error>)
    ensures
        (r is Ok) <==> old(state).ready(),
        match r {
            Ok(d) => {
                &&& *d == old(state).current().unwrap()
                &&& final(state).current() == Some(*final(d))
                &&& final(state).cursor_at() == Cursor::Roots
                &&& final(state).older_file_text() == old(state).older_file_text()
                &&& final(state).newer_file_text() == old(state).newer_file_text()
            },
            Err(e) => e is NoDiffValue && *final(state) == *old(state),
        },
{
    if state.diff.is_none() {
        return Err(Error::NoDiffValue);
    }
    state.cursor = Cursor::Roots;
    match state.diff.as_mut() {
        Some(d) => Ok(d),
        None => Err(Error::NoDiffValue),
    }
}

/// Moves the view cursor to the children of `path` and hands out the stored
/// diff to be read there; fails with `NoDiffValue` on an empty session,
/// which it leaves as it was.
pub fn get_diff_nodes<D>(state: &mut DiffState<D>, path: String) -> (r: Result<&mut D, Error>)
    ensures
        (r is Ok) <==> old(state).ready(),
        match r {
            Ok(d) => {
                &&& *d == old(state).current().unwrap()
                &&& final(state).current() == Some(*final(d))
                &&& final(state).cursor_at() == Cursor::Path(path)
                &&& final(state).older_file_text() == old(state).older_file_text()
                &&& final(state).newer_file_text() == old(state).newer_file_text()
            },
            Err(e) => e is NoDiffValue && *final(state) == *old(state),
        },
{
    if state.diff.is_none() {
        return Err(Error::NoDiffValue);
    }
    state.cursor = Cursor::Path(path);
    match state.diff.as_mut() {
        Some(d) => Ok(d),
        None => Err(Error::NoDiffValue),
    }
}

/// The session after a series of diff requests with the given outcomes.
pub open spec fn after_requests<D>(st: DiffState<D>, outcomes: Seq<Result<BuiltDiff<D>, Error>>) -> DiffState<D>
    decreases outcomes.len(),
{
    if outcomes.len() == 0 {
        st
    } else {
        after_requests(st, outcomes.drop_last()).after_request(outcomes.last())
    }
}

/// After a diff request succeeds the session is ready and holds the new
/// diff, so a root query on it succeeds.
pub proof fn lemma_ready_after_success<D>(st: DiffState<D>, b: BuiltDiff<D>)
    ensures
        st.after_request(Ok(b)).ready(),
        st.after_request(Ok(b)).current() == Some(b.diff),
        st.after_request(Ok(b)).cursor_at() == Cursor::Roots,
{
}

/// A session that holds no diff keeps holding none through any series of
/// failed diff requests, so queries on it keep failing with `NoDiffValue`.
pub proof fn lemma_empty_until_success<D>(st: DiffState<D>, outcomes: Seq<Result<BuiltDiff<D>, Error>>)
    requires
        !st.ready(),
        forall|k: int| 0 <= k < outcomes.len() ==> (#[trigger] outcomes[k]) is Err,
    ensures
        !after_requests(st, outcomes).ready(),
    decreases outcomes.len(),
{
    if outcomes.len() > 0 {
        let rest = outcomes.drop_last();
        assert forall|k: int| 0 <= k < rest.len() implies (#[trigger] rest[k]) is Err by {
            assert(rest[k] == outcomes[k]);
        }
        lemma_empty_until_success(st, rest);
    }
}

/// A request that fails on the older build ends at once, without building
/// the newer file, and leaves the session exactly as it was.
pub proof fn lemma_older_failure_keeps_session<D, S>(
    st: DiffState<D>,
    older_file: String,
    newer_file: String,
    m: String,
)
    ensures
        ({
            let req = (DiffRequest::<S>::BuildingOlder { older_file, newer_file }).advanced(Err(m));
            &&& req.pending() is None
            &&& req.outcome() == Err::<BuiltPair<S>, Error>(Error::Diff(m))
            &&& st.after_request(Err(Error::Diff(m))) == st
        }),
{
}

/// The session after a successful request depends on the built diff alone,
/// not on what the session held before: repeating a request whose builds
/// give the same diff gives the same session.
pub proof fn lemma_success_replaces_session<D>(st1: DiffState<D>, st2: DiffState<D>, b: BuiltDiff<D>)
    ensures
        st1.after_request(Ok(b)) == st2.after_request(Ok(b)),
{
}

} // verus!
