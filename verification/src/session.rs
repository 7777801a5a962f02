//! Per-connection session state and the prepared-statement lifecycle.

use vstd::prelude::*;

verus! {

/// The per-connection settings attached to outgoing requests.
pub struct Session {
    /// The default-database hint attached to every subsequent request, once
    /// set. Optional: statements may also name the database inline.
    pub database: Option<String>,
}

impl Session {
    /// A fresh session with no default database.
    pub fn new() -> (r: Session)
        ensures
            r.database is None,
    {
        Session { database: None }
    }

    /// Sets the per-connection default-database hint attached to every
    /// subsequent request.
    pub fn use_database(&mut self, database: &str)
        ensures
            final(self).database matches Some(d) && d@ == database@,
    {
        self.database = Some(database.to_owned());
    }
}

/// Where a prepared statement stands in its lifecycle:
/// bind, execute, repeat, then release.
pub enum StatementPhase {
    /// Registered server-side; no parameters bound yet. A statement owns no
    /// data until parameters are bound.
    Idle,
    /// A parameter batch is bound; the statement may execute.
    Bound,
    /// Released; no further use is defined.
    Closed,
}

/// The client-side lifecycle record of a server-side prepared statement.
/// A statement is never executed concurrently with itself: a single
/// execution is in flight at a time, serially, and each of these calls
/// blocks its caller until the server responds.
pub struct PreparedStatement {
    /// The lifecycle phase.
    pub phase: StatementPhase,
}

impl PreparedStatement {
    /// A freshly registered statement: nothing bound, not released.
    pub fn new() -> (r: PreparedStatement)
        ensures
            r.phase is Idle,
    {
        PreparedStatement { phase: StatementPhase::Idle }
    }

    /// Records that a parameter batch was bound. Binding is allowed any time
    /// before release, and may be repeated; each binding supplies the
    /// parameters for the next execution.
    pub fn bind(&mut self)
        requires
            !(old(self).phase is Closed),
        ensures
            final(self).phase is Bound,
    {
        self.phase = StatementPhase::Bound;
    }

    /// Records one execution. Executing needs a bound parameter batch and
    /// leaves the statement bound, so bind and execute may repeat.
    pub fn record_execution(&mut self)
        requires
            old(self).phase is Bound,
        ensures
            final(self).phase is Bound,
    {
        self.phase = StatementPhase::Bound;
    }

    /// Whether the statement may execute now: a parameter batch is bound and
    /// the statement has not been released.
    pub fn may_execute(&self) -> (r: bool)
        ensures
            r == (self.phase is Bound),
    {
        match self.phase {
            StatementPhase::Bound => true,
            _ => false,
        }
    }

    /// Whether the statement was released.
    pub fn is_closed(&self) -> (r: bool)
        ensures
            r == (self.phase is Closed),
    {
        match self.phase {
            StatementPhase::Closed => true,
            _ => false,
        }
    }

    /// Records the release of the server-side statement, freeing its
    /// resources there. A statement is released exactly once, after its last
    /// use: release of a fresh or used statement is always allowed, and a
    /// second release is undefined by the protocol, so it is excluded here.
    pub fn close(&mut self)
        requires
            !(old(self).phase is Closed),
        ensures
            final(self).phase is Closed,
    {
        self.phase = StatementPhase::Closed;
    }
}

} // verus!
