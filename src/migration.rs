//! The steps of a migration: both DDL statements run in one transaction,
//! which is committed only after both have succeeded.

use vstd::prelude::*;
use crate::statement::{Statement, StatementView};

verus! {

/// Where a migration stands: the step last asked for, or how it ended.
#[derive(Clone, Copy, PartialEq, Eq, Structural, Debug)]
pub enum MigrationState {
    Beginning,
    CreatingSchema,
    CreatingTable,
    Committing,
    Committed,
    Failed,
}

/// What the caller is asked to do next.
pub enum MigrationAction {
    /// Open a transaction.
    Begin,
    /// Run this statement inside the transaction.
    Execute(Statement),
    /// Commit the transaction.
    Commit,
    /// Drop the transaction uncommitted and report the failure.
    Abort,
    /// The migration is complete.
    Finish,
}

/// The mathematical value of a `MigrationAction`.
pub ghost enum MigrationActionView {
    Begin,
    Execute(StatementView),
    Commit,
    Abort,
    Finish,
}

impl View for MigrationAction {
    type V = MigrationActionView;

    open spec fn view(&self) -> MigrationActionView {
        match self {
            MigrationAction::Begin => MigrationActionView::Begin,
            MigrationAction::Execute(s) => MigrationActionView::Execute(s@),
            MigrationAction::Commit => MigrationActionView::Commit,
            MigrationAction::Abort => MigrationActionView::Abort,
            MigrationAction::Finish => MigrationActionView::Finish,
        }
    }
}

impl MigrationState {
    /// The migration has ended, one way or the other.
    pub open spec fn is_terminal(self) -> bool {
        self is Committed || self is Failed
    }
}

/// The state and action after the step last asked for, in `state`, has
/// succeeded (`ok`) or failed.
pub open spec fn migration_next(state: MigrationState, ok: bool) -> (MigrationState, MigrationActionView) {
    if !ok {
        (MigrationState::Failed, MigrationActionView::Abort)
    } else {
        match state {
            MigrationState::Beginning => (
                MigrationState::CreatingSchema,
                MigrationActionView::Execute(StatementView::CreateSchema),
            ),
            MigrationState::CreatingSchema => (
                MigrationState::CreatingTable,
                MigrationActionView::Execute(StatementView::CreateTable),
            ),
            MigrationState::CreatingTable => (MigrationState::Committing, MigrationActionView::Commit),
            _ => (MigrationState::Committed, MigrationActionView::Finish),
        }
    }
}

/// The first step of a migration: open a transaction.
pub fn start_migration() -> (r: (MigrationState, MigrationAction))
    ensures
        r.0 == MigrationState::Beginning,
        r.1@ == MigrationActionView::Begin,
{
    (MigrationState::Beginning, MigrationAction::Begin)
}

/// The next step of a migration that is under way.
pub fn next_migration_step(state: MigrationState, ok: bool) -> (r: (MigrationState, MigrationAction))
    requires
        !state.is_terminal(),
    ensures
        (r.0, r.1@) == migration_next(state, ok),
{
    if !ok {
        return (MigrationState::Failed, MigrationAction::Abort);
    }
    match state {
        MigrationState::Beginning => (
            MigrationState::CreatingSchema,
            MigrationAction::Execute(Statement::CreateSchema),
        ),
        MigrationState::CreatingSchema => (
            MigrationState::CreatingTable,
            MigrationAction::Execute(Statement::CreateTable),
        ),
        MigrationState::CreatingTable => (MigrationState::Committing, MigrationAction::Commit),
        _ => (MigrationState::Committed, MigrationAction::Finish),
    }
}

/// The transaction is committed only right after the table statement has
/// succeeded, which itself is only run after the schema statement has
/// succeeded; any failure ends the migration uncommitted.
pub proof fn lemma_commit_only_after_both(state: MigrationState, ok: bool)
    requires
        !state.is_terminal(),
    ensures
        migration_next(state, ok).1 is Commit ==> state == MigrationState::CreatingTable && ok,
        migration_next(state, ok).1 == MigrationActionView::Execute(StatementView::CreateTable)
            ==> state == MigrationState::CreatingSchema && ok,
        !ok ==> migration_next(state, ok) == (MigrationState::Failed, MigrationActionView::Abort),
{
}

} // verus!
