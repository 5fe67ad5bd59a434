use vstd::prelude::*;

verus! {

/// Where queries run: inside one open transaction, or each on its own
/// connection from the shared pool.
#[derive(Clone, Copy, PartialEq, Eq, Structural, Debug)]
pub enum ExecutorKind {
    Transaction,
    Pool,
}

/// How a unit of work is ended.
#[derive(Clone, Copy, PartialEq, Eq, Structural, Debug)]
pub enum Completion {
    Commit,
    Rollback,
}

/// What ending a unit of work does.
#[derive(Clone, Copy, PartialEq, Eq, Structural, Debug)]
pub enum CompletionStep {
    /// Commit the transaction.
    Commit,
    /// Roll the transaction back.
    Rollback,
    /// There is no transaction: warn that nothing was done, and succeed.
    WarnNoTransaction,
}

/// Commit and rollback act on a transaction only; on the pool they do
/// nothing but are reported, not failed.
pub fn completion_step(kind: ExecutorKind, c: Completion) -> (r: CompletionStep)
    ensures
        kind == ExecutorKind::Pool ==> r == CompletionStep::WarnNoTransaction,
        kind == ExecutorKind::Transaction && c == Completion::Commit ==> r == CompletionStep::Commit,
        kind == ExecutorKind::Transaction && c == Completion::Rollback ==> r
            == CompletionStep::Rollback,
{
    match kind {
        ExecutorKind::Transaction => match c {
            Completion::Commit => CompletionStep::Commit,
            Completion::Rollback => CompletionStep::Rollback,
        },
        ExecutorKind::Pool => CompletionStep::WarnNoTransaction,
    }
}

} // verus!
