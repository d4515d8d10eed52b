use vstd::prelude::*;

verus! {

/// Transaction isolation level.
#[derive(Debug, Clone, Copy, PartialEq, Eq, Structural)]
pub enum IsolationLevel {
    /// Read uncommitted isolation level
    ReadUncommitted,
    /// Read committed isolation level
    ReadCommitted,
    /// Repeatable read isolation level
    RepeatableRead,
    /// Serializable isolation level
    Serializable,
}

/// Transaction propagation behavior.
#[derive(Debug, Clone, Copy, PartialEq, Eq, Structural)]
pub enum PropagationBehavior {
    /// Use the current transaction, or create one
    Required,
    /// Always create a new transaction
    RequiresNew,
    /// Use the current transaction if there is one, otherwise run without
    Supports,
    /// Use the current transaction; it is an error if there is none
    Mandatory,
    /// Run without a transaction
    NotSupported,
    /// It is an error if a transaction exists
    Never,
    /// A savepoint inside the current transaction, or a new transaction
    Nested,
}

/// Transaction attributes for declarative transaction management.
#[derive(Debug, Clone)]
pub struct TransactionAttributes {
    /// Transaction isolation level
    pub isolation_level: Option<IsolationLevel>,
    /// Transaction propagation behavior
    pub propagation: PropagationBehavior,
    /// Whether the transaction is read-only
    pub read_only: bool,
    /// Timeout in seconds
    pub timeout: Option<u64>,
    /// Transaction name for logging
    pub name: Option<String>,
}

impl Default for TransactionAttributes {
    fn default() -> (r: Self)
        ensures
            r.isolation_level is None,
            r.propagation == PropagationBehavior::Required,
            !r.read_only,
            r.timeout is None,
            r.name is None,
    {
        TransactionAttributes {
            isolation_level: None,
            propagation: PropagationBehavior::Required,
            read_only: false,
            timeout: None,
            name: None,
        }
    }
}

/// Why an operation is refused under its propagation behavior.
#[derive(Debug, Clone, Copy, PartialEq, Eq, Structural)]
pub enum TransactionRefusal {
    /// A transaction exists but the behavior is NEVER
    TransactionExists,
    /// No transaction exists but the behavior is MANDATORY
    NoTransaction,
}

/// How an operation runs, given whether a transaction is open.
#[derive(Debug, Clone, Copy, PartialEq, Eq, Structural)]
pub enum TransactionPlan {
    /// Run inside the transaction already open
    JoinExisting,
    /// Begin a new transaction (with the attributes' isolation level and
    /// read-only flag) and run inside it
    BeginNew,
    /// Set a savepoint in the open transaction and run after it
    Savepoint,
    /// Run without a transaction
    NonTransactional,
    /// Do not run the operation: fail with the refusal
    Refuse(TransactionRefusal),
}

/// The plan for an operation with propagation `p` when a transaction is
/// (`in_transaction`) or is not open.
pub open spec fn plan_spec(in_transaction: bool, p: PropagationBehavior) -> TransactionPlan {
    if in_transaction {
        match p {
            PropagationBehavior::Required => TransactionPlan::JoinExisting,
            PropagationBehavior::Supports => TransactionPlan::JoinExisting,
            PropagationBehavior::Mandatory => TransactionPlan::JoinExisting,
            PropagationBehavior::RequiresNew => TransactionPlan::BeginNew,
            PropagationBehavior::NotSupported => TransactionPlan::NonTransactional,
            PropagationBehavior::Never => TransactionPlan::Refuse(TransactionRefusal::TransactionExists),
            PropagationBehavior::Nested => TransactionPlan::Savepoint,
        }
    } else {
        match p {
            PropagationBehavior::Required => TransactionPlan::BeginNew,
            PropagationBehavior::RequiresNew => TransactionPlan::BeginNew,
            PropagationBehavior::Nested => TransactionPlan::BeginNew,
            PropagationBehavior::Supports => TransactionPlan::NonTransactional,
            PropagationBehavior::NotSupported => TransactionPlan::NonTransactional,
            PropagationBehavior::Never => TransactionPlan::NonTransactional,
            PropagationBehavior::Mandatory => TransactionPlan::Refuse(TransactionRefusal::NoTransaction),
        }
    }
}

/// How an operation with propagation `propagation` runs when a transaction
/// is or is not open: joined, in a new transaction, after a savepoint,
/// without a transaction, or refused.
pub fn transaction_plan(in_transaction: bool, propagation: PropagationBehavior) -> (r: TransactionPlan)
    ensures
        r == plan_spec(in_transaction, propagation),
{
    if in_transaction {
        match propagation {
            PropagationBehavior::Required | PropagationBehavior::Supports | PropagationBehavior::Mandatory => {
                TransactionPlan::JoinExisting
            },
            PropagationBehavior::RequiresNew => TransactionPlan::BeginNew,
            PropagationBehavior::NotSupported => TransactionPlan::NonTransactional,
            PropagationBehavior::Never => TransactionPlan::Refuse(TransactionRefusal::TransactionExists),
            PropagationBehavior::Nested => TransactionPlan::Savepoint,
        }
    } else {
        match propagation {
            PropagationBehavior::Required | PropagationBehavior::RequiresNew | PropagationBehavior::Nested => {
                TransactionPlan::BeginNew
            },
            PropagationBehavior::Supports | PropagationBehavior::NotSupported | PropagationBehavior::Never => {
                TransactionPlan::NonTransactional
            },
            PropagationBehavior::Mandatory => TransactionPlan::Refuse(TransactionRefusal::NoTransaction),
        }
    }
}

/// The text of a refusal.
pub open spec fn refusal_text(r: TransactionRefusal) -> Seq<char> {
    match r {
        TransactionRefusal::TransactionExists => "Transaction exists but propagation is set to NEVER"@,
        TransactionRefusal::NoTransaction => "No transaction exists but propagation is set to MANDATORY"@,
    }
}

impl TransactionRefusal {
    /// The message of the transaction error that the refusal fails with.
    pub fn message(&self) -> (r: String)
        ensures
            r@ == refusal_text(*self),
    {
        match self {
            TransactionRefusal::TransactionExists => "Transaction exists but propagation is set to NEVER".to_owned(),
            TransactionRefusal::NoTransaction => "No transaction exists but propagation is set to MANDATORY".to_owned(),
        }
    }
}

/// What closes a plan once its operation has run.
#[derive(Debug, Clone, Copy, PartialEq, Eq, Structural)]
pub enum TransactionFinish {
    /// Commit the new transaction
    Commit,
    /// Roll the new transaction back
    Rollback,
    /// Release the savepoint
    ReleaseSavepoint,
    /// Roll back to the savepoint
    RollbackToSavepoint,
    /// Nothing to close
    Nothing,
}

/// What closes `plan` after an operation that succeeded or failed: a new
/// transaction is committed or rolled back, a savepoint released or rolled
/// back to; joined, non-transactional and refused runs close nothing.
pub open spec fn finish_spec(plan: TransactionPlan, succeeded: bool) -> TransactionFinish {
    match plan {
        TransactionPlan::BeginNew => if succeeded { TransactionFinish::Commit } else { TransactionFinish::Rollback },
        TransactionPlan::Savepoint => if succeeded {
            TransactionFinish::ReleaseSavepoint
        } else {
            TransactionFinish::RollbackToSavepoint
        },
        _ => TransactionFinish::Nothing,
    }
}

/// What closes `plan` once its operation has succeeded or failed.
pub fn finish_step(plan: TransactionPlan, succeeded: bool) -> (r: TransactionFinish)
    ensures
        r == finish_spec(plan, succeeded),
{
    match plan {
        TransactionPlan::BeginNew => if succeeded { TransactionFinish::Commit } else { TransactionFinish::Rollback },
        TransactionPlan::Savepoint => if succeeded {
            TransactionFinish::ReleaseSavepoint
        } else {
            TransactionFinish::RollbackToSavepoint
        },
        _ => TransactionFinish::Nothing,
    }
}

/// Every plan but a refusal runs the operation.
pub proof fn law_only_refusals_skip(in_transaction: bool, p: PropagationBehavior)
    ensures
        (plan_spec(in_transaction, p) is Refuse) <==> (
            (in_transaction && p == PropagationBehavior::Never) || (!in_transaction && p == PropagationBehavior::Mandatory)),
{
}


/// With no transaction open, Required, RequiresNew and Nested each run the
/// operation inside a newly begun transaction, which is committed when the
/// operation succeeds and rolled back when it fails; they never run it
/// without a transaction. With a transaction open, an operation runs
/// without one only under NotSupported.
pub proof fn law_required_begins_transaction(p: PropagationBehavior, succeeded: bool)
    ensures
        (p == PropagationBehavior::Required || p == PropagationBehavior::RequiresNew || p == PropagationBehavior::Nested)
            ==> plan_spec(false, p) == TransactionPlan::BeginNew
                && finish_spec(plan_spec(false, p), succeeded)
                    == if succeeded { TransactionFinish::Commit } else { TransactionFinish::Rollback },
        (plan_spec(false, p) == TransactionPlan::NonTransactional) <==> (p == PropagationBehavior::Supports
            || p == PropagationBehavior::NotSupported || p == PropagationBehavior::Never),
        (plan_spec(true, p) == TransactionPlan::NonTransactional) <==> p == PropagationBehavior::NotSupported,
{
}

} // verus!
