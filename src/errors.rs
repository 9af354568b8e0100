use vstd::prelude::*;

verus! {

/// Errors reported by the staking ledger.
#[derive(Clone, Copy, Debug, PartialEq, Eq, Structural)]
pub enum QstakingErrors {
    /// A manager identity was rejected.
    ManagerOffCurve,
    /// Overflow, underflow, a clock regression or a division by zero.
    InvalidComputation,
    /// The supplied metadata account is not valid.
    InvalidMetadataAccount,
    /// The supplied edition account is not valid.
    InvalidEditionAccount,
    /// The supplied allow-list proof is not valid.
    InvalidWhitelistProof,
    /// The supplied allow-list type is not known.
    InvalidWhitelistType,
    /// A loot distribution duration must be greater than zero.
    InvalidLootDuration,
    /// The requested pool does not accept new stakes.
    StakingPoolLocked,
    /// The caller does not hold the collectible.
    NotHolder,
    /// The collectible is already staked.
    AlreadyStaked,
    /// The collectible is not staked where the operation expects it.
    NotStaked,
    /// The caller is not the recorded manager or administrator.
    Unauthorized,
}

/// The three kinds of failure an operation can end with.
#[derive(Clone, Copy, Debug, PartialEq, Eq, Structural)]
pub enum ErrorKind {
    /// Overflow, underflow, clock regression or division by zero.
    ArithmeticFault,
    /// The operation does not apply to the current state or inputs.
    PreconditionViolation,
    /// The caller lacks the authority the operation needs.
    AuthorizationFault,
}

impl QstakingErrors {
    pub open spec fn spec_kind(self) -> ErrorKind {
        match self {
            QstakingErrors::InvalidComputation => ErrorKind::ArithmeticFault,
            QstakingErrors::Unauthorized => ErrorKind::AuthorizationFault,
            _ => ErrorKind::PreconditionViolation,
        }
    }

    /// Classifies the error into one of the three failure kinds.
    pub fn kind(&self) -> (k: ErrorKind)
        ensures
            k == self.spec_kind(),
    {
        match self {
            QstakingErrors::InvalidComputation => ErrorKind::ArithmeticFault,
            QstakingErrors::Unauthorized => ErrorKind::AuthorizationFault,
            _ => ErrorKind::PreconditionViolation,
        }
    }
}

/// How a state-mutating call that returns `r` relates its state `before` and
/// `after` to the outcome `outcome` its specification prescribes: on success
/// the new state is the prescribed one, and on failure the state is untouched
/// and the prescribed error is reported.
pub open spec fn settles<T>(
    outcome: Result<T, QstakingErrors>,
    before: T,
    after: T,
    r: Result<(), QstakingErrors>,
) -> bool {
    match outcome {
        Ok(s) => r == Ok::<(), QstakingErrors>(()) && after == s,
        Err(e) => r == Err::<(), QstakingErrors>(e) && after == before,
    }
}

/// As `settles`, for a call that also returns a value on success.
pub open spec fn settles_with<T, V>(
    outcome: Result<(T, V), QstakingErrors>,
    before: T,
    after: T,
    r: Result<V, QstakingErrors>,
) -> bool {
    match outcome {
        Ok((s, v)) => r == Ok::<V, QstakingErrors>(v) && after == s,
        Err(e) => r == Err::<V, QstakingErrors>(e) && after == before,
    }
}

} // verus!
