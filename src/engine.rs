use vstd::prelude::*;

use crate::error::CustomError;
use crate::identity::AccountId;

verus! {

/// When the units of a lock become claimable.
#[derive(Debug, Clone, Copy, PartialEq, Eq, Structural)]
pub enum ReleasePolicy {
    /// Released in proportion to the time elapsed between `start` and `end`;
    /// nothing is claimable until strictly after `start`.
    Linear { start: u64, end: u64 },
    /// Released all at once when `deadline` is reached.
    Cliff { deadline: u64 },
}

/// Who may trigger a claim on a lock. The payout always goes to the
/// beneficiary; this only decides whose request is accepted.
#[derive(Debug, Clone, Copy, PartialEq, Eq, Structural)]
pub enum ClaimAuthority {
    /// Anyone may trigger the release to the fixed beneficiary.
    AnyCaller,
    /// Only the depositor of the lock may trigger it.
    DepositorOnly,
}

/// One deposit: what was locked, for whom, under which policy, and how much of
/// it has been paid out so far.
#[derive(Debug, Clone, Copy, PartialEq, Eq, Structural)]
pub struct Locking {
    pub asset: AccountId,
    pub beneficiary: AccountId,
    pub depositor: AccountId,
    pub locked_amount: u64,
    pub claimed_amount: u64,
    pub policy: ReleasePolicy,
    pub claim_authority: ClaimAuthority,
    /// The depositor's sequence number for this lock, where the deployment
    /// lets one depositor hold several locks.
    pub lock_index: Option<u64>,
}

impl ReleasePolicy {
    /// A linear window must end after it starts; a cliff is always valid.
    pub open spec fn is_valid(self) -> bool {
        match self {
            ReleasePolicy::Linear { start, end } => start < end,
            ReleasePolicy::Cliff { .. } => true,
        }
    }

    pub fn check(&self) -> (r: bool)
        ensures
            r == self.is_valid(),
    {
        match self {
            ReleasePolicy::Linear { start, end } => *start < *end,
            ReleasePolicy::Cliff { .. } => true,
        }
    }
}

/// Units released by time `now` under a linear window, before subtracting
/// what was already claimed: everything from `end` on, otherwise the
/// truncated proportion of the elapsed time.
pub open spec fn linear_released(amount: int, start: int, end: int, now: int) -> int {
    if now >= end {
        amount
    } else {
        (amount * (now - start)) / (end - start)
    }
}

/// What a claim on `r` at time `now` may pay out, or why it may not proceed.
pub open spec fn entitlement(r: Locking, now: u64) -> Result<u64, CustomError> {
    match r.policy {
        ReleasePolicy::Linear { start, end } => {
            if now <= start {
                Err(CustomError::NotYetStarted)
            } else {
                let released = linear_released(
                    r.locked_amount as int,
                    start as int,
                    end as int,
                    now as int,
                );
                if released >= r.claimed_amount {
                    Ok((released - r.claimed_amount) as u64)
                } else {
                    Ok(0u64)
                }
            }
        },
        ReleasePolicy::Cliff { deadline } => {
            if now < deadline {
                Err(CustomError::DeadlineNotReached)
            } else {
                Ok((r.locked_amount - r.claimed_amount) as u64)
            }
        },
    }
}

/// While less than the whole span has elapsed, the truncated share of
/// `amount` is at most `amount`.
pub proof fn lemma_share_bounded(amount: int, elapsed: int, span: int)
    by (nonlinear_arith)
    requires
        0 <= amount,
        0 <= elapsed < span,
    ensures
        0 <= (amount * elapsed) / span <= amount,
{
    assert(amount * elapsed <= amount * span);
    assert((amount * elapsed) / span <= (amount * span) / span);
}

/// The truncated share grows with the elapsed time.
proof fn lemma_share_monotone(amount: int, e1: int, e2: int, span: int)
    by (nonlinear_arith)
    requires
        0 <= amount,
        0 <= e1 <= e2,
        0 < span,
    ensures
        (amount * e1) / span <= (amount * e2) / span,
{
    assert(amount * e1 <= amount * e2);
}

impl Locking {
    /// The record's invariant: something was locked, no more than that has
    /// been claimed, and the policy is valid.
    pub open spec fn wf(self) -> bool {
        &&& self.locked_amount > 0
        &&& self.claimed_amount <= self.locked_amount
        &&& self.policy.is_valid()
    }

    /// A record with nothing left to release.
    pub open spec fn terminal(self) -> bool {
        self.claimed_amount == self.locked_amount
    }

    pub fn is_valid(&self) -> (r: bool)
        ensures
            r == self.wf(),
    {
        self.locked_amount > 0 && self.claimed_amount <= self.locked_amount && self.policy.check()
    }

    pub fn is_terminal(&self) -> (r: bool)
        ensures
            r == self.terminal(),
    {
        self.claimed_amount == self.locked_amount
    }

    /// How much a claim at time `now` would pay out. The product of the
    /// locked amount and the elapsed time is formed in 128 bits, so it never
    /// overflows.
    pub fn entitled_now(&self, now: u64) -> (r: Result<u64, CustomError>)
        requires
            self.wf(),
        ensures
            r == entitlement(*self, now),
    {
        match self.policy {
            ReleasePolicy::Linear { start, end } => {
                if now <= start {
                    return Err(CustomError::NotYetStarted);
                }
                if now >= end {
                    return Ok(self.locked_amount - self.claimed_amount);
                }
                let elapsed: u128 = (now - start) as u128;
                let span: u128 = (end - start) as u128;
                let amount: u128 = self.locked_amount as u128;
                assert(amount * elapsed <= 0xffff_ffff_ffff_ffff * 0xffff_ffff_ffff_ffff)
                    by (nonlinear_arith)
                    requires
                        amount <= 0xffff_ffff_ffff_ffff,
                        elapsed <= 0xffff_ffff_ffff_ffff,
                ;
                let product: u128 = amount * elapsed;
                proof {
                    lemma_share_bounded(amount as int, elapsed as int, span as int);
                }
                let released: u64 = (product / span) as u64;
                if released >= self.claimed_amount {
                    Ok(released - self.claimed_amount)
                } else {
                    Ok(0)
                }
            },
            ReleasePolicy::Cliff { deadline } => {
                if now < deadline {
                    Err(CustomError::DeadlineNotReached)
                } else {
                    Ok(self.locked_amount - self.claimed_amount)
                }
            },
        }
    }
}

/// A claim never pays out more than what remains of the lock.
pub proof fn lemma_entitlement_within_remaining(r: Locking, now: u64)
    requires
        r.wf(),
    ensures
        entitlement(r, now) is Ok ==> r.claimed_amount + entitlement(r, now)->Ok_0
            <= r.locked_amount,
{
    if let ReleasePolicy::Linear { start, end } = r.policy {
        if start < now && now < end {
            lemma_share_bounded(r.locked_amount as int, now - start, end - start);
        }
    }
}

/// Under a valid linear policy, what a claim may pay out never decreases as
/// time goes on, and at the end of the window it is exactly what remains.
pub proof fn lemma_linear_entitlement_monotone(r: Locking, t1: u64, t2: u64)
    requires
        r.wf(),
        r.policy is Linear,
        t1 <= t2,
    ensures
        entitlement(r, t1) is Ok ==> entitlement(r, t2) is Ok && entitlement(r, t1)->Ok_0
            <= entitlement(r, t2)->Ok_0,
        ({
            let end = r.policy->end;
            entitlement(r, end) is Ok && entitlement(r, end)->Ok_0 + r.claimed_amount
                == r.locked_amount
        }),
{
    let start = r.policy->start as int;
    let end = r.policy->end as int;
    let a = r.locked_amount as int;
    if t1 > start && t1 < end {
        lemma_share_bounded(a, t1 - start, end - start);
        if t2 < end {
            lemma_share_bounded(a, t2 - start, end - start);
            lemma_share_monotone(a, t1 - start, t2 - start, end - start);
        }
        assert(linear_released(a, start, end, t1 as int) <= linear_released(a, start, end, t2 as int));
    }
}

} // verus!
