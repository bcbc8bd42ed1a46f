use vstd::prelude::*;

use crate::errors::PlayerError;

verus! {

/// The fixed retry budget of the stream resolver: how many
/// fetch-and-verify attempts are made before giving up.
pub const MAX_RESOLVE_ATTEMPTS: u32 = 3;

/// The backoff delay before the second attempt, in time units.  The
/// delay doubles after each further failed attempt.
pub const INITIAL_BACKOFF_UNITS: u64 = 1;

/// What one fetch-and-verify attempt came to: the metadata call
/// failed, the probe of the candidate URL did not succeed, or the URL
/// was verified reachable.
#[derive(Debug)]
pub enum AttemptOutcome {
    FetchFailed,
    VerificationFailed,
    Verified(String),
}

/// What the resolver asks for after an attempt: wait and try again,
/// hand out the verified URL, or give the budget up.
#[derive(Debug)]
pub enum ResolveStep {
    Retry { delay_units: u64 },
    Done(String),
    Exhausted,
}

/// Whether an attempt ended with a verified URL.
pub open spec fn is_verified(o: AttemptOutcome) -> bool {
    o matches AttemptOutcome::Verified(_)
}

/// Two to the power `k`.
pub open spec fn pow2(k: nat) -> nat
    decreases k,
{
    if k == 0 {
        1
    } else {
        2 * pow2((k - 1) as nat)
    }
}

proof fn lemma_pow2_small()
    ensures
        pow2(0) == 1,
        pow2(1) == 2,
        pow2(2) == 4,
        pow2(3) == 8,
{
    reveal_with_fuel(pow2, 4);
}

/// The retry engine of the stream resolver.  One value of this type
/// follows one resolution: the caller performs an attempt, reports its
/// outcome through [`Resolver::step`], and obeys the step it gets
/// back.  The exponential backoff is the resolver's own bookkeeping.
#[derive(Clone, Copy, Debug, PartialEq, Eq, Structural)]
pub struct Resolver {
    pub attempts_used: u32,
    pub next_delay_units: u64,
}

impl Resolver {
    /// The backoff grows in lockstep with the attempts already spent.
    pub open spec fn wf(self) -> bool {
        &&& self.attempts_used <= MAX_RESOLVE_ATTEMPTS
        &&& self.next_delay_units as int == (INITIAL_BACKOFF_UNITS as int) * (pow2(
            self.attempts_used as nat,
        ) as int)
    }

    /// A fresh resolution with the whole budget ahead of it.
    pub fn new() -> (r: Resolver)
        ensures
            r.wf(),
            r.attempts_used == 0,
            r.next_delay_units == INITIAL_BACKOFF_UNITS,
    {
        proof {
            lemma_pow2_small();
        }
        Resolver { attempts_used: 0, next_delay_units: INITIAL_BACKOFF_UNITS }
    }

    /// Feeds the outcome of one attempt in.  A verified URL ends the
    /// resolution at once; a failure spends one attempt and either
    /// asks for a retry after the current backoff delay, or declares
    /// the budget exhausted on the last one.  The delay is charged
    /// before the next attempt, never after the last.
    pub fn step(&mut self, outcome: &AttemptOutcome) -> (r: ResolveStep)
        requires
            old(self).wf(),
            old(self).attempts_used < MAX_RESOLVE_ATTEMPTS,
        ensures
            final(self).wf(),
            is_verified(*outcome) ==> *final(self) == *old(self),
            (outcome matches AttemptOutcome::Verified(u) ==> (r matches ResolveStep::Done(v) && v@
                == u@)),
            !is_verified(*outcome) ==> {
                &&& final(self).attempts_used == old(self).attempts_used + 1
                &&& final(self).next_delay_units == old(self).next_delay_units * 2
            },
            !is_verified(*outcome) && old(self).attempts_used + 1 < MAX_RESOLVE_ATTEMPTS ==> r
                == (ResolveStep::Retry { delay_units: old(self).next_delay_units }),
            !is_verified(*outcome) && old(self).attempts_used + 1 == MAX_RESOLVE_ATTEMPTS ==> r
                == ResolveStep::Exhausted,
    {
        match outcome {
            AttemptOutcome::Verified(url) => ResolveStep::Done(url.clone()),
            _ => {
                proof {
                    lemma_pow2_small();
                }
                let delay_now = self.next_delay_units;
                self.attempts_used = self.attempts_used + 1;
                self.next_delay_units = self.next_delay_units * 2;
                if self.attempts_used == MAX_RESOLVE_ATTEMPTS {
                    ResolveStep::Exhausted
                } else {
                    ResolveStep::Retry { delay_units: delay_now }
                }
            },
        }
    }
}

/// Whether every attempt before position `k` failed.
pub open spec fn all_failed_before(s: Seq<AttemptOutcome>, k: int) -> bool {
    forall|j: int| 0 <= j < k ==> !is_verified(s[j])
}

/// What one whole resolution came to: the verified URL or the
/// terminal error, how many attempts were spent, and the total backoff
/// delay charged between them.
#[derive(Debug)]
pub struct ResolveRun {
    pub result: Result<String, PlayerError>,
    pub attempts_used: u32,
    pub total_delay_units: u64,
}

/// The contract of the bounded retry policy over a script of attempt
/// outcomes.  If the first verified attempt is the `k`-th (counted
/// from zero), the run succeeds with its URL, spends `k + 1` attempts
/// and waits `2^k - 1` time units in total; if the whole budget fails,
/// the run reports exhaustion after exactly the budget's attempts and
/// `2^(budget-1) - 1` units of delay.
pub open spec fn resolver_run_matches(s: Seq<AttemptOutcome>, r: ResolveRun) -> bool {
    &&& all_failed_before(s, MAX_RESOLVE_ATTEMPTS as int) ==> {
        &&& r.result == Err::<String, PlayerError>(PlayerError::ResolutionExhausted)
        &&& r.attempts_used == MAX_RESOLVE_ATTEMPTS
        &&& r.total_delay_units as int == pow2((MAX_RESOLVE_ATTEMPTS - 1) as nat) - 1
    }
    &&& forall|k: int|
        0 <= k < MAX_RESOLVE_ATTEMPTS as int && all_failed_before(s, k) && is_verified(
            #[trigger] s[k],
        ) ==> {
            &&& r.attempts_used as int == k + 1
            &&& r.total_delay_units as int == pow2(k as nat) - 1
            &&& (r.result matches Ok(u) && s[k] matches AttemptOutcome::Verified(v) && u@ == v@)
        }
}

/// Runs the whole bounded fetch-and-verify policy against a script of
/// attempt outcomes, one entry per attempt the policy may make, and
/// reports the result together with the attempts spent and the total
/// backoff delay imposed between them.
pub fn run_resolver(outcomes: &Vec<AttemptOutcome>) -> (r: ResolveRun)
    requires
        outcomes@.len() >= MAX_RESOLVE_ATTEMPTS,
    ensures
        resolver_run_matches(outcomes@, r),
{
    proof {
        lemma_pow2_small();
    }
    let mut resolver = Resolver::new();
    let mut total_delay: u64 = 0;
    let mut i: usize = 0;
    loop
        invariant
            resolver.wf(),
            outcomes@.len() >= MAX_RESOLVE_ATTEMPTS,
            i < MAX_RESOLVE_ATTEMPTS as usize,
            resolver.attempts_used as int == i as int,
            all_failed_before(outcomes@, i as int),
            total_delay as int == pow2(i as nat) - 1,
        decreases MAX_RESOLVE_ATTEMPTS as int - i as int,
    {
        proof {
            lemma_pow2_small();
        }
        let step = resolver.step(&outcomes[i]);
        match step {
            ResolveStep::Done(url) => {
                return ResolveRun {
                    result: Ok(url),
                    attempts_used: (i as u32) + 1,
                    total_delay_units: total_delay,
                };
            },
            ResolveStep::Exhausted => {
                return ResolveRun {
                    result: Err(PlayerError::ResolutionExhausted),
                    attempts_used: MAX_RESOLVE_ATTEMPTS,
                    total_delay_units: total_delay,
                };
            },
            ResolveStep::Retry { delay_units } => {
                total_delay = total_delay + delay_units;
                i = i + 1;
            },
        }
    }
}

/// A provider that fails twice and then hands a verified URL over:
/// the resolution succeeds on the third attempt, and the total backoff
/// delay is 1 + 2 = 3 time units.
pub proof fn lemma_succeeds_on_third_attempt(s: Seq<AttemptOutcome>, r: ResolveRun)
    requires
        s.len() >= 3,
        !is_verified(s[0]),
        !is_verified(s[1]),
        is_verified(s[2]),
        resolver_run_matches(s, r),
    ensures
        r.attempts_used == 3,
        r.total_delay_units == 3,
        (r.result matches Ok(u) && s[2] matches AttemptOutcome::Verified(v) && u@ == v@),
{
    lemma_pow2_small();
    assert(all_failed_before(s, 2));
}

/// A provider that never verifies: the resolution fails with
/// exhaustion after exactly the budget's three attempts, no more.
pub proof fn lemma_always_failing_exhausts(s: Seq<AttemptOutcome>, r: ResolveRun)
    requires
        s.len() >= 3,
        forall|j: int| 0 <= j < s.len() ==> !is_verified(#[trigger] s[j]),
        resolver_run_matches(s, r),
    ensures
        r.result == Err::<String, PlayerError>(PlayerError::ResolutionExhausted),
        r.attempts_used == MAX_RESOLVE_ATTEMPTS,
        r.total_delay_units == 3,
{
    lemma_pow2_small();
    assert(all_failed_before(s, MAX_RESOLVE_ATTEMPTS as int));
}

/// Whether an HTTP status code counts as a successful probe of a
/// candidate stream URL: any 2xx status, the partial-content reply
/// included.
pub fn is_success_status(status: u16) -> (r: bool)
    ensures
        r <==> 200 <= status < 300,
{
    status >= 200 && status < 300
}

} // verus!
