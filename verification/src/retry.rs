//! Retrying transient failures of network calls with exponential backoff.
use vstd::prelude::*;
use crate::text::{contains_text, decimal_text, push_decimal, str_contains, text};

verus! {

/// An error text that names a transient failure: overload (503), rate
/// limiting (429) or a timeout.
pub open spec fn is_transient_spec(err: Seq<char>) -> bool {
    contains_text(err, "503"@) || contains_text(err, "429"@) || contains_text(err, "timeout"@)
}

/// Whether a failed attempt is worth retrying.
pub fn is_transient(err: &str) -> (r: bool)
    ensures
        r == is_transient_spec(err@),
{
    str_contains(err, "503") || str_contains(err, "429") || str_contains(err, "timeout")
}

/// Exactly the errors that name an overload (503), rate limiting (429) or a
/// timeout are retried: one naming none of them is not transient, and one
/// naming any of them is.
pub proof fn law_transient_markers(err: Seq<char>)
    ensures
        !contains_text(err, "503"@) && !contains_text(err, "429"@) && !contains_text(err, "timeout"@)
            ==> !is_transient_spec(err),
        contains_text(err, "503"@) ==> is_transient_spec(err),
        contains_text(err, "429"@) ==> is_transient_spec(err),
        contains_text(err, "timeout"@) ==> is_transient_spec(err),
{
}

/// `2^n`.
pub open spec fn pow2(n: nat) -> nat
    decreases n,
{
    if n == 0 {
        1
    } else {
        2 * pow2((n - 1) as nat)
    }
}

/// What to do after a failed attempt.
#[derive(Debug, Clone, PartialEq, Eq)]
pub enum RetryDecision {
    /// Wait this many milliseconds, then try again.
    Wait(u64),
    /// Give up with this error text.
    Fail(String),
}

/// The decision after attempt number `attempt` (counting from zero) failed
/// with `err`: a transient failure waits `base_delay_ms * 2^attempt`
/// milliseconds; any other failure is returned as it is.
pub fn after_failure(base_delay_ms: u64, attempt: u32, err: &str) -> (r: RetryDecision)
    requires
        is_transient_spec(err@) ==> base_delay_ms * pow2(attempt as nat) <= u64::MAX,
    ensures
        is_transient_spec(err@) ==> r == RetryDecision::Wait((base_delay_ms * pow2(attempt as nat)) as u64),
        !is_transient_spec(err@) ==> (r matches RetryDecision::Fail(m) && m@ == err@),
        // an error naming none of 503, 429 and timeout is returned at once
        !contains_text(err@, "503"@) && !contains_text(err@, "429"@) && !contains_text(err@, "timeout"@) ==> (
        r matches RetryDecision::Fail(m) && m@ == err@),
{
    proof {
        law_transient_markers(err@);
    }
    if is_transient(err) {
        let mut delay: u64 = base_delay_ms;
        let mut i: u32 = 0;
        assert(pow2(0) == 1);
        assert(base_delay_ms * pow2(0) == base_delay_ms);
        while i < attempt
            invariant
                i <= attempt,
                delay as nat == base_delay_ms * pow2(i as nat),
                base_delay_ms * pow2(attempt as nat) <= u64::MAX,
            decreases attempt - i,
        {
            proof {
                lemma_pow2_monotone((i + 1) as nat, attempt as nat);
                assert(base_delay_ms * pow2((i + 1) as nat) <= base_delay_ms * pow2(attempt as nat))
                    by (nonlinear_arith)
                    requires
                        pow2((i + 1) as nat) <= pow2(attempt as nat),
                ;
                assert(base_delay_ms * pow2((i + 1) as nat) == 2 * (base_delay_ms * pow2(i as nat)))
                    by (nonlinear_arith)
                    requires
                        pow2((i + 1) as nat) == 2 * pow2(i as nat),
                ;
            }
            delay = delay * 2;
            i = i + 1;
        }
        RetryDecision::Wait(delay)
    } else {
        RetryDecision::Fail(text(err))
    }
}

proof fn lemma_pow2_monotone(a: nat, b: nat)
    requires
        a <= b,
    ensures
        pow2(a) <= pow2(b),
        pow2(a) >= 1,
    decreases b,
{
    if a < b {
        lemma_pow2_monotone(a, (b - 1) as nat);
    } else if a > 0 {
        lemma_pow2_monotone((a - 1) as nat, (a - 1) as nat);
    }
}

/// The error text once every attempt failed transiently.
pub fn exhausted_message(max_attempts: u32, last_err: &str) -> (r: String)
    ensures
        r@ == "failed after "@ + decimal_text(max_attempts as nat) + " attempts: "@ + last_err@,
{
    let mut m = text("failed after ");
    push_decimal(&mut m, max_attempts as u64);
    m.append(" attempts: ");
    m.append(last_err);
    m
}

/// The error text once all `n` attempts failed transiently, the last with `last`.
pub open spec fn exhausted_text(n: nat, last: Seq<char>) -> Seq<char> {
    "failed after "@ + decimal_text(n) + " attempts: "@ + last
}

/// An attempt's outcome (nothing: success; some text: that error) is an
/// error worth retrying.
pub open spec fn transient_outcome(o: Option<Seq<char>>) -> bool {
    match o {
        Some(e) => is_transient_spec(e),
        None => false,
    }
}

/// An attempt's outcome is an error that ends the run.
pub open spec fn fatal_outcome(o: Option<Seq<char>>) -> bool {
    match o {
        Some(e) => !is_transient_spec(e),
        None => false,
    }
}

/// The outcome of a run of at most `n` attempts from attempt number `i` on,
/// the last transient error so far being `last`, when the remaining attempts
/// come out as `outs`: the first success, or the first error that is not
/// transient, ends the run; a transient error is retried while attempts
/// remain.
pub open spec fn run_outcome(n: nat, i: nat, last: Seq<char>, outs: Seq<Option<Seq<char>>>) -> Result<
    (),
    Seq<char>,
>
    decreases outs.len(),
{
    if i >= n || outs.len() == 0 {
        Err(exhausted_text(n, last))
    } else {
        match outs[0] {
            None => Ok(()),
            Some(e) => if is_transient_spec(e) {
                run_outcome(n, i + 1, e, outs.drop_first())
            } else {
                Err(e)
            },
        }
    }
}

/// How many attempts a run makes (see [`run_outcome`]).
pub open spec fn run_calls(n: nat, i: nat, outs: Seq<Option<Seq<char>>>) -> nat
    decreases outs.len(),
{
    if i >= n || outs.len() == 0 {
        0
    } else if transient_outcome(outs[0]) {
        1 + run_calls(n, i + 1, outs.drop_first())
    } else {
        1
    }
}

/// The outcomes before position `k` are all transient errors.
pub open spec fn all_transient(outs: Seq<Option<Seq<char>>>, k: int) -> bool {
    forall|j: int| 0 <= j < k ==> transient_outcome(#[trigger] outs[j])
}

proof fn lemma_run_outcome(n: nat, i: nat, last: Seq<char>, outs: Seq<Option<Seq<char>>>, k: int)
    requires
        i + outs.len() >= n,
        0 <= k,
        i + k < n,
        all_transient(outs, k),
        !transient_outcome(outs[k]),
    ensures
        outs[k] is None ==> run_outcome(n, i, last, outs) == Ok::<(), Seq<char>>(()),
        fatal_outcome(outs[k]) ==> run_outcome(n, i, last, outs) == Err::<(), Seq<char>>(
            outs[k]->Some_0,
        ),
        run_calls(n, i, outs) == k + 1,
    decreases k,
{
    if k > 0 {
        assert(transient_outcome(outs[0]));
        let rest = outs.drop_first();
        assert forall|j: int| 0 <= j < k - 1 implies transient_outcome(#[trigger] rest[j]) by {
            assert(rest[j] == outs[j + 1]);
        }
        assert(rest[k - 1] == outs[k]);
        lemma_run_outcome(n, i + 1, outs[0]->Some_0, rest, k - 1);
    }
}

proof fn lemma_run_exhausted(n: nat, i: nat, last: Seq<char>, outs: Seq<Option<Seq<char>>>)
    requires
        i <= n,
        i + outs.len() >= n,
        all_transient(outs, n - i),
    ensures
        run_outcome(n, i, last, outs) == Err::<(), Seq<char>>(
            exhausted_text(n, if i < n { outs[n - i - 1]->Some_0 } else { last }),
        ),
        run_calls(n, i, outs) == n - i,
    decreases n - i,
{
    if i < n {
        let rest = outs.drop_first();
        assert(transient_outcome(outs[0]));
        assert forall|j: int| 0 <= j < n - (i + 1) implies transient_outcome(#[trigger] rest[j]) by {
            assert(rest[j] == outs[j + 1]);
        }
        lemma_run_exhausted(n, i + 1, outs[0]->Some_0, rest);
        if i + 1 < n {
            assert(rest[n - (i + 1) - 1] == outs[n - i - 1]);
        }
    }
}

proof fn lemma_run_calls_bound(n: nat, i: nat, outs: Seq<Option<Seq<char>>>)
    ensures
        i <= n ==> run_calls(n, i, outs) <= n - i,
    decreases outs.len(),
{
    if i < n && outs.len() > 0 {
        lemma_run_calls_bound(n, i + 1, outs.drop_first());
    }
}

/// A run of at most `n` attempts, given the outcome of each attempt it may
/// make: it makes at most `n` calls; it succeeds at the first success after
/// only transient errors; it fails with the first error that is not
/// transient (after only transient errors before it), making no call after
/// it; and when all `n` attempts fail transiently it fails with
/// `failed after n attempts: ` and the last error, after `n` calls.
pub proof fn law_retry_run(n: nat, outs: Seq<Option<Seq<char>>>)
    requires
        outs.len() >= n,
    ensures
        run_calls(n, 0, outs) <= n,
        forall|k: int|
            0 <= k < n && all_transient(outs, k) && (#[trigger] outs[k]) is None ==> run_outcome(
                n,
                0,
                Seq::empty(),
                outs,
            ) == Ok::<(), Seq<char>>(()) && run_calls(n, 0, outs) == k + 1,
        forall|k: int|
            0 <= k < n && all_transient(outs, k) && fatal_outcome(#[trigger] outs[k]) ==> run_outcome(
                n,
                0,
                Seq::empty(),
                outs,
            ) == Err::<(), Seq<char>>(outs[k]->Some_0) && run_calls(n, 0, outs) == k + 1,
        all_transient(outs, n as int) ==> run_outcome(n, 0, Seq::empty(), outs) == Err::<
            (),
            Seq<char>,
        >(exhausted_text(n, if n > 0 { outs[n - 1]->Some_0 } else { Seq::empty() }))
            && run_calls(n, 0, outs) == n,
{
    lemma_run_calls_bound(n, 0, outs);
    assert forall|k: int|
        0 <= k < n && all_transient(outs, k) && (#[trigger] outs[k]) is None implies run_outcome(
            n,
            0,
            Seq::empty(),
            outs,
        ) == Ok::<(), Seq<char>>(()) && run_calls(n, 0, outs) == k + 1 by {
        lemma_run_outcome(n, 0, Seq::empty(), outs, k);
    }
    assert forall|k: int|
        0 <= k < n && all_transient(outs, k) && fatal_outcome(#[trigger] outs[k]) implies run_outcome(
            n,
            0,
            Seq::empty(),
            outs,
        ) == Err::<(), Seq<char>>(outs[k]->Some_0) && run_calls(n, 0, outs) == k + 1 by {
        lemma_run_outcome(n, 0, Seq::empty(), outs, k);
    }
    if all_transient(outs, n as int) {
        lemma_run_exhausted(n, 0, Seq::empty(), outs);
    }
}

/// The outcomes `outs` after one attempt that came out as `o`.
pub open spec fn after_outcome(o: Option<Seq<char>>, outs: Seq<Option<Seq<char>>>) -> Seq<
    Option<Seq<char>>,
> {
    seq![o] + outs
}

/// Where a run of retried attempts stands: attempt number `attempt` comes
/// next, and `last_err` is the last transient error so far.
pub struct RetryRun {
    pub max_attempts: u32,
    pub base_delay_ms: u64,
    pub attempt: u32,
    pub last_err: String,
}

impl RetryRun {
    /// A run that has made no attempt yet.
    pub fn new(max_attempts: u32, base_delay_ms: u64) -> (r: RetryRun)
        ensures
            r.max_attempts == max_attempts,
            r.base_delay_ms == base_delay_ms,
            r.attempt == 0,
            r.last_err@ == Seq::<char>::empty(),
    {
        RetryRun { max_attempts, base_delay_ms, attempt: 0, last_err: String::new() }
    }

    /// The run's error once no attempt is left (`None` while one is). While
    /// one is left, a success of the next attempt is the run's outcome.
    pub fn finished(&self) -> (r: Option<String>)
        ensures
            (self.attempt >= self.max_attempts) == (r is Some),
            r matches Some(m) ==> m@ == exhausted_text(self.max_attempts as nat, self.last_err@),
            r matches Some(m) ==> forall|outs: Seq<Option<Seq<char>>>|
                #[trigger] run_outcome(self.max_attempts as nat, self.attempt as nat, self.last_err@, outs)
                    == Err::<(), Seq<char>>(m@),
            r is None ==> forall|outs: Seq<Option<Seq<char>>>|
                #[trigger] run_outcome(
                    self.max_attempts as nat,
                    self.attempt as nat,
                    self.last_err@,
                    after_outcome(None, outs),
                ) == Ok::<(), Seq<char>>(()),
    {
        if self.attempt >= self.max_attempts {
            Some(exhausted_message(self.max_attempts, self.last_err.as_str()))
        } else {
            assert forall|outs: Seq<Option<Seq<char>>>|
                #[trigger] run_outcome(
                    self.max_attempts as nat,
                    self.attempt as nat,
                    self.last_err@,
                    after_outcome(None, outs),
                ) == Ok::<(), Seq<char>>(()) by {
                assert(after_outcome(None, outs)[0] == None::<Seq<char>>);
            }
            None
        }
    }

    /// Records that the next attempt failed with `err` and decides what
    /// follows: a transient failure waits `base_delay_ms * 2^attempt`
    /// milliseconds and moves on to the next attempt; any other failure ends
    /// the run with `err`. Either way the run's outcome over the attempts
    /// still to come is what it was over this one and those.
    pub fn record_failure(&mut self, err: &str) -> (r: RetryDecision)
        requires
            old(self).attempt < old(self).max_attempts,
            is_transient_spec(err@) ==> old(self).base_delay_ms * pow2(old(self).attempt as nat)
                <= u64::MAX,
        ensures
            final(self).max_attempts == old(self).max_attempts,
            final(self).base_delay_ms == old(self).base_delay_ms,
            is_transient_spec(err@) ==> r == RetryDecision::Wait(
                (old(self).base_delay_ms * pow2(old(self).attempt as nat)) as u64,
            ) && final(self).attempt == old(self).attempt + 1 && final(self).last_err@ == err@,
            !is_transient_spec(err@) ==> (r matches RetryDecision::Fail(m) && m@ == err@)
                && final(self).attempt == old(self).attempt && final(self).last_err@ == old(
                self,
            ).last_err@,
            forall|outs: Seq<Option<Seq<char>>>|
                #[trigger] run_outcome(
                    old(self).max_attempts as nat,
                    old(self).attempt as nat,
                    old(self).last_err@,
                    after_outcome(Some(err@), outs),
                ) == if is_transient_spec(err@) {
                    run_outcome(
                        final(self).max_attempts as nat,
                        final(self).attempt as nat,
                        final(self).last_err@,
                        outs,
                    )
                } else {
                    Err::<(), Seq<char>>(err@)
                },
    {
        let ghost n = self.max_attempts as nat;
        let ghost i = self.attempt as nat;
        let ghost last = self.last_err@;
        let r = after_failure(self.base_delay_ms, self.attempt, err);
        if is_transient(err) {
            self.attempt = self.attempt + 1;
            self.last_err = text(err);
        }
        assert forall|outs: Seq<Option<Seq<char>>>|
            #[trigger] run_outcome(n, i, last, after_outcome(Some(err@), outs)) == if is_transient_spec(
                err@,
            ) {
                run_outcome(n, i + 1, err@, outs)
            } else {
                Err::<(), Seq<char>>(err@)
            } by {
            let s = after_outcome(Some(err@), outs);
            assert(s[0] == Some(err@));
            assert(s.drop_first() =~= outs);
        }
        r
    }
}

} // verus!
