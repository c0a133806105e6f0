//! The retry rule of the request for the tracks of the wave: at most three
//! attempts, with a pause between failed attempts that starts at two
//! seconds and doubles.
use vstd::prelude::*;
use vstd::arithmetic::power2::pow2;

verus! {

/// How many attempts the request for the wave gets.
pub const MAX_ATTEMPTS: u32 = 3;

/// The pause after the first failed attempt, in seconds.
pub const FIRST_PAUSE_SECS: u64 = 2;

/// The message when the attempts are used up.
pub const GIVE_UP_MESSAGE: &'static str = "Превышено количество попыток подключения к API";

/// The pause after a failed request for the wave, before the playback loop
/// asks again, in seconds.
pub const WAVE_ERROR_PAUSE_SECS: u64 = 5;

/// What an attempt came back with.
#[derive(Clone, Copy, Debug, PartialEq, Eq, Structural)]
pub enum AttemptOutcome {
    /// The server answered with this HTTP status.
    Status(u16),
    /// The request failed before any answer.
    NetworkError,
}

/// What to do after an attempt.
#[derive(Clone, Copy, Debug, PartialEq, Eq, Structural)]
pub enum RetryAction {
    /// The answer is a success: read and decode its body, and return that.
    ReadBody,
    /// Wait this many seconds, then try again.
    Wait(u64),
    /// Stop and report that the attempts are used up.
    GiveUp,
}

/// Whether an attempt was answered with a success status.
pub open spec fn succeeded(outcome: AttemptOutcome) -> bool {
    match outcome {
        AttemptOutcome::Status(code) => 200 <= code && code < 300,
        AttemptOutcome::NetworkError => false,
    }
}

/// The state of the retries of one request for the wave.
#[derive(Clone, Copy, Debug, PartialEq, Eq, Structural)]
pub struct WaveRetry {
    pub retries_left: u32,
    pub delay_secs: u64,
}

impl WaveRetry {
    /// A state that the rule can reach: one to three attempts are left, and
    /// the pause is two seconds, doubled once per failed attempt.
    pub open spec fn wf(self) -> bool {
        &&& 1 <= self.retries_left <= MAX_ATTEMPTS
        &&& self.delay_secs == FIRST_PAUSE_SECS * pow2((MAX_ATTEMPTS - self.retries_left) as nat)
    }

    /// The state and action after an attempt.
    pub open spec fn next(self, outcome: AttemptOutcome) -> (WaveRetry, RetryAction) {
        if succeeded(outcome) {
            (self, RetryAction::ReadBody)
        } else if self.retries_left <= 1 {
            (WaveRetry { retries_left: 0, delay_secs: self.delay_secs }, RetryAction::GiveUp)
        } else {
            (
                WaveRetry {
                    retries_left: (self.retries_left - 1) as u32,
                    delay_secs: (self.delay_secs * 2) as u64,
                },
                RetryAction::Wait(self.delay_secs),
            )
        }
    }

    /// The state before the first attempt.
    pub fn new() -> (r: WaveRetry)
        ensures
            r.retries_left == MAX_ATTEMPTS,
            r.delay_secs == FIRST_PAUSE_SECS,
            r.wf(),
    {
        proof {
            vstd::arithmetic::power2::lemma2_to64();
        }
        WaveRetry { retries_left: MAX_ATTEMPTS, delay_secs: FIRST_PAUSE_SECS }
    }

    /// Takes the outcome of an attempt and says what to do next.
    pub fn on_attempt(&mut self, outcome: AttemptOutcome) -> (r: RetryAction)
        requires
            old(self).wf(),
        ensures
            (*final(self), r) == old(self).next(outcome),
            r != RetryAction::GiveUp ==> final(self).wf(),
    {
        let success = match outcome {
            AttemptOutcome::Status(code) => crate::api::is_success_status(code),
            AttemptOutcome::NetworkError => false,
        };
        if success {
            return RetryAction::ReadBody;
        }
        self.retries_left = self.retries_left - 1;
        if self.retries_left == 0 {
            return RetryAction::GiveUp;
        }
        proof {
            vstd::arithmetic::power2::lemma2_to64();
            vstd::arithmetic::power2::lemma_pow2_unfold((MAX_ATTEMPTS - self.retries_left) as nat);
        }
        let wait = self.delay_secs;
        self.delay_secs = self.delay_secs * 2;
        RetryAction::Wait(wait)
    }
}

/// The state before the first attempt.
pub open spec fn initial_retry() -> WaveRetry {
    WaveRetry { retries_left: MAX_ATTEMPTS, delay_secs: FIRST_PAUSE_SECS }
}

/// The actions taken for a series of outcomes, up to and including the
/// first action that ends the request.
pub open spec fn retry_run(s: WaveRetry, outcomes: Seq<AttemptOutcome>) -> Seq<RetryAction>
    decreases outcomes.len(),
{
    if outcomes.len() == 0 {
        Seq::empty()
    } else {
        let (s2, a) = s.next(outcomes[0]);
        if a is Wait {
            seq![a] + retry_run(s2, outcomes.drop_first())
        } else {
            seq![a]
        }
    }
}

proof fn lemma_run_bounded(s: WaveRetry, outcomes: Seq<AttemptOutcome>)
    requires
        s.retries_left >= 1,
    ensures
        retry_run(s, outcomes).len() <= s.retries_left,
    decreases outcomes.len(),
{
    if outcomes.len() > 0 {
        let (s2, a) = s.next(outcomes[0]);
        if a is Wait {
            lemma_run_bounded(s2, outcomes.drop_first());
        }
    }
}

/// A request for the wave makes at most three attempts, whatever they come
/// back with.
pub proof fn law_at_most_three_attempts(outcomes: Seq<AttemptOutcome>)
    ensures
        retry_run(initial_retry(), outcomes).len() <= MAX_ATTEMPTS,
{
    lemma_run_bounded(initial_retry(), outcomes);
}

/// Three failed attempts in a row are answered by a pause of two seconds,
/// a pause of four seconds, and giving up.
pub proof fn law_three_failures(a: AttemptOutcome, b: AttemptOutcome, c: AttemptOutcome)
    requires
        !succeeded(a),
        !succeeded(b),
        !succeeded(c),
    ensures
        retry_run(initial_retry(), seq![a, b, c]) == seq![
            RetryAction::Wait(2),
            RetryAction::Wait(4),
            RetryAction::GiveUp,
        ],
{
    let o = seq![a, b, c];
    assert(o.drop_first() =~= seq![b, c]);
    assert(seq![b, c].drop_first() =~= seq![c]);
    assert(seq![c].drop_first() =~= Seq::<AttemptOutcome>::empty());
    let s1 = initial_retry().next(a).0;
    let s2 = s1.next(b).0;
    assert(retry_run(s2, seq![c]) =~= seq![RetryAction::GiveUp]);
    assert(retry_run(s1, seq![b, c]) =~= seq![RetryAction::Wait(4), RetryAction::GiveUp]);
    assert(retry_run(initial_retry(), o) =~= seq![
        RetryAction::Wait(2),
        RetryAction::Wait(4),
        RetryAction::GiveUp,
    ]);
}

/// An answer with a success status ends the retries at once, in any state.
pub proof fn law_success_reads_body(s: WaveRetry, outcome: AttemptOutcome)
    requires
        succeeded(outcome),
    ensures
        s.next(outcome) == (s, RetryAction::ReadBody),
{
}

/// Each failed attempt that is not the last doubles the pause.
pub proof fn law_pause_doubles(s: WaveRetry, outcome: AttemptOutcome)
    requires
        s.wf(),
        !succeeded(outcome),
        s.retries_left > 1,
    ensures
        s.next(outcome).1 == RetryAction::Wait(s.delay_secs),
        s.next(outcome).0.delay_secs == 2 * s.delay_secs,
        s.next(outcome).0.wf(),
{
    vstd::arithmetic::power2::lemma2_to64();
    vstd::arithmetic::power2::lemma_pow2_unfold((MAX_ATTEMPTS - s.retries_left + 1) as nat);
}

} // verus!
