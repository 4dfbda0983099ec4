use vstd::arithmetic::power2::{lemma_pow2_pos, lemma_pow2_unfold, pow2};
use vstd::prelude::*;

verus! {

/// How a confirm-and-retry loop ended.
#[derive(Clone, Copy, Debug, PartialEq, Eq, Structural)]
pub enum NavigationOutcome {
    /// The window manager reached the requested state.
    Confirmed,
    /// Every attempt was spent without seeing the requested state.
    Exhausted,
}

/// What the caller does next while driving the loop.
#[derive(Clone, Copy, Debug, PartialEq, Eq, Structural)]
pub enum RetryAction {
    /// Sleep this many milliseconds, then poll and hand the result to `observe`.
    Sleep(u64),
    /// Stop: the loop is over.
    Finish(NavigationOutcome),
}

/// What the caller does with one poll result.
#[derive(Clone, Copy, Debug, PartialEq, Eq, Structural)]
pub enum PollVerdict {
    /// The requested state was seen; send nothing more.
    Confirmed,
    /// Not there yet; send the change request again.
    Reissue,
}

/// The delay before poll `k`: `initial * 2^k`, held at `u64::MAX` once it no longer fits.
pub open spec fn backoff(initial: u64, k: nat) -> u64 {
    if initial * pow2(k) <= u64::MAX {
        (initial * pow2(k)) as u64
    } else {
        u64::MAX
    }
}

/// The state of one confirm-and-retry loop, as plain values.
pub struct RetryView {
    pub goal: u32,
    pub max_attempts: nat,
    pub initial_delay: u64,
    pub polls: nat,
    pub reissues: nat,
    pub confirmed: bool,
}

impl RetryView {
    pub open spec fn wf(self) -> bool {
        &&& self.polls <= self.max_attempts
        &&& self.reissues <= self.polls
        &&& self.polls == self.reissues + if self.confirmed { 1nat } else { 0nat }
    }

    /// The delay that the next sleep lasts.
    pub open spec fn delay(self) -> u64 {
        backoff(self.initial_delay, self.reissues)
    }

    /// What the caller is told to do next in this state.
    pub open spec fn action(self) -> RetryAction {
        if self.confirmed {
            RetryAction::Finish(NavigationOutcome::Confirmed)
        } else if self.polls >= self.max_attempts {
            RetryAction::Finish(NavigationOutcome::Exhausted)
        } else {
            RetryAction::Sleep(self.delay())
        }
    }

    /// Whether a poll may be reported in this state.
    pub open spec fn polling(self) -> bool {
        !self.confirmed && self.polls < self.max_attempts
    }

    /// The state after a poll reported `current`.
    pub open spec fn after_poll(self, current: u32) -> RetryView {
        if current == self.goal {
            RetryView { polls: self.polls + 1, confirmed: true, ..self }
        } else {
            RetryView { polls: self.polls + 1, reissues: self.reissues + 1, ..self }
        }
    }

    /// The verdict on a poll that reported `current`.
    pub open spec fn verdict(self, current: u32) -> PollVerdict {
        if current == self.goal {
            PollVerdict::Confirmed
        } else {
            PollVerdict::Reissue
        }
    }
}

/// The state at the start of a loop.
pub open spec fn start_view(goal: u32, max_attempts: u32, initial_delay: u64) -> RetryView {
    RetryView {
        goal,
        max_attempts: max_attempts as nat,
        initial_delay,
        polls: 0,
        reissues: 0,
        confirmed: false,
    }
}

/// Confirm-and-retry loop for a request that the window manager does not
/// acknowledge: the caller sleeps, polls the observed value (the active window, or
/// the current desktop), and re-sends the request until the value equals the goal or
/// the attempts are spent. The delay doubles after every unconfirmed poll.
pub struct RetryLoop {
    goal: u32,
    max_attempts: u32,
    initial_delay: u64,
    delay: u64,
    polls: u32,
    reissues: u32,
    confirmed: bool,
}

impl View for RetryLoop {
    type V = RetryView;

    closed spec fn view(&self) -> RetryView {
        RetryView {
            goal: self.goal,
            max_attempts: self.max_attempts as nat,
            initial_delay: self.initial_delay,
            polls: self.polls as nat,
            reissues: self.reissues as nat,
            confirmed: self.confirmed,
        }
    }
}

/// Doubling the delay for poll `k` gives the delay for poll `k + 1`.
proof fn lemma_backoff_double(initial: u64, k: nat)
    ensures
        backoff(initial, k + 1) == if backoff(initial, k) > u64::MAX / 2 {
            u64::MAX
        } else {
            (backoff(initial, k) * 2) as u64
        },
{
    lemma_pow2_unfold(k + 1);
    lemma_pow2_pos(k);
    assert(initial * pow2(k + 1) == 2 * (initial * pow2(k))) by (nonlinear_arith)
        requires
            pow2(k + 1) == 2 * pow2(k),
    ;
}

impl RetryLoop {
    pub closed spec fn wf(&self) -> bool {
        &&& self@.wf()
        &&& self.delay == self@.delay()
    }

    /// A loop that waits for `goal`, polling at most `max_attempts` times, first
    /// after `initial_delay` milliseconds.
    pub fn new(goal: u32, max_attempts: u32, initial_delay: u64) -> (r: RetryLoop)
        ensures
            r.wf(),
            r@ == start_view(goal, max_attempts, initial_delay),
    {
        proof {
            assert(pow2(0) == 1) by {
                vstd::arithmetic::power2::lemma2_to64();
            }
        }
        RetryLoop {
            goal,
            max_attempts,
            initial_delay,
            delay: initial_delay,
            polls: 0,
            reissues: 0,
            confirmed: false,
        }
    }

    /// What the caller does next: sleep before the next poll, or stop.
    pub fn next_action(&self) -> (a: RetryAction)
        requires
            self.wf(),
        ensures
            a == self@.action(),
    {
        if self.confirmed {
            RetryAction::Finish(NavigationOutcome::Confirmed)
        } else if self.polls >= self.max_attempts {
            RetryAction::Finish(NavigationOutcome::Exhausted)
        } else {
            RetryAction::Sleep(self.delay)
        }
    }

    /// Takes the value that a poll reported and says whether to send the request again.
    pub fn observe(&mut self, current: u32) -> (v: PollVerdict)
        requires
            old(self).wf(),
            old(self)@.polling(),
        ensures
            final(self).wf(),
            final(self)@ == old(self)@.after_poll(current),
            v == old(self)@.verdict(current),
    {
        self.polls = self.polls + 1;
        if current == self.goal {
            self.confirmed = true;
            PollVerdict::Confirmed
        } else {
            proof {
                lemma_backoff_double(self.initial_delay, self.reissues as nat);
            }
            self.reissues = self.reissues + 1;
            self.delay = if self.delay > u64::MAX / 2 {
                u64::MAX
            } else {
                self.delay * 2
            };
            PollVerdict::Reissue
        }
    }

    /// How many polls have been reported.
    pub fn polls(&self) -> (n: u32)
        ensures
            n as nat == self@.polls,
    {
        self.polls
    }

    /// How many times the caller has been told to send the request again.
    pub fn reissues(&self) -> (n: u32)
        ensures
            n as nat == self@.reissues,
    {
        self.reissues
    }
}

/// The state after the polls in `observed` were reported, one by one, for as long
/// as the loop asked for polls.
pub open spec fn run(v: RetryView, observed: Seq<u32>) -> RetryView
    decreases observed.len(),
{
    if observed.len() == 0 || !v.polling() {
        v
    } else {
        run(v.after_poll(observed[0]), observed.drop_first())
    }
}

proof fn lemma_run_wf(v: RetryView, observed: Seq<u32>)
    requires
        v.wf(),
    ensures
        run(v, observed).wf(),
        run(v, observed).max_attempts == v.max_attempts,
        run(v, observed).initial_delay == v.initial_delay,
        v.confirmed ==> run(v, observed) == v,
    decreases observed.len(),
{
    if observed.len() > 0 && v.polling() {
        lemma_run_wf(v.after_poll(observed[0]), observed.drop_first());
    }
}

/// Whatever the polls report, the sleep before poll `k` (counting from 0) lasts
/// `initial_delay * 2^k` milliseconds, and the request is sent again at most
/// `max_attempts` times.
pub proof fn retry_backoff_and_bound(
    goal: u32,
    max_attempts: u32,
    initial_delay: u64,
    observed: Seq<u32>,
)
    ensures
        ({
            let s = run(start_view(goal, max_attempts, initial_delay), observed);
            &&& s.wf()
            &&& s.reissues <= max_attempts
            &&& s.polling() ==> s.action() == RetryAction::Sleep(
                backoff(initial_delay, s.polls),
            )
            &&& s.polling() && initial_delay * pow2(s.polls) <= u64::MAX ==> s.action()
                == RetryAction::Sleep((initial_delay * pow2(s.polls)) as u64)
        }),
{
    lemma_run_wf(start_view(goal, max_attempts, initial_delay), observed);
}

/// With no attempts allowed the loop asks for no poll and ends as exhausted.
pub proof fn no_attempts_no_polls(goal: u32, initial_delay: u64, observed: Seq<u32>)
    ensures
        start_view(goal, 0, initial_delay).action() == RetryAction::Finish(
            NavigationOutcome::Exhausted,
        ),
        run(start_view(goal, 0, initial_delay), observed) == start_view(goal, 0, initial_delay),
{
}

/// When the first poll already reports the goal, the loop ends confirmed and the
/// request is never sent again.
pub proof fn confirmed_on_first_poll(
    goal: u32,
    max_attempts: u32,
    initial_delay: u64,
    observed: Seq<u32>,
)
    requires
        max_attempts > 0,
        observed.len() > 0,
        observed[0] == goal,
    ensures
        start_view(goal, max_attempts, initial_delay).verdict(goal) == PollVerdict::Confirmed,
        run(start_view(goal, max_attempts, initial_delay), observed).reissues == 0,
        run(start_view(goal, max_attempts, initial_delay), observed).action()
            == RetryAction::Finish(NavigationOutcome::Confirmed),
{
    let first = start_view(goal, max_attempts, initial_delay).after_poll(goal);
    lemma_run_wf(first, observed.drop_first());
}

} // verus!
