use winterreise::navigation::{NavigationOutcome, PollVerdict, RetryAction, RetryLoop};

/// Drives a loop against a scripted sequence of poll results; returns the sleeps,
/// the number of re-sent requests and the outcome.
fn drive(goal: u32, max_attempts: u32, initial: u64, polls: &[u32]) -> (Vec<u64>, u32, NavigationOutcome) {
    let mut lp = RetryLoop::new(goal, max_attempts, initial);
    let mut sleeps = Vec::new();
    let mut reissued = 0;
    let mut next_poll = 0;
    loop {
        match lp.next_action() {
            RetryAction::Finish(o) => return (sleeps, reissued, o),
            RetryAction::Sleep(d) => {
                sleeps.push(d);
                let seen = polls[next_poll];
                next_poll += 1;
                if lp.observe(seen) == PollVerdict::Reissue {
                    reissued += 1;
                }
            }
        }
    }
}

#[test]
fn confirmed_on_third_poll() {
    let (sleeps, reissued, outcome) = drive(3, 3, 100, &[1, 2, 3]);
    assert_eq!(outcome, NavigationOutcome::Confirmed);
    assert_eq!(reissued, 2);
    assert_eq!(&sleeps[..2], &[100, 200]);
    assert_eq!(sleeps, vec![100, 200, 400]);
}

#[test]
fn zero_attempts_never_polls() {
    let lp = RetryLoop::new(7, 0, 100);
    assert_eq!(lp.next_action(), RetryAction::Finish(NavigationOutcome::Exhausted));
    assert_eq!(lp.polls(), 0);
}

#[test]
fn already_active_sends_nothing() {
    let mut lp = RetryLoop::new(7, 5, 100);
    assert_eq!(lp.next_action(), RetryAction::Sleep(100));
    assert_eq!(lp.observe(7), PollVerdict::Confirmed);
    assert_eq!(lp.reissues(), 0);
    assert_eq!(lp.next_action(), RetryAction::Finish(NavigationOutcome::Confirmed));
}

#[test]
fn delays_double_until_exhausted() {
    let (sleeps, reissued, outcome) = drive(9, 4, 50, &[1, 1, 1, 1]);
    assert_eq!(sleeps, vec![50, 100, 200, 400]);
    assert_eq!(reissued, 4);
    assert_eq!(outcome, NavigationOutcome::Exhausted);
}

#[test]
fn delay_saturates_at_the_top() {
    let big = u64::MAX / 2 + 1;
    let (sleeps, _, outcome) = drive(9, 3, big, &[1, 1, 1]);
    assert_eq!(sleeps, vec![big, u64::MAX, u64::MAX]);
    assert_eq!(outcome, NavigationOutcome::Exhausted);
}

#[test]
fn desktop_switch_confirms_on_index() {
    let (sleeps, reissued, outcome) = drive(2, 3, 10, &[0, 2]);
    assert_eq!(sleeps, vec![10, 20]);
    assert_eq!(reissued, 1);
    assert_eq!(outcome, NavigationOutcome::Confirmed);
}
