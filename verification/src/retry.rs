use crate::error::SpeechApiError;
use vstd::prelude::*;

verus! {

/// How often the event connection is tried, and how long to wait between
/// two tries. The wait is the same each time.
#[derive(Debug, Clone, Copy, PartialEq, Eq, Structural)]
pub struct RetryPolicy {
    pub max_attempts: u32,
    pub delay_millis: u64,
}

impl RetryPolicy {
    /// The policy used where the caller names none: 30 attempts, two
    /// seconds apart.
    pub fn standard() -> (r: Self)
        ensures
            r.max_attempts == 30,
            r.delay_millis == 2000,
    {
        RetryPolicy { max_attempts: 30, delay_millis: 2000 }
    }
}

/// What to do once an attempt has ended.
#[derive(Debug, Clone, Copy, PartialEq, Eq, Structural)]
pub enum ConnectStep {
    /// The attempt succeeded: use the connection.
    Connected,
    /// The attempt failed and another is due: wait the delay, then try.
    RetryAfterDelay,
    /// The attempt failed and was the last: report its error as a
    /// transport error.
    GiveUp,
}

/// The count of connection attempts made against a limit. The first attempt
/// is always made, so a limit of zero allows one.
#[derive(Debug, Clone, Copy)]
pub struct ConnectAttempts {
    pub max_attempts: u32,
    pub attempts: u32,
    pub finished: Option<ConnectStep>,
}

impl ConnectAttempts {
    /// Every state that `new` and `record_attempt` can produce.
    pub open spec fn wf(self) -> bool {
        match self.finished {
            None => self.attempts == 0 || self.attempts < self.max_attempts,
            Some(step) => !(step is RetryAfterDelay) && self.attempts >= 1,
        }
    }

    /// The number of attempts after which a run of failures gives up.
    pub open spec fn spec_limit(max_attempts: u32) -> int {
        if max_attempts == 0 {
            1
        } else {
            max_attempts as int
        }
    }

    /// The step that follows an attempt's result in this state.
    pub open spec fn spec_step(self, succeeded: bool) -> ConnectStep {
        match self.finished {
            Some(step) => step,
            None => if succeeded {
                ConnectStep::Connected
            } else if self.attempts + 1 >= self.max_attempts {
                ConnectStep::GiveUp
            } else {
                ConnectStep::RetryAfterDelay
            },
        }
    }

    /// The state after an attempt's result. Once finished, nothing changes.
    pub open spec fn after(self, succeeded: bool) -> ConnectAttempts {
        match self.finished {
            Some(_) => self,
            None => ConnectAttempts {
                max_attempts: self.max_attempts,
                attempts: (self.attempts + 1) as u32,
                finished: if self.spec_step(succeeded) is RetryAfterDelay {
                    None
                } else {
                    Some(self.spec_step(succeeded))
                },
            },
        }
    }

    /// The state after a run of results, in their order.
    pub open spec fn after_all(self, results: Seq<bool>) -> ConnectAttempts
        decreases results.len(),
    {
        if results.len() == 0 {
            self
        } else {
            self.after_all(results.drop_last()).after(results.last())
        }
    }

    /// The state before the first attempt.
    pub open spec fn spec_new(max_attempts: u32) -> ConnectAttempts {
        ConnectAttempts { max_attempts, attempts: 0, finished: None }
    }

    /// No attempt made yet.
    pub fn new(max_attempts: u32) -> (r: Self)
        ensures
            r == Self::spec_new(max_attempts),
            r.wf(),
    {
        ConnectAttempts { max_attempts, attempts: 0, finished: None }
    }

    /// Counts one attempt that has ended and says what follows.
    pub fn record_attempt(&mut self, succeeded: bool) -> (step: ConnectStep)
        requires
            old(self).wf(),
        ensures
            step == old(self).spec_step(succeeded),
            *final(self) == old(self).after(succeeded),
            final(self).wf(),
    {
        match self.finished {
            Some(step) => step,
            None => {
                self.attempts = self.attempts + 1;
                if succeeded {
                    self.finished = Some(ConnectStep::Connected);
                    ConnectStep::Connected
                } else if self.attempts >= self.max_attempts {
                    self.finished = Some(ConnectStep::GiveUp);
                    ConnectStep::GiveUp
                } else {
                    ConnectStep::RetryAfterDelay
                }
            },
        }
    }
}

/// The error of a run that gave up: what the last attempt failed with,
/// as a transport error.
pub fn exhausted_error(last_error: String) -> (e: SpeechApiError)
    ensures
        e == SpeechApiError::WebSocketError(last_error),
{
    SpeechApiError::WebSocketError(last_error)
}

/// Failures short of the limit leave the run open and are all counted.
pub proof fn lemma_failures_below_limit(max_attempts: u32, results: Seq<bool>)
    requires
        results.len() == 0 || results.len() < max_attempts,
        forall|i: int| 0 <= i < results.len() ==> !results[i],
    ensures
        ({
            let end = ConnectAttempts::spec_new(max_attempts).after_all(results);
            &&& end.finished is None
            &&& end.attempts == results.len()
            &&& end.max_attempts == max_attempts
        }),
    decreases results.len(),
{
    if results.len() > 0 {
        lemma_failures_below_limit(max_attempts, results.drop_last());
    }
}

/// A connector that fails all but the last of `max_attempts` tries and then
/// succeeds: the run ends connected after exactly that many attempts, and
/// not before.
pub proof fn lemma_success_on_last_attempt(max_attempts: u32, results: Seq<bool>)
    requires
        max_attempts >= 1,
        results.len() == max_attempts,
        forall|i: int| 0 <= i < results.len() - 1 ==> !results[i],
        results.last(),
    ensures
        ({
            let start = ConnectAttempts::spec_new(max_attempts);
            &&& start.after_all(results).finished == Some(ConnectStep::Connected)
            &&& start.after_all(results).attempts == max_attempts
            &&& start.after_all(results.drop_last()).finished is None
        }),
{
    lemma_failures_below_limit(max_attempts, results.drop_last());
}

/// A connector that always fails: the run gives up after exactly
/// `max_attempts` attempts (after one where the limit is zero), and not
/// before.
pub proof fn lemma_gives_up_at_limit(max_attempts: u32, results: Seq<bool>)
    requires
        results.len() == ConnectAttempts::spec_limit(max_attempts),
        forall|i: int| 0 <= i < results.len() ==> !results[i],
    ensures
        ({
            let start = ConnectAttempts::spec_new(max_attempts);
            &&& start.after_all(results).finished == Some(ConnectStep::GiveUp)
            &&& start.after_all(results).attempts == ConnectAttempts::spec_limit(max_attempts)
            &&& start.after_all(results.drop_last()).finished is None
        }),
{
    lemma_failures_below_limit(max_attempts, results.drop_last());
}

/// Whatever the results, a run never counts more attempts than its limit,
/// counts each result until it has finished, and has finished once as many
/// results as the limit have come.
pub proof fn lemma_run_is_bounded(max_attempts: u32, results: Seq<bool>)
    ensures
        ({
            let end = ConnectAttempts::spec_new(max_attempts).after_all(results);
            let limit = ConnectAttempts::spec_limit(max_attempts);
            &&& end.wf()
            &&& end.max_attempts == max_attempts
            &&& end.attempts <= limit
            &&& end.attempts <= results.len()
            &&& end.finished is None ==> end.attempts == results.len()
            &&& results.len() >= limit ==> end.finished is Some
        }),
    decreases results.len(),
{
    if results.len() > 0 {
        lemma_run_is_bounded(max_attempts, results.drop_last());
    }
}

} // verus!
