//! The status monitor: what one poll of the status endpoint does to the
//! liveness flag.
//!
//! The monitor polls for as long as the application runs. Each round the
//! caller performs the request, hands the outcome to
//! [`StatusMonitor::status_checker`], logs what it is told to log, waits for
//! the time it is told to wait, and polls again. A failed poll is never
//! passed on: it shows as an offline flag and nothing else.

use crate::status::ServiceStatus;
use vstd::prelude::*;

verus! {

/// The time between two polls where none is configured, in seconds.
pub const DEFAULT_POLL_SECS: u64 = 5;

/// What the caller does after a poll was applied.
pub struct PollAction {
    /// The time to wait before the next poll, in seconds.
    pub wait_secs: u64,
    /// The line to log, where the poll failed.
    pub log: Option<String>,
}

/// The flag that a poll reports: the value that came back, or offline where
/// the poll failed.
pub open spec fn poll_flag(polled: Result<bool, String>) -> bool {
    match polled {
        Ok(online) => online,
        Err(_) => false,
    }
}

/// The line that a poll leaves in the log, if any.
pub open spec fn poll_log(polled: Result<bool, String>) -> Option<String> {
    match polled {
        Ok(_) => None,
        Err(line) => Some(line),
    }
}

/// The flag after one poll. The value before the poll has no part in it.
pub open spec fn next_status(current: bool, polled: Result<bool, String>) -> bool {
    poll_flag(polled)
}

/// The flag after a run of polls, applied in order to a flag that started as
/// `initial`.
pub open spec fn status_after(initial: bool, polls: Seq<Result<bool, String>>) -> bool
    decreases polls.len(),
{
    if polls.len() == 0 {
        initial
    } else {
        next_status(status_after(initial, polls.drop_last()), polls.last())
    }
}

/// The lines that a run of polls leaves in the log, in order.
pub open spec fn failure_lines(polls: Seq<Result<bool, String>>) -> Seq<String>
    decreases polls.len(),
{
    if polls.len() == 0 {
        Seq::empty()
    } else {
        match poll_log(polls.last()) {
            Some(line) => failure_lines(polls.drop_last()).push(line),
            None => failure_lines(polls.drop_last()),
        }
    }
}

/// The periodic poller of the status endpoint.
pub struct StatusMonitor {
    interval_secs: u64,
}

impl StatusMonitor {
    /// The time between two polls, in seconds.
    pub closed spec fn interval(&self) -> u64 {
        self.interval_secs
    }

    /// A monitor that polls every `DEFAULT_POLL_SECS` seconds.
    pub fn new() -> (m: Self)
        ensures
            m.interval() == DEFAULT_POLL_SECS,
    {
        StatusMonitor { interval_secs: DEFAULT_POLL_SECS }
    }

    /// A monitor that polls every `interval_secs` seconds.
    pub fn with_interval(interval_secs: u64) -> (m: Self)
        ensures
            m.interval() == interval_secs,
    {
        StatusMonitor { interval_secs }
    }

    /// The time between two polls, in seconds.
    pub fn interval_secs(&self) -> (secs: u64)
        ensures
            secs == self.interval(),
    {
        self.interval_secs
    }

    /// Applies the outcome of one poll to the flag.
    ///
    /// A poll that succeeded sets the flag to the value it returned. A poll
    /// that failed sets the flag to offline and hands its line back for the
    /// log. Either way the next poll is due after one interval: there is no
    /// back-off and no limit on the number of rounds.
    pub fn status_checker(
        &self,
        service_status: &mut ServiceStatus,
        polled: Result<bool, String>,
    ) -> (action: PollAction)
        ensures
            final(service_status)@ == next_status(old(service_status)@, polled),
            action.wait_secs == self.interval(),
            action.log == poll_log(polled),
    {
        match polled {
            Ok(online) => {
                service_status.set(online);
                PollAction { wait_secs: self.interval_secs, log: None }
            },
            Err(line) => {
                service_status.set(false);
                PollAction { wait_secs: self.interval_secs, log: Some(line) }
            },
        }
    }

    /// Applies a recorded run of polls in order and returns the lines that
    /// were logged on the way.
    pub fn replay(
        &self,
        service_status: &mut ServiceStatus,
        polls: &Vec<Result<bool, String>>,
    ) -> (log: Vec<String>)
        ensures
            final(service_status)@ == status_after(old(service_status)@, polls@),
            log@ == failure_lines(polls@),
    {
        let mut log: Vec<String> = Vec::new();
        let mut i: usize = 0;
        while i < polls.len()
            invariant
                i <= polls.len(),
                service_status@ == status_after(old(service_status)@, polls@.take(i as int)),
                log@ == failure_lines(polls@.take(i as int)),
            decreases polls.len() - i,
        {
            let polled: Result<bool, String> = match &polls[i] {
                Ok(online) => Ok(*online),
                Err(line) => Err(line.clone()),
            };
            assert(polls@.take(i + 1).drop_last() == polls@.take(i as int));
            let action = self.status_checker(service_status, polled);
            match action.log {
                Some(line) => {
                    log.push(line);
                },
                None => {},
            }
            i = i + 1;
        }
        assert(polls@.take(i as int) == polls@);
        log
    }
}

/// However the flag started and whatever came before, after `n` polls the
/// flag is what the `n`-th poll reported: the value it returned where it
/// succeeded, offline where it failed.
pub proof fn lemma_status_follows_latest_poll(
    initial: bool,
    polls: Seq<Result<bool, String>>,
    n: int,
)
    requires
        1 <= n <= polls.len(),
    ensures
        status_after(initial, polls.take(n)) == poll_flag(polls[n - 1]),
        polls[n - 1] is Err ==> status_after(initial, polls.take(n)) == false,
        polls[n - 1] matches Ok(online) ==> status_after(initial, polls.take(n)) == online,
        n == polls.len() ==> status_after(initial, polls) == poll_flag(polls.last()),
{
    if n == polls.len() {
        assert(polls.take(n) == polls);
    }
}

} // verus!
