//! The identifier bootstrapper: the start-up flow that obtains the client
//! identifier and has it persisted.
//!
//! The flow is a state machine. It looks in the local store first. Where
//! the store holds an identifier, that one is taken and no request is made.
//! Otherwise one is requested from the identifier endpoint; where that
//! fails, the flow retries at a fixed interval for as long as the service is
//! seen online, and gives up as soon as it is seen offline.
//!
//! The machine performs nothing itself. A new machine waits for the store:
//! the caller reads [`UID_KEY`](crate::store::UID_KEY) and reports what it
//! found as [`BootEvent::StoreRead`]. From then on every call of
//! [`Bootstrapper::step`] answers with the next thing to do, and the
//! caller reports back when it is done.

use crate::identifier::UidState;
use crate::status::ServiceStatus;
use vstd::prelude::*;

verus! {

/// The time between two attempts where none is configured, in seconds.
pub const DEFAULT_RETRY_SECS: u64 = 5;

/// Where the flow stands.
#[derive(Clone, Copy, PartialEq, Eq, Debug, Structural)]
pub enum BootState {
    /// The local store is being read.
    CheckLocal,
    /// The first request to the identifier endpoint is under way.
    FetchRemote,
    /// A request failed while the service was online; the flow waits one
    /// interval before it looks again.
    RetryWait,
    /// A repeated request to the identifier endpoint is under way.
    RetryFetch,
    /// The identifier is known. Final.
    Persisted,
    /// The flow gave up with the identifier unset. Final.
    Abandoned,
}

/// What the caller reports to the flow.
#[derive(PartialEq, Eq, Debug)]
pub enum BootEvent {
    /// The store was read: the identifier found there, if any.
    StoreRead(Option<String>),
    /// A request to the identifier endpoint finished: the identifier, or
    /// the line that describes the failure.
    Fetched(Result<String, String>),
    /// The time asked for by [`BootAction::Sleep`] has passed.
    TimerElapsed,
}

/// What the flow asks of the caller.
#[derive(PartialEq, Eq, Debug)]
pub enum BootAction {
    /// Request an identifier from the identifier endpoint and report the
    /// outcome as [`BootEvent::Fetched`].
    Fetch,
    /// Wait for `secs` seconds and report [`BootEvent::TimerElapsed`].
    Sleep { secs: u64 },
    /// Write `uid` to the store under the identifier key, on a best-effort
    /// basis. The flow has finished.
    Persist { uid: String },
    /// Nothing more: the flow has finished.
    Done,
    /// The event was not expected where the flow stands, and was passed
    /// over. What the flow waited for before, it still waits for.
    Ignored,
}

/// The answer of the flow to one event.
#[derive(PartialEq, Eq, Debug)]
pub struct BootStep {
    /// What to do next.
    pub action: BootAction,
    /// The line to log, where a request failed.
    pub log: Option<String>,
}

/// A [`BootEvent`] with its strings as sequences of characters.
pub enum BootEventView {
    StoreRead(Option<Seq<char>>),
    Fetched(Result<Seq<char>, Seq<char>>),
    TimerElapsed,
}

/// A [`BootAction`] with its string as a sequence of characters.
pub enum BootActionView {
    Fetch,
    Sleep { secs: u64 },
    Persist { uid: Seq<char> },
    Done,
    Ignored,
}

/// A [`BootStep`] with its strings as sequences of characters.
pub struct BootStepView {
    pub action: BootActionView,
    pub log: Option<Seq<char>>,
}

impl View for BootEvent {
    type V = BootEventView;

    open spec fn view(&self) -> BootEventView {
        match *self {
            BootEvent::StoreRead(Some(uid)) => BootEventView::StoreRead(Some(uid@)),
            BootEvent::StoreRead(None) => BootEventView::StoreRead(None),
            BootEvent::Fetched(Ok(uid)) => BootEventView::Fetched(Ok(uid@)),
            BootEvent::Fetched(Err(line)) => BootEventView::Fetched(Err(line@)),
            BootEvent::TimerElapsed => BootEventView::TimerElapsed,
        }
    }
}

impl View for BootAction {
    type V = BootActionView;

    open spec fn view(&self) -> BootActionView {
        match *self {
            BootAction::Fetch => BootActionView::Fetch,
            BootAction::Sleep { secs } => BootActionView::Sleep { secs },
            BootAction::Persist { uid } => BootActionView::Persist { uid: uid@ },
            BootAction::Done => BootActionView::Done,
            BootAction::Ignored => BootActionView::Ignored,
        }
    }
}

impl View for BootStep {
    type V = BootStepView;

    open spec fn view(&self) -> BootStepView {
        BootStepView {
            action: self.action@,
            log: match self.log {
                Some(line) => Some(line@),
                None => None,
            },
        }
    }
}

/// All that the flow's next move depends on, apart from the event.
pub struct BootModel {
    /// Where the flow stands.
    pub state: BootState,
    /// The shared identifier.
    pub uid: Option<Seq<char>>,
    /// The time between two attempts, in seconds.
    pub retry_secs: u64,
}

/// An event together with the liveness flag as it stood when the event was
/// reported.
pub struct BootInput {
    pub event: BootEventView,
    pub online: bool,
}

/// The result of one move: the flow afterwards and its answer.
pub struct BootOutcome {
    pub next: BootModel,
    pub step: BootStepView,
}

/// The input made of `event` and `online`.
pub open spec fn boot_input(event: BootEventView, online: bool) -> BootInput {
    BootInput { event, online }
}

/// The move that leaves everything as it is.
pub open spec fn pass_over(m: BootModel) -> BootOutcome {
    BootOutcome { next: m, step: BootStepView { action: BootActionView::Ignored, log: None } }
}

/// The move that ends the flow with `uid` as the identifier. `write` says
/// whether the identifier still has to be written to the store.
pub open spec fn finish_with(m: BootModel, uid: Seq<char>, write: bool) -> BootOutcome {
    BootOutcome {
        next: BootModel { state: BootState::Persisted, uid: Some(uid), retry_secs: m.retry_secs },
        step: BootStepView {
            action: if write {
                BootActionView::Persist { uid }
            } else {
                BootActionView::Done
            },
            log: None,
        },
    }
}

/// The move to `state` that leaves the identifier alone and answers with
/// `action` and `log`.
pub open spec fn move_to(
    m: BootModel,
    state: BootState,
    action: BootActionView,
    log: Option<Seq<char>>,
) -> BootOutcome {
    BootOutcome {
        next: BootModel { state, uid: m.uid, retry_secs: m.retry_secs },
        step: BootStepView { action, log },
    }
}

/// The first part of the flow: the look into the store, the first request,
/// and the decision that follows where the request failed.
pub open spec fn initial_flow(m: BootModel, input: BootInput) -> BootOutcome {
    match (m.state, input.event) {
        (BootState::CheckLocal, BootEventView::StoreRead(Some(uid))) => finish_with(m, uid, false),
        (BootState::CheckLocal, BootEventView::StoreRead(None)) => move_to(
            m,
            BootState::FetchRemote,
            BootActionView::Fetch,
            None,
        ),
        (BootState::FetchRemote, BootEventView::Fetched(Ok(uid))) => finish_with(m, uid, true),
        (BootState::FetchRemote, BootEventView::Fetched(Err(line))) => if input.online {
            move_to(
                m,
                BootState::RetryWait,
                BootActionView::Sleep { secs: m.retry_secs },
                Some(line),
            )
        } else {
            move_to(m, BootState::Abandoned, BootActionView::Done, Some(line))
        },
        _ => pass_over(m),
    }
}

/// The retry loop: wait one interval, look at the liveness flag, and
/// request again only where the service is online.
pub open spec fn retry_flow(m: BootModel, input: BootInput) -> BootOutcome {
    match (m.state, input.event) {
        (BootState::RetryWait, BootEventView::TimerElapsed) => if input.online {
            move_to(m, BootState::RetryFetch, BootActionView::Fetch, None)
        } else {
            move_to(m, BootState::Abandoned, BootActionView::Done, None)
        },
        (BootState::RetryFetch, BootEventView::Fetched(Ok(uid))) => finish_with(m, uid, true),
        (BootState::RetryFetch, BootEventView::Fetched(Err(line))) => move_to(
            m,
            BootState::RetryWait,
            BootActionView::Sleep { secs: m.retry_secs },
            Some(line),
        ),
        _ => pass_over(m),
    }
}

/// One move of the flow.
pub open spec fn boot_step(m: BootModel, input: BootInput) -> BootOutcome {
    match m.state {
        BootState::CheckLocal | BootState::FetchRemote => initial_flow(m, input),
        BootState::RetryWait | BootState::RetryFetch => retry_flow(m, input),
        BootState::Persisted | BootState::Abandoned => pass_over(m),
    }
}

/// The identifier bootstrapper.
pub struct Bootstrapper {
    state: BootState,
    retry_secs: u64,
}

impl Bootstrapper {
    /// Where the flow stands.
    pub closed spec fn phase(&self) -> BootState {
        self.state
    }

    /// The time between two attempts, in seconds.
    pub closed spec fn interval(&self) -> u64 {
        self.retry_secs
    }

    /// The flow together with the shared identifier `uid`.
    pub open spec fn model(&self, uid: Option<Seq<char>>) -> BootModel {
        BootModel { state: self.phase(), uid, retry_secs: self.interval() }
    }

    /// A flow at its start, which retries every `DEFAULT_RETRY_SECS`
    /// seconds.
    pub fn new() -> (b: Self)
        ensures
            b.phase() == BootState::CheckLocal,
            b.interval() == DEFAULT_RETRY_SECS,
    {
        Bootstrapper { state: BootState::CheckLocal, retry_secs: DEFAULT_RETRY_SECS }
    }

    /// A flow at its start, which retries every `retry_secs` seconds.
    pub fn with_interval(retry_secs: u64) -> (b: Self)
        ensures
            b.phase() == BootState::CheckLocal,
            b.interval() == retry_secs,
    {
        Bootstrapper { state: BootState::CheckLocal, retry_secs }
    }

    /// Where the flow stands.
    pub fn state(&self) -> (state: BootState)
        ensures
            state == self.phase(),
    {
        self.state
    }

    /// The time between two attempts, in seconds.
    pub fn retry_secs(&self) -> (secs: u64)
        ensures
            secs == self.interval(),
    {
        self.retry_secs
    }

    /// Whether the flow has ended, with or without an identifier.
    pub fn is_finished(&self) -> (finished: bool)
        ensures
            finished == (self.phase() == BootState::Persisted || self.phase()
                == BootState::Abandoned),
    {
        match self.state {
            BootState::Persisted | BootState::Abandoned => true,
            _ => false,
        }
    }

    /// Ends the flow with `uid` as the identifier.
    fn finish(&mut self, uid: String, write: bool, uid_state: &mut UidState) -> (out: BootStep)
        ensures
            final(self).model(final(uid_state)@) == finish_with(
                old(self).model(old(uid_state)@),
                uid@,
                write,
            ).next,
            out@ == finish_with(old(self).model(old(uid_state)@), uid@, write).step,
    {
        let action = if write {
            BootAction::Persist { uid: uid.clone() }
        } else {
            BootAction::Done
        };
        uid_state.set(uid);
        self.state = BootState::Persisted;
        BootStep { action, log: None }
    }

    /// The first part of the flow.
    ///
    /// While the store is being read: an identifier found there becomes the
    /// shared identifier and ends the flow, with no request made; an empty
    /// store leads to the first request. While the first request is under
    /// way: an identifier that came back becomes the shared identifier and
    /// is handed out to be written to the store; a failure is logged, and
    /// the flow goes on to retry only if `service_status` reports the
    /// service online at this moment. Otherwise it gives up for good.
    ///
    /// Any other event, and any event in another state, is passed over.
    pub fn get_or_generate_uid(
        &mut self,
        event: BootEvent,
        uid_state: &mut UidState,
        service_status: &ServiceStatus,
    ) -> (out: BootStep)
        ensures
            final(self).model(final(uid_state)@) == initial_flow(
                old(self).model(old(uid_state)@),
                boot_input(event@, service_status@),
            ).next,
            out@ == initial_flow(
                old(self).model(old(uid_state)@),
                boot_input(event@, service_status@),
            ).step,
    {
        match self.state {
            BootState::CheckLocal => match event {
                BootEvent::StoreRead(Some(uid)) => self.finish(uid, false, uid_state),
                BootEvent::StoreRead(None) => {
                    self.state = BootState::FetchRemote;
                    BootStep { action: BootAction::Fetch, log: None }
                },
                _ => BootStep { action: BootAction::Ignored, log: None },
            },
            BootState::FetchRemote => match event {
                BootEvent::Fetched(Ok(uid)) => self.finish(uid, true, uid_state),
                BootEvent::Fetched(Err(line)) => {
                    if service_status.get() {
                        self.state = BootState::RetryWait;
                        BootStep {
                            action: BootAction::Sleep { secs: self.retry_secs },
                            log: Some(line),
                        }
                    } else {
                        self.state = BootState::Abandoned;
                        BootStep { action: BootAction::Done, log: Some(line) }
                    }
                },
                _ => BootStep { action: BootAction::Ignored, log: None },
            },
            _ => BootStep { action: BootAction::Ignored, log: None },
        }
    }

    /// The retry loop.
    ///
    /// When the interval has passed, the liveness flag is looked at before
    /// anything is requested: with the service offline the flow gives up at
    /// once, with the service online it requests again. An identifier that
    /// came back becomes the shared identifier and is handed out to be
    /// written to the store, which ends the flow. A failure is logged and
    /// followed by another wait of one interval. The interval never grows
    /// and the attempts are not counted.
    ///
    /// Any other event, and any event in another state, is passed over.
    pub fn uid_retry_mechanism(
        &mut self,
        event: BootEvent,
        uid_state: &mut UidState,
        service_status: &ServiceStatus,
    ) -> (out: BootStep)
        ensures
            final(self).model(final(uid_state)@) == retry_flow(
                old(self).model(old(uid_state)@),
                boot_input(event@, service_status@),
            ).next,
            out@ == retry_flow(
                old(self).model(old(uid_state)@),
                boot_input(event@, service_status@),
            ).step,
    {
        match self.state {
            BootState::RetryWait => match event {
                BootEvent::TimerElapsed => {
                    if service_status.get() {
                        self.state = BootState::RetryFetch;
                        BootStep { action: BootAction::Fetch, log: None }
                    } else {
                        self.state = BootState::Abandoned;
                        BootStep { action: BootAction::Done, log: None }
                    }
                },
                _ => BootStep { action: BootAction::Ignored, log: None },
            },
            BootState::RetryFetch => match event {
                BootEvent::Fetched(Ok(uid)) => self.finish(uid, true, uid_state),
                BootEvent::Fetched(Err(line)) => {
                    self.state = BootState::RetryWait;
                    BootStep {
                        action: BootAction::Sleep { secs: self.retry_secs },
                        log: Some(line),
                    }
                },
                _ => BootStep { action: BootAction::Ignored, log: None },
            },
            _ => BootStep { action: BootAction::Ignored, log: None },
        }
    }

    /// Takes the flow one move further: hands `event` to the part of the
    /// flow that is in charge where the flow stands. A flow that has
    /// finished passes every event over.
    pub fn step(
        &mut self,
        event: BootEvent,
        uid_state: &mut UidState,
        service_status: &ServiceStatus,
    ) -> (out: BootStep)
        ensures
            final(self).model(final(uid_state)@) == boot_step(
                old(self).model(old(uid_state)@),
                boot_input(event@, service_status@),
            ).next,
            out@ == boot_step(
                old(self).model(old(uid_state)@),
                boot_input(event@, service_status@),
            ).step,
            old(uid_state)@ is Some ==> final(uid_state)@ is Some,
    {
        match self.state {
            BootState::CheckLocal | BootState::FetchRemote => self.get_or_generate_uid(
                event,
                uid_state,
                service_status,
            ),
            BootState::RetryWait | BootState::RetryFetch => self.uid_retry_mechanism(
                event,
                uid_state,
                service_status,
            ),
            BootState::Persisted | BootState::Abandoned => BootStep {
                action: BootAction::Ignored,
                log: None,
            },
        }
    }
}

} // verus!
