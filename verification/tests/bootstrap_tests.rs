use snek_hq::bootstrap::{
    BootAction, BootEvent, BootState, BootStep, Bootstrapper, DEFAULT_RETRY_SECS,
};
use snek_hq::identifier::UidState;
use snek_hq::status::ServiceStatus;

fn online() -> ServiceStatus {
    ServiceStatus::with_default(true)
}

fn offline() -> ServiceStatus {
    ServiceStatus::with_default(false)
}

fn fetched_ok(uid: &str) -> BootEvent {
    BootEvent::Fetched(Ok(uid.to_string()))
}

fn fetched_err(line: &str) -> BootEvent {
    BootEvent::Fetched(Err(line.to_string()))
}

fn quiet(action: BootAction) -> BootStep {
    BootStep { action, log: None }
}

fn logged(action: BootAction, line: &str) -> BootStep {
    BootStep { action, log: Some(line.to_string()) }
}

/// A flow taken to `RetryWait` by an empty store and a failed first request.
fn waiting_flow(uid: &mut UidState) -> Bootstrapper {
    let mut flow = Bootstrapper::new();
    flow.step(BootEvent::StoreRead(None), uid, &online());
    flow.step(fetched_err("Failed to fetch UID"), uid, &online());
    assert_eq!(flow.state(), BootState::RetryWait);
    flow
}

#[test]
fn new_flow_waits_for_the_store() {
    let flow = Bootstrapper::new();
    assert_eq!(flow.state(), BootState::CheckLocal);
    assert_eq!(flow.retry_secs(), 5);
    assert_eq!(DEFAULT_RETRY_SECS, 5);
    assert!(!flow.is_finished());
    assert_eq!(UidState::new().get(), None);
    assert!(!UidState::new().is_set());
}

#[test]
fn stored_identifier_ends_the_flow_without_a_request() {
    let mut flow = Bootstrapper::new();
    let mut uid = UidState::new();
    let step = flow.step(BootEvent::StoreRead(Some("xyz".to_string())), &mut uid, &online());
    assert_eq!(step, quiet(BootAction::Done));
    assert_eq!(flow.state(), BootState::Persisted);
    assert!(flow.is_finished());
    assert_eq!(uid.get(), Some("xyz".to_string()));
    assert!(uid.is_set());
}

#[test]
fn stored_identifier_is_taken_even_while_offline() {
    let mut flow = Bootstrapper::new();
    let mut uid = UidState::new();
    let step = flow.step(BootEvent::StoreRead(Some("xyz".to_string())), &mut uid, &offline());
    assert_eq!(step, quiet(BootAction::Done));
    assert_eq!(uid.get(), Some("xyz".to_string()));
}

#[test]
fn after_a_stored_identifier_no_event_leads_to_a_request() {
    let mut flow = Bootstrapper::new();
    let mut uid = UidState::new();
    flow.step(BootEvent::StoreRead(Some("xyz".to_string())), &mut uid, &online());
    let later = vec![
        BootEvent::TimerElapsed,
        fetched_err("Failed to fetch UID"),
        BootEvent::StoreRead(None),
        fetched_ok("other"),
        BootEvent::StoreRead(Some("other".to_string())),
        BootEvent::TimerElapsed,
    ];
    for event in later {
        let step = flow.step(event, &mut uid, &online());
        assert_eq!(step, quiet(BootAction::Ignored));
        assert_eq!(flow.state(), BootState::Persisted);
        assert_eq!(uid.get(), Some("xyz".to_string()));
    }
}

#[test]
fn empty_store_leads_to_the_first_request() {
    let mut flow = Bootstrapper::new();
    let mut uid = UidState::new();
    let step = flow.step(BootEvent::StoreRead(None), &mut uid, &offline());
    assert_eq!(step, quiet(BootAction::Fetch));
    assert_eq!(flow.state(), BootState::FetchRemote);
    assert_eq!(uid.get(), None);
}

#[test]
fn first_request_success_persists_the_identifier() {
    let mut flow = Bootstrapper::new();
    let mut uid = UidState::new();
    flow.step(BootEvent::StoreRead(None), &mut uid, &offline());
    let step = flow.step(fetched_ok("abc123"), &mut uid, &offline());
    assert_eq!(step, quiet(BootAction::Persist { uid: "abc123".to_string() }));
    assert_eq!(flow.state(), BootState::Persisted);
    assert_eq!(uid.get(), Some("abc123".to_string()));
}

#[test]
fn first_request_failure_while_offline_is_abandoned() {
    let mut flow = Bootstrapper::new();
    let mut uid = UidState::new();
    flow.step(BootEvent::StoreRead(None), &mut uid, &offline());
    let step = flow.step(fetched_err("Failed to fetch UID"), &mut uid, &offline());
    assert_eq!(step, logged(BootAction::Done, "Failed to fetch UID"));
    assert_eq!(flow.state(), BootState::Abandoned);
    assert!(flow.is_finished());
    assert_eq!(uid.get(), None);
}

#[test]
fn abandoned_flow_never_retries() {
    let mut flow = Bootstrapper::new();
    let mut uid = UidState::new();
    flow.step(BootEvent::StoreRead(None), &mut uid, &offline());
    flow.step(fetched_err("Failed to fetch UID"), &mut uid, &offline());
    let later = vec![
        BootEvent::TimerElapsed,
        BootEvent::TimerElapsed,
        fetched_ok("late"),
        BootEvent::StoreRead(Some("late".to_string())),
        fetched_err("Failed to fetch UID"),
    ];
    for event in later {
        let step = flow.step(event, &mut uid, &online());
        assert_eq!(step, quiet(BootAction::Ignored));
        assert_eq!(flow.state(), BootState::Abandoned);
        assert_eq!(uid.get(), None);
    }
}

#[test]
fn first_request_failure_while_online_waits_one_interval() {
    let mut flow = Bootstrapper::new();
    let mut uid = UidState::new();
    flow.step(BootEvent::StoreRead(None), &mut uid, &online());
    let step = flow.step(fetched_err("Failed to parse UID response"), &mut uid, &online());
    assert_eq!(step, logged(BootAction::Sleep { secs: 5 }, "Failed to parse UID response"));
    assert_eq!(flow.state(), BootState::RetryWait);
    assert_eq!(uid.get(), None);
}

#[test]
fn nothing_is_requested_before_the_timer_fires() {
    let mut uid = UidState::new();
    let mut flow = waiting_flow(&mut uid);
    let early = vec![
        fetched_ok("early"),
        fetched_err("Failed to fetch UID"),
        BootEvent::StoreRead(None),
        BootEvent::StoreRead(Some("early".to_string())),
    ];
    for event in early {
        let step = flow.step(event, &mut uid, &online());
        assert_eq!(step, quiet(BootAction::Ignored));
        assert_eq!(flow.state(), BootState::RetryWait);
        assert_eq!(uid.get(), None);
    }
    let step = flow.step(BootEvent::TimerElapsed, &mut uid, &online());
    assert_eq!(step, quiet(BootAction::Fetch));
    assert_eq!(flow.state(), BootState::RetryFetch);
}

#[test]
fn retry_looks_at_the_flag_before_it_requests() {
    let mut uid = UidState::new();
    let mut flow = waiting_flow(&mut uid);
    let step = flow.step(BootEvent::TimerElapsed, &mut uid, &offline());
    assert_eq!(step, quiet(BootAction::Done));
    assert_eq!(flow.state(), BootState::Abandoned);
    assert_eq!(uid.get(), None);
}

#[test]
fn retry_success_persists_the_identifier() {
    let mut uid = UidState::new();
    let mut flow = waiting_flow(&mut uid);
    flow.step(BootEvent::TimerElapsed, &mut uid, &online());
    let step = flow.step(fetched_ok("abc123"), &mut uid, &online());
    assert_eq!(step, quiet(BootAction::Persist { uid: "abc123".to_string() }));
    assert_eq!(flow.state(), BootState::Persisted);
    assert_eq!(uid.get(), Some("abc123".to_string()));
}

#[test]
fn retry_failure_waits_again_whatever_the_flag() {
    for status in [online(), offline()] {
        let mut uid = UidState::new();
        let mut flow = waiting_flow(&mut uid);
        flow.step(BootEvent::TimerElapsed, &mut uid, &online());
        let step = flow.step(fetched_err("Failed to fetch UID"), &mut uid, &status);
        assert_eq!(step, logged(BootAction::Sleep { secs: 5 }, "Failed to fetch UID"));
        assert_eq!(flow.state(), BootState::RetryWait);
    }
}

#[test]
fn retry_interval_never_grows() {
    let mut flow = Bootstrapper::with_interval(9);
    let mut uid = UidState::new();
    assert_eq!(flow.retry_secs(), 9);
    flow.step(BootEvent::StoreRead(None), &mut uid, &online());
    let mut step = flow.step(fetched_err("Failed to fetch UID"), &mut uid, &online());
    for _ in 0..50 {
        assert_eq!(step.action, BootAction::Sleep { secs: 9 });
        assert_eq!(flow.step(BootEvent::TimerElapsed, &mut uid, &online()).action, BootAction::Fetch);
        step = flow.step(fetched_err("Failed to fetch UID"), &mut uid, &online());
    }
    assert_eq!(flow.state(), BootState::RetryWait);
    assert_eq!(flow.retry_secs(), 9);
}

#[test]
fn unexpected_events_are_passed_over() {
    let mut flow = Bootstrapper::new();
    let mut uid = UidState::new();
    assert_eq!(flow.step(BootEvent::TimerElapsed, &mut uid, &online()), quiet(BootAction::Ignored));
    assert_eq!(flow.step(fetched_ok("abc"), &mut uid, &online()), quiet(BootAction::Ignored));
    assert_eq!(flow.step(fetched_err("x"), &mut uid, &online()), quiet(BootAction::Ignored));
    assert_eq!(flow.state(), BootState::CheckLocal);
    assert_eq!(uid.get(), None);

    flow.step(BootEvent::StoreRead(None), &mut uid, &online());
    assert_eq!(flow.step(BootEvent::TimerElapsed, &mut uid, &online()), quiet(BootAction::Ignored));
    assert_eq!(
        flow.step(BootEvent::StoreRead(Some("abc".to_string())), &mut uid, &online()),
        quiet(BootAction::Ignored)
    );
    assert_eq!(flow.state(), BootState::FetchRemote);
    assert_eq!(uid.get(), None);

    flow.step(fetched_err("x"), &mut uid, &online());
    flow.step(BootEvent::TimerElapsed, &mut uid, &online());
    assert_eq!(flow.state(), BootState::RetryFetch);
    assert_eq!(flow.step(BootEvent::TimerElapsed, &mut uid, &online()), quiet(BootAction::Ignored));
    assert_eq!(flow.step(BootEvent::StoreRead(None), &mut uid, &online()), quiet(BootAction::Ignored));
    assert_eq!(flow.state(), BootState::RetryFetch);
    assert_eq!(uid.get(), None);
}

#[test]
fn identifier_never_reverts_to_unset() {
    let mut uid = UidState::new();
    let mut flow = waiting_flow(&mut uid);
    flow.step(BootEvent::TimerElapsed, &mut uid, &online());
    flow.step(fetched_ok("abc123"), &mut uid, &online());
    let later = vec![
        BootEvent::StoreRead(None),
        fetched_err("Failed to fetch UID"),
        BootEvent::TimerElapsed,
        fetched_ok("other"),
    ];
    for event in later {
        flow.step(event, &mut uid, &offline());
        assert_eq!(uid.get(), Some("abc123".to_string()));
        assert_eq!(flow.state(), BootState::Persisted);
    }
}

#[test]
fn store_is_written_at_most_once() {
    let mut uid = UidState::new();
    let mut flow = Bootstrapper::new();
    let events = vec![
        BootEvent::StoreRead(None),
        fetched_err("Failed to fetch UID"),
        BootEvent::TimerElapsed,
        fetched_ok("abc123"),
        fetched_ok("abc123"),
        BootEvent::TimerElapsed,
        fetched_ok("def456"),
    ];
    let mut writes = 0;
    for event in events {
        if let BootAction::Persist { uid: written } = flow.step(event, &mut uid, &online()).action {
            assert_eq!(written, "abc123");
            writes += 1;
        }
    }
    assert_eq!(writes, 1);
    assert_eq!(uid.get(), Some("abc123".to_string()));
}

#[test]
fn first_part_passes_over_the_retry_states() {
    let mut uid = UidState::new();
    let mut flow = waiting_flow(&mut uid);
    let step = flow.get_or_generate_uid(BootEvent::TimerElapsed, &mut uid, &online());
    assert_eq!(step, quiet(BootAction::Ignored));
    assert_eq!(flow.state(), BootState::RetryWait);
    let step = flow.get_or_generate_uid(fetched_ok("abc"), &mut uid, &online());
    assert_eq!(step, quiet(BootAction::Ignored));
    assert_eq!(uid.get(), None);
}

#[test]
fn retry_part_passes_over_the_first_states() {
    let mut uid = UidState::new();
    let mut flow = Bootstrapper::new();
    let step = flow.uid_retry_mechanism(BootEvent::StoreRead(None), &mut uid, &online());
    assert_eq!(step, quiet(BootAction::Ignored));
    assert_eq!(flow.state(), BootState::CheckLocal);
    flow.step(BootEvent::StoreRead(None), &mut uid, &online());
    let step = flow.uid_retry_mechanism(fetched_ok("abc"), &mut uid, &online());
    assert_eq!(step, quiet(BootAction::Ignored));
    assert_eq!(flow.state(), BootState::FetchRemote);
    assert_eq!(uid.get(), None);
}

#[test]
fn parts_agree_with_step_where_they_are_in_charge() {
    let mut uid = UidState::new();
    let mut flow = Bootstrapper::new();
    assert_eq!(
        flow.get_or_generate_uid(BootEvent::StoreRead(None), &mut uid, &online()),
        quiet(BootAction::Fetch)
    );
    assert_eq!(
        flow.get_or_generate_uid(fetched_err("Failed to fetch UID"), &mut uid, &online()),
        logged(BootAction::Sleep { secs: 5 }, "Failed to fetch UID")
    );
    assert_eq!(
        flow.uid_retry_mechanism(BootEvent::TimerElapsed, &mut uid, &online()),
        quiet(BootAction::Fetch)
    );
    assert_eq!(
        flow.uid_retry_mechanism(fetched_ok("abc123"), &mut uid, &online()),
        quiet(BootAction::Persist { uid: "abc123".to_string() })
    );
    assert_eq!(flow.state(), BootState::Persisted);
    assert_eq!(uid.get(), Some("abc123".to_string()));
}
