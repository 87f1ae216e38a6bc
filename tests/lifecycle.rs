use winble::connection::{
    connect_begin, connect_complete, connected_result, connection_event, ConnectStep,
};
use winble::discovery::{
    characteristics_listing, descriptors_listing, services_listing, Enumeration, Listing,
    ServiceCache,
};
use winble::setup::{Setup, SetupAction, SetupStage};
use winble::teardown::{Teardown, TeardownAction};
use winble::{CacheMode, CommunicationStatus, ConnectionStatus, Error};

fn run_setup(outcomes: &[bool]) -> Vec<SetupAction> {
    let mut setup = Setup::new();
    let mut actions = vec![setup.action()];
    for ok in outcomes {
        actions.push(setup.advance(*ok));
    }
    actions
}

#[test]
fn status_codes_are_read() {
    assert_eq!(CommunicationStatus::from_code(0), CommunicationStatus::Success);
    assert_eq!(CommunicationStatus::from_code(2), CommunicationStatus::ProtocolError);
    assert_eq!(CommunicationStatus::from_code(1), CommunicationStatus::Failure(1));
    assert_eq!(CommunicationStatus::from_code(3), CommunicationStatus::Failure(3));
    assert_eq!(ConnectionStatus::from_code(1), ConnectionStatus::Connected);
    assert_eq!(ConnectionStatus::from_code(0), ConnectionStatus::Disconnected);
}

#[test]
fn status_results() {
    assert_eq!(CommunicationStatus::Success.to_result(), Ok(()));
    assert_eq!(
        CommunicationStatus::ProtocolError.to_result(),
        Err(Error::Other("the peripheral rejected the request with a protocol error".to_string()))
    );
    assert_eq!(
        CommunicationStatus::Failure(3).to_result(),
        Err(Error::Other("the request did not complete successfully".to_string()))
    );
}

#[test]
fn unresolved_address_is_device_not_found() {
    for rest in [vec![], vec![true], vec![true, true, false, true]] {
        let mut outcomes = vec![false];
        outcomes.extend(rest);
        let actions = run_setup(&outcomes);
        assert_eq!(actions[0], SetupAction::Resolve);
        assert_eq!(actions[1], SetupAction::Finish(Err(Error::DeviceNotFound)));
        assert!(actions[1..]
            .iter()
            .all(|a| *a == SetupAction::Finish(Err(Error::DeviceNotFound))));
        assert!(!actions.contains(&SetupAction::SubscribeStatus));
    }
}

#[test]
fn failed_session_is_device_not_found() {
    let actions = run_setup(&[true, false]);
    assert_eq!(
        actions,
        vec![
            SetupAction::Resolve,
            SetupAction::OpenSession,
            SetupAction::Finish(Err(Error::DeviceNotFound)),
        ]
    );
}

#[test]
fn refused_status_subscription_fails_construction() {
    let actions = run_setup(&[true, true, false]);
    assert_eq!(
        actions.last(),
        Some(&SetupAction::Finish(Err(Error::Other("could not add the connection status handler".to_string()))))
    );
    assert!(!actions.contains(&SetupAction::ReportInitialPdu));
}

#[test]
fn refused_pdu_subscription_rolls_back() {
    let actions = run_setup(&[true, true, true, true, false, false]);
    assert_eq!(
        actions,
        vec![
            SetupAction::Resolve,
            SetupAction::OpenSession,
            SetupAction::SubscribeStatus,
            SetupAction::ReportInitialPdu,
            SetupAction::SubscribePdu,
            SetupAction::UnsubscribeStatus,
            SetupAction::Finish(Err(Error::Other("could not add the max PDU size changed handler".to_string()))),
        ]
    );
}

#[derive(Debug, PartialEq)]
enum Callback {
    Pdu(u16),
    Connected(bool),
}

#[test]
fn construction_reports_initial_pdu_once_before_live_events() {
    // The address AA:BB:CC:DD:EE:FF resolves, the session opens, and the
    // session's current maximum PDU size is 247.
    let current_pdu: u16 = 247;
    let mut history = Vec::new();
    let mut setup = Setup::new();
    let mut action = setup.action();
    let mut pdu_subscribed = false;
    loop {
        let ok = match &action {
            SetupAction::Finish(result) => {
                assert_eq!(*result, Ok(()));
                break;
            }
            SetupAction::ReportInitialPdu => {
                history.push(Callback::Pdu(current_pdu));
                true
            }
            SetupAction::SubscribePdu => {
                pdu_subscribed = true;
                true
            }
            _ => true,
        };
        action = setup.advance(ok);
    }
    assert!(pdu_subscribed);
    assert_eq!(setup.current_stage(), SetupStage::Ready);
    assert_eq!(history, vec![Callback::Pdu(247)]);
    // A live status event then reports the device connected.
    if let Some(v) = connection_event(Some(Ok(ConnectionStatus::Connected))) {
        history.push(Callback::Connected(v));
    }
    assert_eq!(history, vec![Callback::Pdu(247), Callback::Connected(true)]);
}

#[test]
fn connection_events() {
    assert_eq!(connection_event(Some(Ok(ConnectionStatus::Connected))), Some(true));
    assert_eq!(connection_event(Some(Ok(ConnectionStatus::Disconnected))), Some(false));
    assert_eq!(connection_event(Some(Err("gone".to_string()))), Some(false));
    assert_eq!(connection_event(None), None);
}

#[test]
fn is_connected_queries() {
    assert_eq!(connected_result(Ok(ConnectionStatus::Connected)), Ok(true));
    assert_eq!(connected_result(Ok(ConnectionStatus::Disconnected)), Ok(false));
    assert_eq!(
        connected_result(Err("query failed".to_string())),
        Err(Error::Other("query failed".to_string()))
    );
}

#[test]
fn connect_when_connected_does_not_discover() {
    let step = connect_begin(connected_result(Ok(ConnectionStatus::Connected)));
    assert_eq!(step, ConnectStep::Done(Ok(())));
}

#[test]
fn connect_when_disconnected_discovers_uncached() {
    let step = connect_begin(connected_result(Ok(ConnectionStatus::Disconnected)));
    assert_eq!(step, ConnectStep::Discover(CacheMode::Uncached));
    let step = connect_begin(Err(Error::Other("no handle".to_string())));
    assert_eq!(step, ConnectStep::Done(Err(Error::Other("no handle".to_string()))));
}

#[test]
fn connect_results_follow_status() {
    assert_eq!(connect_complete(Ok(Some(CommunicationStatus::Success))), Ok(()));
    assert_eq!(
        connect_complete(Ok(Some(CommunicationStatus::ProtocolError))),
        Err(Error::Other("the peripheral rejected the request with a protocol error".to_string()))
    );
    assert_eq!(
        connect_complete(Ok(Some(CommunicationStatus::Failure(1)))),
        Err(Error::Other("the request did not complete successfully".to_string()))
    );
    assert_eq!(
        connect_complete(Ok(None)),
        Err(Error::Other("the status of the enumeration could not be read".to_string()))
    );
    assert_eq!(
        connect_complete(Err("enumeration failed".to_string())),
        Err(Error::Other("enumeration failed".to_string()))
    );
}

/// Completes a service discovery the way a device does: the enumerated
/// services are read only when the status decision asks for them.
fn discover(
    cache: &mut ServiceCache<u32>,
    status: Result<CommunicationStatus, String>,
    enumerated: Vec<u32>,
) -> Result<Vec<u32>, Error> {
    match services_listing(status) {
        Listing::Fetch => cache.store_services(Ok(enumerated))?,
        Listing::Nothing => {}
        Listing::Fail(e) => return Err(e),
    }
    Ok(cache.services().to_vec())
}

#[test]
fn discovery_replaces_cache_on_success() {
    let mut cache: ServiceCache<u32> = ServiceCache::new();
    assert!(cache.services().is_empty());
    assert_eq!(discover(&mut cache, Ok(CommunicationStatus::Success), vec![7, 3, 5]), Ok(vec![7, 3, 5]));
    assert_eq!(discover(&mut cache, Ok(CommunicationStatus::Success), vec![9, 1]), Ok(vec![9, 1]));
    assert_eq!(cache.len(), 2);
    assert_eq!(discover(&mut cache, Ok(CommunicationStatus::Success), vec![]), Ok(vec![]));
}

#[test]
fn discovery_keeps_cache_on_failure() {
    let mut cache: ServiceCache<u32> = ServiceCache::new();
    assert_eq!(discover(&mut cache, Ok(CommunicationStatus::Success), vec![4, 2]), Ok(vec![4, 2]));
    for status in [
        CommunicationStatus::ProtocolError,
        CommunicationStatus::Failure(1),
        CommunicationStatus::Failure(3),
    ] {
        assert_eq!(discover(&mut cache, Ok(status), vec![8]), Ok(vec![4, 2]));
    }
    assert_eq!(
        discover(&mut cache, Err("call failed".to_string()), vec![8]),
        Err(Error::Other("call failed".to_string()))
    );
    assert_eq!(cache.services(), &[4, 2]);
    assert_eq!(
        cache.store_services(Err("read failed".to_string())),
        Err(Error::Other("read failed".to_string()))
    );
    assert_eq!(cache.services(), &[4, 2]);
}

#[test]
fn empty_cache_stays_empty_on_failed_discovery() {
    let mut cache: ServiceCache<u32> = ServiceCache::new();
    assert_eq!(discover(&mut cache, Ok(CommunicationStatus::Failure(1)), vec![6, 5]), Ok(vec![]));
    assert_eq!(cache.len(), 0);
}

#[test]
fn enumeration_cache_modes() {
    assert_eq!(Enumeration::Services.cache_mode(), CacheMode::Cached);
    assert_eq!(Enumeration::Characteristics.cache_mode(), CacheMode::Uncached);
    assert_eq!(Enumeration::Descriptors.cache_mode(), CacheMode::Uncached);
}

#[test]
fn characteristics_policy() {
    assert_eq!(characteristics_listing(Ok(CommunicationStatus::Success)), Listing::Fetch);
    assert_eq!(
        characteristics_listing(Ok(CommunicationStatus::ProtocolError)),
        Listing::Fail(Error::Other("characteristic enumeration encountered a protocol error".to_string()))
    );
    assert_eq!(characteristics_listing(Ok(CommunicationStatus::Failure(1))), Listing::Nothing);
    assert_eq!(characteristics_listing(Ok(CommunicationStatus::Failure(3))), Listing::Nothing);
    assert_eq!(
        characteristics_listing(Err("status unreadable".to_string())),
        Listing::Fail(Error::Other("status unreadable".to_string()))
    );
}

#[test]
fn descriptors_policy() {
    assert_eq!(descriptors_listing(Ok(CommunicationStatus::Success)), Listing::Fetch);
    assert_eq!(
        descriptors_listing(Ok(CommunicationStatus::ProtocolError)),
        Listing::Fail(Error::Other("descriptor enumeration did not succeed".to_string()))
    );
    assert_eq!(
        descriptors_listing(Ok(CommunicationStatus::Failure(1))),
        Listing::Fail(Error::Other("descriptor enumeration did not succeed".to_string()))
    );
    assert_eq!(
        descriptors_listing(Err("status unreadable".to_string())),
        Listing::Fail(Error::Other("status unreadable".to_string()))
    );
}

fn run_teardown(services: usize, failing: Option<usize>) -> (Vec<TeardownAction>, usize) {
    let mut teardown = Teardown::new(services);
    let mut performed = Vec::new();
    while !teardown.is_done() {
        let action = teardown.next_action();
        let ok = failing != Some(performed.len());
        performed.push(action);
        teardown.record(ok);
    }
    assert_eq!(teardown.next_action(), TeardownAction::Done);
    (performed, teardown.failure_count())
}

#[test]
fn teardown_runs_every_step_despite_failures() {
    let plan = vec![
        TeardownAction::RemovePduHandler,
        TeardownAction::RemoveStatusHandler,
        TeardownAction::CloseService(0),
        TeardownAction::CloseService(1),
        TeardownAction::CloseDevice,
    ];
    assert_eq!(run_teardown(2, None), (plan.clone(), 0));
    for failing in 0..plan.len() {
        assert_eq!(run_teardown(2, Some(failing)), (plan.clone(), 1));
    }
}

#[test]
fn teardown_without_services() {
    let (performed, failures) = run_teardown(0, None);
    assert_eq!(
        performed,
        vec![
            TeardownAction::RemovePduHandler,
            TeardownAction::RemoveStatusHandler,
            TeardownAction::CloseDevice,
        ]
    );
    assert_eq!(failures, 0);
}
