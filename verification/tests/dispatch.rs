use sysnotifier::content::VolumeBucket;
use sysnotifier::dispatch::{Error, NotifyError, PendingSend, Step, SysNotifier, VolumeQuery};
use sysnotifier::event::{Category, Event, Subject};
use sysnotifier::notify::{Hint, HintValue, NotifyCall};
use sysnotifier::pulse::{get_sink_volume, QueryError, SinkInfo, Volume};
use sysnotifier::upower::{BatteryLevel, BatteryState};

fn receiving(step: Step) -> SysNotifier {
    match step {
        Step::Receive(state) => state,
        other => panic!("expected to wait for an event, got {:?}", other),
    }
}

fn querying(step: Step) -> VolumeQuery {
    match step {
        Step::QueryVolume(query) => query,
        other => panic!("expected a volume query, got {:?}", other),
    }
}

fn sending(step: Step) -> PendingSend {
    match step {
        Step::Send(send) => send,
        other => panic!("expected a notification, got {:?}", other),
    }
}

fn hint(key: &str, value: HintValue) -> Hint {
    Hint { key: key.to_string(), value }
}

/// Handles one event that is notified at once, with the id the service returns.
fn notify_event(state: SysNotifier, event: Event, id: u32) -> (NotifyCall, SysNotifier) {
    let send = sending(state.run(Some(event)));
    let call = send.call();
    (call, receiving(send.sent(Ok(id))))
}

#[test]
fn first_volume_change_is_notified_and_the_same_volume_is_not() {
    let state = SysNotifier::new();
    let query = querying(state.run(Some(Event::VolumeChanged)));
    let send = sending(query.answer(Ok(Volume { value: 45, muted: false })));
    assert_eq!(send.subject(), Subject::Volume(Volume { value: 45, muted: false }));
    let call = send.call();
    assert_eq!(call.replaces_id, 0);
    assert_eq!(call.summary, "Volume [ 45% ]");
    assert_eq!(call.app_icon, "audio-volume-medium-symbolic");
    assert_eq!(
        call.hints,
        vec![hint("urgency", HintValue::U8(0)), hint("value", HintValue::I32(45))]
    );
    let state = receiving(send.sent(Ok(7)));
    assert_eq!(state.id_of(Category::Volume), 7);
    assert_eq!(state.last_volume(), Some(Volume { value: 45, muted: false }));

    let query = querying(state.run(Some(Event::VolumeChanged)));
    let state = receiving(query.answer(Ok(Volume { value: 45, muted: false })));
    assert_eq!(state.id_of(Category::Volume), 7);
    assert_eq!(state.last_volume(), Some(Volume { value: 45, muted: false }));
}

#[test]
fn burst_of_equal_volumes_gives_one_notification() {
    let mut state = SysNotifier::new();
    let mut notifications = 0;
    for _ in 0..5 {
        let query = querying(state.run(Some(Event::VolumeChanged)));
        state = match query.answer(Ok(Volume { value: 20, muted: false })) {
            Step::Send(send) => {
                notifications += 1;
                receiving(send.sent(Ok(3)))
            }
            other => receiving(other),
        };
    }
    assert_eq!(notifications, 1);
}

#[test]
fn changed_mute_flag_is_notified_and_replaces_the_volume_notification() {
    let state = SysNotifier::new();
    let query = querying(state.run(Some(Event::VolumeChanged)));
    let send = sending(query.answer(Ok(Volume { value: 45, muted: false })));
    let state = receiving(send.sent(Ok(7)));

    let query = querying(state.run(Some(Event::VolumeChanged)));
    let send = sending(query.answer(Ok(Volume { value: 45, muted: true })));
    let call = send.call();
    assert_eq!(call.replaces_id, 7);
    assert_eq!(call.summary, "Volume [ muted ]");
    assert_eq!(call.app_icon, "audio-volume-muted-symbolic");
    assert_eq!(call.hints, vec![hint("urgency", HintValue::U8(0))]);
    let state = receiving(send.sent(Ok(7)));
    assert_eq!(state.last_volume(), Some(Volume { value: 45, muted: true }));
}

#[test]
fn changed_value_is_notified() {
    let state = SysNotifier::new();
    let query = querying(state.run(Some(Event::VolumeChanged)));
    let send = sending(query.answer(Ok(Volume { value: 45, muted: false })));
    let state = receiving(send.sent(Ok(7)));
    let query = querying(state.run(Some(Event::VolumeChanged)));
    let send = sending(query.answer(Ok(Volume { value: 46, muted: false })));
    assert_eq!(send.call().summary, "Volume [ 46% ]");
    assert_eq!(send.call().replaces_id, 7);
}

#[test]
fn volume_is_remembered_only_once_its_notification_was_sent() {
    let state = SysNotifier::new();
    let query = querying(state.run(Some(Event::VolumeChanged)));
    let send = sending(query.answer(Ok(Volume { value: 45, muted: false })));
    match send.sent(Err(NotifyError { message: "no service".to_string() })) {
        Step::Done(Err(Error::Notify(error))) => assert_eq!(error.message, "no service"),
        other => panic!("expected the run to end with the error, got {:?}", other),
    }
}

#[test]
fn failed_volume_query_ends_the_run() {
    let state = SysNotifier::new();
    let query = querying(state.run(Some(Event::VolumeChanged)));
    match query.answer(Err(QueryError::NoDefaultSink)) {
        Step::Done(Err(error)) => assert_eq!(error, Error::Query(QueryError::NoDefaultSink)),
        other => panic!("expected the run to end with the error, got {:?}", other),
    }
    let query = querying(SysNotifier::new().run(Some(Event::VolumeChanged)));
    match query.answer(Err(QueryError::SinkNotFound)) {
        Step::Done(Err(error)) => assert_eq!(error, Error::Query(QueryError::SinkNotFound)),
        other => panic!("expected the run to end with the error, got {:?}", other),
    }
    let query = querying(SysNotifier::new().run(Some(Event::VolumeChanged)));
    match query.answer(Err(QueryError::MalformedVolume)) {
        Step::Done(Err(error)) => assert_eq!(error, Error::Query(QueryError::MalformedVolume)),
        other => panic!("expected the run to end with the error, got {:?}", other),
    }
}

#[test]
fn failed_send_ends_the_run() {
    let send = sending(SysNotifier::new().run(Some(Event::DefaultDeviceChanged)));
    match send.sent(Err(NotifyError { message: "timed out".to_string() })) {
        Step::Done(Err(error)) => {
            assert_eq!(error, Error::Notify(NotifyError { message: "timed out".to_string() }))
        }
        other => panic!("expected the run to end with the error, got {:?}", other),
    }
}

#[test]
fn closed_channel_ends_the_run_cleanly() {
    match SysNotifier::new().run(None) {
        Step::Done(result) => assert_eq!(result, Ok(())),
        other => panic!("expected the run to end, got {:?}", other),
    }
    let (_, state) = notify_event(SysNotifier::new(), Event::OnBattery(true), 4);
    match state.run(None) {
        Step::Done(result) => assert_eq!(result, Ok(())),
        other => panic!("expected the run to end, got {:?}", other),
    }
}

#[test]
fn critical_battery_level_is_urgent() {
    let (call, state) =
        notify_event(SysNotifier::new(), Event::BatteryLevel(BatteryLevel::Critical), 11);
    assert_eq!(call.summary, "Battery level critical");
    assert_eq!(call.app_icon, "battery-caution-symbolic");
    assert_eq!(call.hints, vec![hint("urgency", HintValue::U8(2))]);
    assert_eq!(call.replaces_id, 0);
    assert_eq!(state.id_of(Category::BatteryLevel(BatteryLevel::Critical)), 11);
}

#[test]
fn power_source_is_notified_both_ways() {
    let (first, state) = notify_event(SysNotifier::new(), Event::OnBattery(true), 5);
    assert_eq!(first.summary, "Running on battery power");
    assert_eq!(first.app_icon, "battery-symbolic");
    assert_eq!(first.replaces_id, 0);
    let (second, state) = notify_event(state, Event::OnBattery(false), 6);
    assert_eq!(second.summary, "Connected to power");
    assert_eq!(second.app_icon, "ac-adapter-symbolic");
    // The power source is part of the category: each of the two has a slot of its own.
    assert_eq!(second.replaces_id, 0);
    let (third, state) = notify_event(state, Event::OnBattery(true), 5);
    assert_eq!(third.replaces_id, 5);
    let (fourth, _) = notify_event(state, Event::OnBattery(false), 6);
    assert_eq!(fourth.replaces_id, 6);
}

#[test]
fn device_change_is_always_notified() {
    let (first, state) = notify_event(SysNotifier::new(), Event::DefaultDeviceChanged, 9);
    assert_eq!(first.summary, "Device changed");
    assert_eq!(first.app_icon, "");
    assert_eq!(first.body, "");
    assert_eq!(first.hints, vec![hint("urgency", HintValue::U8(1))]);
    assert_eq!(first.replaces_id, 0);
    let (second, state) = notify_event(state, Event::DefaultDeviceChanged, 9);
    assert_eq!(second.replaces_id, 9);
    let (third, _) = notify_event(state, Event::DefaultDeviceChanged, 10);
    assert_eq!(third.replaces_id, 9);
}

#[test]
fn malformed_volume_ends_the_run_and_notifies_nothing() {
    let info = SinkInfo { volume: "(invalid)".to_string(), mute: false };
    let query = querying(SysNotifier::new().run(Some(Event::VolumeChanged)));
    match query.answer(get_sink_volume(Some(&info))) {
        Step::Done(Err(error)) => assert_eq!(error, Error::Query(QueryError::MalformedVolume)),
        other => panic!("expected the run to end with the error, got {:?}", other),
    }
}

#[test]
fn battery_percentage_is_passed_over() {
    let state = receiving(SysNotifier::new().run(Some(Event::BatteryPercentage(80))));
    assert_eq!(state.last_volume(), None);
    assert_eq!(state.id_of(Category::Volume), 0);
}

#[test]
fn second_send_replaces_the_id_of_the_first() {
    let (first, state) =
        notify_event(SysNotifier::new(), Event::BatteryState(BatteryState::Charging), 21);
    assert_eq!(first.replaces_id, 0);
    let (second, state) = notify_event(state, Event::BatteryState(BatteryState::Charging), 22);
    assert_eq!(second.replaces_id, 21);
    let (third, _) = notify_event(state, Event::BatteryState(BatteryState::Charging), 23);
    assert_eq!(third.replaces_id, 22);
}

#[test]
fn categories_do_not_share_slots() {
    let state = SysNotifier::new();
    let (_, state) = notify_event(state, Event::BatteryState(BatteryState::Charging), 1);
    let (_, state) = notify_event(state, Event::BatteryState(BatteryState::Discharging), 2);
    let (_, state) = notify_event(state, Event::BatteryLevel(BatteryLevel::Low), 3);
    let (_, state) = notify_event(state, Event::OnBattery(true), 4);
    let (_, state) = notify_event(state, Event::DefaultDeviceChanged, 5);
    let query = querying(state.run(Some(Event::VolumeChanged)));
    let send = sending(query.answer(Ok(Volume { value: 10, muted: false })));
    let state = receiving(send.sent(Ok(6)));

    assert_eq!(state.id_of(Category::BatteryState(BatteryState::Charging)), 1);
    assert_eq!(state.id_of(Category::BatteryState(BatteryState::Discharging)), 2);
    assert_eq!(state.id_of(Category::BatteryLevel(BatteryLevel::Low)), 3);
    assert_eq!(state.id_of(Category::OnBattery(true)), 4);
    assert_eq!(state.id_of(Category::DeviceChange), 5);
    assert_eq!(state.id_of(Category::Volume), 6);
    assert_eq!(state.id_of(Category::OnBattery(false)), 0);
    assert_eq!(state.id_of(Category::BatteryState(BatteryState::Empty)), 0);
    assert_eq!(state.id_of(Category::BatteryLevel(BatteryLevel::Critical)), 0);

    let (call, state) = notify_event(state, Event::BatteryState(BatteryState::Discharging), 7);
    assert_eq!(call.replaces_id, 2);
    assert_eq!(state.id_of(Category::BatteryState(BatteryState::Charging)), 1);
    assert_eq!(state.id_of(Category::BatteryState(BatteryState::Discharging)), 7);
    assert_eq!(state.id_of(Category::Volume), 6);
}

#[test]
fn category_keys_are_all_different() {
    let mut categories = vec![Category::Volume, Category::DeviceChange];
    for code in 0..7 {
        categories.push(Category::BatteryState(BatteryState::from_code(code).unwrap()));
    }
    for code in [0, 1, 3, 4, 6, 7, 8] {
        categories.push(Category::BatteryLevel(BatteryLevel::from_code(code).unwrap()));
    }
    categories.push(Category::OnBattery(false));
    categories.push(Category::OnBattery(true));
    assert_eq!(categories.len(), 18);
    for (i, a) in categories.iter().enumerate() {
        for (j, b) in categories.iter().enumerate() {
            assert_eq!(a.key() == b.key(), i == j);
        }
    }
}

#[test]
fn events_fall_into_their_categories() {
    assert_eq!(Event::VolumeChanged.category(), Some(Category::Volume));
    assert_eq!(Event::DefaultDeviceChanged.category(), Some(Category::DeviceChange));
    assert_eq!(
        Event::BatteryState(BatteryState::Empty).category(),
        Some(Category::BatteryState(BatteryState::Empty))
    );
    assert_eq!(
        Event::BatteryLevel(BatteryLevel::High).category(),
        Some(Category::BatteryLevel(BatteryLevel::High))
    );
    assert_eq!(Event::OnBattery(true).category(), Some(Category::OnBattery(true)));
    assert_eq!(Event::BatteryPercentage(50).category(), None);
    assert_eq!(Event::VolumeChanged.subject(), None);
    assert_eq!(Event::BatteryPercentage(50).subject(), None);
    assert_eq!(Event::DefaultDeviceChanged.subject(), Some(Subject::DeviceChange));
    assert_eq!(
        Subject::Volume(Volume { value: 3, muted: true }).category(),
        Category::Volume
    );
    assert_eq!(Subject::OnBattery(false).category(), Category::OnBattery(false));
}

#[test]
fn volume_above_a_hundred_is_notified_as_it_is() {
    let query = querying(SysNotifier::new().run(Some(Event::VolumeChanged)));
    let send = sending(query.answer(Ok(Volume { value: 150, muted: false })));
    let call = send.call();
    assert_eq!(call.summary, "Volume [ 150% ]");
    assert_eq!(call.app_icon, VolumeBucket::High.icon());
    assert_eq!(
        call.hints,
        vec![hint("urgency", HintValue::U8(0)), hint("value", HintValue::I32(150))]
    );
}
