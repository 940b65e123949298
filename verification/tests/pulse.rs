use sysnotifier::event::Event;
use sysnotifier::pulse::{
    get_default_sink_name, get_sink_volume, interest_mask, volume_percent, ConnectionError,
    ContextState, Facility, OperationState, QueryError, SinkInfo, Volume,
};

fn as_std_reads_it(text: &str) -> Option<u32> {
    text.trim_end_matches('%').trim().parse().ok()
}

#[test]
fn printed_volume_is_read_back() {
    assert_eq!(volume_percent(" 45%"), Some(45));
    assert_eq!(volume_percent("100%"), Some(100));
    assert_eq!(volume_percent("  0%"), Some(0));
    assert_eq!(volume_percent("  7%"), Some(7));
    assert_eq!(volume_percent("153%"), Some(153));
    assert_eq!(volume_percent("45"), Some(45));
}

#[test]
fn text_that_is_no_percentage_is_not_read() {
    let texts = [
        "",
        "%",
        "   ",
        "(invalid)",
        "-5%",
        "4 5%",
        "45.5%",
        "+%",
        "% 45",
        "45% ",
        "4294967296%",
        "99999999999999999999%",
        "\u{ff14}\u{ff15}%",
    ];
    for text in texts {
        assert_eq!(volume_percent(text), None, "for {:?}", text);
    }
}

#[test]
fn percent_signs_and_white_space_around_are_taken_off() {
    assert_eq!(volume_percent("45%%%"), Some(45));
    assert_eq!(volume_percent(" 45 %"), Some(45));
    assert_eq!(volume_percent("\t45\n%"), Some(45));
    assert_eq!(volume_percent("\u{a0}45\u{3000}%"), Some(45));
    assert_eq!(volume_percent("+45%"), Some(45));
    assert_eq!(volume_percent("0045%"), Some(45));
    assert_eq!(volume_percent("4294967295%"), Some(u32::MAX));
}

#[test]
fn volume_percent_takes_for_a_number_what_std_does() {
    let texts = [
        "", "%", " ", "45", " 45%", "100%", "  0%", "45%%", " 45 %", "% 45", "45% ", "+45%",
        "++45%", "-45%", "+", "(invalid)", "4294967295%", "4294967296%", "0000000000001%",
        "\u{a0}45%", "\u{2003}45\u{2028}%", "\u{200b}45%", "\u{85}9%", "\u{1680}9%",
        "\u{180e}9%", "4\u{0665}%", "%%%", " % ", "12a%", "a12%", "1 2%", "\r\n33\r\n%",
    ];
    for text in texts {
        assert_eq!(volume_percent(text), as_std_reads_it(text), "for {:?}", text);
    }
    for value in (0..=300).chain([65535, 65536, 4294967295]) {
        let printed = format!("{:3}%", value);
        assert_eq!(volume_percent(&printed), Some(value));
        assert_eq!(volume_percent(&printed), as_std_reads_it(&printed));
    }
}

#[test]
fn sink_volume_comes_from_the_printed_volume_and_the_mute_flag() {
    let info = SinkInfo { volume: " 45%".to_string(), mute: false };
    assert_eq!(get_sink_volume(Some(&info)), Ok(Volume { value: 45, muted: false }));
    let info = SinkInfo { volume: "100%".to_string(), mute: true };
    assert_eq!(get_sink_volume(Some(&info)), Ok(Volume { value: 100, muted: true }));
    let info = SinkInfo { volume: "  0%".to_string(), mute: false };
    assert_eq!(get_sink_volume(Some(&info)), Ok(Volume { value: 0, muted: false }));
    let info = SinkInfo { volume: "153%".to_string(), mute: false };
    assert_eq!(get_sink_volume(Some(&info)), Ok(Volume { value: 153, muted: false }));
}

#[test]
fn malformed_volume_is_an_error() {
    for text in ["(invalid)", "", "%", "4 5%", "-5%", "4294967296%", "45% "] {
        for mute in [false, true] {
            let info = SinkInfo { volume: text.to_string(), mute };
            assert_eq!(
                get_sink_volume(Some(&info)),
                Err(QueryError::MalformedVolume),
                "for {:?}",
                text
            );
        }
    }
    assert_eq!(QueryError::MalformedVolume.message(), "Malformed volume");
}

#[test]
fn missing_sink_is_an_error() {
    assert_eq!(get_sink_volume(None), Err(QueryError::SinkNotFound));
    assert_eq!(QueryError::SinkNotFound.message(), "Sink not found");
}

#[test]
fn missing_default_sink_is_an_error() {
    assert_eq!(get_default_sink_name(None), Err(QueryError::NoDefaultSink));
    assert_eq!(QueryError::NoDefaultSink.message(), "No default sink");
    assert_eq!(
        get_default_sink_name(Some("alsa_output.pci".to_string())),
        Ok("alsa_output.pci".to_string())
    );
    assert_eq!(get_default_sink_name(Some(String::new())), Ok(String::new()));
}

#[test]
fn connection_errors_have_their_words() {
    assert_eq!(ConnectionError::Proplist.message(), "Proplist creation failed");
    assert_eq!(ConnectionError::Mainloop.message(), "Mainloop creation failed");
    assert_eq!(ConnectionError::Context.message(), "Context creation failed");
}

#[test]
fn only_the_ready_connection_is_ready() {
    assert!(ContextState::Ready.is_ready());
    for state in [
        ContextState::Unconnected,
        ContextState::Connecting,
        ContextState::Authorizing,
        ContextState::SettingName,
        ContextState::Failed,
        ContextState::Terminated,
    ] {
        assert!(!state.is_ready());
    }
}

#[test]
fn only_the_done_operation_is_done() {
    assert!(OperationState::Done.is_done());
    assert!(!OperationState::Running.is_done());
    assert!(!OperationState::Cancelled.is_done());
}

#[test]
fn sink_and_card_changes_become_events() {
    assert_eq!(Event::from_facility(Some(Facility::Sink)), Some(Event::VolumeChanged));
    assert_eq!(Event::from_facility(Some(Facility::Card)), Some(Event::DefaultDeviceChanged));
    for facility in [
        Facility::Source,
        Facility::SinkInput,
        Facility::SourceOutput,
        Facility::Module,
        Facility::Client,
        Facility::SampleCache,
        Facility::Server,
    ] {
        assert_eq!(Event::from_facility(Some(facility)), None);
    }
    assert_eq!(Event::from_facility(None), None);
}

#[test]
fn interest_is_in_sinks_sink_inputs_and_the_server() {
    assert_eq!(interest_mask(), 0x85);
    assert_eq!(
        interest_mask(),
        Facility::Sink.interest() | Facility::SinkInput.interest() | Facility::Server.interest()
    );
    assert_eq!(interest_mask() & Facility::Card.interest(), 0);
}

#[test]
fn facility_bits_follow_the_codes() {
    let all = [
        (Facility::Sink, 0),
        (Facility::Source, 1),
        (Facility::SinkInput, 2),
        (Facility::SourceOutput, 3),
        (Facility::Module, 4),
        (Facility::Client, 5),
        (Facility::SampleCache, 6),
        (Facility::Server, 7),
        (Facility::Card, 9),
    ];
    for (facility, code) in all {
        assert_eq!(facility.code(), code);
        assert_eq!(facility.interest(), 1 << code);
    }
}
