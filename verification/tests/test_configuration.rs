use buttplug::device::configuration::{
    find_definition, matches_any_pattern, matches_pattern, same_text, DeviceLayout,
    ProtocolDefinition,
};
use buttplug::device::protocol::ProtocolIdentifier;
use buttplug::errors::ButtplugDeviceError;
use buttplug::message::{ActuatorType, ButtplugDeviceMessageType, SensorType};

fn entry(names: &[&str], addresses: &[&str], display_name: &str) -> ProtocolDefinition {
    ProtocolDefinition {
        names: names.iter().map(|s| s.to_string()).collect(),
        addresses: addresses.iter().map(|s| s.to_string()).collect(),
        identifier: ProtocolIdentifier::JeJoue,
        display_name: display_name.to_string(),
        layout: DeviceLayout {
            scalar: vec![ActuatorType::Vibrate, ActuatorType::Vibrate],
            rotate: 0,
            linear: 0,
            sensors: vec![],
        },
    }
}

#[test]
fn same_text_compares_every_character() {
    assert!(same_text("", ""));
    assert!(same_text("SameAddress", "SameAddress"));
    assert!(!same_text("SameAddress", "SameAddresz"));
    assert!(!same_text("SameAddress", "SameAddres"));
    assert!(!same_text("", "a"));
    assert!(same_text("a*", "a*"));
    assert!(!same_text("é", "e"));
}

#[test]
fn plain_pattern_stands_for_itself() {
    assert!(matches_pattern("Je Joue", "Je Joue"));
    assert!(!matches_pattern("Je Joue", "Je Joue 2"));
    assert!(!matches_pattern("Je Joue", "Je Jou"));
    assert!(!matches_pattern("Je Joue", "je joue"));
    assert!(matches_pattern("", ""));
    assert!(!matches_pattern("", "x"));
}

#[test]
fn star_pattern_stands_for_every_continuation() {
    assert!(matches_pattern("Je*", "Je Joue"));
    assert!(matches_pattern("Je*", "Je"));
    assert!(!matches_pattern("Je*", "J"));
    assert!(!matches_pattern("Je*", "Xe Joue"));
    assert!(matches_pattern("*", ""));
    assert!(matches_pattern("*", "anything"));
    // Only a star at the end is a wildcard.
    assert!(!matches_pattern("*Joue", "Je Joue"));
    assert!(matches_pattern("*Joue", "*Joue"));
    // A star in the text is an ordinary character.
    assert!(matches_pattern("Je*", "Je*"));
}

#[test]
fn patterns_count_characters_not_bytes() {
    assert!(matches_pattern("Ünï*", "Ünïcode"));
    assert!(!matches_pattern("Ünï*", "Uni"));
    assert!(matches_pattern("Ünï", "Ünï"));
}

#[test]
fn any_pattern_is_enough() {
    let patterns = vec!["Massage Demo".to_string(), "Aneros*".to_string()];
    assert!(matches_any_pattern(&patterns, "Massage Demo"));
    assert!(matches_any_pattern(&patterns, "Aneros Vivi"));
    assert!(!matches_any_pattern(&patterns, "Je Joue"));
    assert!(!matches_any_pattern(&vec![], "Je Joue"));
}

#[test]
fn entry_matches_by_name_or_by_address() {
    let definition = entry(&["Je Joue"], &["COM*"], "Je Joue Nuo");
    assert!(definition.is_match("Je Joue", "00:11"));
    assert!(definition.is_match("Other", "COM3"));
    assert!(!definition.is_match("Other", "00:11"));
    assert!(!definition.is_match("COM3", "Je Joue"));
}

#[test]
fn first_match_wins() {
    let config = vec![
        entry(&["Alpha"], &[], "first"),
        entry(&["Be*"], &[], "second"),
        entry(&["Beta", "Alpha"], &[], "third"),
    ];
    assert_eq!(find_definition(&config, "Alpha", ""), Ok(0));
    assert_eq!(find_definition(&config, "Beta", ""), Ok(1));
    assert_eq!(find_definition(&config, "Bet", ""), Ok(1));
    assert_eq!(find_definition(&config, "Gamma", ""), Err(ButtplugDeviceError::NoMatchingHandler));
    assert_eq!(find_definition(&vec![], "Alpha", ""), Err(ButtplugDeviceError::NoMatchingHandler));
}

#[test]
fn layout_decides_the_announced_messages() {
    let layout = DeviceLayout {
        scalar: vec![ActuatorType::Vibrate, ActuatorType::Vibrate],
        rotate: 0,
        linear: 0,
        sensors: vec![],
    };
    assert_eq!(
        layout.messages(false),
        vec![
            ButtplugDeviceMessageType::ScalarCmd,
            ButtplugDeviceMessageType::VibrateCmd,
            ButtplugDeviceMessageType::SingleMotorVibrateCmd,
            ButtplugDeviceMessageType::StopDeviceCmd,
        ]
    );
    assert_eq!(
        layout.messages(true),
        vec![
            ButtplugDeviceMessageType::ScalarCmd,
            ButtplugDeviceMessageType::VibrateCmd,
            ButtplugDeviceMessageType::SingleMotorVibrateCmd,
            ButtplugDeviceMessageType::StopDeviceCmd,
            ButtplugDeviceMessageType::RawWriteCmd,
            ButtplugDeviceMessageType::RawReadCmd,
            ButtplugDeviceMessageType::RawSubscribeCmd,
            ButtplugDeviceMessageType::RawUnsubscribeCmd,
        ]
    );
}

#[test]
fn empty_layout_can_only_be_stopped() {
    let layout = DeviceLayout { scalar: vec![], rotate: 0, linear: 0, sensors: vec![] };
    assert_eq!(layout.messages(false), vec![ButtplugDeviceMessageType::StopDeviceCmd]);
    assert_eq!(layout.clone(), layout);
}

#[test]
fn full_layout_announces_every_kind() {
    let layout = DeviceLayout {
        scalar: vec![ActuatorType::Constrict, ActuatorType::Vibrate],
        rotate: 1,
        linear: 2,
        sensors: vec![SensorType::Battery],
    };
    assert_eq!(layout.messages(true), ButtplugDeviceMessageType::all());
    assert_eq!(ButtplugDeviceMessageType::all().len(), 13);
}

#[test]
fn supports_agrees_with_the_announced_messages() {
    let layouts = [
        DeviceLayout { scalar: vec![], rotate: 0, linear: 0, sensors: vec![] },
        DeviceLayout { scalar: vec![ActuatorType::Oscillate], rotate: 2, linear: 0, sensors: vec![] },
        DeviceLayout {
            scalar: vec![ActuatorType::Inflate, ActuatorType::Vibrate],
            rotate: 0,
            linear: 1,
            sensors: vec![SensorType::Pressure, SensorType::Button],
        },
    ];
    for layout in layouts.iter() {
        for allow_raw in [false, true] {
            let announced = layout.messages(allow_raw);
            for kind in ButtplugDeviceMessageType::all() {
                assert_eq!(layout.supports(kind, allow_raw), announced.contains(&kind));
            }
        }
    }
}

#[test]
fn scalar_actuators_without_a_vibrator_do_not_vibrate() {
    let layout = DeviceLayout {
        scalar: vec![ActuatorType::Oscillate],
        rotate: 0,
        linear: 0,
        sensors: vec![],
    };
    assert!(layout.supports(ButtplugDeviceMessageType::ScalarCmd, false));
    assert!(!layout.supports(ButtplugDeviceMessageType::VibrateCmd, false));
    assert!(!layout.supports(ButtplugDeviceMessageType::SingleMotorVibrateCmd, false));
}
