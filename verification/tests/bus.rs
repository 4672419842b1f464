use bt::bluez::dbus::{begin_call, names_device, only_device_paths, BusReply, BusRequest, Property};
use bt::{BluezDevice, BluezError, BluezPowerState, BusFault, Call, Reply};

/// A device object on a scripted bus. A property that is `None` cannot be
/// read.
struct Object {
    path: &'static str,
    alias: Option<&'static str>,
    address: Option<&'static str>,
    connected: Option<bool>,
    paired: Option<bool>,
    trusted: Option<bool>,
    bonded: Option<bool>,
    rssi: Option<i16>,
    battery: Option<u8>,
}

fn headset() -> Object {
    Object {
        path: "/org/bluez/hci0/dev_AA_BB_CC_DD_EE_FF",
        alias: Some("headset"),
        address: Some("AA:BB:CC:DD:EE:FF"),
        connected: Some(true),
        paired: Some(true),
        trusted: Some(false),
        bonded: Some(true),
        rssi: None,
        battery: Some(80),
    }
}

fn speaker() -> Object {
    Object {
        path: "/org/bluez/hci0/dev_11_22_33_44_55_66",
        alias: Some("speaker"),
        address: Some("11:22:33:44:55:66"),
        connected: Some(false),
        paired: Some(false),
        trusted: Some(true),
        bonded: Some(false),
        rssi: Some(-68),
        battery: Some(3),
    }
}

fn not_there() -> BusReply {
    BusReply::Failed(BusFault::new("no such property".to_string()))
}

/// Carries the call out on the scripted bus and tells what was asked.
fn carry_out(call: Call, power: &str, objects: &[Object]) -> (Reply, Vec<String>) {
    let mut asked = Vec::new();
    let mut operation = begin_call(call);
    while let Some(request) = operation.pending() {
        asked.push(format!("{:?}", request));
        let reply = match request {
            BusRequest::PowerState => BusReply::Text(power.to_string()),
            BusRequest::ManagedObjects => {
                let mut paths = vec!["/org/bluez".to_string(), "/org/bluez/hci0".to_string()];
                for object in objects {
                    paths.push(object.path.to_string());
                    paths.push(format!("{}/sep1", object.path));
                }
                BusReply::Paths(paths)
            }
            BusRequest::Read(path, property) => {
                let object = objects.iter().find(|o| o.path == path).unwrap();
                let text = |value: Option<&str>| match value {
                    Some(value) => BusReply::Text(value.to_string()),
                    None => not_there(),
                };
                let flag = |value: Option<bool>| match value {
                    Some(value) => BusReply::Flag(value),
                    None => not_there(),
                };
                match property {
                    Property::Alias => text(object.alias),
                    Property::Address => text(object.address),
                    Property::Connected => flag(object.connected),
                    Property::Paired => flag(object.paired),
                    Property::Trusted => flag(object.trusted),
                    Property::Bonded => flag(object.bonded),
                    Property::Rssi => match object.rssi {
                        Some(strength) => BusReply::Signal(strength),
                        None => not_there(),
                    },
                    Property::Battery => match object.battery {
                        Some(level) => BusReply::Level(level),
                        None => not_there(),
                    },
                }
            }
            _ => BusReply::Done,
        };
        operation = operation.step(reply);
    }
    (operation.reply().unwrap(), asked)
}

fn devices_of(reply: Reply) -> Vec<BluezDevice> {
    match reply {
        Reply::Devices(devices) => devices,
        other => panic!("no devices: {:?}", other),
    }
}

fn failure_of(reply: Reply) -> BluezError {
    match reply {
        Reply::BluezFailed(error) => error,
        other => panic!("no failure: {:?}", other),
    }
}

fn aliases(devices: &[BluezDevice]) -> Vec<&str> {
    devices.iter().map(|d| d.alias()).collect()
}

#[test]
fn a_device_path_holds_dev_behind_its_last_slash() {
    assert!(names_device("/org/bluez/hci0/dev_AA_BB_CC_DD_EE_FF"));
    assert!(names_device("dev"));
    assert!(names_device("/a/undevout"));
    assert!(!names_device("/org/bluez/hci0"));
    assert!(!names_device("/org/bluez/hci0/dev_AA_BB_CC_DD_EE_FF/sep1"));
    assert!(!names_device("/dev/"));
    assert!(!names_device(""));
    assert!(!names_device("/org/bluez/hci0/DEV_AA"));

    let paths = vec![
        "/".to_string(),
        "/org/bluez/hci0/dev_1".to_string(),
        "/org/bluez/hci0".to_string(),
        "/org/bluez/hci0/dev_2".to_string(),
        "/org/bluez/hci0/dev_2/fd0".to_string(),
    ];
    assert_eq!(
        only_device_paths(&paths),
        vec!["/org/bluez/hci0/dev_1".to_string(), "/org/bluez/hci0/dev_2".to_string()]
    );
}

#[test]
fn the_power_state_is_on_for_the_word_on_alone() {
    for (word, state) in [
        ("on", BluezPowerState::On),
        ("off", BluezPowerState::Off),
        ("off-blocked", BluezPowerState::Off),
        ("On", BluezPowerState::Off),
        ("", BluezPowerState::Off),
    ] {
        let (reply, asked) = carry_out(Call::PowerState, word, &[]);
        assert!(matches!(reply, Reply::PowerState(s) if s == state), "word {:?}", word);
        assert_eq!(asked, vec!["PowerState"]);
        assert_eq!(BluezPowerState::from(word.to_string()), state);
    }
    assert_eq!(BluezPowerState::On.to_string(), "enabled");
    assert_eq!(BluezPowerState::Off.to_string(), "disabled");
    assert!(bool::from(&BluezPowerState::On));
    assert!(!bool::from(&BluezPowerState::Off));
    assert_eq!(std::ops::Not::not(BluezPowerState::On), BluezPowerState::Off);
    assert_eq!(std::ops::Not::not(BluezPowerState::Off), BluezPowerState::On);
}

#[test]
fn a_toggle_sets_the_power_to_the_opposite_of_what_it_read() {
    let (reply, asked) = carry_out(Call::TogglePowerState, "on", &[]);
    assert!(matches!(reply, Reply::PowerState(BluezPowerState::Off)));
    assert_eq!(asked, vec!["PowerState", "SetPowered(false)"]);

    let (reply, asked) = carry_out(Call::TogglePowerState, "off", &[]);
    assert!(matches!(reply, Reply::PowerState(BluezPowerState::On)));
    assert_eq!(asked, vec!["PowerState", "SetPowered(true)"]);
}

#[test]
fn a_listing_reads_every_device_object_in_turn() {
    let (reply, asked) = carry_out(Call::Devices, "on", &[headset(), speaker()]);
    let devices = devices_of(reply);

    assert_eq!(aliases(&devices), vec!["headset", "speaker"]);
    assert_eq!(devices[0].address(), "AA:BB:CC:DD:EE:FF");
    assert!(devices[0].connected());
    assert!(devices[0].paired());
    assert!(!devices[0].trusted());
    assert!(devices[0].bonded());
    assert_eq!(*devices[0].battery(), Some(80));
    assert_eq!(*devices[0].rssi(), None);

    assert_eq!(devices[1].address(), "11:22:33:44:55:66");
    assert!(!devices[1].connected());
    assert!(!devices[1].paired());
    assert!(devices[1].trusted());
    assert!(!devices[1].bonded());
    // The battery level of a device that is not connected is not read.
    assert_eq!(*devices[1].battery(), None);
    assert_eq!(*devices[1].rssi(), Some(-68));

    let first = "\"/org/bluez/hci0/dev_AA_BB_CC_DD_EE_FF\"";
    let second = "\"/org/bluez/hci0/dev_11_22_33_44_55_66\"";
    let mut expected = vec!["ManagedObjects".to_string()];
    for property in ["Alias", "Address", "Connected", "Paired", "Trusted", "Bonded", "Rssi", "Battery"]
    {
        expected.push(format!("Read({}, {})", first, property));
    }
    for property in ["Alias", "Address", "Connected", "Paired", "Trusted", "Bonded", "Rssi"] {
        expected.push(format!("Read({}, {})", second, property));
    }
    assert_eq!(asked, expected);
}

#[test]
fn a_listing_leaves_out_a_device_that_cannot_be_read() {
    let path = "/org/bluez/hci0/dev_broken";
    let broken = [
        Object { path, alias: None, ..speaker() },
        Object { path, address: None, ..speaker() },
        Object { path, connected: None, ..speaker() },
        Object { path, paired: None, ..speaker() },
        Object { path, trusted: None, ..speaker() },
        Object { path, bonded: None, ..speaker() },
        Object { path, battery: None, ..headset() },
    ];
    for object in broken {
        let (reply, _) = carry_out(Call::Devices, "on", &[object, speaker()]);
        assert_eq!(aliases(&devices_of(reply)), vec!["speaker"]);
    }

    // A device may lack a signal strength, and one that is not connected a
    // battery level.
    let quiet = Object { rssi: None, battery: None, ..speaker() };
    let (reply, _) = carry_out(Call::Devices, "on", &[quiet]);
    let devices = devices_of(reply);
    assert_eq!(aliases(&devices), vec!["speaker"]);
    assert_eq!(*devices[0].rssi(), None);
    assert_eq!(*devices[0].battery(), None);

    let (reply, asked) = carry_out(Call::Devices, "on", &[]);
    assert!(devices_of(reply).is_empty());
    assert_eq!(asked, vec!["ManagedObjects"]);
}

#[test]
fn a_listing_keeps_the_connected_or_the_scanned_devices() {
    let (reply, _) = carry_out(Call::ConnectedDevices, "on", &[headset(), speaker()]);
    let devices = devices_of(reply);
    assert_eq!(aliases(&devices), vec!["headset"]);
    assert!(bt::status::report_battery(&devices));

    let (reply, _) = carry_out(Call::ScannedDevices, "on", &[headset(), speaker()]);
    assert_eq!(aliases(&devices_of(reply)), vec!["speaker"]);

    let loud = Object { rssi: Some(-40), ..headset() };
    let (reply, _) = carry_out(Call::ScannedDevices, "on", &[loud, speaker()]);
    assert_eq!(aliases(&devices_of(reply)), vec!["headset", "speaker"]);
}

#[test]
fn a_deed_is_done_to_the_first_object_with_the_alias() {
    let twin = Object { path: "/org/bluez/hci0/dev_twin", ..speaker() };
    let objects = [headset(), speaker(), twin];

    for (call, done) in [
        (Call::Connect("speaker".to_string()), "Connect"),
        (Call::Disconnect("speaker".to_string()), "Disconnect"),
        (Call::Remove("speaker".to_string()), "RemoveDevice"),
    ] {
        let (reply, asked) = carry_out(call, "on", &objects);
        assert!(matches!(reply, Reply::Done));
        assert_eq!(
            asked,
            vec![
                "ManagedObjects".to_string(),
                "Read(\"/org/bluez/hci0/dev_AA_BB_CC_DD_EE_FF\", Alias)".to_string(),
                "Read(\"/org/bluez/hci0/dev_11_22_33_44_55_66\", Alias)".to_string(),
                format!("{}(\"/org/bluez/hci0/dev_11_22_33_44_55_66\")", done),
            ]
        );
    }
}

#[test]
fn a_deed_fails_for_want_of_the_device() {
    for (call, name) in [
        (Call::Connect("nobody".to_string()), "connect"),
        (Call::Disconnect("nobody".to_string()), "disconnect"),
        (Call::Remove("nobody".to_string()), "remove"),
    ] {
        let (reply, asked) = carry_out(call, "on", &[headset(), speaker()]);
        let error = failure_of(reply);
        assert!(matches!(&error, BluezError::Process(pid, _) if pid == name));
        assert_eq!(
            error.to_string(),
            format!("the Bluez process '{}' failed: Interface not found", name)
        );
        assert_eq!(asked.len(), 3);
    }

    let (reply, _) = carry_out(Call::Remove("Speaker".to_string()), "on", &[speaker()]);
    assert_eq!(
        failure_of(reply).to_string(),
        "the Bluez process 'remove' failed: Interface not found"
    );
    assert_eq!(BusFault::interface_not_found().text(), "Interface not found");
    assert_eq!(BusFault::invalid_reply().text(), "Invalid D-Bus method reply");
}

#[test]
fn an_alias_that_cannot_be_read_ends_a_connection_only() {
    let mute = Object { alias: None, ..headset() };

    let (reply, asked) = carry_out(Call::Connect("speaker".to_string()), "on", &[mute, speaker()]);
    assert_eq!(
        failure_of(reply).to_string(),
        "the Bluez process 'connect' failed: no such property"
    );
    assert_eq!(asked.len(), 2);

    for call in [Call::Disconnect("speaker".to_string()), Call::Remove("speaker".to_string())] {
        let mute = Object { alias: None, ..headset() };
        let (reply, asked) = carry_out(call, "on", &[mute, speaker()]);
        assert!(matches!(reply, Reply::Done));
        assert_eq!(asked.len(), 4);
    }
}

/// The failure that the call ends with when the bus fails its request at
/// the given place, counted from 0.
fn failure_at(call: Call, place: usize) -> String {
    let mut operation = begin_call(call);
    let mut at = 0;
    while let Some(request) = operation.pending() {
        let reply = if at == place {
            BusReply::Failed(BusFault::new("bus down".to_string()))
        } else {
            match request {
                BusRequest::PowerState => BusReply::Text("on".to_string()),
                BusRequest::ManagedObjects => BusReply::Paths(vec!["/dev_1".to_string()]),
                BusRequest::Read(_, _) => BusReply::Text("one".to_string()),
                _ => BusReply::Done,
            }
        };
        operation = operation.step(reply);
        at += 1;
    }
    failure_of(operation.reply().unwrap()).to_string()
}

#[test]
fn a_failure_is_told_under_the_name_of_the_call() {
    let told = |name: &str| format!("the Bluez process '{}' failed: bus down", name);

    assert_eq!(failure_at(Call::PowerState, 0), told("power_state"));
    assert_eq!(failure_at(Call::TogglePowerState, 0), told("power_state"));
    assert_eq!(failure_at(Call::TogglePowerState, 1), told("toggle_power_state"));
    assert_eq!(failure_at(Call::StartDiscovery, 0), told("start_disc"));
    assert_eq!(failure_at(Call::StopDiscovery, 0), told("stop_disc"));
    assert_eq!(failure_at(Call::Devices, 0), told("devices"));
    assert_eq!(failure_at(Call::ConnectedDevices, 0), told("devices"));
    assert_eq!(failure_at(Call::ScannedDevices, 0), told("devices"));
    for place in [0, 1, 2] {
        assert_eq!(failure_at(Call::Connect("one".to_string()), place), told("connect"));
    }
    for place in [0, 2] {
        assert_eq!(failure_at(Call::Disconnect("one".to_string()), place), told("disconnect"));
        assert_eq!(failure_at(Call::Remove("one".to_string()), place), told("remove"));
    }
}

#[test]
fn an_answer_of_another_kind_changes_nothing() {
    let operation = begin_call(Call::PowerState)
        .step(BusReply::Flag(true))
        .step(BusReply::Done)
        .step(BusReply::Paths(vec![]));
    assert!(matches!(operation.pending(), Some(BusRequest::PowerState)));

    let operation = begin_call(Call::Devices)
        .step(BusReply::Paths(vec!["/dev_1".to_string()]))
        .step(BusReply::Flag(true))
        .step(BusReply::Level(3));
    assert!(matches!(
        operation.pending(),
        Some(BusRequest::Read(path, Property::Alias)) if path == "/dev_1"
    ));

    let finished = begin_call(Call::StartDiscovery).step(BusReply::Done).step(not_there());
    assert!(finished.pending().is_none());
    assert!(matches!(finished.reply(), Some(Reply::Done)));
}

#[test]
fn the_failure_to_set_the_client_up_has_its_own_words() {
    let error = BluezError::Init(BusFault::new("no bus".to_string()));
    assert_eq!(error.to_string(), "unable to establish a Bluez D-Bus connection: no bus");
    let error = BluezError::process("devices", BusFault::invalid_reply());
    assert_eq!(
        error.to_string(),
        "the Bluez process 'devices' failed: Invalid D-Bus method reply"
    );
    let copy = error.clone();
    assert_eq!(copy.to_string(), error.to_string());
}
