use bt::connect::{read_device_alias, scan_devices, ConnectColumn};
use bt::disconnect::{get_aliases_from_user, DisconnectColumn};
use bt::format::{
    copy_of, heading_of, row_of, to_listing, PrettyFormatter, Shape, TableColumn, TableFormattable,
    TerseFormatter,
};
use bt::list_devices::{default_listing_columns, pick, TableCellFilter};
use bt::scan::default_listing_keys;
use bt::text::{join, same_text, split, truth_string};
use bt::{
    BluezDevice, BluezTestClient, ConnectError, DeviceStatus, DisconnectError, ListDevicesColumn,
    ScanColumn,
};

fn device(alias: &str, connected: bool, battery: Option<u8>, rssi: Option<i16>) -> BluezDevice {
    BluezDevice::new(
        alias.to_string(),
        format!("addr-of-{}", alias),
        connected,
        false,
        true,
        false,
        battery,
        rssi,
    )
}

fn strings(items: &[&str]) -> Vec<String> {
    items.iter().map(|s| s.to_string()).collect()
}

#[test]
fn a_string_is_cut_at_every_separator() {
    assert_eq!(split("a,b,c", ','), strings(&["a", "b", "c"]));
    assert_eq!(split("abc", ','), strings(&["abc"]));
    assert_eq!(split("", ','), strings(&[""]));
    assert_eq!(split(",", ','), strings(&["", ""]));
    assert_eq!(split("a,,b,", ','), strings(&["a", "", "b", ""]));
    assert_eq!(split("/org/bluez", '/'), strings(&["", "org", "bluez"]));
    assert_eq!(split("é,ü", ','), strings(&["é", "ü"]));

    for s in ["", ",", "a,b", "a,,b,", "no separator"] {
        let pieces: Vec<String> = s.split(',').map(String::from).collect();
        assert_eq!(split(s, ','), pieces);
        assert_eq!(join(&split(s, ','), ","), s);
    }
}

#[test]
fn pieces_are_joined_with_the_separator_between_them() {
    assert_eq!(join(&strings(&[]), "/"), "");
    assert_eq!(join(&strings(&["a"]), "/"), "a");
    assert_eq!(join(&strings(&["a", "b", "c"]), "/"), "a/b/c");
    assert_eq!(join(&strings(&["", ""]), ", "), ", ");
}

#[test]
fn texts_are_the_same_when_their_characters_are() {
    assert!(same_text("dev", "dev"));
    assert!(same_text("", ""));
    assert!(!same_text("dev", "Dev"));
    assert!(!same_text("dev", "dev "));
    assert_eq!(truth_string(true), "true");
    assert_eq!(truth_string(false), "false");
}

#[test]
fn a_device_shows_its_properties_in_the_columns() {
    let one = device("one", true, Some(7), Some(-120));

    let shown: Vec<String> = default_listing_columns()
        .iter()
        .map(|c| TableFormattable::<ListDevicesColumn>::get_cell_value_by_column(&one, c))
        .collect();
    assert_eq!(shown, strings(&["one", "addr-of-one", "true", "true", "false", "false"]));
    let titles: Vec<String> = default_listing_columns().iter().map(|c| c.to_title()).collect();
    assert_eq!(titles, strings(&["ALIAS", "ADDRESS", "CONNECTED", "TRUSTED", "BONDED", "PAIRED"]));

    let shown = row_of(&one, &default_listing_keys());
    assert_eq!(shown, strings(&["one", "addr-of-one", "-120"]));
    assert_eq!(heading_of(&default_listing_keys()), strings(&["ALIAS", "ADDRESS", "RSSI"]));

    // Without a signal strength the scan shows 0, the selection a dash.
    let quiet = device("quiet", false, None, None);
    assert_eq!(row_of(&quiet, &[ScanColumn::Rssi]), strings(&["0"]));
    let numbered = (12usize, quiet);
    assert_eq!(
        row_of(
            &numbered,
            &[ConnectColumn::Idx, ConnectColumn::Alias, ConnectColumn::Address, ConnectColumn::Rssi]
        ),
        strings(&["(12)", "quiet", "addr-of-quiet", "-"])
    );
    assert_eq!(
        row_of(
            &numbered,
            &[DisconnectColumn::Address, DisconnectColumn::Idx, DisconnectColumn::Alias]
        ),
        strings(&["addr-of-quiet", "12", "quiet"])
    );
    let loud = (0usize, device("loud", false, None, Some(i16::MIN)));
    assert_eq!(row_of(&loud, &[ConnectColumn::Rssi]), strings(&["-32768"]));
    assert_eq!(
        heading_of(&[
            ConnectColumn::Idx,
            ConnectColumn::Alias,
            ConnectColumn::Address,
            ConnectColumn::Rssi
        ]),
        strings(&["IDX", "ALIAS", "ADDRESS", "RSSI"])
    );
    assert_eq!(
        heading_of(&[DisconnectColumn::Idx, DisconnectColumn::Alias, DisconnectColumn::Address]),
        strings(&["IDX", "ALIAS", "ADDRESS"])
    );
}

#[test]
fn the_terse_shape_is_one_line_of_cells_per_record() {
    let devices = vec![device("a", true, None, Some(1)), device("b/c", false, None, None)];

    assert_eq!(
        devices.to_terse(&[ScanColumn::Alias, ScanColumn::Rssi, ScanColumn::Alias]),
        "a/1/a\nb/c/0/b/c\n"
    );
    assert_eq!(devices.to_terse(&[ListDevicesColumn::Connected]), "true\nfalse\n");
    let no_columns: [ScanColumn; 0] = [];
    assert_eq!(devices.to_terse(&no_columns), "\n\n");
    let nothing: Vec<BluezDevice> = vec![];
    assert_eq!(nothing.to_terse(&[ScanColumn::Alias]), "");
    assert_eq!(
        to_listing(&devices, &[ScanColumn::Address], Shape::Terse),
        "addr-of-a\naddr-of-b/c\n"
    );
}

#[test]
fn the_pretty_shape_is_a_table_under_its_headings() {
    let devices = vec![device("a", true, None, Some(1)), device("long alias", false, None, None)];

    assert_eq!(
        devices.to_pretty(&[ScanColumn::Rssi, ScanColumn::Alias]),
        " RSSI   ALIAS      \n 1      a          \n 0      long alias "
    );
    assert_eq!(
        to_listing(&devices, &[ListDevicesColumn::Alias], Shape::Pretty),
        " ALIAS      \n a          \n long alias "
    );
    let nothing: Vec<BluezDevice> = vec![];
    assert_eq!(nothing.to_pretty(&[ScanColumn::Alias, ScanColumn::Rssi]), " ALIAS   RSSI ");
    let no_columns: [ScanColumn; 0] = [];
    assert_eq!(devices.to_pretty(&no_columns), "");
}

#[test]
fn columns_are_copied_as_they_are() {
    let columns = vec![ScanColumn::Rssi, ScanColumn::Rssi, ScanColumn::Alias];
    assert_eq!(copy_of(&columns), columns);
    assert_eq!(copy_of(&Vec::<ListDevicesColumn>::new()), vec![]);
}

#[test]
fn devices_are_picked_by_their_status() {
    let devices = vec![
        BluezDevice::new("c".into(), "1".into(), true, false, false, false, Some(1), None),
        BluezDevice::new("p".into(), "2".into(), false, true, false, false, None, None),
        BluezDevice::new("t".into(), "3".into(), false, false, true, false, None, None),
        BluezDevice::new("b".into(), "4".into(), false, false, false, true, None, None),
        BluezDevice::new("all".into(), "5".into(), true, true, true, true, Some(1), None),
    ];
    let picked = |status: Option<DeviceStatus>| -> Vec<String> {
        pick(&devices, &status).iter().map(|d| d.alias().to_string()).collect()
    };

    assert_eq!(picked(None), strings(&["c", "p", "t", "b", "all"]));
    assert_eq!(picked(Some(DeviceStatus::Connected)), strings(&["c", "all"]));
    assert_eq!(picked(Some(DeviceStatus::Paired)), strings(&["p", "all"]));
    assert_eq!(picked(Some(DeviceStatus::Trusted)), strings(&["t", "all"]));
    assert_eq!(picked(Some(DeviceStatus::Bonded)), strings(&["b", "all"]));

    for status in [
        DeviceStatus::Connected,
        DeviceStatus::Paired,
        DeviceStatus::Trusted,
        DeviceStatus::Bonded,
    ] {
        let kept = pick(&devices, &Some(status));
        assert!(kept.len() <= devices.len());
        assert!(kept.iter().all(|d| d.filter_cell_value_by_status(&status)));
        let left_out = devices.iter().filter(|d| !d.filter_cell_value_by_status(&status)).count();
        assert_eq!(kept.len() + left_out, devices.len());
    }
}

#[test]
fn the_devices_shown_hold_the_name_in_their_alias() {
    let heard = || {
        vec![
            device("Headset", false, None, Some(-1)),
            device("head", false, None, Some(-2)),
            device("set of heads", false, None, Some(-3)),
        ]
    };
    let shown = |name: Option<&str>| -> Vec<String> {
        scan_devices(heard(), &name.map(String::from))
            .iter()
            .map(|d| d.alias().to_string())
            .collect()
    };

    assert_eq!(shown(None), strings(&["Headset", "head", "set of heads"]));
    assert_eq!(shown(Some("")), strings(&["Headset", "head", "set of heads"]));
    assert_eq!(shown(Some("head")), strings(&["head", "set of heads"]));
    assert_eq!(shown(Some("set")), strings(&["Headset", "set of heads"]));
    assert_eq!(shown(Some("heads ")), strings(&[]));
    assert_eq!(shown(Some("set of heads")), strings(&["set of heads"]));
}

#[test]
fn one_index_picks_the_device_to_connect() {
    let devices = vec![device("zero", false, None, None), device("one", false, None, None)];

    for (line, alias) in [
        ("0\n", "zero"),
        ("1\n", "one"),
        ("1", "one"),
        (" \t 1 \r\n", "one"),
        ("+1\n", "one"),
        ("0001\n", "one"),
        ("\u{a0}0\u{3000}\n", "zero"),
    ] {
        assert_eq!(read_device_alias(line, &devices).unwrap(), alias, "line {:?}", line);
    }
    for line in [
        "2\n", "255\n", "256\n", "-1\n", "", "\n", "one\n", "0 1\n", "0,1\n", "1.\n", "++1\n",
        "+\n", "0x1\n", "1_\n", "\u{200b}1\n", "99999999999999999999\n",
    ] {
        let error = read_device_alias(line, &devices).unwrap_err();
        assert!(matches!(error, ConnectError::InvalidAlias), "line {:?}", line);
    }
    assert!(read_device_alias("0\n", &[].to_vec()).is_err());
}

#[test]
fn a_list_of_indices_picks_the_devices_to_disconnect() {
    let devices = vec![
        device("zero", true, Some(1), None),
        device("one", true, Some(1), None),
        device("two", true, Some(1), None),
    ];

    for (line, aliases) in [
        ("0\n", vec!["zero"]),
        ("2,0\n", vec!["two", "zero"]),
        (" 1 , +2 ,00\n", vec!["one", "two", "zero"]),
        ("0,1,2", vec!["zero", "one", "two"]),
    ] {
        assert_eq!(get_aliases_from_user(line, &devices).unwrap(), strings(&aliases));
    }
    for line in ["3\n", "0,3\n", "0,0\n", "1,2,1\n", "0,\n", ",0\n", "\n", "", "0;1\n", "0, x\n"] {
        let error = get_aliases_from_user(line, &devices).unwrap_err();
        assert!(matches!(error, DisconnectError::InvalidAlias), "line {:?}", line);
    }
    let error = get_aliases_from_user("0\n", &vec![]).unwrap_err();
    assert!(matches!(error, DisconnectError::NoConnectedDevices));
}

#[test]
fn the_scripted_client_fails_the_one_call_that_it_is_set_to_fail() {
    let mut bluez = BluezTestClient::new().unwrap();
    assert!(bluez.power_state().is_ok());
    assert!(bluez.toggle_power_state().is_ok());
    assert!(bluez.devices().is_ok());
    assert!(bluez.connected_devices().is_ok());
    assert!(bluez.scanned_devices().is_ok());
    assert!(bluez.start_discovery().is_ok());
    assert!(bluez.stop_discovery().is_ok());
    assert!(bluez.connect("x").is_ok());
    assert!(bluez.disconnect("x").is_ok());
    assert!(bluez.remove("x").is_ok());

    bluez.set_erred_method_name("remove".to_string());
    assert!(bluez.remove("x").is_err());
    assert!(bluez.disconnect("x").is_ok());
    bluez.set_erred_method_name("devices".to_string());
    assert!(bluez.remove("x").is_ok());
    assert!(bluez.connected_devices().is_ok());
    assert_eq!(
        bluez.devices().unwrap_err().to_string(),
        "the Bluez process 'test_proc' failed: Invalid D-Bus method reply"
    );

    let bluez = BluezTestClient::new().unwrap();
    let known = bluez.devices().unwrap();
    assert_eq!(known.len(), 1);
    assert_eq!(known[0].alias(), "test_dev");
    assert_eq!(known[0].address(), "XX:XX:XX:XX:XX:XX");
    assert!(known[0].connected() && known[0].paired() && known[0].trusted());
    assert!(!known[0].bonded());
    assert_eq!(*known[0].battery(), Some(50));
    assert_eq!(*known[0].rssi(), None);
    let heard = bluez.scanned_devices().unwrap();
    assert_eq!(*heard[0].battery(), None);
    assert_eq!(*heard[0].rssi(), Some(50));
    assert_eq!(bluez.power_state().unwrap(), bt::BluezPowerState::On);
    assert_eq!(bluez.toggle_power_state().unwrap(), bt::BluezPowerState::Off);
    let copy = known[0].clone();
    assert_eq!(copy.alias(), "test_dev");
}

/// Whether the character has the `White_Space` property.
fn white_space(c: char) -> bool {
    matches!(
        c as u32,
        0x09..=0x0D
            | 0x20
            | 0x85
            | 0xA0
            | 0x1680
            | 0x2000..=0x200A
            | 0x2028
            | 0x2029
            | 0x202F
            | 0x205F
            | 0x3000
    )
}

/// What a string denotes as an index of at most eight bits.
fn index_of(s: &str) -> Option<u8> {
    let digits = s.strip_prefix('+').unwrap_or(s);
    if digits.is_empty() || !digits.chars().all(|c| ('0'..='9').contains(&c)) {
        return None;
    }
    let mut value: u32 = 0;
    for c in digits.chars() {
        value = value * 10 + (c as u32 - '0' as u32);
        if value > 255 {
            return None;
        }
    }
    Some(value as u8)
}

#[test]
fn white_space_around_an_answer_is_what_unicode_calls_white_space() {
    let devices = vec![device("zero", false, None, None)];
    let mut spaces = 0;
    for code in 0u32..=0x10FFFF {
        let Some(c) = char::from_u32(code) else { continue };
        let picked = read_device_alias(&format!("{}0{}", c, c), &devices).is_ok();
        assert_eq!(picked, white_space(c) || c == '0', "U+{:04X}", code);
        let leading = read_device_alias(&format!("{}0", c), &devices).is_ok();
        assert_eq!(leading, white_space(c) || c == '0' || c == '+', "U+{:04X}", code);
        if white_space(c) {
            spaces += 1;
        }
    }
    assert_eq!(spaces, 25);
    assert_eq!(read_device_alias(" \t0 x \n", &devices).is_ok(), false);
}

#[test]
fn an_answer_is_an_index_when_it_is_a_number_of_eight_bits() {
    let devices: Vec<BluezDevice> =
        (0..300).map(|i| device(&format!("device {}", i), false, None, None)).collect();

    for n in 0u32..=255 {
        for line in [format!("{}", n), format!("+{}", n), format!("00{}\n", n)] {
            assert_eq!(read_device_alias(&line, &devices).unwrap(), format!("device {}", n));
        }
        assert_eq!(
            get_aliases_from_user(&format!("{}", n), &devices).unwrap(),
            vec![format!("device {}", n)]
        );
    }
    for n in 256u32..=1000 {
        assert!(read_device_alias(&format!("{}", n), &devices).is_err());
        assert!(get_aliases_from_user(&format!("{}", n), &devices).is_err());
    }

    let letters = ['+', '-', '0', '1', '2', '5', '6', '9', ' ', 'a', ',', '.', '_'];
    let mut strings = vec![String::new()];
    for _ in 0..4 {
        let mut longer = Vec::new();
        for s in &strings {
            for c in letters {
                longer.push(format!("{}{}", s, c));
            }
        }
        for s in &longer {
            let expected = index_of(s.trim()).map(|i| format!("device {}", i));
            assert_eq!(read_device_alias(s, &devices).ok(), expected, "answer {:?}", s);
        }
        strings = longer;
    }
}

#[test]
fn numbers_are_shown_in_base_ten() {
    for (strength, shown) in [
        (0i16, "0"),
        (7, "7"),
        (-7, "-7"),
        (10, "10"),
        (-100, "-100"),
        (i16::MAX, "32767"),
        (i16::MIN, "-32768"),
    ] {
        let heard = device("d", false, None, Some(strength));
        assert_eq!(row_of(&heard, &[ScanColumn::Rssi]), strings(&[shown]));
        assert_eq!(row_of(&(0usize, heard), &[ConnectColumn::Rssi]), strings(&[shown]));
    }
    for (index, shown) in [(0usize, "0"), (9, "9"), (10, "10"), (255, "255"), (256, "256")] {
        let numbered = (index, device("d", false, None, None));
        assert_eq!(row_of(&numbered, &[DisconnectColumn::Idx]), strings(&[shown]));
        assert_eq!(row_of(&numbered, &[ConnectColumn::Idx]), vec![format!("({})", shown)]);
    }
    let last = (usize::MAX, device("d", false, None, None));
    assert_eq!(row_of(&last, &[DisconnectColumn::Idx]), vec![usize::MAX.to_string()]);
}
