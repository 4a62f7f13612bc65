use crabshell::system_info::battery::{
    battery_level, battery_levels, is_on_ac, BatteryError, BatteryLevel, BatteryReading,
    PowerSupply,
};

fn supply(kind: Option<&str>, online: Option<&str>) -> PowerSupply {
    PowerSupply { kind: kind.map(str::to_string), online: online.map(str::to_string) }
}

#[test]
fn no_supply_means_no_mains() {
    assert!(!is_on_ac(&[]));
}

#[test]
fn mains_online() {
    assert!(is_on_ac(&[supply(Some("Mains\n"), Some("1\n"))]));
    assert!(is_on_ac(&[
        supply(Some("Battery\n"), None),
        supply(Some("Mains\n"), Some("0\n")),
        supply(Some("Mains\n"), Some("1\n")),
    ]));
}

#[test]
fn mains_offline_or_unreadable() {
    assert!(!is_on_ac(&[supply(Some("Mains\n"), Some("0\n"))]));
    assert!(!is_on_ac(&[supply(Some("Mains\n"), None)]));
    assert!(!is_on_ac(&[supply(None, Some("1\n"))]));
    assert!(!is_on_ac(&[supply(Some("Mains"), Some("1\n"))]));
    assert!(!is_on_ac(&[supply(Some("Mains\n"), Some("1"))]));
    assert!(!is_on_ac(&[supply(Some("mains\n"), Some("1\n"))]));
}

#[test]
fn batteries_do_not_count() {
    assert!(!is_on_ac(&[supply(Some("Battery\n"), Some("1\n"))]));
    assert!(!is_on_ac(&[supply(Some("USB\n"), Some("1\n")), supply(Some("Battery\n"), None)]));
}

fn reading(
    name: &str,
    kind: Option<&str>,
    capacity: Option<&str>,
    status: Option<&str>,
) -> BatteryReading {
    BatteryReading {
        name: name.to_string(),
        kind: kind.map(str::to_string),
        capacity: capacity.map(str::to_string),
        status: status.map(str::to_string),
    }
}

fn battery(name: &str, capacity: &str, status: &str) -> BatteryReading {
    reading(name, Some("Battery\n"), Some(capacity), Some(status))
}

fn level(name: &str, capacity: i32, status: &str) -> BatteryLevel {
    BatteryLevel { name: name.to_string(), capacity, status: status.to_string() }
}

#[test]
fn level_of_one_battery() {
    assert_eq!(
        battery_level(&battery("BAT0", "87\n", "Discharging\n")),
        Ok(level("BAT0", 87, "Discharging"))
    );
    assert_eq!(battery_level(&battery("BAT0", "100", "Full")), Ok(level("BAT0", 100, "Full")));
    assert_eq!(
        battery_level(&battery("BAT0", "0\n\n", "Not charging\n\n")),
        Ok(level("BAT0", 0, "Not charging"))
    );
    assert_eq!(battery_level(&battery("BAT0", "+5\n", "\n")), Ok(level("BAT0", 5, "")));
    assert_eq!(battery_level(&battery("BAT0", "-5\n", " x \n")), Ok(level("BAT0", -5, " x ")));
}

#[test]
fn faults_of_one_battery() {
    let unreadable = reading("BAT0", Some("Battery\n"), None, Some("Full\n"));
    assert_eq!(battery_level(&unreadable), Err(BatteryError::UnreadableCapacity));
    for text in ["", "\n", "87 \n", " 87\n", "87%\n", "8.7\n", "2147483648\n", "-2147483649\n", "+\n"]
    {
        assert_eq!(
            battery_level(&battery("BAT0", text, "Full\n")),
            Err(BatteryError::InvalidCapacity),
            "{:?}",
            text
        );
    }
    let no_status = reading("BAT0", Some("Battery\n"), Some("87\n"), None);
    assert_eq!(battery_level(&no_status), Err(BatteryError::UnreadableStatus));
    let neither = reading("BAT0", Some("Battery\n"), None, None);
    assert_eq!(battery_level(&neither), Err(BatteryError::UnreadableCapacity));
}

#[test]
fn capacity_agrees_with_the_standard_library() {
    for text in [
        "0", "7", "+7", "-7", "007", "-0", "+0", "2147483647", "2147483648", "-2147483648",
        "-2147483649", "", "+", "-", "+-1", "--1", "1-", "a", "1a", " 1", "99999999999999999999999",
        "-99999999999999999999999", "-000000000000000000000001",
    ] {
        let told = battery_level(&battery("BAT0", text, "Full")).ok().map(|l| l.capacity);
        assert_eq!(told, text.parse::<i32>().ok(), "{:?}", text);
    }
}

#[test]
fn levels_and_total() {
    let readings = [
        reading("AC", Some("Mains\n"), None, None),
        battery("BAT0", "87\n", "Discharging\n"),
        reading("hid", Some("USB\n"), Some("nonsense"), None),
        battery("BAT1", "13\n", "Full\n"),
        reading("unreadable", None, Some("50\n"), Some("Full\n")),
    ];
    assert_eq!(
        battery_levels(&readings),
        Ok((vec![level("BAT0", 87, "Discharging"), level("BAT1", 13, "Full")], 100))
    );
    assert_eq!(battery_levels(&[]), Ok((vec![], 0)));
    assert_eq!(battery_levels(&readings[..1]), Ok((vec![], 0)));
}

#[test]
fn the_first_fault_is_told() {
    let readings = [
        battery("BAT0", "87\n", "Discharging\n"),
        reading("BAT1", Some("Battery\n"), Some("13\n"), None),
        battery("BAT2", "x\n", "Full\n"),
    ];
    assert_eq!(battery_levels(&readings), Err(BatteryError::UnreadableStatus));
    assert_eq!(battery_levels(&readings[2..]), Err(BatteryError::InvalidCapacity));
    let readings = [
        battery("BAT0", "2147483647\n", "Full\n"),
        battery("BAT1", "1\n", "Full\n"),
        battery("BAT2", "x\n", "Full\n"),
    ];
    assert_eq!(battery_levels(&readings), Err(BatteryError::TotalOverflow));
    assert_eq!(
        battery_levels(&readings[..1]),
        Ok((vec![level("BAT0", 2147483647, "Full")], 2147483647))
    );
    let readings = [battery("BAT0", "-2147483648\n", "Full\n"), battery("BAT1", "-1\n", "Full\n")];
    assert_eq!(battery_levels(&readings), Err(BatteryError::TotalOverflow));
}
