use tela::device_info::{
    BatteryChargingProvider, BatteryLevelProvider, FoundationTimeProvider, NetworkKind,
    NetworkKindProvider, ReachabilityKindProvider, Win32TimeProvider, ZoneBias,
    INTERNET_CONNECTION_LAN, INTERNET_CONNECTION_MODEM, TIME_ZONE_ID_DAYLIGHT,
    TIME_ZONE_ID_STANDARD,
};

#[test]
fn filetime_and_zone_bias_become_unix_millis_and_offset() {
    // 2024-02-29T00:00:00Z as FILETIME: (1709164800000 + 11644473600000) * 10000 ticks.
    let ticks: u64 = (1_709_164_800_000 + 11_644_473_600_000) * 10_000;
    let zone = ZoneBias { bias: -480, standard_bias: 0, daylight_bias: -60 };
    let info = Win32TimeProvider::time_info(
        (ticks >> 32) as u32,
        ticks as u32,
        zone,
        TIME_ZONE_ID_STANDARD,
        Some("Asia/Shanghai".to_owned()),
    );
    assert_eq!(info.unix_millis, 1_709_164_800_000);
    assert_eq!(info.timezone_offset_seconds, 28_800);
    assert_eq!(info.timezone_id, "Asia/Shanghai");

    let daylight = Win32TimeProvider::time_info(0, 0, zone, TIME_ZONE_ID_DAYLIGHT, None);
    assert_eq!(daylight.unix_millis, 0, "instants before 1970 saturate to zero");
    assert_eq!(daylight.timezone_offset_seconds, 28_800 + 3_600);
    assert_eq!(daylight.timezone_id, "UTC");
}

#[test]
fn foundation_time_defaults_an_empty_zone_name() {
    let info = FoundationTimeProvider::time_info(42, -3_600, String::new());
    assert_eq!((info.unix_millis, info.timezone_offset_seconds), (42, -3_600));
    assert_eq!(info.timezone_id, "UTC");
    assert_eq!(FoundationTimeProvider::time_info(0, 0, "Europe/Paris".to_owned()).timezone_id, "Europe/Paris");
}

#[test]
fn battery_and_network_readings() {
    assert_eq!(BatteryLevelProvider::level_percent(55), 55);
    assert_eq!(BatteryLevelProvider::level_percent(255), 0);
    assert!(BatteryChargingProvider::charging(1));
    assert!(!BatteryChargingProvider::charging(255));
    assert_eq!(NetworkKindProvider::kind(false, INTERNET_CONNECTION_LAN), NetworkKind::Unknown);
    assert_eq!(
        NetworkKindProvider::kind(true, INTERNET_CONNECTION_LAN | INTERNET_CONNECTION_MODEM),
        NetworkKind::Ethernet
    );
    assert_eq!(NetworkKindProvider::kind(true, INTERNET_CONNECTION_MODEM), NetworkKind::Cellular);
    assert_eq!(NetworkKindProvider::kind(true, 0x40), NetworkKind::Unknown);
    assert_eq!(ReachabilityKindProvider::kind(true), NetworkKind::Ethernet);
    assert_eq!(ReachabilityKindProvider::kind(false), NetworkKind::Unknown);
}
