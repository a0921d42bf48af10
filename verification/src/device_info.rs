//! What the platform device providers answer, computed from the raw readings the hosts take
//! from the operating system: wall-clock time and zone, battery state and network kind. The
//! readings themselves, and the bridge encoding of the answers, stay with the hosts.
use vstd::prelude::*;
use vstd::string::StrSliceExecFns;

verus! {

/// `TIME_ZONE_ID_STANDARD`: standard time is in effect.
pub const TIME_ZONE_ID_STANDARD: u32 = 1;
/// `TIME_ZONE_ID_DAYLIGHT`: daylight saving time is in effect.
pub const TIME_ZONE_ID_DAYLIGHT: u32 = 2;
/// Milliseconds from 1601-01-01 (the `FILETIME` epoch) to 1970-01-01.
pub const FILETIME_UNIX_EPOCH_MILLIS: u64 = 11_644_473_600_000;
/// `INTERNET_CONNECTION_MODEM`.
pub const INTERNET_CONNECTION_MODEM: u32 = 0x01;
/// `INTERNET_CONNECTION_LAN`.
pub const INTERNET_CONNECTION_LAN: u32 = 0x02;

/// The wall-clock answer of `std.device.getTimeStamp`.
#[derive(Clone, Debug)]
pub struct TimeInfo {
    /// Milliseconds since the Unix epoch.
    pub unix_millis: u64,
    /// Offset of local time from UTC in seconds (east positive).
    pub timezone_offset_seconds: i32,
    /// IANA time-zone id.
    pub timezone_id: String,
}

/// Network connection kind.
#[derive(Clone, Copy, Debug, PartialEq, Eq, Structural)]
pub enum NetworkKind {
    /// Mobile or modem link.
    Cellular,
    /// Wired or local network.
    Ethernet,
    /// Offline, or a link of unknown kind.
    Unknown,
}

/// The zone biases of a Windows time-zone record, in minutes west of UTC.
#[derive(Clone, Copy, Debug, PartialEq, Eq, Structural)]
pub struct ZoneBias {
    /// `Bias`.
    pub bias: i32,
    /// `StandardBias`, added while standard time is in effect.
    pub standard_bias: i32,
    /// `DaylightBias`, added while daylight saving time is in effect.
    pub daylight_bias: i32,
}

/// Unix milliseconds of a `FILETIME` (100 ns ticks since 1601), zero before 1970.
pub open spec fn filetime_unix_millis(high: u32, low: u32) -> int {
    let millis = (high * 0x1_0000_0000 + low) / 10_000;
    if millis >= FILETIME_UNIX_EPOCH_MILLIS {
        millis - FILETIME_UNIX_EPOCH_MILLIS
    } else {
        0
    }
}

/// A `FILETIME` counts 100 ns ticks from 1601: the reading `116_444_736_000_000_000` is the
/// Unix epoch, each further 10,000 ticks add one millisecond, every reading before the epoch
/// gives zero, and a later reading never gives an earlier time.
pub proof fn lemma_filetime_counts_ticks(high: u32, low: u32, later_high: u32, later_low: u32, millis: nat)
    ensures
        high * 0x1_0000_0000 + low == 116_444_736_000_000_000 + 10_000 * millis
            ==> filetime_unix_millis(high, low) == millis,
        high * 0x1_0000_0000 + low < 116_444_736_000_000_000 ==> filetime_unix_millis(high, low)
            == 0,
        high * 0x1_0000_0000 + low <= later_high * 0x1_0000_0000 + later_low
            ==> filetime_unix_millis(high, low) <= filetime_unix_millis(later_high, later_low),
{
    let ticks: int = high * 0x1_0000_0000 + low;
    let later: int = later_high * 0x1_0000_0000 + later_low;
    if ticks == 116_444_736_000_000_000 + 10_000 * millis {
        assert((116_444_736_000_000_000 + 10_000 * millis) / 10_000 == 11_644_473_600_000 + millis)
            by (nonlinear_arith);
    }
    if ticks < 116_444_736_000_000_000 {
        assert(ticks / 10_000 < 11_644_473_600_000) by (nonlinear_arith)
            requires
                0 <= ticks < 116_444_736_000_000_000,
        ;
    }
    if ticks <= later {
        assert(ticks / 10_000 <= later / 10_000) by (nonlinear_arith)
            requires
                0 <= ticks <= later,
        ;
    }
}

/// Seconds east of UTC for a zone record and the zone state `GetTimeZoneInformation` reported.
pub open spec fn zone_offset_seconds(zone: ZoneBias, zone_state: u32) -> int {
    -(zone.bias * 60) - (if zone_state == TIME_ZONE_ID_DAYLIGHT {
        zone.daylight_bias * 60
    } else if zone_state == TIME_ZONE_ID_STANDARD {
        zone.standard_bias * 60
    } else {
        0
    })
}

/// A zone bias counts minutes west of UTC: with no zone state in effect the offset is the
/// bias in seconds, negated; daylight and standard time each add their own bias, so the two
/// offsets differ by the difference of those biases.
pub proof fn lemma_zone_offset_counts_minutes_west(zone: ZoneBias, zone_state: u32)
    ensures
        zone_state != TIME_ZONE_ID_DAYLIGHT && zone_state != TIME_ZONE_ID_STANDARD
            ==> zone_offset_seconds(zone, zone_state) == -60 * zone.bias,
        zone_offset_seconds(zone, 2) == -60 * (zone.bias + zone.daylight_bias),
        zone_offset_seconds(zone, 1) == -60 * (zone.bias + zone.standard_bias),
        zone_offset_seconds(zone, 2) - zone_offset_seconds(zone, 1) == 60 * (zone.standard_bias
            - zone.daylight_bias),
{
}

/// `std.device.getTimeStamp` on Windows.
pub struct Win32TimeProvider;

impl Win32TimeProvider {
    /// The time answer from `GetSystemTimeAsFileTime`, `GetTimeZoneInformation` and the
    /// registry zone key name (`"UTC"` when there is none).
    pub fn time_info(file_time_high: u32, file_time_low: u32, zone: ZoneBias, zone_state: u32, zone_key: Option<String>) -> (info: TimeInfo)
        ensures
            info.unix_millis == filetime_unix_millis(file_time_high, file_time_low),
            info.timezone_offset_seconds == zone_offset_seconds(zone, zone_state) as i32,
            info.timezone_id@ == (match zone_key {
                Some(key) => key@,
                None => "UTC"@,
            }),
    {
        let ticks: u64 = (file_time_high as u64) * 0x1_0000_0000 + (file_time_low as u64);
        let unix_millis: u64 = (ticks / 10_000).saturating_sub(FILETIME_UNIX_EPOCH_MILLIS);
        let mut offset_seconds: i64 = -(zone.bias as i64) * 60;
        if zone_state == TIME_ZONE_ID_DAYLIGHT {
            offset_seconds = offset_seconds - (zone.daylight_bias as i64) * 60;
        } else if zone_state == TIME_ZONE_ID_STANDARD {
            offset_seconds = offset_seconds - (zone.standard_bias as i64) * 60;
        }
        let timezone_id = match zone_key {
            Some(key) => key,
            None => "UTC".to_owned(),
        };
        TimeInfo { unix_millis, timezone_offset_seconds: offset_seconds as i32, timezone_id }
    }
}

/// `std.device.getTimeStamp` on macOS.
pub struct FoundationTimeProvider;

impl FoundationTimeProvider {
    /// The time answer from `NSDate` milliseconds and the local `NSTimeZone` offset and name
    /// (`"UTC"` when the name is empty).
    pub fn time_info(unix_millis: u64, seconds_from_gmt: i64, zone_name: String) -> (info: TimeInfo)
        ensures
            info.unix_millis == unix_millis,
            info.timezone_offset_seconds == seconds_from_gmt as i32,
            info.timezone_id@ == (if zone_name@.len() == 0 { "UTC"@ } else { zone_name@ }),
    {
        let timezone_id = if zone_name.as_str().unicode_len() == 0 {
            "UTC".to_owned()
        } else {
            zone_name
        };
        TimeInfo { unix_millis, timezone_offset_seconds: seconds_from_gmt as i32, timezone_id }
    }
}

/// `std.device.getBatteryLevel` on Windows.
pub struct BatteryLevelProvider;

impl BatteryLevelProvider {
    /// The battery percentage of a `BatteryLifePercent` reading: the reading when it is a
    /// percentage, zero when it is unknown (255) or otherwise out of range.
    pub fn level_percent(battery_life_percent: u8) -> (percent: u8)
        ensures
            percent == (if battery_life_percent <= 100 { battery_life_percent } else { 0 }),
    {
        if battery_life_percent <= 100 {
            battery_life_percent
        } else {
            0
        }
    }
}

/// `std.device.getBatteryCharging` on Windows.
pub struct BatteryChargingProvider;

impl BatteryChargingProvider {
    /// Charging means the AC line is online (`ACLineStatus` 1); offline (0) and unknown (255)
    /// are not charging.
    pub fn charging(ac_line_status: u8) -> (charging: bool)
        ensures
            charging == (ac_line_status == 1),
    {
        ac_line_status == 1
    }
}

/// `std.device.getNetworkKind` on Windows.
pub struct NetworkKindProvider;

impl NetworkKindProvider {
    /// The connection kind from `InternetGetConnectedState`: offline is unknown; a LAN link is
    /// Ethernet; otherwise a modem link is cellular; anything else is unknown.
    pub fn kind(connected: bool, flags: u32) -> (kind: NetworkKind)
        ensures
            kind == (if !connected {
                NetworkKind::Unknown
            } else if flags & INTERNET_CONNECTION_LAN != 0 {
                NetworkKind::Ethernet
            } else if flags & INTERNET_CONNECTION_MODEM != 0 {
                NetworkKind::Cellular
            } else {
                NetworkKind::Unknown
            }),
    {
        if !connected {
            NetworkKind::Unknown
        } else if flags & INTERNET_CONNECTION_LAN != 0 {
            NetworkKind::Ethernet
        } else if flags & INTERNET_CONNECTION_MODEM != 0 {
            NetworkKind::Cellular
        } else {
            NetworkKind::Unknown
        }
    }
}

/// `std.device.getNetworkKind` on macOS, where reachability exposes no connection kind.
pub struct ReachabilityKindProvider;

impl ReachabilityKindProvider {
    /// Ethernet when the network is reachable, unknown otherwise.
    pub fn kind(reachable: bool) -> (kind: NetworkKind)
        ensures
            kind == (if reachable { NetworkKind::Ethernet } else { NetworkKind::Unknown }),
    {
        if reachable {
            NetworkKind::Ethernet
        } else {
            NetworkKind::Unknown
        }
    }
}

} // verus!
