//! The payloads of sensor notifications, as a dongle writes them.
use crate::protocol::bytes;
use crate::protocol::packet::{CommandType, Packet, PacketView, PayloadView};
use crate::protocol::telemetry::{self, DongleEvent, EventView, SensorType, TelemetryView};
use vstd::prelude::*;
use vstd::string::*;
use vstd::utf8::*;

verus! {

/// The event type of a scan notification.
pub const EVENT_TYPE_SCAN: u8 = 0xA3;

// ---------------------------------------------------------------------------
// The model
// ---------------------------------------------------------------------------

/// Eight bytes of a MAC address: what is missing is filled with the digit zero,
/// what is too much is cut off.
pub open spec fn mac_field(mac: Seq<char>) -> Seq<u8> {
    let b = encode_utf8(mac);
    if b.len() >= 8 {
        b.subrange(0, 8)
    } else {
        b + Seq::new((8 - b.len()) as nat, |i: int| 48u8)
    }
}

/// A packet of the host's own exchanges.
pub open spec fn sync_packet(command_id: u8, payload: Seq<u8>) -> PacketView {
    PacketView { cmd_type: CommandType::Sync, command_id, payload: PayloadView::Bytes(payload) }
}

/// A packet that either side may send.
pub open spec fn async_packet(command_id: u8, payload: Seq<u8>) -> PacketView {
    PacketView { cmd_type: CommandType::Async, command_id, payload: PayloadView::Bytes(payload) }
}

/// The payload of a scan notification.
pub open spec fn scan_payload(mac: Seq<char>, sensor_type: SensorType, version: u8) -> Seq<u8> {
    seq![EVENT_TYPE_SCAN] + mac_field(mac) + seq![sensor_type.code(), version]
}

/// The payload of an alarm notification.
pub open spec fn alarm1_payload(
    timestamp: Seq<u8>,
    event_type: u8,
    mac: Seq<char>,
    sensor_type: SensorType,
    rest: Seq<u8>,
) -> Seq<u8> {
    timestamp + seq![event_type] + mac_field(mac) + seq![sensor_type.code()] + rest
}

/// The payload of an extended alarm notification.
pub open spec fn alarm2_payload(
    event_type: u8,
    mac: Seq<char>,
    sensor_type: SensorType,
    rest: Seq<u8>,
) -> Seq<u8> {
    seq![event_type] + mac_field(mac) + seq![sensor_type.code()] + rest
}

/// The telemetry bytes of a state change.
pub open spec fn alarm_bytes(state: u8, battery: u8, rssi: u8) -> Seq<u8> {
    seq![0x01, battery, 0x00, 0x00, state, 0x00, 0x0A, rssi]
}

/// The telemetry bytes of a heartbeat.
pub open spec fn heartbeat_bytes(battery: u8, rssi: u8) -> Seq<u8> {
    seq![0x02, battery, 0x00, 0x00, 0x00, 0x00, 0x0B, rssi]
}

/// The telemetry bytes of a climate report. The temperature comes as whole degrees
/// and hundredths.
pub open spec fn climate_bytes(
    temp_hi: i8,
    temp_lo: u8,
    humidity: u8,
    battery: u8,
    rssi: u8,
) -> Seq<u8> {
    seq![
        0x01,
        battery,
        0x00,
        0x03,
        bytes::unsigned(temp_hi),
        temp_lo,
        humidity,
        0x00,
        0x0C,
        rssi,
    ]
}

/// The telemetry bytes of a leak report.
pub open spec fn leak_bytes(
    state: u8,
    probe_available: bool,
    probe_state: u8,
    battery: u8,
    rssi: u8,
) -> Seq<u8> {
    seq![
        0x00,
        0x00,
        battery,
        0x00,
        0x00,
        state,
        probe_state,
        if probe_available {
            1u8
        } else {
            0u8
        },
        0x00,
        0x00,
        rssi,
    ]
}

// ---------------------------------------------------------------------------
// Builders
// ---------------------------------------------------------------------------

/// Adds the eight bytes of a MAC address.
pub fn push_mac(out: &mut Vec<u8>, mac: &str)
    ensures
        final(out)@ == old(out)@ + mac_field(mac@),
{
    let b = mac.as_bytes();
    let n: usize = if b.len() < 8 {
        b.len()
    } else {
        8
    };
    let ghost before = out@;
    let mut i: usize = 0;
    while i < 8
        invariant
            i <= 8,
            n <= 8,
            n <= b@.len(),
            n == 8 || n == b@.len(),
            b@ == encode_utf8(mac@),
            out@ == before + mac_field(mac@).subrange(0, i as int),
        decreases 8 - i,
    {
        proof {
            assert(before + mac_field(mac@).subrange(0, i + 1) =~= (before + mac_field(
                mac@,
            ).subrange(0, i as int)).push(mac_field(mac@)[i as int]));
        }
        if i < n {
            out.push(b[i]);
        } else {
            out.push(48);
        }
        i += 1;
    }
    proof {
        assert(mac_field(mac@).subrange(0, 8) =~= mac_field(mac@));
    }
}

/// The bytes of a scan notification.
pub fn scan_packet(mac: &str, sensor_type: SensorType, version: u8) -> (r: Vec<u8>)
    ensures
        r@ == async_packet(0x20, scan_payload(mac@, sensor_type, version)).wire(),
{
    let mut payload: Vec<u8> = Vec::new();
    payload.push(EVENT_TYPE_SCAN);
    push_mac(&mut payload, mac);
    payload.push(sensor_type.to_u8());
    payload.push(version);
    proof {
        assert(payload@ =~= scan_payload(mac@, sensor_type, version));
    }
    Packet::new_async(0x20, payload).to_bytes()
}

/// The payload of an alarm notification.
pub fn build_alarm1_payload(
    timestamp: &[u8],
    event_type: u8,
    mac: &str,
    sensor_type: SensorType,
    rest: &[u8],
) -> (r: Vec<u8>)
    ensures
        r@ == alarm1_payload(timestamp@, event_type, mac@, sensor_type, rest@),
{
    let mut payload: Vec<u8> = Vec::new();
    payload.extend_from_slice(timestamp);
    proof {
        assert(payload@ =~= timestamp@);
    }
    payload.push(event_type);
    push_mac(&mut payload, mac);
    payload.push(sensor_type.to_u8());
    payload.extend_from_slice(rest);
    proof {
        assert(payload@ =~= alarm1_payload(timestamp@, event_type, mac@, sensor_type, rest@));
    }
    payload
}

/// The bytes of an alarm notification about a state change.
pub fn alarm_packet(
    timestamp: &[u8],
    mac: &str,
    sensor_type: SensorType,
    state: u8,
    battery: u8,
    rssi: u8,
) -> (r: Vec<u8>)
    ensures
        r@ == async_packet(
            0x19,
            alarm1_payload(
                timestamp@,
                DongleEvent::EVENT_TYPE_ALARM,
                mac@,
                sensor_type,
                alarm_bytes(state, battery, rssi),
            ),
        ).wire(),
{
    let rest: Vec<u8> = vec![0x01, battery, 0x00, 0x00, state, 0x00, 0x0A, rssi];
    proof {
        assert(rest@ =~= alarm_bytes(state, battery, rssi));
    }
    let payload = build_alarm1_payload(
        timestamp,
        DongleEvent::EVENT_TYPE_ALARM,
        mac,
        sensor_type,
        rest.as_slice(),
    );
    Packet::new_async(0x19, payload).to_bytes()
}

/// The bytes of an alarm notification about a heartbeat.
pub fn heartbeat_packet(
    timestamp: &[u8],
    mac: &str,
    sensor_type: SensorType,
    battery: u8,
    rssi: u8,
) -> (r: Vec<u8>)
    ensures
        r@ == async_packet(
            0x19,
            alarm1_payload(
                timestamp@,
                DongleEvent::EVENT_TYPE_HEARTBEAT,
                mac@,
                sensor_type,
                heartbeat_bytes(battery, rssi),
            ),
        ).wire(),
{
    let rest: Vec<u8> = vec![0x02, battery, 0x00, 0x00, 0x00, 0x00, 0x0B, rssi];
    proof {
        assert(rest@ =~= heartbeat_bytes(battery, rssi));
    }
    let payload = build_alarm1_payload(
        timestamp,
        DongleEvent::EVENT_TYPE_HEARTBEAT,
        mac,
        sensor_type,
        rest.as_slice(),
    );
    Packet::new_async(0x19, payload).to_bytes()
}

/// The bytes of an alarm notification about temperature and humidity.
pub fn climate_packet(
    timestamp: &[u8],
    mac: &str,
    temp_hi: i8,
    temp_lo: u8,
    humidity: u8,
    battery: u8,
    rssi: u8,
) -> (r: Vec<u8>)
    ensures
        r@ == async_packet(
            0x19,
            alarm1_payload(
                timestamp@,
                DongleEvent::EVENT_TYPE_CLIMATE,
                mac@,
                SensorType::ClimateV2,
                climate_bytes(temp_hi, temp_lo, humidity, battery, rssi),
            ),
        ).wire(),
{
    let hi = bytes::to_unsigned(temp_hi);
    let rest: Vec<u8> = vec![0x01, battery, 0x00, 0x03, hi, temp_lo, humidity, 0x00, 0x0C, rssi];
    proof {
        assert(rest@ =~= climate_bytes(temp_hi, temp_lo, humidity, battery, rssi));
    }
    let payload = build_alarm1_payload(
        timestamp,
        DongleEvent::EVENT_TYPE_CLIMATE,
        mac,
        SensorType::ClimateV2,
        rest.as_slice(),
    );
    Packet::new_async(0x19, payload).to_bytes()
}

/// The bytes of an extended alarm notification about a leak.
pub fn leak_packet(
    mac: &str,
    state: u8,
    probe_available: bool,
    probe_state: u8,
    battery: u8,
    rssi: u8,
) -> (r: Vec<u8>)
    ensures
        r@ == async_packet(
            0x55,
            alarm2_payload(
                DongleEvent::EVENT_TYPE_LEAK,
                mac@,
                SensorType::LeakV2,
                leak_bytes(state, probe_available, probe_state, battery, rssi),
            ),
        ).wire(),
{
    let mut payload: Vec<u8> = Vec::new();
    payload.push(DongleEvent::EVENT_TYPE_LEAK);
    push_mac(&mut payload, mac);
    payload.push(SensorType::LeakV2.to_u8());
    payload.push(0x00);
    payload.push(0x00);
    payload.push(battery);
    payload.push(0x00);
    payload.push(0x00);
    payload.push(state);
    payload.push(probe_state);
    payload.push(if probe_available {
        1
    } else {
        0
    });
    payload.push(0x00);
    payload.push(0x00);
    payload.push(rssi);
    proof {
        assert(payload@ =~= alarm2_payload(
            DongleEvent::EVENT_TYPE_LEAK,
            mac@,
            SensorType::LeakV2,
            leak_bytes(state, probe_available, probe_state, battery, rssi),
        ));
    }
    Packet::new_async(0x55, payload).to_bytes()
}

// ---------------------------------------------------------------------------
// Laws
// ---------------------------------------------------------------------------

/// A MAC address of eight bytes comes back from its field.
pub proof fn law_mac_field_round_trip(mac: Seq<char>)
    requires
        encode_utf8(mac).len() == 8,
    ensures
        mac_field(mac).len() == 8,
        valid_utf8(mac_field(mac)),
        decode_utf8(mac_field(mac)) == mac,
{
    assert(encode_utf8(mac).subrange(0, 8) =~= encode_utf8(mac));
    encode_utf8_valid_utf8(mac);
    encode_utf8_decode_utf8(mac);
}

/// Whatever the MAC address, its field takes eight bytes.
pub proof fn law_mac_field_length(mac: Seq<char>)
    ensures
        mac_field(mac).len() == 8,
{
}

/// A scan notification is read as what was written into it.
pub proof fn law_scan_reads_back(mac: Seq<char>, sensor_type: SensorType, version: u8, now: u64)
    requires
        encode_utf8(mac).len() == 8,
    ensures
        telemetry::scan_event(scan_payload(mac, sensor_type, version), now) == Ok::<
            EventView,
            &'static str,
        >(
            EventView {
                mac,
                timestamp: now,
                sensor_type: SensorType::of_code(sensor_type.code()),
                event_type: EVENT_TYPE_SCAN,
                data: TelemetryView::Scanned { version },
                dongle_mac: None,
            },
        ),
{
    law_mac_field_round_trip(mac);
    let p = scan_payload(mac, sensor_type, version);
    assert(telemetry::mac_at(p, 1) =~= mac_field(mac));
}

/// The header of an alarm notification is read as what was written into it, and
/// the telemetry bytes behind it are read as telemetry.
pub proof fn law_alarm1_reads_back(
    timestamp: u64,
    event_type: u8,
    mac: Seq<char>,
    sensor_type: SensorType,
    rest: Seq<u8>,
)
    requires
        encode_utf8(mac).len() == 8,
    ensures
        telemetry::alarm1_event(
            alarm1_payload(bytes::be_bytes(timestamp), event_type, mac, sensor_type, rest),
        ) == (match telemetry::alarm1_data(event_type, rest) {
            Ok(data) => Ok::<EventView, &'static str>(
                EventView {
                    mac,
                    timestamp,
                    sensor_type: SensorType::of_code(sensor_type.code()),
                    event_type,
                    data,
                    dongle_mac: None,
                },
            ),
            Err(e) => Err(e),
        }),
{
    law_mac_field_round_trip(mac);
    bytes::law_be_round_trip(timestamp);
    let p = alarm1_payload(bytes::be_bytes(timestamp), event_type, mac, sensor_type, rest);
    assert(p.subrange(0, 8) =~= bytes::be_bytes(timestamp));
    assert(telemetry::mac_at(p, 9) =~= mac_field(mac));
    assert(p.subrange(18, p.len() as int) =~= rest);
}

/// The telemetry of each notification is read as what was written into it. A signal
/// strength of up to 128 comes back with its sign turned.
pub proof fn law_telemetry_reads_back(
    state: u8,
    battery: u8,
    rssi: u8,
    temp_hi: i8,
    temp_lo: u8,
    humidity: u8,
    probe_available: bool,
    probe_state: u8,
)
    requires
        rssi <= 128,
    ensures
        telemetry::alarm1_data(
            DongleEvent::EVENT_TYPE_ALARM,
            alarm_bytes(state, battery, rssi),
        ) == Ok::<TelemetryView, &'static str>(
            TelemetryView::Alarm {
                battery,
                rssi: (-rssi) as i8,
                state,
                die_temperature_c: 1,
                event_sequence: 10,
            },
        ),
        telemetry::alarm1_data(
            DongleEvent::EVENT_TYPE_HEARTBEAT,
            heartbeat_bytes(battery, rssi),
        ) == Ok::<TelemetryView, &'static str>(
            TelemetryView::Heartbeat {
                battery,
                rssi: (-rssi) as i8,
                die_temperature_c: 2,
                event_sequence: 11,
            },
        ),
        telemetry::alarm1_data(
            DongleEvent::EVENT_TYPE_CLIMATE,
            climate_bytes(temp_hi, temp_lo, humidity, battery, rssi),
        ) == Ok::<TelemetryView, &'static str>(
            TelemetryView::Climate {
                battery,
                rssi: (-rssi) as i8,
                temperature: (temp_hi * 100 + temp_lo) as i32,
                humidity,
            },
        ),
        telemetry::alarm2_data(
            DongleEvent::EVENT_TYPE_LEAK,
            leak_bytes(state, probe_available, probe_state, battery, rssi),
        ) == Ok::<TelemetryView, &'static str>(
            TelemetryView::Leak {
                battery,
                rssi: (-rssi) as i8,
                state,
                probe_state,
                probe_available,
            },
        ),
{
}

/// An extended alarm notification is read as what was written into it.
pub proof fn law_alarm2_reads_back(
    event_type: u8,
    mac: Seq<char>,
    sensor_type: SensorType,
    rest: Seq<u8>,
    now: u64,
)
    requires
        encode_utf8(mac).len() == 8,
    ensures
        telemetry::alarm2_event(alarm2_payload(event_type, mac, sensor_type, rest), now) == (
        match telemetry::alarm2_data(event_type, rest) {
            Ok(data) => Ok::<EventView, &'static str>(
                EventView {
                    mac,
                    timestamp: now,
                    sensor_type: SensorType::of_code(sensor_type.code()),
                    event_type,
                    data,
                    dongle_mac: None,
                },
            ),
            Err(e) => Err(e),
        }),
{
    law_mac_field_round_trip(mac);
    let p = alarm2_payload(event_type, mac, sensor_type, rest);
    assert(telemetry::mac_at(p, 1) =~= mac_field(mac));
    assert(p.subrange(10, p.len() as int) =~= rest);
}

/// An address of fewer than eight bytes is filled up with zeros behind it, a longer one is
/// cut off; the bytes that fit stand as they are.
pub proof fn law_mac_field_is_filled(mac: Seq<char>, i: int)
    requires
        0 <= i < 8,
    ensures
        i < encode_utf8(mac).len() ==> mac_field(mac)[i] == encode_utf8(mac)[i],
        i >= encode_utf8(mac).len() ==> mac_field(mac)[i] == 48,
{
}

/// What a notification does not say is zero: the bytes of telemetry that carry nothing.
pub proof fn law_the_rest_is_zero(
    state: u8,
    battery: u8,
    rssi: u8,
    temp_hi: i8,
    temp_lo: u8,
    humidity: u8,
    probe_available: bool,
    probe_state: u8,
)
    ensures
        ({
            let a = alarm_bytes(state, battery, rssi);
            &&& a.len() == 8 && a[2] == 0 && a[3] == 0
        }),
        ({
            let h = heartbeat_bytes(battery, rssi);
            &&& h.len() == 8 && h[2] == 0 && h[3] == 0 && h[4] == 0
        }),
        ({
            let c = climate_bytes(temp_hi, temp_lo, humidity, battery, rssi);
            &&& c.len() == 10 && c[0] == 1 && c[2] == 0 && c[3] == 3 && c[7] == 0 && c[8] == 12
        }),
        ({
            let l = leak_bytes(state, probe_available, probe_state, battery, rssi);
            &&& l.len() == 11 && l[0] == 0 && l[1] == 0 && l[3] == 0 && l[4] == 0 && l[8] == 0
                && l[9] == 0
        }),
{
}

} // verus!
