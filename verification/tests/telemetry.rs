use igcl::device_adapter::DeviceAdapter;
use igcl::error::{Error, CTL_RESULT_ERROR_NOT_AVAILABLE, CTL_RESULT_SUCCESS};
use igcl::native::{AdapterBdf, AdapterHandle, AdapterProperties, DeviceType};
use igcl::telemetry::{
    RawTelemetry, RawTelemetryItem, Telemetry, TelemetryItem, TelemetryReply, Unit, Value,
    CTL_DATA_TYPE_DOUBLE, CTL_DATA_TYPE_FLOAT, CTL_DATA_TYPE_INT16, CTL_DATA_TYPE_INT32,
    CTL_DATA_TYPE_INT64, CTL_DATA_TYPE_INT8, CTL_DATA_TYPE_UINT16, CTL_DATA_TYPE_UINT32,
    CTL_DATA_TYPE_UINT64, CTL_DATA_TYPE_UINT8, CTL_UNITS_ANGULAR_SPEED_RPM,
    CTL_UNITS_ENERGY_JOULES, CTL_UNITS_FREQUENCY_MHZ, CTL_UNITS_MEMORY_BYTES,
    CTL_UNITS_MEM_SPEED_GBPS, CTL_UNITS_OPERATIONS_GTS, CTL_UNITS_OPERATIONS_MTS,
    CTL_UNITS_PERCENT, CTL_UNITS_POWER_MILLIWATTS, CTL_UNITS_POWER_WATTS,
    CTL_UNITS_TEMPERATURE_CELSIUS, CTL_UNITS_TIME_SECONDS, CTL_UNITS_VOLTAGE_MILLIVOLTS,
    CTL_UNITS_VOLTAGE_VOLTS,
};
use std::cell::Cell;

const SAMPLES: [[u8; 8]; 6] = [
    [0, 0, 0, 0, 0, 0, 0, 0],
    [1, 0, 0, 0, 0, 0, 0, 0],
    [0xff, 0xff, 0xff, 0xff, 0xff, 0xff, 0xff, 0xff],
    [0x80, 0x00, 0x00, 0x80, 0x00, 0x00, 0x00, 0x80],
    [0x7f, 0xff, 0xff, 0x7f, 0xff, 0xff, 0xff, 0x7f],
    [0x12, 0x34, 0x56, 0x78, 0x9a, 0xbc, 0xde, 0xf0],
];

/// What a payload holds under a type tag, by the conversions of std.
fn expected_value(data_type: u32, bytes: [u8; 8]) -> Value {
    let two: [u8; 2] = [bytes[0], bytes[1]];
    let four: [u8; 4] = [bytes[0], bytes[1], bytes[2], bytes[3]];
    match data_type {
        0 => Value::I8(i8::from_le_bytes([bytes[0]])),
        1 => Value::U8(bytes[0]),
        2 => Value::I16(i16::from_le_bytes(two)),
        3 => Value::U16(u16::from_le_bytes(two)),
        4 => Value::I32(i32::from_le_bytes(four)),
        5 => Value::U32(u32::from_le_bytes(four)),
        6 => Value::I64(i64::from_le_bytes(bytes)),
        7 => Value::U64(u64::from_le_bytes(bytes)),
        8 => Value::F32(f32::from_le_bytes(four).to_bits()),
        9 => Value::F64(f64::from_le_bytes(bytes).to_bits()),
        _ => unreachable!(),
    }
}

fn expected_unit(units: u32, value: Value) -> Unit {
    match units {
        0 => Unit::FrequencyMhz(value),
        1 => Unit::OperationsGts(value),
        2 => Unit::OperationsMts(value),
        3 => Unit::VoltageVolts(value),
        4 => Unit::PowerWatts(value),
        5 => Unit::TemperatureCelsius(value),
        6 => Unit::EnergyJoules(value),
        7 => Unit::TimeSeconds(value),
        8 => Unit::MemoryBytes(value),
        9 => Unit::AngularSpeedRpm(value),
        10 => Unit::PowerMilliwatts(value),
        11 => Unit::Percent(value),
        12 => Unit::MemSpeedGbps(value),
        13 => Unit::VoltageMillivolts(value),
        _ => unreachable!(),
    }
}

fn item(supported: bool, units: u32, data_type: u32, value: [u8; 8]) -> RawTelemetryItem {
    RawTelemetryItem { supported, units, data_type, value }
}

fn absent() -> RawTelemetryItem {
    item(false, 0, 0, [0; 8])
}

fn raw_telemetry() -> RawTelemetry {
    RawTelemetry {
        time_stamp: item(true, CTL_UNITS_TIME_SECONDS, CTL_DATA_TYPE_DOUBLE, 12.5f64.to_le_bytes()),
        gpu_energy_counter: item(
            true,
            CTL_UNITS_ENERGY_JOULES,
            CTL_DATA_TYPE_DOUBLE,
            1024.25f64.to_le_bytes(),
        ),
        gpu_voltage: item(
            true,
            CTL_UNITS_VOLTAGE_VOLTS,
            CTL_DATA_TYPE_DOUBLE,
            0.95f64.to_le_bytes(),
        ),
        gpu_current_clock_frequency: item(
            true,
            CTL_UNITS_FREQUENCY_MHZ,
            CTL_DATA_TYPE_DOUBLE,
            2400.0f64.to_le_bytes(),
        ),
        gpu_current_temperature: item(
            true,
            CTL_UNITS_TEMPERATURE_CELSIUS,
            CTL_DATA_TYPE_DOUBLE,
            61.0f64.to_le_bytes(),
        ),
        global_activity_counter: item(
            true,
            CTL_UNITS_TIME_SECONDS,
            CTL_DATA_TYPE_DOUBLE,
            3.0f64.to_le_bytes(),
        ),
        render_compute_activity_counter: item(
            true,
            CTL_UNITS_TIME_SECONDS,
            CTL_DATA_TYPE_DOUBLE,
            2.0f64.to_le_bytes(),
        ),
        media_activity_counter: absent(),
        vram_energy_counter: absent(),
        vram_voltage: item(
            true,
            CTL_UNITS_VOLTAGE_MILLIVOLTS,
            CTL_DATA_TYPE_UINT16,
            [0x46, 0x05, 0, 0, 0, 0, 0, 0],
        ),
        vram_current_clock_frequency: item(
            true,
            CTL_UNITS_FREQUENCY_MHZ,
            CTL_DATA_TYPE_UINT32,
            [0xd0, 0x07, 0, 0, 0, 0, 0, 0],
        ),
        vram_current_effective_frequency: item(
            true,
            CTL_UNITS_OPERATIONS_GTS,
            CTL_DATA_TYPE_FLOAT,
            [0, 0, 0x80, 0x41, 0, 0, 0, 0],
        ),
        vram_read_bandwidth_counter: item(
            true,
            CTL_UNITS_MEMORY_BYTES,
            CTL_DATA_TYPE_UINT64,
            0x1_0000_0000u64.to_le_bytes(),
        ),
        vram_write_bandwidth_counter: item(true, 99, CTL_DATA_TYPE_UINT64, [1; 8]),
        vram_current_temperature: item(
            true,
            CTL_UNITS_TEMPERATURE_CELSIUS,
            CTL_DATA_TYPE_INT8,
            [0xfb, 0, 0, 0, 0, 0, 0, 0],
        ),
        total_card_energy_counter: item(true, CTL_UNITS_ENERGY_JOULES, 99, [1; 8]),
        fan_speed: [
            item(true, CTL_UNITS_ANGULAR_SPEED_RPM, CTL_DATA_TYPE_INT32, padded(1200)),
            item(true, CTL_UNITS_ANGULAR_SPEED_RPM, CTL_DATA_TYPE_INT32, padded(1300)),
            absent(),
            item(true, CTL_UNITS_PERCENT, CTL_DATA_TYPE_UINT8, [40, 0, 0, 0, 0, 0, 0, 0]),
            item(false, CTL_UNITS_ANGULAR_SPEED_RPM, CTL_DATA_TYPE_INT32, padded(1500)),
        ],
    }
}

/// The payload of a 32-bit reading: its four bytes, and zeros above them.
fn padded(value: i32) -> [u8; 8] {
    let low: [u8; 4] = value.to_le_bytes();
    [low[0], low[1], low[2], low[3], 0, 0, 0, 0]
}

fn decoded_telemetry() -> Telemetry {
    let seconds = |value: f64| TelemetryItem(Some(Unit::TimeSeconds(Value::F64(value.to_bits()))));
    let rpm = |value: i32| TelemetryItem(Some(Unit::AngularSpeedRpm(Value::I32(value))));
    Telemetry {
        time_stamp: seconds(12.5),
        gpu_energy_counter: TelemetryItem(Some(Unit::EnergyJoules(Value::F64(
            1024.25f64.to_bits(),
        )))),
        gpu_voltage: TelemetryItem(Some(Unit::VoltageVolts(Value::F64(0.95f64.to_bits())))),
        gpu_current_clock_frequency: TelemetryItem(Some(Unit::FrequencyMhz(Value::F64(
            2400.0f64.to_bits(),
        )))),
        gpu_current_temperature: TelemetryItem(Some(Unit::TemperatureCelsius(Value::F64(
            61.0f64.to_bits(),
        )))),
        global_activity_counter: seconds(3.0),
        render_compute_activity_counter: seconds(2.0),
        media_activity_counter: TelemetryItem(None),
        vram_energy_counter: TelemetryItem(None),
        vram_voltage: TelemetryItem(Some(Unit::VoltageMillivolts(Value::U16(1350)))),
        vram_current_clock_frequency: TelemetryItem(Some(Unit::FrequencyMhz(Value::U32(2000)))),
        vram_current_effective_frequency: TelemetryItem(Some(Unit::OperationsGts(Value::F32(
            16.0f32.to_bits(),
        )))),
        vram_read_bandwidth_counter: TelemetryItem(Some(Unit::MemoryBytes(Value::U64(
            0x1_0000_0000,
        )))),
        vram_write_bandwidth_counter: TelemetryItem(None),
        vram_current_temperature: TelemetryItem(Some(Unit::TemperatureCelsius(Value::I8(-5)))),
        total_card_energy_counter: TelemetryItem(None),
        fan_speed: [
            rpm(1200),
            rpm(1300),
            TelemetryItem(None),
            TelemetryItem(Some(Unit::Percent(Value::U8(40)))),
            TelemetryItem(None),
        ],
    }
}

fn adapter() -> DeviceAdapter {
    DeviceAdapter {
        device_adapter_handle: AdapterHandle(0x2000),
        adapter_properties: AdapterProperties {
            name: [0i8; 100],
            pci_vendor_id: 0x8086,
            pci_device_id: 0x56a0,
            pci_subsys_vendor_id: 0,
            pci_subsys_id: 0,
            adapter_bdf: AdapterBdf { bus: 0, device: 2, function: 0 },
            device_type: DeviceType::Graphics,
        },
        device_id: Vec::new(),
    }
}

#[test]
fn tag_values() {
    let types = [
        CTL_DATA_TYPE_INT8,
        CTL_DATA_TYPE_UINT8,
        CTL_DATA_TYPE_INT16,
        CTL_DATA_TYPE_UINT16,
        CTL_DATA_TYPE_INT32,
        CTL_DATA_TYPE_UINT32,
        CTL_DATA_TYPE_INT64,
        CTL_DATA_TYPE_UINT64,
        CTL_DATA_TYPE_FLOAT,
        CTL_DATA_TYPE_DOUBLE,
    ];
    assert_eq!(types, [0, 1, 2, 3, 4, 5, 6, 7, 8, 9]);
    let units = [
        CTL_UNITS_FREQUENCY_MHZ,
        CTL_UNITS_OPERATIONS_GTS,
        CTL_UNITS_OPERATIONS_MTS,
        CTL_UNITS_VOLTAGE_VOLTS,
        CTL_UNITS_POWER_WATTS,
        CTL_UNITS_TEMPERATURE_CELSIUS,
        CTL_UNITS_ENERGY_JOULES,
        CTL_UNITS_TIME_SECONDS,
        CTL_UNITS_MEMORY_BYTES,
        CTL_UNITS_ANGULAR_SPEED_RPM,
        CTL_UNITS_POWER_MILLIWATTS,
        CTL_UNITS_PERCENT,
        CTL_UNITS_MEM_SPEED_GBPS,
        CTL_UNITS_VOLTAGE_MILLIVOLTS,
    ];
    assert_eq!(units, [0, 1, 2, 3, 4, 5, 6, 7, 8, 9, 10, 11, 12, 13]);
}

#[test]
fn unsupported_reading_is_absent_whatever_its_tags() {
    for units in (0u32..=15).chain([0x4800_ffff, u32::MAX]) {
        for data_type in (0u32..=13).chain([0x4800_ffff, u32::MAX]) {
            for bytes in SAMPLES {
                let decoded = TelemetryItem::from(item(false, units, data_type, bytes));
                assert_eq!(decoded, TelemetryItem(None));
            }
        }
    }
}

#[test]
fn unknown_type_tag_is_absent() {
    for data_type in [10u32, 11, 12, 13, 0x4800_ffff, u32::MAX] {
        for units in 0u32..=13 {
            let decoded = TelemetryItem::from(item(true, units, data_type, SAMPLES[5]));
            assert_eq!(decoded, TelemetryItem(None));
        }
        assert_eq!(Value::decode(data_type, &SAMPLES[5]), None);
    }
}

#[test]
fn unknown_unit_tag_is_absent() {
    for units in [14u32, 15, 0x4800_ffff, 0x4801_0000, u32::MAX] {
        for data_type in 0u32..=9 {
            let decoded = TelemetryItem::from(item(true, units, data_type, SAMPLES[5]));
            assert_eq!(decoded, TelemetryItem(None));
        }
        assert_eq!(Unit::from_tag(units, Value::U8(1)), None);
    }
}

#[test]
fn every_type_with_every_unit_decodes_to_its_variant() {
    let mut combinations: usize = 0;
    for data_type in 0u32..=9 {
        for units in 0u32..=13 {
            for bytes in SAMPLES {
                let decoded = TelemetryItem::from(item(true, units, data_type, bytes));
                let expected = expected_unit(units, expected_value(data_type, bytes));
                assert_eq!(decoded, TelemetryItem(Some(expected)));
            }
            combinations += 1;
        }
    }
    assert_eq!(combinations, 140);
}

#[test]
fn signed_integers_use_twos_complement() {
    let ones: [u8; 8] = [0xff; 8];
    assert_eq!(Value::decode(CTL_DATA_TYPE_INT8, &ones), Some(Value::I8(-1)));
    assert_eq!(Value::decode(CTL_DATA_TYPE_INT16, &ones), Some(Value::I16(-1)));
    assert_eq!(Value::decode(CTL_DATA_TYPE_INT32, &ones), Some(Value::I32(-1)));
    assert_eq!(Value::decode(CTL_DATA_TYPE_INT64, &ones), Some(Value::I64(-1)));
    let lowest: [u8; 8] = [0, 0, 0, 0, 0, 0, 0, 0x80];
    assert_eq!(Value::decode(CTL_DATA_TYPE_INT64, &lowest), Some(Value::I64(i64::MIN)));
    let lowest: [u8; 8] = [0, 0, 0, 0x80, 0xff, 0xff, 0xff, 0xff];
    assert_eq!(Value::decode(CTL_DATA_TYPE_INT32, &lowest), Some(Value::I32(i32::MIN)));
    let lowest: [u8; 8] = [0, 0x80, 0xff, 0xff, 0xff, 0xff, 0xff, 0xff];
    assert_eq!(Value::decode(CTL_DATA_TYPE_INT16, &lowest), Some(Value::I16(i16::MIN)));
    let lowest: [u8; 8] = [0x80, 0xff, 0xff, 0xff, 0xff, 0xff, 0xff, 0xff];
    assert_eq!(Value::decode(CTL_DATA_TYPE_INT8, &lowest), Some(Value::I8(i8::MIN)));
}

#[test]
fn unsigned_integers_read_only_their_own_width() {
    let bytes: [u8; 8] = [0x01, 0x02, 0x03, 0x04, 0x05, 0x06, 0x07, 0x08];
    assert_eq!(Value::decode(CTL_DATA_TYPE_UINT8, &bytes), Some(Value::U8(0x01)));
    assert_eq!(Value::decode(CTL_DATA_TYPE_UINT16, &bytes), Some(Value::U16(0x0201)));
    assert_eq!(Value::decode(CTL_DATA_TYPE_UINT32, &bytes), Some(Value::U32(0x0403_0201)));
    assert_eq!(
        Value::decode(CTL_DATA_TYPE_UINT64, &bytes),
        Some(Value::U64(0x0807_0605_0403_0201))
    );
    let highest: [u8; 8] = [0xff; 8];
    assert_eq!(Value::decode(CTL_DATA_TYPE_UINT8, &highest), Some(Value::U8(u8::MAX)));
    assert_eq!(Value::decode(CTL_DATA_TYPE_UINT16, &highest), Some(Value::U16(u16::MAX)));
    assert_eq!(Value::decode(CTL_DATA_TYPE_UINT32, &highest), Some(Value::U32(u32::MAX)));
    assert_eq!(Value::decode(CTL_DATA_TYPE_UINT64, &highest), Some(Value::U64(u64::MAX)));
}

#[test]
fn floats_keep_their_bit_pattern() {
    let single: [u8; 4] = 1.5f32.to_le_bytes();
    let bytes: [u8; 8] = [single[0], single[1], single[2], single[3], 0xaa, 0xbb, 0xcc, 0xdd];
    match Value::decode(CTL_DATA_TYPE_FLOAT, &bytes) {
        Some(Value::F32(bits)) => assert_eq!(f32::from_bits(bits), 1.5f32),
        other => panic!("expected a single-precision float, got {other:?}"),
    }
    let bytes: [u8; 8] = (-273.15f64).to_le_bytes();
    match Value::decode(CTL_DATA_TYPE_DOUBLE, &bytes) {
        Some(Value::F64(bits)) => assert_eq!(f64::from_bits(bits), -273.15f64),
        other => panic!("expected a double-precision float, got {other:?}"),
    }
    let bytes: [u8; 8] = f64::NAN.to_le_bytes();
    match Value::decode(CTL_DATA_TYPE_DOUBLE, &bytes) {
        Some(Value::F64(bits)) => assert!(f64::from_bits(bits).is_nan()),
        other => panic!("expected a double-precision float, got {other:?}"),
    }
}

#[test]
fn a_whole_telemetry_set_decodes_field_by_field() {
    assert_eq!(Telemetry::from(raw_telemetry()), decoded_telemetry());
}

#[test]
fn successful_reply_decodes_to_telemetry() {
    let reply = TelemetryReply { result: CTL_RESULT_SUCCESS, telemetry: raw_telemetry() };
    assert_eq!(reply.decode(), Ok(decoded_telemetry()));
}

#[test]
fn failed_reply_gives_its_error() {
    let reply =
        TelemetryReply { result: CTL_RESULT_ERROR_NOT_AVAILABLE, telemetry: raw_telemetry() };
    assert_eq!(reply.decode(), Err(Error(CTL_RESULT_ERROR_NOT_AVAILABLE)));
}

#[test]
fn power_telemetry_asks_once_for_its_own_adapter() {
    let calls: Cell<u32> = Cell::new(0);
    let native = |handle: AdapterHandle| {
        calls.set(calls.get() + 1);
        assert_eq!(handle, AdapterHandle(0x2000));
        TelemetryReply { result: CTL_RESULT_SUCCESS, telemetry: raw_telemetry() }
    };
    assert_eq!(adapter().power_telemetry(&native), Ok(decoded_telemetry()));
    assert_eq!(calls.get(), 1);
}

#[test]
fn power_telemetry_propagates_a_failed_call() {
    let native = |_: AdapterHandle| TelemetryReply {
        result: CTL_RESULT_ERROR_NOT_AVAILABLE,
        telemetry: raw_telemetry(),
    };
    assert_eq!(adapter().power_telemetry(&native), Err(Error(CTL_RESULT_ERROR_NOT_AVAILABLE)));
}
