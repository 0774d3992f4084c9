//! Decoding of power and thermal telemetry.
//!
//! The native library reports each reading as a tagged union: a flag saying
//! whether the reading is supported, a tag for the physical unit, a tag for
//! the numeric type, and eight bytes of payload. Decoding checks both tags
//! before it looks at the payload; a reading that is unsupported or carries a
//! tag outside the known ones decodes to an absent value.

use crate::encoding::{as_signed, le_u16, le_u32, le_u64};
use crate::error::{is_success, Error};
use vstd::prelude::*;
use vstd::std_specs::convert::FromSpecImpl;

verus! {

/// Type tag: signed 8-bit integer.
pub const CTL_DATA_TYPE_INT8: u32 = 0;

/// Type tag: unsigned 8-bit integer.
pub const CTL_DATA_TYPE_UINT8: u32 = 1;

/// Type tag: signed 16-bit integer.
pub const CTL_DATA_TYPE_INT16: u32 = 2;

/// Type tag: unsigned 16-bit integer.
pub const CTL_DATA_TYPE_UINT16: u32 = 3;

/// Type tag: signed 32-bit integer.
pub const CTL_DATA_TYPE_INT32: u32 = 4;

/// Type tag: unsigned 32-bit integer.
pub const CTL_DATA_TYPE_UINT32: u32 = 5;

/// Type tag: signed 64-bit integer.
pub const CTL_DATA_TYPE_INT64: u32 = 6;

/// Type tag: unsigned 64-bit integer.
pub const CTL_DATA_TYPE_UINT64: u32 = 7;

/// Type tag: single-precision float.
pub const CTL_DATA_TYPE_FLOAT: u32 = 8;

/// Type tag: double-precision float.
pub const CTL_DATA_TYPE_DOUBLE: u32 = 9;

/// Unit tag: frequency in MHz.
pub const CTL_UNITS_FREQUENCY_MHZ: u32 = 0;

/// Unit tag: transfers in GT/s.
pub const CTL_UNITS_OPERATIONS_GTS: u32 = 1;

/// Unit tag: transfers in MT/s.
pub const CTL_UNITS_OPERATIONS_MTS: u32 = 2;

/// Unit tag: voltage in volts.
pub const CTL_UNITS_VOLTAGE_VOLTS: u32 = 3;

/// Unit tag: power in watts.
pub const CTL_UNITS_POWER_WATTS: u32 = 4;

/// Unit tag: temperature in degrees Celsius.
pub const CTL_UNITS_TEMPERATURE_CELSIUS: u32 = 5;

/// Unit tag: energy in joules.
pub const CTL_UNITS_ENERGY_JOULES: u32 = 6;

/// Unit tag: time in seconds.
pub const CTL_UNITS_TIME_SECONDS: u32 = 7;

/// Unit tag: memory in bytes.
pub const CTL_UNITS_MEMORY_BYTES: u32 = 8;

/// Unit tag: angular speed in revolutions per minute.
pub const CTL_UNITS_ANGULAR_SPEED_RPM: u32 = 9;

/// Unit tag: power in milliwatts.
pub const CTL_UNITS_POWER_MILLIWATTS: u32 = 10;

/// Unit tag: percentage.
pub const CTL_UNITS_PERCENT: u32 = 11;

/// Unit tag: memory speed in gigabytes per second.
pub const CTL_UNITS_MEM_SPEED_GBPS: u32 = 12;

/// Unit tag: voltage in millivolts.
pub const CTL_UNITS_VOLTAGE_MILLIVOLTS: u32 = 13;

/// A decoded number. The two float variants hold the IEEE 754 bit pattern of
/// the reading, which `f32::from_bits` and `f64::from_bits` turn into the
/// float itself.
#[derive(Clone, Copy, Debug, PartialEq, Eq, Structural)]
pub enum Value {
    I8(i8),
    U8(u8),
    I16(i16),
    U16(u16),
    I32(i32),
    U32(u32),
    I64(i64),
    U64(u64),
    F32(u32),
    F64(u64),
}

/// A decoded number together with the physical unit it is measured in.
#[derive(Clone, Copy, Debug, PartialEq, Eq, Structural)]
pub enum Unit {
    FrequencyMhz(Value),
    OperationsGts(Value),
    OperationsMts(Value),
    VoltageVolts(Value),
    PowerWatts(Value),
    TemperatureCelsius(Value),
    EnergyJoules(Value),
    TimeSeconds(Value),
    MemoryBytes(Value),
    AngularSpeedRpm(Value),
    PowerMilliwatts(Value),
    Percent(Value),
    MemSpeedGbps(Value),
    VoltageMillivolts(Value),
}

/// One reading as the native library hands it over.
#[derive(Clone, Copy, Debug, PartialEq, Eq)]
pub struct RawTelemetryItem {
    /// Whether the device supports this reading at all.
    pub supported: bool,
    /// The unit tag, one of the `CTL_UNITS_*` values if recognised.
    pub units: u32,
    /// The type tag, one of the `CTL_DATA_TYPE_*` values if recognised.
    pub data_type: u32,
    /// The eight bytes of the native value union, lowest address first.
    pub value: [u8; 8],
}

/// One decoded reading, absent where the device does not support it or the
/// native library tagged it in a way this crate does not know.
#[derive(Clone, Copy, Debug, PartialEq, Eq, Structural)]
pub struct TelemetryItem(pub Option<Unit>);

/// All readings of one telemetry query, as the native library hands them
/// over.
#[derive(Clone, Copy, Debug, PartialEq, Eq)]
pub struct RawTelemetry {
    pub time_stamp: RawTelemetryItem,
    pub gpu_energy_counter: RawTelemetryItem,
    pub gpu_voltage: RawTelemetryItem,
    pub gpu_current_clock_frequency: RawTelemetryItem,
    pub gpu_current_temperature: RawTelemetryItem,
    pub global_activity_counter: RawTelemetryItem,
    pub render_compute_activity_counter: RawTelemetryItem,
    pub media_activity_counter: RawTelemetryItem,
    pub vram_energy_counter: RawTelemetryItem,
    pub vram_voltage: RawTelemetryItem,
    pub vram_current_clock_frequency: RawTelemetryItem,
    pub vram_current_effective_frequency: RawTelemetryItem,
    pub vram_read_bandwidth_counter: RawTelemetryItem,
    pub vram_write_bandwidth_counter: RawTelemetryItem,
    pub vram_current_temperature: RawTelemetryItem,
    pub total_card_energy_counter: RawTelemetryItem,
    pub fan_speed: [RawTelemetryItem; 5],
}

/// All readings of one telemetry query, decoded.
#[derive(Clone, Copy, Debug, PartialEq, Eq)]
pub struct Telemetry {
    pub time_stamp: TelemetryItem,
    pub gpu_energy_counter: TelemetryItem,
    pub gpu_voltage: TelemetryItem,
    pub gpu_current_clock_frequency: TelemetryItem,
    pub gpu_current_temperature: TelemetryItem,
    pub global_activity_counter: TelemetryItem,
    pub render_compute_activity_counter: TelemetryItem,
    pub media_activity_counter: TelemetryItem,
    pub vram_energy_counter: TelemetryItem,
    pub vram_voltage: TelemetryItem,
    pub vram_current_clock_frequency: TelemetryItem,
    pub vram_current_effective_frequency: TelemetryItem,
    pub vram_read_bandwidth_counter: TelemetryItem,
    pub vram_write_bandwidth_counter: TelemetryItem,
    pub vram_current_temperature: TelemetryItem,
    pub total_card_energy_counter: TelemetryItem,
    pub fan_speed: [TelemetryItem; 5],
}

/// What the power telemetry entry point returns.
#[derive(Clone, Copy, Debug, PartialEq, Eq)]
pub struct TelemetryReply {
    /// The status code of the call.
    pub result: u32,
    /// The readings, meaningful only where `result` is a success code.
    pub telemetry: RawTelemetry,
}

/// Whether a type tag is one of the ten that can be decoded.
pub open spec fn is_type_tag(data_type: u32) -> bool {
    data_type <= CTL_DATA_TYPE_DOUBLE
}

/// Whether a unit tag is one of the known physical units.
pub open spec fn is_unit_tag(units: u32) -> bool {
    units <= CTL_UNITS_VOLTAGE_MILLIVOLTS
}

/// The number that a payload holds under a type tag, if the tag is known.
/// Integers are read in little-endian order from the first bytes of the
/// payload, signed ones in two's complement. Floats keep their bit pattern.
pub open spec fn decode_value(data_type: u32, bytes: Seq<u8>) -> Option<Value> {
    if data_type == CTL_DATA_TYPE_INT8 {
        Some(Value::I8(as_signed(bytes[0] as int, 0x100) as i8))
    } else if data_type == CTL_DATA_TYPE_UINT8 {
        Some(Value::U8(bytes[0]))
    } else if data_type == CTL_DATA_TYPE_INT16 {
        Some(Value::I16(as_signed(le_u16(bytes), 0x1_0000) as i16))
    } else if data_type == CTL_DATA_TYPE_UINT16 {
        Some(Value::U16(le_u16(bytes) as u16))
    } else if data_type == CTL_DATA_TYPE_INT32 {
        Some(Value::I32(as_signed(le_u32(bytes), 0x1_0000_0000) as i32))
    } else if data_type == CTL_DATA_TYPE_UINT32 {
        Some(Value::U32(le_u32(bytes) as u32))
    } else if data_type == CTL_DATA_TYPE_INT64 {
        Some(Value::I64(as_signed(le_u64(bytes), 0x1_0000_0000_0000_0000) as i64))
    } else if data_type == CTL_DATA_TYPE_UINT64 {
        Some(Value::U64(le_u64(bytes) as u64))
    } else if data_type == CTL_DATA_TYPE_FLOAT {
        Some(Value::F32(le_u32(bytes) as u32))
    } else if data_type == CTL_DATA_TYPE_DOUBLE {
        Some(Value::F64(le_u64(bytes) as u64))
    } else {
        None
    }
}

/// A number paired with the unit that a unit tag names, if the tag is known.
pub open spec fn unit_of(units: u32, value: Value) -> Option<Unit> {
    if units == CTL_UNITS_FREQUENCY_MHZ {
        Some(Unit::FrequencyMhz(value))
    } else if units == CTL_UNITS_OPERATIONS_GTS {
        Some(Unit::OperationsGts(value))
    } else if units == CTL_UNITS_OPERATIONS_MTS {
        Some(Unit::OperationsMts(value))
    } else if units == CTL_UNITS_VOLTAGE_VOLTS {
        Some(Unit::VoltageVolts(value))
    } else if units == CTL_UNITS_POWER_WATTS {
        Some(Unit::PowerWatts(value))
    } else if units == CTL_UNITS_TEMPERATURE_CELSIUS {
        Some(Unit::TemperatureCelsius(value))
    } else if units == CTL_UNITS_ENERGY_JOULES {
        Some(Unit::EnergyJoules(value))
    } else if units == CTL_UNITS_TIME_SECONDS {
        Some(Unit::TimeSeconds(value))
    } else if units == CTL_UNITS_MEMORY_BYTES {
        Some(Unit::MemoryBytes(value))
    } else if units == CTL_UNITS_ANGULAR_SPEED_RPM {
        Some(Unit::AngularSpeedRpm(value))
    } else if units == CTL_UNITS_POWER_MILLIWATTS {
        Some(Unit::PowerMilliwatts(value))
    } else if units == CTL_UNITS_PERCENT {
        Some(Unit::Percent(value))
    } else if units == CTL_UNITS_MEM_SPEED_GBPS {
        Some(Unit::MemSpeedGbps(value))
    } else if units == CTL_UNITS_VOLTAGE_MILLIVOLTS {
        Some(Unit::VoltageMillivolts(value))
    } else {
        None
    }
}

/// What a raw reading decodes to: absent unless the reading is supported and
/// both of its tags are known.
pub open spec fn decode_item(raw: RawTelemetryItem) -> TelemetryItem {
    if !raw.supported {
        TelemetryItem(None)
    } else {
        match decode_value(raw.data_type, raw.value@) {
            Some(value) => TelemetryItem(unit_of(raw.units, value)),
            None => TelemetryItem(None),
        }
    }
}

/// What a set of raw readings decodes to: each reading by itself, in its
/// place.
pub open spec fn decode_telemetry(raw: RawTelemetry) -> Telemetry {
    Telemetry {
        time_stamp: decode_item(raw.time_stamp),
        gpu_energy_counter: decode_item(raw.gpu_energy_counter),
        gpu_voltage: decode_item(raw.gpu_voltage),
        gpu_current_clock_frequency: decode_item(raw.gpu_current_clock_frequency),
        gpu_current_temperature: decode_item(raw.gpu_current_temperature),
        global_activity_counter: decode_item(raw.global_activity_counter),
        render_compute_activity_counter: decode_item(raw.render_compute_activity_counter),
        media_activity_counter: decode_item(raw.media_activity_counter),
        vram_energy_counter: decode_item(raw.vram_energy_counter),
        vram_voltage: decode_item(raw.vram_voltage),
        vram_current_clock_frequency: decode_item(raw.vram_current_clock_frequency),
        vram_current_effective_frequency: decode_item(raw.vram_current_effective_frequency),
        vram_read_bandwidth_counter: decode_item(raw.vram_read_bandwidth_counter),
        vram_write_bandwidth_counter: decode_item(raw.vram_write_bandwidth_counter),
        vram_current_temperature: decode_item(raw.vram_current_temperature),
        total_card_energy_counter: decode_item(raw.total_card_energy_counter),
        fan_speed: [
            decode_item(raw.fan_speed[0]),
            decode_item(raw.fan_speed[1]),
            decode_item(raw.fan_speed[2]),
            decode_item(raw.fan_speed[3]),
            decode_item(raw.fan_speed[4]),
        ],
    }
}

/// The outcome of a telemetry query with the given reply: the decoded
/// readings where the call succeeded, its status code as an error where it
/// did not.
pub open spec fn telemetry_outcome(reply: TelemetryReply) -> Result<Telemetry, Error> {
    if is_success(reply.result) {
        Ok(decode_telemetry(reply.telemetry))
    } else {
        Err(Error(reply.result))
    }
}

/// Reads the first two payload bytes as an unsigned little-endian number.
fn read_u16(bytes: &[u8; 8]) -> (value: u16)
    ensures
        value == le_u16(bytes@),
{
    let low: u16 = bytes[0] as u16;
    let high: u16 = bytes[1] as u16;
    low + 0x100 * high
}

/// Reads four payload bytes from `start` as an unsigned little-endian number.
fn read_u32(bytes: &[u8; 8], start: usize) -> (value: u32)
    requires
        start == 0 || start == 4,
    ensures
        value == le_u32(bytes@.skip(start as int)),
{
    let b0: u32 = bytes[start] as u32;
    let b1: u32 = bytes[start + 1] as u32;
    let b2: u32 = bytes[start + 2] as u32;
    let b3: u32 = bytes[start + 3] as u32;
    b0 + 0x100 * b1 + 0x1_0000 * b2 + 0x100_0000 * b3
}

/// Reads all eight payload bytes as an unsigned little-endian number.
fn read_u64(bytes: &[u8; 8]) -> (value: u64)
    ensures
        value == le_u64(bytes@),
{
    let low: u64 = read_u32(bytes, 0) as u64;
    let high: u64 = read_u32(bytes, 4) as u64;
    assert(bytes@.skip(0) =~= bytes@);
    low + 0x1_0000_0000 * high
}

impl Value {
    /// The type tag under which the native library reports a number of this
    /// variant.
    pub open spec fn type_tag(self) -> u32 {
        match self {
            Value::I8(_) => CTL_DATA_TYPE_INT8,
            Value::U8(_) => CTL_DATA_TYPE_UINT8,
            Value::I16(_) => CTL_DATA_TYPE_INT16,
            Value::U16(_) => CTL_DATA_TYPE_UINT16,
            Value::I32(_) => CTL_DATA_TYPE_INT32,
            Value::U32(_) => CTL_DATA_TYPE_UINT32,
            Value::I64(_) => CTL_DATA_TYPE_INT64,
            Value::U64(_) => CTL_DATA_TYPE_UINT64,
            Value::F32(_) => CTL_DATA_TYPE_FLOAT,
            Value::F64(_) => CTL_DATA_TYPE_DOUBLE,
        }
    }

    /// Decodes the payload of a reading according to its type tag. An
    /// unknown tag gives `None`; the payload is not looked at in that case.
    pub fn decode(data_type: u32, bytes: &[u8; 8]) -> (out: Option<Value>)
        ensures
            out == decode_value(data_type, bytes@),
    {
        if data_type == CTL_DATA_TYPE_INT8 {
            let raw: u8 = bytes[0];
            let value: i8 = if raw < 0x80 {
                raw as i8
            } else {
                (raw as i16 - 0x100) as i8
            };
            Some(Value::I8(value))
        } else if data_type == CTL_DATA_TYPE_UINT8 {
            Some(Value::U8(bytes[0]))
        } else if data_type == CTL_DATA_TYPE_INT16 {
            let raw: u16 = read_u16(bytes);
            let value: i16 = if raw < 0x8000 {
                raw as i16
            } else {
                (raw as i32 - 0x1_0000) as i16
            };
            Some(Value::I16(value))
        } else if data_type == CTL_DATA_TYPE_UINT16 {
            Some(Value::U16(read_u16(bytes)))
        } else if data_type == CTL_DATA_TYPE_INT32 {
            let raw: u32 = read_u32(bytes, 0);
            assert(bytes@.skip(0) =~= bytes@);
            let value: i32 = if raw < 0x8000_0000 {
                raw as i32
            } else {
                (raw as i64 - 0x1_0000_0000) as i32
            };
            Some(Value::I32(value))
        } else if data_type == CTL_DATA_TYPE_UINT32 {
            assert(bytes@.skip(0) =~= bytes@);
            Some(Value::U32(read_u32(bytes, 0)))
        } else if data_type == CTL_DATA_TYPE_INT64 {
            let raw: u64 = read_u64(bytes);
            let value: i64 = if raw < 0x8000_0000_0000_0000 {
                raw as i64
            } else {
                (raw as i128 - 0x1_0000_0000_0000_0000) as i64
            };
            Some(Value::I64(value))
        } else if data_type == CTL_DATA_TYPE_UINT64 {
            Some(Value::U64(read_u64(bytes)))
        } else if data_type == CTL_DATA_TYPE_FLOAT {
            assert(bytes@.skip(0) =~= bytes@);
            Some(Value::F32(read_u32(bytes, 0)))
        } else if data_type == CTL_DATA_TYPE_DOUBLE {
            Some(Value::F64(read_u64(bytes)))
        } else {
            None
        }
    }
}

impl Unit {
    /// The unit tag under which the native library reports this unit.
    pub open spec fn unit_tag(self) -> u32 {
        match self {
            Unit::FrequencyMhz(_) => CTL_UNITS_FREQUENCY_MHZ,
            Unit::OperationsGts(_) => CTL_UNITS_OPERATIONS_GTS,
            Unit::OperationsMts(_) => CTL_UNITS_OPERATIONS_MTS,
            Unit::VoltageVolts(_) => CTL_UNITS_VOLTAGE_VOLTS,
            Unit::PowerWatts(_) => CTL_UNITS_POWER_WATTS,
            Unit::TemperatureCelsius(_) => CTL_UNITS_TEMPERATURE_CELSIUS,
            Unit::EnergyJoules(_) => CTL_UNITS_ENERGY_JOULES,
            Unit::TimeSeconds(_) => CTL_UNITS_TIME_SECONDS,
            Unit::MemoryBytes(_) => CTL_UNITS_MEMORY_BYTES,
            Unit::AngularSpeedRpm(_) => CTL_UNITS_ANGULAR_SPEED_RPM,
            Unit::PowerMilliwatts(_) => CTL_UNITS_POWER_MILLIWATTS,
            Unit::Percent(_) => CTL_UNITS_PERCENT,
            Unit::MemSpeedGbps(_) => CTL_UNITS_MEM_SPEED_GBPS,
            Unit::VoltageMillivolts(_) => CTL_UNITS_VOLTAGE_MILLIVOLTS,
        }
    }

    /// The number that is measured in this unit.
    pub open spec fn value(self) -> Value {
        match self {
            Unit::FrequencyMhz(value) => value,
            Unit::OperationsGts(value) => value,
            Unit::OperationsMts(value) => value,
            Unit::VoltageVolts(value) => value,
            Unit::PowerWatts(value) => value,
            Unit::TemperatureCelsius(value) => value,
            Unit::EnergyJoules(value) => value,
            Unit::TimeSeconds(value) => value,
            Unit::MemoryBytes(value) => value,
            Unit::AngularSpeedRpm(value) => value,
            Unit::PowerMilliwatts(value) => value,
            Unit::Percent(value) => value,
            Unit::MemSpeedGbps(value) => value,
            Unit::VoltageMillivolts(value) => value,
        }
    }

    /// Pairs a number with the unit that `units` names. An unknown tag gives
    /// `None`.
    pub fn from_tag(units: u32, value: Value) -> (out: Option<Unit>)
        ensures
            out == unit_of(units, value),
    {
        if units == CTL_UNITS_FREQUENCY_MHZ {
            Some(Unit::FrequencyMhz(value))
        } else if units == CTL_UNITS_OPERATIONS_GTS {
            Some(Unit::OperationsGts(value))
        } else if units == CTL_UNITS_OPERATIONS_MTS {
            Some(Unit::OperationsMts(value))
        } else if units == CTL_UNITS_VOLTAGE_VOLTS {
            Some(Unit::VoltageVolts(value))
        } else if units == CTL_UNITS_POWER_WATTS {
            Some(Unit::PowerWatts(value))
        } else if units == CTL_UNITS_TEMPERATURE_CELSIUS {
            Some(Unit::TemperatureCelsius(value))
        } else if units == CTL_UNITS_ENERGY_JOULES {
            Some(Unit::EnergyJoules(value))
        } else if units == CTL_UNITS_TIME_SECONDS {
            Some(Unit::TimeSeconds(value))
        } else if units == CTL_UNITS_MEMORY_BYTES {
            Some(Unit::MemoryBytes(value))
        } else if units == CTL_UNITS_ANGULAR_SPEED_RPM {
            Some(Unit::AngularSpeedRpm(value))
        } else if units == CTL_UNITS_POWER_MILLIWATTS {
            Some(Unit::PowerMilliwatts(value))
        } else if units == CTL_UNITS_PERCENT {
            Some(Unit::Percent(value))
        } else if units == CTL_UNITS_MEM_SPEED_GBPS {
            Some(Unit::MemSpeedGbps(value))
        } else if units == CTL_UNITS_VOLTAGE_MILLIVOLTS {
            Some(Unit::VoltageMillivolts(value))
        } else {
            None
        }
    }
}

impl From<RawTelemetryItem> for TelemetryItem {
    /// Decodes one raw reading.
    fn from(item: RawTelemetryItem) -> (out: TelemetryItem) {
        if item.supported {
            match Value::decode(item.data_type, &item.value) {
                Some(value) => TelemetryItem(Unit::from_tag(item.units, value)),
                None => TelemetryItem(None),
            }
        } else {
            TelemetryItem(None)
        }
    }
}

impl FromSpecImpl<RawTelemetryItem> for TelemetryItem {
    open spec fn obeys_from_spec() -> bool {
        true
    }

    open spec fn from_spec(item: RawTelemetryItem) -> TelemetryItem {
        decode_item(item)
    }
}

impl From<RawTelemetry> for Telemetry {
    /// Decodes every reading of a telemetry query.
    fn from(raw: RawTelemetry) -> (out: Telemetry) {
        Telemetry {
            time_stamp: TelemetryItem::from(raw.time_stamp),
            gpu_energy_counter: TelemetryItem::from(raw.gpu_energy_counter),
            gpu_voltage: TelemetryItem::from(raw.gpu_voltage),
            gpu_current_clock_frequency: TelemetryItem::from(raw.gpu_current_clock_frequency),
            gpu_current_temperature: TelemetryItem::from(raw.gpu_current_temperature),
            global_activity_counter: TelemetryItem::from(raw.global_activity_counter),
            render_compute_activity_counter: TelemetryItem::from(
                raw.render_compute_activity_counter,
            ),
            media_activity_counter: TelemetryItem::from(raw.media_activity_counter),
            vram_energy_counter: TelemetryItem::from(raw.vram_energy_counter),
            vram_voltage: TelemetryItem::from(raw.vram_voltage),
            vram_current_clock_frequency: TelemetryItem::from(raw.vram_current_clock_frequency),
            vram_current_effective_frequency: TelemetryItem::from(
                raw.vram_current_effective_frequency,
            ),
            vram_read_bandwidth_counter: TelemetryItem::from(raw.vram_read_bandwidth_counter),
            vram_write_bandwidth_counter: TelemetryItem::from(raw.vram_write_bandwidth_counter),
            vram_current_temperature: TelemetryItem::from(raw.vram_current_temperature),
            total_card_energy_counter: TelemetryItem::from(raw.total_card_energy_counter),
            fan_speed: [
                TelemetryItem::from(raw.fan_speed[0]),
                TelemetryItem::from(raw.fan_speed[1]),
                TelemetryItem::from(raw.fan_speed[2]),
                TelemetryItem::from(raw.fan_speed[3]),
                TelemetryItem::from(raw.fan_speed[4]),
            ],
        }
    }
}

impl FromSpecImpl<RawTelemetry> for Telemetry {
    open spec fn obeys_from_spec() -> bool {
        true
    }

    open spec fn from_spec(raw: RawTelemetry) -> Telemetry {
        decode_telemetry(raw)
    }
}

impl TelemetryReply {
    /// Reads the reply of a telemetry query: its error where the call
    /// failed, and otherwise every reading decoded.
    pub fn decode(self) -> (out: Result<Telemetry, Error>)
        ensures
            out == telemetry_outcome(self),
    {
        match Error::from_result(self.result) {
            Ok(()) => Ok(Telemetry::from(self.telemetry)),
            Err(error) => Err(error),
        }
    }
}

/// A reading that the device does not support decodes to an absent value,
/// whatever its tags and payload are.
pub proof fn lemma_unsupported_is_absent(raw: RawTelemetryItem)
    requires
        !raw.supported,
    ensures
        decode_item(raw).0 is None,
{
}

/// A reading with an unknown type tag or an unknown unit tag decodes to an
/// absent value, even where the device claims to support it.
pub proof fn lemma_unknown_tag_is_absent(raw: RawTelemetryItem)
    requires
        !is_type_tag(raw.data_type) || !is_unit_tag(raw.units),
    ensures
        decode_item(raw).0 is None,
{
}

/// A supported reading with known tags decodes to a present value of exactly
/// the variants that its tags name: the unit of the unit tag, holding the
/// number type of the type tag, with the number that the payload spells.
pub proof fn lemma_known_tags_are_present(raw: RawTelemetryItem)
    requires
        raw.supported,
        is_type_tag(raw.data_type),
        is_unit_tag(raw.units),
    ensures
        decode_item(raw).0 matches Some(unit) && unit.unit_tag() == raw.units
            && unit.value().type_tag() == raw.data_type && Some(unit.value()) == decode_value(
            raw.data_type,
            raw.value@,
        ),
{
}

} // verus!
