//! The 3D and gaming features that can be queried, the descriptor of one
//! query, and the decoding of what comes back.

use crate::encoding::as_signed;
use crate::error::{is_success, Error};
use vstd::prelude::*;
use vstd::utf8::encode_utf8;

verus! {

/// The driver settings this crate can query.
#[derive(Clone, Copy, Debug, PartialEq, Eq, Structural)]
pub enum FeatureKind {
    /// The endurance gaming profile.
    EnduranceGaming,
    /// The frame rate limit.
    FrameLimit,
    /// The flip mode used when presenting frames.
    GamingFlipModes,
}

/// How the value of a feature is typed in the native descriptor.
#[derive(Clone, Copy, Debug, PartialEq, Eq, Structural)]
pub enum PropertyValueType {
    Bool,
    Float,
    Int32,
    Uint32,
    Enum,
    Custom,
}

/// The flip modes, each with the bit that stands for it.
#[derive(Clone, Copy, Debug, PartialEq, Eq, Structural)]
pub enum FlipMode {
    /// Bit 1: the application decides.
    ApplicationDefault,
    /// Bit 2: vertical sync off.
    VsyncOff,
    /// Bit 4: vertical sync on.
    VsyncOn,
    /// Bit 8: smooth sync.
    SmoothSync,
    /// Bit 16: speed frame.
    SpeedFrame,
    /// Bit 32: capped frame rate.
    CappedFps,
}

/// Size in bytes of the endurance gaming payload: two 32-bit fields, the
/// control and the mode.
pub const ENDURANCE_GAMING_SIZE: i32 = 8;

/// The descriptor of one feature query.
#[derive(Clone, Debug, PartialEq, Eq)]
pub struct FeatureQuery {
    /// Version of the descriptor.
    pub version: u8,
    /// The feature asked about.
    pub feature_type: FeatureKind,
    /// Name of the application whose setting is asked for; empty for the
    /// global setting.
    pub application_name: String,
    /// Length of the name in bytes, as the signed byte the descriptor holds.
    pub application_name_length: i8,
    /// `true` to write the setting, `false` to read it.
    pub set: bool,
    /// How the value is typed.
    pub value_type: PropertyValueType,
    /// Size of the output buffer for a custom value, zero where none is
    /// passed.
    pub custom_value_size: i32,
}

/// A feature query as a mathematical value: the application name is a
/// sequence of characters.
pub struct FeatureQueryView {
    pub version: u8,
    pub feature_type: FeatureKind,
    pub application_name: Seq<char>,
    pub application_name_length: i8,
    pub set: bool,
    pub value_type: PropertyValueType,
    pub custom_value_size: i32,
}

impl View for FeatureQuery {
    type V = FeatureQueryView;

    open spec fn view(&self) -> FeatureQueryView {
        FeatureQueryView {
            version: self.version,
            feature_type: self.feature_type,
            application_name: self.application_name@,
            application_name_length: self.application_name_length,
            set: self.set,
            value_type: self.value_type,
            custom_value_size: self.custom_value_size,
        }
    }
}

/// What the native library returns for a feature query.
#[derive(Clone, Debug, PartialEq, Eq)]
pub struct FeatureReply {
    /// The status code of the call.
    pub result: u32,
    /// The integer slot of the value union.
    pub int_value: i32,
    /// The enumeration slot of the value union.
    pub enum_value: u32,
    /// The bytes of the custom output buffer after the call; empty where
    /// none was passed.
    pub custom_value: Vec<u8>,
}

/// Why a feature query gave no value.
#[derive(Clone, Copy, Debug, PartialEq, Eq, Structural)]
pub enum FeatureError {
    /// The native call failed with the carried status code.
    Native(Error),
    /// The native call succeeded, but returned a value that stands for
    /// nothing this crate knows. The value is carried as returned.
    UnknownValue(u32),
}

/// The value type under which a feature is queried.
pub open spec fn value_type_of(kind: FeatureKind) -> PropertyValueType {
    match kind {
        FeatureKind::EnduranceGaming => PropertyValueType::Custom,
        FeatureKind::FrameLimit => PropertyValueType::Int32,
        FeatureKind::GamingFlipModes => PropertyValueType::Enum,
    }
}

/// The size of the custom output buffer that a query for a feature passes.
pub open spec fn custom_size_of(kind: FeatureKind) -> i32 {
    match kind {
        FeatureKind::EnduranceGaming => ENDURANCE_GAMING_SIZE,
        _ => 0,
    }
}

/// The length field for a name of `length` bytes. The field is one signed
/// byte: it holds the low eight bits of the length in two's complement.
pub open spec fn name_length_field(length: nat) -> i8 {
    as_signed((length % 0x100) as int, 0x100) as i8
}

/// The query that reads a feature for the application called `name`.
pub open spec fn feature_query(kind: FeatureKind, name: Seq<char>) -> FeatureQueryView {
    FeatureQueryView {
        version: 0,
        feature_type: kind,
        application_name: name,
        application_name_length: name_length_field(encode_utf8(name).len()),
        set: false,
        value_type: value_type_of(kind),
        custom_value_size: custom_size_of(kind),
    }
}

/// The flip mode that a bit value stands for, if it is one of the six
/// defined bits.
pub open spec fn flip_mode_of(bits: u32) -> Option<FlipMode> {
    if bits == 1 {
        Some(FlipMode::ApplicationDefault)
    } else if bits == 2 {
        Some(FlipMode::VsyncOff)
    } else if bits == 4 {
        Some(FlipMode::VsyncOn)
    } else if bits == 8 {
        Some(FlipMode::SmoothSync)
    } else if bits == 16 {
        Some(FlipMode::SpeedFrame)
    } else if bits == 32 {
        Some(FlipMode::CappedFps)
    } else {
        None
    }
}

/// The frame limit that a resolved query gives: the integer slot of the
/// reply.
pub open spec fn frame_limit_of(outcome: Result<FeatureReply, Error>) -> Result<i32, Error> {
    match outcome {
        Ok(reply) => Ok(reply.int_value),
        Err(error) => Err(error),
    }
}

/// The flip mode that a resolved query gives: the mode that the enumeration
/// slot of the reply stands for, or an unknown-value error that carries the
/// slot.
pub open spec fn flip_mode_outcome(outcome: Result<FeatureReply, Error>) -> Result<
    FlipMode,
    FeatureError,
> {
    match outcome {
        Ok(reply) => match flip_mode_of(reply.enum_value) {
            Some(mode) => Ok(mode),
            None => Err(FeatureError::UnknownValue(reply.enum_value)),
        },
        Err(error) => Err(FeatureError::Native(error)),
    }
}

/// The endurance gaming payload that a resolved query gives: the custom
/// buffer of the reply, as the native library left it.
pub open spec fn endurance_gaming_of(outcome: Result<FeatureReply, Error>) -> Result<
    Seq<u8>,
    Error,
> {
    match outcome {
        Ok(reply) => Ok(reply.custom_value@),
        Err(error) => Err(error),
    }
}

impl FlipMode {
    /// The bit that stands for this mode.
    pub open spec fn spec_bits(self) -> u32 {
        match self {
            FlipMode::ApplicationDefault => 1,
            FlipMode::VsyncOff => 2,
            FlipMode::VsyncOn => 4,
            FlipMode::SmoothSync => 8,
            FlipMode::SpeedFrame => 16,
            FlipMode::CappedFps => 32,
        }
    }

    /// The bit that stands for this mode.
    #[verifier::when_used_as_spec(spec_bits)]
    pub fn bits(self) -> (bits: u32)
        ensures
            bits == self.spec_bits(),
    {
        match self {
            FlipMode::ApplicationDefault => 1,
            FlipMode::VsyncOff => 2,
            FlipMode::VsyncOn => 4,
            FlipMode::SmoothSync => 8,
            FlipMode::SpeedFrame => 16,
            FlipMode::CappedFps => 32,
        }
    }

    /// Decodes a bit value returned by the native library. Only the six
    /// single bits 1, 2, 4, 8, 16 and 32 stand for a mode.
    pub fn from_bits(bits: u32) -> (out: Option<FlipMode>)
        ensures
            out == flip_mode_of(bits),
    {
        if bits == 1 {
            Some(FlipMode::ApplicationDefault)
        } else if bits == 2 {
            Some(FlipMode::VsyncOff)
        } else if bits == 4 {
            Some(FlipMode::VsyncOn)
        } else if bits == 8 {
            Some(FlipMode::SmoothSync)
        } else if bits == 16 {
            Some(FlipMode::SpeedFrame)
        } else if bits == 32 {
            Some(FlipMode::CappedFps)
        } else {
            None
        }
    }
}

impl FeatureKind {
    /// The value type under which this feature is queried.
    pub fn value_type(self) -> (value_type: PropertyValueType)
        ensures
            value_type == value_type_of(self),
    {
        match self {
            FeatureKind::EnduranceGaming => PropertyValueType::Custom,
            FeatureKind::FrameLimit => PropertyValueType::Int32,
            FeatureKind::GamingFlipModes => PropertyValueType::Enum,
        }
    }

    /// The size of the custom output buffer that a query for this feature
    /// passes, zero where the value comes back in the descriptor itself.
    pub fn custom_value_size(self) -> (size: i32)
        ensures
            size == custom_size_of(self),
    {
        match self {
            FeatureKind::EnduranceGaming => ENDURANCE_GAMING_SIZE,
            _ => 0,
        }
    }
}

impl FeatureQuery {
    /// Builds the query that reads `kind` for the application called `name`.
    /// The query never writes a setting.
    pub fn new(kind: FeatureKind, name: String) -> (query: FeatureQuery)
        ensures
            query@ == feature_query(kind, name@),
    {
        let length: usize = name.as_str().as_bytes().len();
        let low: usize = length % 0x100;
        let field: i8 = if low < 0x80 {
            low as i8
        } else {
            (low as i16 - 0x100) as i8
        };
        FeatureQuery {
            version: 0,
            feature_type: kind,
            application_name: name,
            application_name_length: field,
            set: false,
            value_type: kind.value_type(),
            custom_value_size: kind.custom_value_size(),
        }
    }
}

impl FeatureReply {
    /// Whether the call succeeded.
    pub open spec fn succeeded(&self) -> bool {
        is_success(self.result)
    }
}

/// Reads the frame limit out of a resolved query: the integer slot of the
/// reply, whatever number it holds.
pub fn decode_frame_limit(outcome: Result<FeatureReply, Error>) -> (out: Result<i32, Error>)
    ensures
        out == frame_limit_of(outcome),
{
    match outcome {
        Ok(reply) => Ok(reply.int_value),
        Err(error) => Err(error),
    }
}

/// Reads the flip mode out of a resolved query. A value that is none of the
/// defined bits gives an unknown-value error, apart from a failed call.
pub fn decode_flip_mode(outcome: Result<FeatureReply, Error>) -> (out: Result<
    FlipMode,
    FeatureError,
>)
    ensures
        out == flip_mode_outcome(outcome),
{
    match outcome {
        Ok(reply) => match FlipMode::from_bits(reply.enum_value) {
            Some(mode) => Ok(mode),
            None => Err(FeatureError::UnknownValue(reply.enum_value)),
        },
        Err(error) => Err(FeatureError::Native(error)),
    }
}

/// Reads the endurance gaming payload out of a resolved query: the custom
/// buffer, byte for byte as the native library left it.
pub fn decode_endurance_gaming(outcome: Result<FeatureReply, Error>) -> (out: Result<
    Vec<u8>,
    Error,
>)
    ensures
        match out {
            Ok(payload) => endurance_gaming_of(outcome) == Ok::<Seq<u8>, Error>(payload@),
            Err(error) => endurance_gaming_of(outcome) == Err::<Seq<u8>, Error>(error),
        },
{
    match outcome {
        Ok(reply) => Ok(reply.custom_value),
        Err(error) => Err(error),
    }
}

/// Decoding a flip mode is total on the six defined bits and fails on every
/// other bit pattern: a value decodes exactly if it is 1, 2, 4, 8, 16 or 32,
/// and then to the mode that this bit stands for.
pub proof fn lemma_flip_mode_decoding(bits: u32)
    ensures
        flip_mode_of(bits) is Some <==> (bits == 1 || bits == 2 || bits == 4 || bits == 8 || bits
            == 16 || bits == 32),
        flip_mode_of(bits) matches Some(mode) ==> mode.spec_bits() == bits,
{
}

/// Every flip mode decodes from its own bit.
pub proof fn lemma_flip_mode_round_trip(mode: FlipMode)
    ensures
        flip_mode_of(mode.spec_bits()) == Some(mode),
{
}

} // verus!
