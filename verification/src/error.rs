//! Native status codes, and how they become results.
//!
//! Every entry point of the control library returns a 32-bit status code from
//! a closed enumeration. This module names those codes, says which of them
//! count as success, and gives each a fixed description for diagnostics.

use vstd::prelude::*;

verus! {

/// Success.
pub const CTL_RESULT_SUCCESS: u32 = 0x0000_0000;

/// Success but still open by another caller.
pub const CTL_RESULT_SUCCESS_STILL_OPEN_BY_ANOTHER_CALLER: u32 = 0x0000_0001;

/// Success group error code end value, not to be used.
pub const CTL_RESULT_ERROR_SUCCESS_END: u32 = 0x0000_FFFF;

/// Generic error code starting value, not to be used.
pub const CTL_RESULT_ERROR_GENERIC_START: u32 = 0x4000_0000;

/// Result not initialized.
pub const CTL_RESULT_ERROR_NOT_INITIALIZED: u32 = 0x4000_0001;

/// Already initialized.
pub const CTL_RESULT_ERROR_ALREADY_INITIALIZED: u32 = 0x4000_0002;

/// Device hung, reset, was removed, or driver update occurred.
pub const CTL_RESULT_ERROR_DEVICE_LOST: u32 = 0x4000_0003;

/// Insufficient host memory to satisfy call.
pub const CTL_RESULT_ERROR_OUT_OF_HOST_MEMORY: u32 = 0x4000_0004;

/// Insufficient device memory to satisfy call.
pub const CTL_RESULT_ERROR_OUT_OF_DEVICE_MEMORY: u32 = 0x4000_0005;

/// Access denied due to permission level.
pub const CTL_RESULT_ERROR_INSUFFICIENT_PERMISSIONS: u32 = 0x4000_0006;

/// Resource was removed.
pub const CTL_RESULT_ERROR_NOT_AVAILABLE: u32 = 0x4000_0007;

/// Library not initialized.
pub const CTL_RESULT_ERROR_UNINITIALIZED: u32 = 0x4000_0008;

/// Generic error code for unsupported versions.
pub const CTL_RESULT_ERROR_UNSUPPORTED_VERSION: u32 = 0x4000_0009;

/// Generic error code for unsupported features.
pub const CTL_RESULT_ERROR_UNSUPPORTED_FEATURE: u32 = 0x4000_000A;

/// Generic error code for invalid arguments.
pub const CTL_RESULT_ERROR_INVALID_ARGUMENT: u32 = 0x4000_000B;

/// API handle in invalid.
pub const CTL_RESULT_ERROR_INVALID_API_HANDLE: u32 = 0x4000_000C;

/// Handle argument is not valid.
pub const CTL_RESULT_ERROR_INVALID_NULL_HANDLE: u32 = 0x4000_000D;

/// Pointer argument may not be nullptr.
pub const CTL_RESULT_ERROR_INVALID_NULL_POINTER: u32 = 0x4000_000E;

/// Size argument is invalid (e.g., must not be zero)
pub const CTL_RESULT_ERROR_INVALID_SIZE: u32 = 0x4000_000F;

/// Size argument is not supported by the device (e.g., too large)
pub const CTL_RESULT_ERROR_UNSUPPORTED_SIZE: u32 = 0x4000_0010;

/// Image format is not supported by the device.
pub const CTL_RESULT_ERROR_UNSUPPORTED_IMAGE_FORMAT: u32 = 0x4000_0011;

/// Data read error.
pub const CTL_RESULT_ERROR_DATA_READ: u32 = 0x4000_0012;

/// Data write error.
pub const CTL_RESULT_ERROR_DATA_WRITE: u32 = 0x4000_0013;

/// Data not found error.
pub const CTL_RESULT_ERROR_DATA_NOT_FOUND: u32 = 0x4000_0014;

/// Function not implemented.
pub const CTL_RESULT_ERROR_NOT_IMPLEMENTED: u32 = 0x4000_0015;

/// Operating system call failure.
pub const CTL_RESULT_ERROR_OS_CALL: u32 = 0x4000_0016;

/// Kernel mode driver call failure.
pub const CTL_RESULT_ERROR_KMD_CALL: u32 = 0x4000_0017;

/// Library unload failure.
pub const CTL_RESULT_ERROR_UNLOAD: u32 = 0x4000_0018;

/// Level0 loader not found.
pub const CTL_RESULT_ERROR_ZE_LOADER: u32 = 0x4000_0019;

/// Invalid operation type.
pub const CTL_RESULT_ERROR_INVALID_OPERATION_TYPE: u32 = 0x4000_001A;

/// Null OS interface.
pub const CTL_RESULT_ERROR_NULL_OS_INTERFACE: u32 = 0x4000_001B;

/// Null OS adapter handle.
pub const CTL_RESULT_ERROR_NULL_OS_ADAPATER_HANDLE: u32 = 0x4000_001C;

/// Null display output handle.
pub const CTL_RESULT_ERROR_NULL_OS_DISPLAY_OUTPUT_HANDLE: u32 = 0x4000_001D;

/// Timeout in Wait function.
pub const CTL_RESULT_ERROR_WAIT_TIMEOUT: u32 = 0x4000_001E;

/// Persistance not supported.
pub const CTL_RESULT_ERROR_PERSISTANCE_NOT_SUPPORTED: u32 = 0x4000_001F;

/// Platform not supported.
pub const CTL_RESULT_ERROR_PLATFORM_NOT_SUPPORTED: u32 = 0x4000_0020;

/// Unknown Appplicaion UID in Initialization call.
pub const CTL_RESULT_ERROR_UNKNOWN_APPLICATION_UID: u32 = 0x4000_0021;

/// The enum is not valid.
pub const CTL_RESULT_ERROR_INVALID_ENUMERATION: u32 = 0x4000_0022;

/// Error in file delete operation.
pub const CTL_RESULT_ERROR_FILE_DELETE: u32 = 0x4000_0023;

/// The device requires a reset.
pub const CTL_RESULT_ERROR_RESET_DEVICE_REQUIRED: u32 = 0x4000_0024;

/// The device requires a full reboot.
pub const CTL_RESULT_ERROR_FULL_REBOOT_REQUIRED: u32 = 0x4000_0025;

/// Library load failure.
pub const CTL_RESULT_ERROR_LOAD: u32 = 0x4000_0026;

/// Unknown or internal error.
pub const CTL_RESULT_ERROR_UNKNOWN: u32 = 0x4000_FFFF;

/// Operation failed, retry previous operation again.
pub const CTL_RESULT_ERROR_RETRY_OPERATION: u32 = 0x4001_0000;

/// Core error code starting value, not to be used.
pub const CTL_RESULT_ERROR_CORE_START: u32 = 0x4400_0000;

/// The Overclock is not supported.
pub const CTL_RESULT_ERROR_CORE_OVERCLOCK_NOT_SUPPORTED: u32 = 0x4400_0001;

/// The Voltage exceeds the acceptable min/max.
pub const CTL_RESULT_ERROR_CORE_OVERCLOCK_VOLTAGE_OUTSIDE_RANGE: u32 = 0x4400_0002;

/// The Frequency exceeds the acceptable min/max.
pub const CTL_RESULT_ERROR_CORE_OVERCLOCK_FREQUENCY_OUTSIDE_RANGE: u32 = 0x4400_0003;

/// The Power exceeds the acceptable min/max.
pub const CTL_RESULT_ERROR_CORE_OVERCLOCK_POWER_OUTSIDE_RANGE: u32 = 0x4400_0004;

/// The Temperature exceeds the acceptable min/max.
pub const CTL_RESULT_ERROR_CORE_OVERCLOCK_TEMPERATURE_OUTSIDE_RANGE: u32 = 0x4400_0005;

/// The Overclock is in voltage locked mode.
pub const CTL_RESULT_ERROR_CORE_OVERCLOCK_IN_VOLTAGE_LOCKED_MODE: u32 = 0x4400_0006;

/// It indicates that the requested change will not be applied until the device is reset.
pub const CTL_RESULT_ERROR_CORE_OVERCLOCK_RESET_REQUIRED: u32 = 0x4400_0007;

/// The $OverclockWaiverSet function has not been called.
pub const CTL_RESULT_ERROR_CORE_OVERCLOCK_WAIVER_NOT_SET: u32 = 0x4400_0008;

/// The error indicates to switch to newer API version if applicable.
pub const CTL_RESULT_ERROR_CORE_OVERCLOCK_DEPRECATED_API: u32 = 0x4400_0009;

/// Core error code end value, not to be used.
pub const CTL_RESULT_ERROR_CORE_END: u32 = 0x0440_FFFF;

/// 3D error code starting value, not to be used.
pub const CTL_RESULT_ERROR_3D_START: u32 = 0x6000_0000;

/// 3D error code end value, not to be used.
pub const CTL_RESULT_ERROR_3D_END: u32 = 0x6000_FFFF;

/// Media error code starting value, not to be used.
pub const CTL_RESULT_ERROR_MEDIA_START: u32 = 0x5000_0000;

/// Media error code end value, not to be used.
pub const CTL_RESULT_ERROR_MEDIA_END: u32 = 0x5000_FFFF;

/// Display error code starting value, not to be used.
pub const CTL_RESULT_ERROR_DISPLAY_START: u32 = 0x4800_0000;

/// Invalid flag for Aux access.
pub const CTL_RESULT_ERROR_INVALID_AUX_ACCESS_FLAG: u32 = 0x4800_0001;

/// Invalid flag for Sharpness.
pub const CTL_RESULT_ERROR_INVALID_SHARPNESS_FILTER_FLAG: u32 = 0x4800_0002;

/// Error for Display not attached.
pub const CTL_RESULT_ERROR_DISPLAY_NOT_ATTACHED: u32 = 0x4800_0003;

/// Error for display attached but not active.
pub const CTL_RESULT_ERROR_DISPLAY_NOT_ACTIVE: u32 = 0x4800_0004;

/// Error for invalid power optimization flag.
pub const CTL_RESULT_ERROR_INVALID_POWERFEATURE_OPTIMIZATION_FLAG: u32 = 0x4800_0005;

/// DPST is supported only in DC Mode.
pub const CTL_RESULT_ERROR_INVALID_POWERSOURCE_TYPE_FOR_DPST: u32 = 0x4800_0006;

/// Invalid query type for pixel transformation get configuration.
pub const CTL_RESULT_ERROR_INVALID_PIXTX_GET_CONFIG_QUERY_TYPE: u32 = 0x4800_0007;

/// Invalid operation type for pixel transformation set configuration.
pub const CTL_RESULT_ERROR_INVALID_PIXTX_SET_CONFIG_OPERATION_TYPE: u32 = 0x4800_0008;

/// Invalid number of samples for pixel transformation set configuration.
pub const CTL_RESULT_ERROR_INVALID_SET_CONFIG_NUMBER_OF_SAMPLES: u32 = 0x4800_0009;

/// Invalid block id for pixel transformation.
pub const CTL_RESULT_ERROR_INVALID_PIXTX_BLOCK_ID: u32 = 0x4800_000A;

/// Invalid block type for pixel transformation.
pub const CTL_RESULT_ERROR_INVALID_PIXTX_BLOCK_TYPE: u32 = 0x4800_000B;

/// Invalid block number for pixel transformation.
pub const CTL_RESULT_ERROR_INVALID_PIXTX_BLOCK_NUMBER: u32 = 0x4800_000C;

/// Insufficient memery allocated for BlockConfigs.
pub const CTL_RESULT_ERROR_INSUFFICIENT_PIXTX_BLOCK_CONFIG_MEMORY: u32 = 0x4800_000D;

/// Invalid pipe for 3dlut.
pub const CTL_RESULT_ERROR_3DLUT_INVALID_PIPE: u32 = 0x4800_000E;

/// Invalid 3dlut data.
pub const CTL_RESULT_ERROR_3DLUT_INVALID_DATA: u32 = 0x4800_000F;

/// 3dlut not supported in HDR.
pub const CTL_RESULT_ERROR_3DLUT_NOT_SUPPORTED_IN_HDR: u32 = 0x4800_0010;

/// Invalid 3dlut operation.
pub const CTL_RESULT_ERROR_3DLUT_INVALID_OPERATION: u32 = 0x4800_0011;

/// 3dlut call unsuccessful.
pub const CTL_RESULT_ERROR_3DLUT_UNSUCCESSFUL: u32 = 0x4800_0012;

/// AUX defer failure.
pub const CTL_RESULT_ERROR_AUX_DEFER: u32 = 0x4800_0013;

/// AUX timeout failure.
pub const CTL_RESULT_ERROR_AUX_TIMEOUT: u32 = 0x4800_0014;

/// AUX incomplete write failure.
pub const CTL_RESULT_ERROR_AUX_INCOMPLETE_WRITE: u32 = 0x4800_0015;

/// I2C/AUX unkonown failure.
pub const CTL_RESULT_ERROR_I2C_AUX_STATUS_UNKNOWN: u32 = 0x4800_0016;

/// I2C/AUX unsuccessful.
pub const CTL_RESULT_ERROR_I2C_AUX_UNSUCCESSFUL: u32 = 0x4800_0017;

/// Lace Incorrrect AggressivePercent data or LuxVsAggressive Map data passed by user.
pub const CTL_RESULT_ERROR_LACE_INVALID_DATA_ARGUMENT_PASSED: u32 = 0x4800_0018;

/// External Display is Attached hence fail the Display Switch.
pub const CTL_RESULT_ERROR_EXTERNAL_DISPLAY_ATTACHED: u32 = 0x4800_0019;

/// Standard custom mode exists.
pub const CTL_RESULT_ERROR_CUSTOM_MODE_STANDARD_CUSTOM_MODE_EXISTS: u32 = 0x4800_001A;

/// Non custom matching mode exists.
pub const CTL_RESULT_ERROR_CUSTOM_MODE_NON_CUSTOM_MATCHING_MODE_EXISTS: u32 = 0x4800_001B;

/// Custom mode insufficent memory.
pub const CTL_RESULT_ERROR_CUSTOM_MODE_INSUFFICIENT_MEMORY: u32 = 0x4800_001C;

/// Adapter is already linked.
pub const CTL_RESULT_ERROR_ADAPTER_ALREADY_LINKED: u32 = 0x4800_001D;

/// Adapter is not identical for linking.
pub const CTL_RESULT_ERROR_ADAPTER_NOT_IDENTICAL: u32 = 0x4800_001E;

/// Adapter is LDA Secondary, so not supporting requested operation.
pub const CTL_RESULT_ERROR_ADAPTER_NOT_SUPPORTED_ON_LDA_SECONDARY: u32 = 0x4800_001F;

/// Set FBC Feature not supported.
pub const CTL_RESULT_ERROR_SET_FBC_FEATURE_NOT_SUPPORTED: u32 = 0x4800_0020;

/// Display error code end value, not to be used.
pub const CTL_RESULT_ERROR_DISPLAY_END: u32 = 0x4800_FFFF;

/// Invalid error code: this enum entry is used to indicate the size of the enum.
pub const CTL_RESULT_MAX: u32 = 0x4801_0000;

/// Whether a native status code counts as success. Besides plain success this
/// covers the advisory code that says another caller still holds the resource.
pub open spec fn is_success(result: u32) -> bool {
    result == CTL_RESULT_SUCCESS || result == CTL_RESULT_SUCCESS_STILL_OPEN_BY_ANOTHER_CALLER
}

/// What a native status code amounts to: nothing to report for a success
/// code, and for any other code an error that carries it.
pub open spec fn outcome_of(result: u32) -> Result<(), Error> {
    if is_success(result) {
        Ok(())
    } else {
        Err(Error(result))
    }
}

/// Whether a 32-bit value is one of the status codes that the native library
/// defines.
pub open spec fn is_known_code(code: u32) -> bool {
    ||| code == CTL_RESULT_SUCCESS
    ||| code == CTL_RESULT_SUCCESS_STILL_OPEN_BY_ANOTHER_CALLER
    ||| code == CTL_RESULT_ERROR_SUCCESS_END
    ||| CTL_RESULT_ERROR_GENERIC_START <= code <= CTL_RESULT_ERROR_LOAD
    ||| code == CTL_RESULT_ERROR_UNKNOWN
    ||| code == CTL_RESULT_ERROR_RETRY_OPERATION
    ||| CTL_RESULT_ERROR_CORE_START <= code <= CTL_RESULT_ERROR_CORE_OVERCLOCK_DEPRECATED_API
    ||| code == CTL_RESULT_ERROR_CORE_END
    ||| code == CTL_RESULT_ERROR_3D_START
    ||| code == CTL_RESULT_ERROR_3D_END
    ||| code == CTL_RESULT_ERROR_MEDIA_START
    ||| code == CTL_RESULT_ERROR_MEDIA_END
    ||| CTL_RESULT_ERROR_DISPLAY_START <= code <= CTL_RESULT_ERROR_SET_FBC_FEATURE_NOT_SUPPORTED
    ||| code == CTL_RESULT_ERROR_DISPLAY_END
    ||| code == CTL_RESULT_MAX
}

/// The description given to any value outside the defined status codes.
pub open spec fn unknown_code_description() -> Seq<char> {
    "Unknown result code."@
}

/// The fixed description of a status code, as a sequence of characters.
pub open spec fn description_of(code: u32) -> Seq<char> {
    if code == CTL_RESULT_SUCCESS {
        "success."@
    } else if code == CTL_RESULT_SUCCESS_STILL_OPEN_BY_ANOTHER_CALLER {
        "success but still open by another caller."@
    } else if code == CTL_RESULT_ERROR_SUCCESS_END {
        "Success group error code end value, not to be used."@
    } else if code == CTL_RESULT_ERROR_GENERIC_START {
        "Generic error code starting value, not to be used."@
    } else if code == CTL_RESULT_ERROR_NOT_INITIALIZED {
        "Result not initialized."@
    } else if code == CTL_RESULT_ERROR_ALREADY_INITIALIZED {
        "Already initialized."@
    } else if code == CTL_RESULT_ERROR_DEVICE_LOST {
        "Device hung, reset, was removed, or driver update occurred."@
    } else if code == CTL_RESULT_ERROR_OUT_OF_HOST_MEMORY {
        "Insufficient host memory to satisfy call."@
    } else if code == CTL_RESULT_ERROR_OUT_OF_DEVICE_MEMORY {
        "Insufficient device memory to satisfy call."@
    } else if code == CTL_RESULT_ERROR_INSUFFICIENT_PERMISSIONS {
        "Access denied due to permission level."@
    } else if code == CTL_RESULT_ERROR_NOT_AVAILABLE {
        "Resource was removed."@
    } else if code == CTL_RESULT_ERROR_UNINITIALIZED {
        "Library not initialized."@
    } else if code == CTL_RESULT_ERROR_UNSUPPORTED_VERSION {
        "Generic error code for unsupported versions."@
    } else if code == CTL_RESULT_ERROR_UNSUPPORTED_FEATURE {
        "Generic error code for unsupported features."@
    } else if code == CTL_RESULT_ERROR_INVALID_ARGUMENT {
        "Generic error code for invalid arguments."@
    } else if code == CTL_RESULT_ERROR_INVALID_API_HANDLE {
        "API handle in invalid."@
    } else if code == CTL_RESULT_ERROR_INVALID_NULL_HANDLE {
        "Handle argument is not valid."@
    } else if code == CTL_RESULT_ERROR_INVALID_NULL_POINTER {
        "Pointer argument may not be nullptr."@
    } else if code == CTL_RESULT_ERROR_INVALID_SIZE {
        "Size argument is invalid (e.g., must not be zero)"@
    } else if code == CTL_RESULT_ERROR_UNSUPPORTED_SIZE {
        "Size argument is not supported by the device (e.g., too large)"@
    } else if code == CTL_RESULT_ERROR_UNSUPPORTED_IMAGE_FORMAT {
        "Image format is not supported by the device."@
    } else if code == CTL_RESULT_ERROR_DATA_READ {
        "Data read error."@
    } else if code == CTL_RESULT_ERROR_DATA_WRITE {
        "Data write error."@
    } else if code == CTL_RESULT_ERROR_DATA_NOT_FOUND {
        "Data not found error."@
    } else if code == CTL_RESULT_ERROR_NOT_IMPLEMENTED {
        "Function not implemented."@
    } else if code == CTL_RESULT_ERROR_OS_CALL {
        "Operating system call failure."@
    } else if code == CTL_RESULT_ERROR_KMD_CALL {
        "Kernel mode driver call failure."@
    } else if code == CTL_RESULT_ERROR_UNLOAD {
        "Library unload failure."@
    } else if code == CTL_RESULT_ERROR_ZE_LOADER {
        "Level0 loader not found."@
    } else if code == CTL_RESULT_ERROR_INVALID_OPERATION_TYPE {
        "Invalid operation type."@
    } else if code == CTL_RESULT_ERROR_NULL_OS_INTERFACE {
        "Null OS interface."@
    } else if code == CTL_RESULT_ERROR_NULL_OS_ADAPATER_HANDLE {
        "Null OS adapter handle."@
    } else if code == CTL_RESULT_ERROR_NULL_OS_DISPLAY_OUTPUT_HANDLE {
        "Null display output handle."@
    } else if code == CTL_RESULT_ERROR_WAIT_TIMEOUT {
        "Timeout in Wait function."@
    } else if code == CTL_RESULT_ERROR_PERSISTANCE_NOT_SUPPORTED {
        "Persistance not supported."@
    } else if code == CTL_RESULT_ERROR_PLATFORM_NOT_SUPPORTED {
        "Platform not supported."@
    } else if code == CTL_RESULT_ERROR_UNKNOWN_APPLICATION_UID {
        "Unknown Appplicaion UID in Initialization call."@
    } else if code == CTL_RESULT_ERROR_INVALID_ENUMERATION {
        "The enum is not valid."@
    } else if code == CTL_RESULT_ERROR_FILE_DELETE {
        "Error in file delete operation."@
    } else if code == CTL_RESULT_ERROR_RESET_DEVICE_REQUIRED {
        "The device requires a reset."@
    } else if code == CTL_RESULT_ERROR_FULL_REBOOT_REQUIRED {
        "The device requires a full reboot."@
    } else if code == CTL_RESULT_ERROR_LOAD {
        "Library load failure."@
    } else if code == CTL_RESULT_ERROR_UNKNOWN {
        "Unknown or internal error."@
    } else if code == CTL_RESULT_ERROR_RETRY_OPERATION {
        "Operation failed, retry previous operation again."@
    } else if code == CTL_RESULT_ERROR_CORE_START {
        "Core error code starting value, not to be used."@
    } else if code == CTL_RESULT_ERROR_CORE_OVERCLOCK_NOT_SUPPORTED {
        "The Overclock is not supported."@
    } else if code == CTL_RESULT_ERROR_CORE_OVERCLOCK_VOLTAGE_OUTSIDE_RANGE {
        "The Voltage exceeds the acceptable min/max."@
    } else if code == CTL_RESULT_ERROR_CORE_OVERCLOCK_FREQUENCY_OUTSIDE_RANGE {
        "The Frequency exceeds the acceptable min/max."@
    } else if code == CTL_RESULT_ERROR_CORE_OVERCLOCK_POWER_OUTSIDE_RANGE {
        "The Power exceeds the acceptable min/max."@
    } else if code == CTL_RESULT_ERROR_CORE_OVERCLOCK_TEMPERATURE_OUTSIDE_RANGE {
        "The Temperature exceeds the acceptable min/max."@
    } else if code == CTL_RESULT_ERROR_CORE_OVERCLOCK_IN_VOLTAGE_LOCKED_MODE {
        "The Overclock is in voltage locked mode."@
    } else if code == CTL_RESULT_ERROR_CORE_OVERCLOCK_RESET_REQUIRED {
        "It indicates that the requested change will not be applied until the device is reset."@
    } else if code == CTL_RESULT_ERROR_CORE_OVERCLOCK_WAIVER_NOT_SET {
        "The $OverclockWaiverSet function has not been called."@
    } else if code == CTL_RESULT_ERROR_CORE_OVERCLOCK_DEPRECATED_API {
        "The error indicates to switch to newer API version if applicable."@
    } else if code == CTL_RESULT_ERROR_CORE_END {
        "Core error code end value, not to be used."@
    } else if code == CTL_RESULT_ERROR_3D_START {
        "3D error code starting value, not to be used"@
    } else if code == CTL_RESULT_ERROR_3D_END {
        "3D error code end value, not to be used."@
    } else if code == CTL_RESULT_ERROR_MEDIA_START {
        "Media error code starting value, not to be used."@
    } else if code == CTL_RESULT_ERROR_MEDIA_END {
        "Media error code end value, not to be used."@
    } else if code == CTL_RESULT_ERROR_DISPLAY_START {
        "Display error code starting value, not to be used."@
    } else if code == CTL_RESULT_ERROR_INVALID_AUX_ACCESS_FLAG {
        "Invalid flag for Aux access."@
    } else if code == CTL_RESULT_ERROR_INVALID_SHARPNESS_FILTER_FLAG {
        "Invalid flag for Sharpness."@
    } else if code == CTL_RESULT_ERROR_DISPLAY_NOT_ATTACHED {
        "Error for Display not attached."@
    } else if code == CTL_RESULT_ERROR_DISPLAY_NOT_ACTIVE {
        "Error for display attached but not active."@
    } else if code == CTL_RESULT_ERROR_INVALID_POWERFEATURE_OPTIMIZATION_FLAG {
        "Error for invalid power optimization flag."@
    } else if code == CTL_RESULT_ERROR_INVALID_POWERSOURCE_TYPE_FOR_DPST {
        "DPST is supported only in DC Mode."@
    } else if code == CTL_RESULT_ERROR_INVALID_PIXTX_GET_CONFIG_QUERY_TYPE {
        "Invalid query type for pixel transformation get configuration."@
    } else if code == CTL_RESULT_ERROR_INVALID_PIXTX_SET_CONFIG_OPERATION_TYPE {
        "Invalid operation type for pixel transformation set configuration."@
    } else if code == CTL_RESULT_ERROR_INVALID_SET_CONFIG_NUMBER_OF_SAMPLES {
        "Invalid number of samples for pixel transformation set configuration."@
    } else if code == CTL_RESULT_ERROR_INVALID_PIXTX_BLOCK_ID {
        "Invalid block id for pixel transformation."@
    } else if code == CTL_RESULT_ERROR_INVALID_PIXTX_BLOCK_TYPE {
        "Invalid block type for pixel transformation."@
    } else if code == CTL_RESULT_ERROR_INVALID_PIXTX_BLOCK_NUMBER {
        "Invalid block number for pixel transformation."@
    } else if code == CTL_RESULT_ERROR_INSUFFICIENT_PIXTX_BLOCK_CONFIG_MEMORY {
        "Insufficient memery allocated for BlockConfigs."@
    } else if code == CTL_RESULT_ERROR_3DLUT_INVALID_PIPE {
        "Invalid pipe for 3dlut."@
    } else if code == CTL_RESULT_ERROR_3DLUT_INVALID_DATA {
        "Invalid 3dlut data."@
    } else if code == CTL_RESULT_ERROR_3DLUT_NOT_SUPPORTED_IN_HDR {
        "3dlut not supported in HDR."@
    } else if code == CTL_RESULT_ERROR_3DLUT_INVALID_OPERATION {
        "Invalid 3dlut operation."@
    } else if code == CTL_RESULT_ERROR_3DLUT_UNSUCCESSFUL {
        "3dlut call unsuccessful."@
    } else if code == CTL_RESULT_ERROR_AUX_DEFER {
        "AUX defer failure."@
    } else if code == CTL_RESULT_ERROR_AUX_TIMEOUT {
        "AUX timeout failure."@
    } else if code == CTL_RESULT_ERROR_AUX_INCOMPLETE_WRITE {
        "AUX incomplete write failure."@
    } else if code == CTL_RESULT_ERROR_I2C_AUX_STATUS_UNKNOWN {
        "I2C/AUX unkonown failure."@
    } else if code == CTL_RESULT_ERROR_I2C_AUX_UNSUCCESSFUL {
        "I2C/AUX unsuccessful."@
    } else if code == CTL_RESULT_ERROR_LACE_INVALID_DATA_ARGUMENT_PASSED {
        "Lace Incorrrect AggressivePercent data or LuxVsAggressive Map data passed by user."@
    } else if code == CTL_RESULT_ERROR_EXTERNAL_DISPLAY_ATTACHED {
        "External Display is Attached hence fail the Display Switch."@
    } else if code == CTL_RESULT_ERROR_CUSTOM_MODE_STANDARD_CUSTOM_MODE_EXISTS {
        "Standard custom mode exists."@
    } else if code == CTL_RESULT_ERROR_CUSTOM_MODE_NON_CUSTOM_MATCHING_MODE_EXISTS {
        "Non custom matching mode exists."@
    } else if code == CTL_RESULT_ERROR_CUSTOM_MODE_INSUFFICIENT_MEMORY {
        "Custom mode insufficent memory."@
    } else if code == CTL_RESULT_ERROR_ADAPTER_ALREADY_LINKED {
        "Adapter is already linked."@
    } else if code == CTL_RESULT_ERROR_ADAPTER_NOT_IDENTICAL {
        "Adapter is not identical for linking."@
    } else if code == CTL_RESULT_ERROR_ADAPTER_NOT_SUPPORTED_ON_LDA_SECONDARY {
        "Adapter is LDA Secondary, so not supporting requested operation."@
    } else if code == CTL_RESULT_ERROR_SET_FBC_FEATURE_NOT_SUPPORTED {
        "Set FBC Feature not supported."@
    } else if code == CTL_RESULT_ERROR_DISPLAY_END {
        "Display error code end value, not to be used."@
    } else if code == CTL_RESULT_MAX {
        "Invalid error code: this enum entry is used to indicate the size of the enum."@
    } else {
        unknown_code_description()
    }
}

/// A failed native call, carrying the status code that the library returned.
#[derive(Clone, Copy, Debug, PartialEq, Eq, Structural)]
pub struct Error(pub u32);

impl Error {
    /// Checks a native status code: success codes give `Ok`, every other
    /// code gives an `Error` that carries the code unchanged.
    pub fn from_result(result: u32) -> (out: Result<(), Error>)
        ensures
            out == outcome_of(result),
    {
        if result == CTL_RESULT_SUCCESS || result
            == CTL_RESULT_SUCCESS_STILL_OPEN_BY_ANOTHER_CALLER {
            Ok(())
        } else {
            Err(Error(result))
        }
    }

    /// The fixed human-readable description of the carried status code. A
    /// value outside the defined codes gets one generic description.
    pub fn description(&self) -> (text: &'static str)
        ensures
            text@ == description_of(self.0),
    {
        let code: u32 = self.0;
        if code == CTL_RESULT_SUCCESS {
            "success."
        } else if code == CTL_RESULT_SUCCESS_STILL_OPEN_BY_ANOTHER_CALLER {
            "success but still open by another caller."
        } else if code == CTL_RESULT_ERROR_SUCCESS_END {
            "Success group error code end value, not to be used."
        } else if code == CTL_RESULT_ERROR_GENERIC_START {
            "Generic error code starting value, not to be used."
        } else if code == CTL_RESULT_ERROR_NOT_INITIALIZED {
            "Result not initialized."
        } else if code == CTL_RESULT_ERROR_ALREADY_INITIALIZED {
            "Already initialized."
        } else if code == CTL_RESULT_ERROR_DEVICE_LOST {
            "Device hung, reset, was removed, or driver update occurred."
        } else if code == CTL_RESULT_ERROR_OUT_OF_HOST_MEMORY {
            "Insufficient host memory to satisfy call."
        } else if code == CTL_RESULT_ERROR_OUT_OF_DEVICE_MEMORY {
            "Insufficient device memory to satisfy call."
        } else if code == CTL_RESULT_ERROR_INSUFFICIENT_PERMISSIONS {
            "Access denied due to permission level."
        } else if code == CTL_RESULT_ERROR_NOT_AVAILABLE {
            "Resource was removed."
        } else if code == CTL_RESULT_ERROR_UNINITIALIZED {
            "Library not initialized."
        } else if code == CTL_RESULT_ERROR_UNSUPPORTED_VERSION {
            "Generic error code for unsupported versions."
        } else if code == CTL_RESULT_ERROR_UNSUPPORTED_FEATURE {
            "Generic error code for unsupported features."
        } else if code == CTL_RESULT_ERROR_INVALID_ARGUMENT {
            "Generic error code for invalid arguments."
        } else if code == CTL_RESULT_ERROR_INVALID_API_HANDLE {
            "API handle in invalid."
        } else if code == CTL_RESULT_ERROR_INVALID_NULL_HANDLE {
            "Handle argument is not valid."
        } else if code == CTL_RESULT_ERROR_INVALID_NULL_POINTER {
            "Pointer argument may not be nullptr."
        } else if code == CTL_RESULT_ERROR_INVALID_SIZE {
            "Size argument is invalid (e.g., must not be zero)"
        } else if code == CTL_RESULT_ERROR_UNSUPPORTED_SIZE {
            "Size argument is not supported by the device (e.g., too large)"
        } else if code == CTL_RESULT_ERROR_UNSUPPORTED_IMAGE_FORMAT {
            "Image format is not supported by the device."
        } else if code == CTL_RESULT_ERROR_DATA_READ {
            "Data read error."
        } else if code == CTL_RESULT_ERROR_DATA_WRITE {
            "Data write error."
        } else if code == CTL_RESULT_ERROR_DATA_NOT_FOUND {
            "Data not found error."
        } else if code == CTL_RESULT_ERROR_NOT_IMPLEMENTED {
            "Function not implemented."
        } else if code == CTL_RESULT_ERROR_OS_CALL {
            "Operating system call failure."
        } else if code == CTL_RESULT_ERROR_KMD_CALL {
            "Kernel mode driver call failure."
        } else if code == CTL_RESULT_ERROR_UNLOAD {
            "Library unload failure."
        } else if code == CTL_RESULT_ERROR_ZE_LOADER {
            "Level0 loader not found."
        } else if code == CTL_RESULT_ERROR_INVALID_OPERATION_TYPE {
            "Invalid operation type."
        } else if code == CTL_RESULT_ERROR_NULL_OS_INTERFACE {
            "Null OS interface."
        } else if code == CTL_RESULT_ERROR_NULL_OS_ADAPATER_HANDLE {
            "Null OS adapter handle."
        } else if code == CTL_RESULT_ERROR_NULL_OS_DISPLAY_OUTPUT_HANDLE {
            "Null display output handle."
        } else if code == CTL_RESULT_ERROR_WAIT_TIMEOUT {
            "Timeout in Wait function."
        } else if code == CTL_RESULT_ERROR_PERSISTANCE_NOT_SUPPORTED {
            "Persistance not supported."
        } else if code == CTL_RESULT_ERROR_PLATFORM_NOT_SUPPORTED {
            "Platform not supported."
        } else if code == CTL_RESULT_ERROR_UNKNOWN_APPLICATION_UID {
            "Unknown Appplicaion UID in Initialization call."
        } else if code == CTL_RESULT_ERROR_INVALID_ENUMERATION {
            "The enum is not valid."
        } else if code == CTL_RESULT_ERROR_FILE_DELETE {
            "Error in file delete operation."
        } else if code == CTL_RESULT_ERROR_RESET_DEVICE_REQUIRED {
            "The device requires a reset."
        } else if code == CTL_RESULT_ERROR_FULL_REBOOT_REQUIRED {
            "The device requires a full reboot."
        } else if code == CTL_RESULT_ERROR_LOAD {
            "Library load failure."
        } else if code == CTL_RESULT_ERROR_UNKNOWN {
            "Unknown or internal error."
        } else if code == CTL_RESULT_ERROR_RETRY_OPERATION {
            "Operation failed, retry previous operation again."
        } else if code == CTL_RESULT_ERROR_CORE_START {
            "Core error code starting value, not to be used."
        } else if code == CTL_RESULT_ERROR_CORE_OVERCLOCK_NOT_SUPPORTED {
            "The Overclock is not supported."
        } else if code == CTL_RESULT_ERROR_CORE_OVERCLOCK_VOLTAGE_OUTSIDE_RANGE {
            "The Voltage exceeds the acceptable min/max."
        } else if code == CTL_RESULT_ERROR_CORE_OVERCLOCK_FREQUENCY_OUTSIDE_RANGE {
            "The Frequency exceeds the acceptable min/max."
        } else if code == CTL_RESULT_ERROR_CORE_OVERCLOCK_POWER_OUTSIDE_RANGE {
            "The Power exceeds the acceptable min/max."
        } else if code == CTL_RESULT_ERROR_CORE_OVERCLOCK_TEMPERATURE_OUTSIDE_RANGE {
            "The Temperature exceeds the acceptable min/max."
        } else if code == CTL_RESULT_ERROR_CORE_OVERCLOCK_IN_VOLTAGE_LOCKED_MODE {
            "The Overclock is in voltage locked mode."
        } else if code == CTL_RESULT_ERROR_CORE_OVERCLOCK_RESET_REQUIRED {
            "It indicates that the requested change will not be applied until the device is reset."
        } else if code == CTL_RESULT_ERROR_CORE_OVERCLOCK_WAIVER_NOT_SET {
            "The $OverclockWaiverSet function has not been called."
        } else if code == CTL_RESULT_ERROR_CORE_OVERCLOCK_DEPRECATED_API {
            "The error indicates to switch to newer API version if applicable."
        } else if code == CTL_RESULT_ERROR_CORE_END {
            "Core error code end value, not to be used."
        } else if code == CTL_RESULT_ERROR_3D_START {
            "3D error code starting value, not to be used"
        } else if code == CTL_RESULT_ERROR_3D_END {
            "3D error code end value, not to be used."
        } else if code == CTL_RESULT_ERROR_MEDIA_START {
            "Media error code starting value, not to be used."
        } else if code == CTL_RESULT_ERROR_MEDIA_END {
            "Media error code end value, not to be used."
        } else if code == CTL_RESULT_ERROR_DISPLAY_START {
            "Display error code starting value, not to be used."
        } else if code == CTL_RESULT_ERROR_INVALID_AUX_ACCESS_FLAG {
            "Invalid flag for Aux access."
        } else if code == CTL_RESULT_ERROR_INVALID_SHARPNESS_FILTER_FLAG {
            "Invalid flag for Sharpness."
        } else if code == CTL_RESULT_ERROR_DISPLAY_NOT_ATTACHED {
            "Error for Display not attached."
        } else if code == CTL_RESULT_ERROR_DISPLAY_NOT_ACTIVE {
            "Error for display attached but not active."
        } else if code == CTL_RESULT_ERROR_INVALID_POWERFEATURE_OPTIMIZATION_FLAG {
            "Error for invalid power optimization flag."
        } else if code == CTL_RESULT_ERROR_INVALID_POWERSOURCE_TYPE_FOR_DPST {
            "DPST is supported only in DC Mode."
        } else if code == CTL_RESULT_ERROR_INVALID_PIXTX_GET_CONFIG_QUERY_TYPE {
            "Invalid query type for pixel transformation get configuration."
        } else if code == CTL_RESULT_ERROR_INVALID_PIXTX_SET_CONFIG_OPERATION_TYPE {
            "Invalid operation type for pixel transformation set configuration."
        } else if code == CTL_RESULT_ERROR_INVALID_SET_CONFIG_NUMBER_OF_SAMPLES {
            "Invalid number of samples for pixel transformation set configuration."
        } else if code == CTL_RESULT_ERROR_INVALID_PIXTX_BLOCK_ID {
            "Invalid block id for pixel transformation."
        } else if code == CTL_RESULT_ERROR_INVALID_PIXTX_BLOCK_TYPE {
            "Invalid block type for pixel transformation."
        } else if code == CTL_RESULT_ERROR_INVALID_PIXTX_BLOCK_NUMBER {
            "Invalid block number for pixel transformation."
        } else if code == CTL_RESULT_ERROR_INSUFFICIENT_PIXTX_BLOCK_CONFIG_MEMORY {
            "Insufficient memery allocated for BlockConfigs."
        } else if code == CTL_RESULT_ERROR_3DLUT_INVALID_PIPE {
            "Invalid pipe for 3dlut."
        } else if code == CTL_RESULT_ERROR_3DLUT_INVALID_DATA {
            "Invalid 3dlut data."
        } else if code == CTL_RESULT_ERROR_3DLUT_NOT_SUPPORTED_IN_HDR {
            "3dlut not supported in HDR."
        } else if code == CTL_RESULT_ERROR_3DLUT_INVALID_OPERATION {
            "Invalid 3dlut operation."
        } else if code == CTL_RESULT_ERROR_3DLUT_UNSUCCESSFUL {
            "3dlut call unsuccessful."
        } else if code == CTL_RESULT_ERROR_AUX_DEFER {
            "AUX defer failure."
        } else if code == CTL_RESULT_ERROR_AUX_TIMEOUT {
            "AUX timeout failure."
        } else if code == CTL_RESULT_ERROR_AUX_INCOMPLETE_WRITE {
            "AUX incomplete write failure."
        } else if code == CTL_RESULT_ERROR_I2C_AUX_STATUS_UNKNOWN {
            "I2C/AUX unkonown failure."
        } else if code == CTL_RESULT_ERROR_I2C_AUX_UNSUCCESSFUL {
            "I2C/AUX unsuccessful."
        } else if code == CTL_RESULT_ERROR_LACE_INVALID_DATA_ARGUMENT_PASSED {
            "Lace Incorrrect AggressivePercent data or LuxVsAggressive Map data passed by user."
        } else if code == CTL_RESULT_ERROR_EXTERNAL_DISPLAY_ATTACHED {
            "External Display is Attached hence fail the Display Switch."
        } else if code == CTL_RESULT_ERROR_CUSTOM_MODE_STANDARD_CUSTOM_MODE_EXISTS {
            "Standard custom mode exists."
        } else if code == CTL_RESULT_ERROR_CUSTOM_MODE_NON_CUSTOM_MATCHING_MODE_EXISTS {
            "Non custom matching mode exists."
        } else if code == CTL_RESULT_ERROR_CUSTOM_MODE_INSUFFICIENT_MEMORY {
            "Custom mode insufficent memory."
        } else if code == CTL_RESULT_ERROR_ADAPTER_ALREADY_LINKED {
            "Adapter is already linked."
        } else if code == CTL_RESULT_ERROR_ADAPTER_NOT_IDENTICAL {
            "Adapter is not identical for linking."
        } else if code == CTL_RESULT_ERROR_ADAPTER_NOT_SUPPORTED_ON_LDA_SECONDARY {
            "Adapter is LDA Secondary, so not supporting requested operation."
        } else if code == CTL_RESULT_ERROR_SET_FBC_FEATURE_NOT_SUPPORTED {
            "Set FBC Feature not supported."
        } else if code == CTL_RESULT_ERROR_DISPLAY_END {
            "Display error code end value, not to be used."
        } else if code == CTL_RESULT_MAX {
            "Invalid error code: this enum entry is used to indicate the size of the enum."
        } else {
            "Unknown result code."
        }
    }
}

/// Exactly two status codes are successes: plain success, and success with
/// the resource still held open by another caller. Every other 32-bit value,
/// defined or not, becomes an error that carries it.
pub proof fn lemma_success_codes(result: u32)
    ensures
        outcome_of(CTL_RESULT_SUCCESS) == Ok::<(), Error>(()),
        outcome_of(CTL_RESULT_SUCCESS_STILL_OPEN_BY_ANOTHER_CALLER) == Ok::<(), Error>(()),
        result != CTL_RESULT_SUCCESS && result != CTL_RESULT_SUCCESS_STILL_OPEN_BY_ANOTHER_CALLER
            ==> outcome_of(result) == Err::<(), Error>(Error(result)),
{
}

/// The character of a text at a position, if the text is that long.
spec fn char_at(text: Seq<char>, position: int) -> Option<char> {
    if 0 <= position < text.len() {
        Some(text[position])
    } else {
        None
    }
}

/// The length of a text and three of its characters. No two descriptions
/// agree on all four.
spec fn signature(text: Seq<char>) -> (nat, Option<char>, Option<char>, Option<char>) {
    (text.len(), char_at(text, 6), char_at(text, 10), char_at(text, 35))
}

/// What the texts of the descriptions show once they are spelled out: none
/// is empty, and the signatures of two of them differ wherever the codes do
/// and one of the codes is defined.
proof fn lemma_description_texts(a: u32, b: u32)
    ensures
        description_of(a).len() > 0,
        a != b && (is_known_code(a) || is_known_code(b)) ==> signature(description_of(a))
            != signature(description_of(b)),
{
    reveal_strlit("success.");
    reveal_strlit("success but still open by another caller.");
    reveal_strlit("Success group error code end value, not to be used.");
    reveal_strlit("Generic error code starting value, not to be used.");
    reveal_strlit("Result not initialized.");
    reveal_strlit("Already initialized.");
    reveal_strlit("Device hung, reset, was removed, or driver update occurred.");
    reveal_strlit("Insufficient host memory to satisfy call.");
    reveal_strlit("Insufficient device memory to satisfy call.");
    reveal_strlit("Access denied due to permission level.");
    reveal_strlit("Resource was removed.");
    reveal_strlit("Library not initialized.");
    reveal_strlit("Generic error code for unsupported versions.");
    reveal_strlit("Generic error code for unsupported features.");
    reveal_strlit("Generic error code for invalid arguments.");
    reveal_strlit("API handle in invalid.");
    reveal_strlit("Handle argument is not valid.");
    reveal_strlit("Pointer argument may not be nullptr.");
    reveal_strlit("Size argument is invalid (e.g., must not be zero)");
    reveal_strlit("Size argument is not supported by the device (e.g., too large)");
    reveal_strlit("Image format is not supported by the device.");
    reveal_strlit("Data read error.");
    reveal_strlit("Data write error.");
    reveal_strlit("Data not found error.");
    reveal_strlit("Function not implemented.");
    reveal_strlit("Operating system call failure.");
    reveal_strlit("Kernel mode driver call failure.");
    reveal_strlit("Library unload failure.");
    reveal_strlit("Level0 loader not found.");
    reveal_strlit("Invalid operation type.");
    reveal_strlit("Null OS interface.");
    reveal_strlit("Null OS adapter handle.");
    reveal_strlit("Null display output handle.");
    reveal_strlit("Timeout in Wait function.");
    reveal_strlit("Persistance not supported.");
    reveal_strlit("Platform not supported.");
    reveal_strlit("Unknown Appplicaion UID in Initialization call.");
    reveal_strlit("The enum is not valid.");
    reveal_strlit("Error in file delete operation.");
    reveal_strlit("The device requires a reset.");
    reveal_strlit("The device requires a full reboot.");
    reveal_strlit("Library load failure.");
    reveal_strlit("Unknown or internal error.");
    reveal_strlit("Operation failed, retry previous operation again.");
    reveal_strlit("Core error code starting value, not to be used.");
    reveal_strlit("The Overclock is not supported.");
    reveal_strlit("The Voltage exceeds the acceptable min/max.");
    reveal_strlit("The Frequency exceeds the acceptable min/max.");
    reveal_strlit("The Power exceeds the acceptable min/max.");
    reveal_strlit("The Temperature exceeds the acceptable min/max.");
    reveal_strlit("The Overclock is in voltage locked mode.");
    reveal_strlit(
        "It indicates that the requested change will not be applied until the device is reset.",
    );
    reveal_strlit("The $OverclockWaiverSet function has not been called.");
    reveal_strlit("The error indicates to switch to newer API version if applicable.");
    reveal_strlit("Core error code end value, not to be used.");
    reveal_strlit("3D error code starting value, not to be used");
    reveal_strlit("3D error code end value, not to be used.");
    reveal_strlit("Media error code starting value, not to be used.");
    reveal_strlit("Media error code end value, not to be used.");
    reveal_strlit("Display error code starting value, not to be used.");
    reveal_strlit("Invalid flag for Aux access.");
    reveal_strlit("Invalid flag for Sharpness.");
    reveal_strlit("Error for Display not attached.");
    reveal_strlit("Error for display attached but not active.");
    reveal_strlit("Error for invalid power optimization flag.");
    reveal_strlit("DPST is supported only in DC Mode.");
    reveal_strlit("Invalid query type for pixel transformation get configuration.");
    reveal_strlit("Invalid operation type for pixel transformation set configuration.");
    reveal_strlit("Invalid number of samples for pixel transformation set configuration.");
    reveal_strlit("Invalid block id for pixel transformation.");
    reveal_strlit("Invalid block type for pixel transformation.");
    reveal_strlit("Invalid block number for pixel transformation.");
    reveal_strlit("Insufficient memery allocated for BlockConfigs.");
    reveal_strlit("Invalid pipe for 3dlut.");
    reveal_strlit("Invalid 3dlut data.");
    reveal_strlit("3dlut not supported in HDR.");
    reveal_strlit("Invalid 3dlut operation.");
    reveal_strlit("3dlut call unsuccessful.");
    reveal_strlit("AUX defer failure.");
    reveal_strlit("AUX timeout failure.");
    reveal_strlit("AUX incomplete write failure.");
    reveal_strlit("I2C/AUX unkonown failure.");
    reveal_strlit("I2C/AUX unsuccessful.");
    reveal_strlit(
        "Lace Incorrrect AggressivePercent data or LuxVsAggressive Map data passed by user.",
    );
    reveal_strlit("External Display is Attached hence fail the Display Switch.");
    reveal_strlit("Standard custom mode exists.");
    reveal_strlit("Non custom matching mode exists.");
    reveal_strlit("Custom mode insufficent memory.");
    reveal_strlit("Adapter is already linked.");
    reveal_strlit("Adapter is not identical for linking.");
    reveal_strlit("Adapter is LDA Secondary, so not supporting requested operation.");
    reveal_strlit("Set FBC Feature not supported.");
    reveal_strlit("Display error code end value, not to be used.");
    reveal_strlit(
        "Invalid error code: this enum entry is used to indicate the size of the enum.",
    );
    reveal_strlit("Unknown result code.");
}

/// Distinct status codes never share a description, as long as at least one
/// of them is a defined code; in particular no defined code is described by
/// the text reserved for undefined values.
pub proof fn lemma_descriptions_distinct(a: u32, b: u32)
    requires
        a != b,
        is_known_code(a) || is_known_code(b),
    ensures
        description_of(a) != description_of(b),
{
    lemma_description_texts(a, b);
}

/// No status code, defined or not, has an empty description.
pub proof fn lemma_description_not_empty(code: u32)
    ensures
        description_of(code).len() > 0,
{
    lemma_description_texts(code, code);
}

/// A value outside the defined status codes gets the generic description,
/// and only such a value does.
pub proof fn lemma_unknown_code_description(code: u32)
    ensures
        is_known_code(code) <==> description_of(code) != unknown_code_description(),
{
    if is_known_code(code) {
        let undefined: u32 = 2;
        lemma_descriptions_distinct(code, undefined);
    }
}

} // verus!
