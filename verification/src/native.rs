//! The requests sent to the native library and the replies it gives, as plain
//! values.
//!
//! The native library is called with pointers to versioned C structs. This
//! crate never touches those. It describes each call by a request value that
//! holds every field the caller of this crate decides, and it reads the
//! outcome from a reply value that holds the status code and every field the
//! library wrote. Whoever performs the call fills in what only the C layout
//! knows, the size field of each struct and the addresses of its buffers.

use crate::error::is_success;
use vstd::prelude::*;

verus! {

/// The API handle that initialisation hands out, by its address.
#[derive(Clone, Copy, Debug, PartialEq, Eq, Structural)]
pub struct ApiHandle(pub usize);

/// The native reference to one physical adapter, by its address.
#[derive(Clone, Copy, Debug, PartialEq, Eq, Structural)]
pub struct AdapterHandle(pub usize);

/// The native reference to one memory module, by its address.
#[derive(Clone, Copy, Debug, PartialEq, Eq, Structural)]
pub struct MemoryHandle(pub usize);

/// Major version of the native interface this crate is written against.
pub const CTL_IMPL_MAJOR_VERSION: u32 = 1;

/// Minor version of the native interface this crate is written against.
pub const CTL_IMPL_MINOR_VERSION: u32 = 1;

/// The identity an application presents at initialisation.
#[derive(Clone, Copy, Debug, PartialEq, Eq)]
pub struct ApplicationId {
    pub data1: u32,
    pub data2: u16,
    pub data3: u16,
    pub data4: [u8; 8],
}

/// The initialisation descriptor.
#[derive(Clone, Copy, Debug, PartialEq, Eq)]
pub struct InitArgs {
    /// Version of the descriptor itself.
    pub version: u8,
    /// Version of the calling application, packed by `ctl_make_version`.
    pub app_version: u32,
    /// Initialisation flags.
    pub flags: u32,
    /// Version of the native interface the caller was written against.
    pub supported_version: u32,
    /// Identity of the calling application.
    pub application_uid: ApplicationId,
}

/// What initialisation returns.
#[derive(Clone, Copy, Debug, PartialEq, Eq)]
pub struct InitReply {
    /// The status code of the call.
    pub result: u32,
    /// The API handle, meaningful only where `result` is a success code.
    pub api_handle: ApiHandle,
}

/// One call of the device enumeration entry point.
#[derive(Clone, Copy, Debug, PartialEq, Eq)]
pub struct EnumerateRequest {
    /// The API handle of the session.
    pub api_handle: ApiHandle,
    /// The value of the count variable on entry. The native library takes a
    /// nonzero value as an upper bound on what it reports.
    pub count: u32,
    /// `None` to pass no output buffer, `Some(n)` to pass one of `n` slots.
    pub buffer: Option<u32>,
}

/// What the device enumeration entry point returns.
#[derive(Clone, Debug, PartialEq, Eq)]
pub struct EnumerateReply {
    /// The status code of the call.
    pub result: u32,
    /// The value of the count variable on return.
    pub count: u32,
    /// The slots of the output buffer, in order; empty where none was passed.
    pub adapters: Vec<AdapterHandle>,
}

/// One call of the adapter properties entry point.
#[derive(Clone, Copy, Debug, PartialEq, Eq)]
pub struct PropertiesRequest {
    /// The adapter asked about.
    pub adapter: AdapterHandle,
    /// Version of the properties struct.
    pub version: u8,
    /// Size in bytes of the buffer offered for the device identifier.
    pub device_id_size: u32,
}

/// PCI bus, device and function number of an adapter.
#[derive(Clone, Copy, Debug, PartialEq, Eq, Structural)]
pub struct AdapterBdf {
    pub bus: u8,
    pub device: u8,
    pub function: u8,
}

/// The kind of device behind an adapter handle.
#[derive(Clone, Copy, Debug, PartialEq, Eq, Structural)]
pub enum DeviceType {
    Graphics,
    System,
    Max,
}

/// Length of the name field of the adapter properties.
pub const CTL_MAX_DEVICE_NAME_LEN: usize = 100;

/// The properties of one adapter.
#[derive(Clone, Copy, Debug, PartialEq, Eq)]
pub struct AdapterProperties {
    /// The adapter's name as C characters, terminated by a zero.
    pub name: [i8; CTL_MAX_DEVICE_NAME_LEN],
    pub pci_vendor_id: u32,
    pub pci_device_id: u32,
    pub pci_subsys_vendor_id: u16,
    pub pci_subsys_id: u16,
    pub adapter_bdf: AdapterBdf,
    pub device_type: DeviceType,
}

/// What the adapter properties entry point returns.
#[derive(Clone, Debug, PartialEq, Eq)]
pub struct PropertiesReply {
    /// The status code of the call.
    pub result: u32,
    /// The properties, meaningful only where `result` is a success code.
    pub properties: AdapterProperties,
    /// The bytes of the device identifier buffer after the call.
    pub device_id: Vec<u8>,
}

/// What the memory state entry point returns.
#[derive(Clone, Copy, Debug, PartialEq, Eq)]
pub struct MemoryStateReply {
    /// The status code of the call.
    pub result: u32,
    /// Total size of the memory module in bytes.
    pub size: u64,
    /// Free bytes of the memory module.
    pub free: u64,
}

/// The request that asks how many adapters there are: no buffer, and a count
/// variable that starts at zero.
pub open spec fn count_request(api_handle: ApiHandle) -> EnumerateRequest {
    EnumerateRequest { api_handle, count: 0, buffer: None }
}

/// The request that fetches `count` adapter handles into a buffer of exactly
/// that many slots.
pub open spec fn fill_request(api_handle: ApiHandle, count: u32) -> EnumerateRequest {
    EnumerateRequest { api_handle, count, buffer: Some(count) }
}

/// The adapter handles that an enumeration reply reports: as many of the
/// leading buffer slots as the returned count says, and never more than the
/// buffer holds.
pub open spec fn reported_adapters(reply: EnumerateReply) -> Seq<AdapterHandle> {
    if reply.count as int <= reply.adapters@.len() {
        reply.adapters@.take(reply.count as int)
    } else {
        reply.adapters@
    }
}

/// The request for the properties of one adapter.
pub open spec fn properties_request(
    adapter: AdapterHandle,
    device_id_size: u32,
) -> PropertiesRequest {
    PropertiesRequest { adapter, version: 0, device_id_size }
}

impl EnumerateRequest {
    /// Builds the request that asks for the number of adapters.
    pub fn count_query(api_handle: ApiHandle) -> (request: EnumerateRequest)
        ensures
            request == count_request(api_handle),
    {
        EnumerateRequest { api_handle, count: 0, buffer: None }
    }

    /// Builds the request that fetches `count` adapter handles.
    pub fn fill_query(api_handle: ApiHandle, count: u32) -> (request: EnumerateRequest)
        ensures
            request == fill_request(api_handle, count),
    {
        EnumerateRequest { api_handle, count, buffer: Some(count) }
    }
}

impl EnumerateReply {
    /// Whether the call succeeded.
    pub open spec fn succeeded(&self) -> bool {
        is_success(self.result)
    }

    /// The adapter handles that this reply reports, in the order of the
    /// buffer.
    pub fn into_adapters(self) -> (adapters: Vec<AdapterHandle>)
        ensures
            adapters@ == reported_adapters(self),
    {
        let mut adapters = self.adapters;
        if (self.count as usize) < adapters.len() {
            adapters.truncate(self.count as usize);
        }
        adapters
    }
}

impl PropertiesRequest {
    /// Builds the request for the properties of `adapter`, offering a buffer
    /// of `device_id_size` bytes for the device identifier.
    pub fn new(adapter: AdapterHandle, device_id_size: u32) -> (request: PropertiesRequest)
        ensures
            request == properties_request(adapter, device_id_size),
    {
        PropertiesRequest { adapter, version: 0, device_id_size }
    }
}

} // verus!
