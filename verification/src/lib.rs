//! Safe, verified core of a wrapper around the Intel Graphics Control Library.
//!
//! The native library speaks a C calling convention of handles, versioned
//! structs and integer status codes. This crate holds everything about that
//! conversation that can be decided on plain values: which requests are built,
//! how status codes become errors, how a driver setting is resolved across
//! scopes, and how telemetry payloads are decoded. The native calls themselves
//! are handed in by the caller as functions from a request to a reply.

pub mod device_adapter;
pub mod encoding;
pub mod error;
pub mod feature;
pub mod memory;
pub mod native;
pub mod telemetry;

use crate::device_adapter::{described, DeviceAdapter};
use crate::error::{is_success, outcome_of, Error};
use crate::native::{
    count_request, fill_request, properties_request, reported_adapters, AdapterHandle, ApiHandle,
    ApplicationId, EnumerateReply, EnumerateRequest, InitArgs, InitReply, PropertiesReply,
    PropertiesRequest, CTL_IMPL_MAJOR_VERSION, CTL_IMPL_MINOR_VERSION,
};
use vstd::prelude::*;

verus! {

/// A version as the native library packs it: the low sixteen bits of the
/// major version in the upper half, those of the minor version in the lower.
pub open spec fn packed_version(major: u32, minor: u32) -> u32 {
    ((major % 0x1_0000) * 0x1_0000 + minor % 0x1_0000) as u32
}

/// Packs a major and a minor version into the 32-bit form the native library
/// expects.
pub fn ctl_make_version(major: u32, minor: u32) -> (version: u32)
    ensures
        version == packed_version(major, minor),
{
    assert(((major << 16) | (minor & 0x0000_ffff)) == (major % 0x1_0000) * 0x1_0000 + minor
        % 0x1_0000) by (bit_vector);
    (major << 16) | (minor & 0x0000_ffff)
}

/// The descriptor with which a session initialises the native library: the
/// interface version this crate is written against, no flags, and an
/// application identity of all zeros, which the native library accepts.
pub open spec fn init_args() -> InitArgs {
    InitArgs {
        version: 0,
        app_version: packed_version(CTL_IMPL_MAJOR_VERSION, CTL_IMPL_MINOR_VERSION),
        flags: 0,
        supported_version: packed_version(CTL_IMPL_MAJOR_VERSION, CTL_IMPL_MINOR_VERSION),
        application_uid: ApplicationId {
            data1: 0,
            data2: 0,
            data3: 0,
            data4: [0, 0, 0, 0, 0, 0, 0, 0],
        },
    }
}

/// The session that an initialisation reply opens, by its API handle, or the
/// error the reply reports.
pub open spec fn opened(reply: InitReply) -> Result<ApiHandle, Error> {
    if is_success(reply.result) {
        Ok(reply.api_handle)
    } else {
        Err(Error(reply.result))
    }
}

/// The outcome of the two enumeration calls: the error of the first call
/// that failed, or else the adapters that the second reply reports.
pub open spec fn listing(first: EnumerateReply, second: EnumerateReply) -> Result<
    Seq<AdapterHandle>,
    Error,
> {
    if !first.succeeded() {
        Err(Error(first.result))
    } else if !is_success(second.result) {
        Err(Error(second.result))
    } else {
        Ok(reported_adapters(second))
    }
}

/// Whether `handles` is what the two-phase enumeration gives against the
/// native layer. The first call passes no buffer and a count of zero. The
/// second call is made only where the first succeeded, with a buffer of
/// exactly as many slots as the first call counted.
pub open spec fn lists<F: Fn(&EnumerateRequest) -> EnumerateReply>(
    native: &F,
    api_handle: ApiHandle,
    handles: Result<Seq<AdapterHandle>, Error>,
) -> bool {
    exists|first: EnumerateReply, second: EnumerateReply|
        {
            &&& native.ensures((&count_request(api_handle),), first)
            &&& first.succeeded() ==> native.ensures(
                (&fill_request(api_handle, first.count),),
                second,
            )
            &&& handles == #[trigger] listing(first, second)
        }
}

/// Whether `outcome` is what asking the native layer for the properties of
/// `adapter` gives.
pub open spec fn describes<F: Fn(&PropertiesRequest) -> PropertiesReply>(
    native: &F,
    adapter: AdapterHandle,
    device_id_size: u32,
    outcome: Result<DeviceAdapter, Error>,
) -> bool {
    exists|reply: PropertiesReply|
        #[trigger] native.ensures((&properties_request(adapter, device_id_size),), reply)
            && outcome == described(adapter, reply)
}

/// Whether the native layer may describe `adapter` successfully.
pub open spec fn describable<F: Fn(&PropertiesRequest) -> PropertiesReply>(
    native: &F,
    adapter: AdapterHandle,
    device_id_size: u32,
) -> bool {
    exists|device: DeviceAdapter| describes(native, adapter, device_id_size, Ok(device))
}

/// Whether `devices` are what the native layer gives for `handles`, one
/// successful description for each handle, in the same order.
pub open spec fn all_described<F: Fn(&PropertiesRequest) -> PropertiesReply>(
    native: &F,
    handles: Seq<AdapterHandle>,
    device_id_size: u32,
    devices: Seq<DeviceAdapter>,
) -> bool {
    &&& devices.len() == handles.len()
    &&& forall|i: int|
        0 <= i < handles.len() ==> describes(
            native,
            #[trigger] handles[i],
            device_id_size,
            Ok(devices[i]),
        )
}

/// Whether describing `handles` in order ends with `error`: the native layer
/// fails with it at one of the adapters, and may describe every adapter
/// before that one successfully.
pub open spec fn fails_describing<F: Fn(&PropertiesRequest) -> PropertiesReply>(
    native: &F,
    handles: Seq<AdapterHandle>,
    device_id_size: u32,
    error: Error,
) -> bool {
    exists|failed: int|
        {
            &&& 0 <= failed < handles.len()
            &&& #[trigger] describes(native, handles[failed], device_id_size, Err(error))
            &&& forall|i: int|
                0 <= i < failed ==> describable(native, #[trigger] handles[i], device_id_size)
        }
}

/// A session with the native library: the API handle that initialisation
/// handed out.
#[derive(Debug)]
pub struct Igcl {
    api_handle: ApiHandle,
}

impl View for Igcl {
    type V = ApiHandle;

    closed spec fn view(&self) -> ApiHandle {
        self.api_handle
    }
}

impl Igcl {
    /// Builds the descriptor with which a session initialises the native
    /// library.
    pub fn init_args() -> (args: InitArgs)
        ensures
            args == init_args(),
    {
        let version: u32 = ctl_make_version(CTL_IMPL_MAJOR_VERSION, CTL_IMPL_MINOR_VERSION);
        InitArgs {
            version: 0,
            app_version: version,
            flags: 0,
            supported_version: version,
            application_uid: ApplicationId {
                data1: 0,
                data2: 0,
                data3: 0,
                data4: [0, 0, 0, 0, 0, 0, 0, 0],
            },
        }
    }

    /// Opens the session that an initialisation reply stands for: with the
    /// API handle of a successful reply, or not at all.
    pub fn from_reply(reply: InitReply) -> (out: Result<Igcl, Error>)
        ensures
            match out {
                Ok(session) => opened(reply) == Ok::<ApiHandle, Error>(session@),
                Err(error) => opened(reply) == Err::<ApiHandle, Error>(error),
            },
    {
        match Error::from_result(reply.result) {
            Ok(()) => Ok(Igcl { api_handle: reply.api_handle }),
            Err(error) => Err(error),
        }
    }

    /// Create a new instance of [`Igcl`]. This initialises the native
    /// library through `init` and keeps the API handle it returns.
    pub fn new<F: FnOnce(&InitArgs) -> InitReply>(init: F) -> (out: Result<Igcl, Error>)
        requires
            init.requires((&init_args(),)),
        ensures
            exists|reply: InitReply|
                {
                    &&& #[trigger] init.ensures((&init_args(),), reply)
                    &&& match out {
                        Ok(session) => opened(reply) == Ok::<ApiHandle, Error>(session@),
                        Err(error) => opened(reply) == Err::<ApiHandle, Error>(error),
                    }
                },
    {
        let reply = init(&Igcl::init_args());
        Igcl::from_reply(reply)
    }

    /// The API handle of the session.
    pub fn api_handle(&self) -> (handle: ApiHandle)
        ensures
            handle == self@,
    {
        self.api_handle
    }

    /// Asks the native layer which adapters there are: once for their
    /// number, with a count variable of zero and no buffer, and once for
    /// the handles, with a buffer of that many slots.
    pub fn adapter_handles<F: Fn(&EnumerateRequest) -> EnumerateReply>(&self, native: &F) -> (out:
        Result<Vec<AdapterHandle>, Error>)
        requires
            native.requires((&count_request(self@),)),
            forall|count: u32| #[trigger] native.requires((&fill_request(self@, count),)),
        ensures
            match out {
                Ok(handles) => lists(native, self@, Ok(handles@)),
                Err(error) => lists(native, self@, Err(error)),
            },
    {
        let first = native(&EnumerateRequest::count_query(self.api_handle));
        match Error::from_result(first.result) {
            Ok(()) => {},
            Err(error) => {
                proof {
                    assert(Err::<Seq<AdapterHandle>, Error>(error) == listing(first, first));
                }
                return Err(error);
            },
        }
        let second = native(&EnumerateRequest::fill_query(self.api_handle, first.count));
        match Error::from_result(second.result) {
            Ok(()) => {},
            Err(error) => {
                proof {
                    assert(Err::<Seq<AdapterHandle>, Error>(error) == listing(first, second));
                }
                return Err(error);
            },
        }
        let ghost reported = reported_adapters(second);
        let handles = second.into_adapters();
        proof {
            assert(Ok::<Seq<AdapterHandle>, Error>(reported) == listing(first, second));
        }
        Ok(handles)
    }

    /// Asks the native layer for the properties of one adapter and wraps
    /// them, with the handle and the device identifier, into a
    /// `DeviceAdapter`.
    pub fn describe_adapter<F: Fn(&PropertiesRequest) -> PropertiesReply>(
        adapter: AdapterHandle,
        device_id_size: u32,
        native: &F,
    ) -> (out: Result<DeviceAdapter, Error>)
        requires
            native.requires((&properties_request(adapter, device_id_size),)),
        ensures
            describes(native, adapter, device_id_size, out),
    {
        let reply = native(&PropertiesRequest::new(adapter, device_id_size));
        DeviceAdapter::from_reply(adapter, reply)
    }

    /// Enumerate all available physical devices, in the order in which the
    /// native layer reports them. `device_id_size` is the size of the
    /// device identifier on this platform, zero where there is none. The
    /// first failing call ends the enumeration with its error.
    pub fn enumerate_devices<
        E: Fn(&EnumerateRequest) -> EnumerateReply,
        P: Fn(&PropertiesRequest) -> PropertiesReply,
    >(&self, device_id_size: u32, enumerate: &E, properties: &P) -> (out: Result<
        Vec<DeviceAdapter>,
        Error,
    >)
        requires
            enumerate.requires((&count_request(self@),)),
            forall|count: u32| #[trigger] enumerate.requires((&fill_request(self@, count),)),
            forall|adapter: AdapterHandle| #[trigger]
                properties.requires((&properties_request(adapter, device_id_size),)),
        ensures
            match out {
                Ok(devices) => exists|handles: Seq<AdapterHandle>|
                    #[trigger] lists(enumerate, self@, Ok(handles)) && all_described(
                        properties,
                        handles,
                        device_id_size,
                        devices@,
                    ),
                Err(error) => lists(enumerate, self@, Err(error)) || exists|
                    handles: Seq<AdapterHandle>,
                |
                    #[trigger] lists(enumerate, self@, Ok(handles)) && fails_describing(
                        properties,
                        handles,
                        device_id_size,
                        error,
                    ),
            },
    {
        let handles = match self.adapter_handles(enumerate) {
            Ok(handles) => handles,
            Err(error) => {
                return Err(error);
            },
        };
        let mut devices: Vec<DeviceAdapter> = Vec::new();
        let mut next: usize = 0;
        while next < handles.len()
            invariant
                forall|adapter: AdapterHandle| #[trigger]
                    properties.requires((&properties_request(adapter, device_id_size),)),
                lists(enumerate, self@, Ok(handles@)),
                next <= handles@.len(),
                devices@.len() == next,
                forall|i: int|
                    0 <= i < next ==> describes(
                        properties,
                        #[trigger] handles@[i],
                        device_id_size,
                        Ok(devices@[i]),
                    ),
            decreases handles@.len() - next,
        {
            match Igcl::describe_adapter(handles[next], device_id_size, properties) {
                Ok(device) => {
                    devices.push(device);
                },
                Err(error) => {
                    proof {
                        let failed = next as int;
                        assert forall|i: int| 0 <= i < failed implies describable(
                            properties,
                            #[trigger] handles@[i],
                            device_id_size,
                        ) by {
                            assert(describes(
                                properties,
                                handles@[i],
                                device_id_size,
                                Ok(devices@[i]),
                            ));
                        }
                    }
                    return Err(error);
                },
            }
            next += 1;
        }
        Ok(devices)
    }

    /// Ends the session through `close`. A failure to close is returned,
    /// so that the caller can report it.
    pub fn close<F: FnOnce(ApiHandle) -> u32>(self, close: F) -> (out: Result<(), Error>)
        requires
            close.requires((self@,)),
        ensures
            exists|result: u32|
                #[trigger] close.ensures((self@,), result) && out == outcome_of(result),
    {
        let result: u32 = close(self.api_handle);
        Error::from_result(result)
    }
}

} // verus!
