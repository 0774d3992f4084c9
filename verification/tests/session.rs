use igcl::ctl_make_version;
use igcl::device_adapter::DeviceAdapter;
use igcl::error::{
    Error, CTL_RESULT_ERROR_DEVICE_LOST, CTL_RESULT_ERROR_INVALID_API_HANDLE,
    CTL_RESULT_ERROR_NOT_INITIALIZED, CTL_RESULT_ERROR_UNLOAD, CTL_RESULT_SUCCESS,
    CTL_RESULT_SUCCESS_STILL_OPEN_BY_ANOTHER_CALLER,
};
use igcl::native::{
    AdapterBdf, AdapterHandle, AdapterProperties, ApiHandle, ApplicationId, DeviceType,
    EnumerateReply, EnumerateRequest, InitArgs, InitReply, PropertiesReply, PropertiesRequest,
    CTL_IMPL_MAJOR_VERSION, CTL_IMPL_MINOR_VERSION,
};
use igcl::Igcl;
use std::cell::RefCell;

fn session(handle: usize) -> Igcl {
    Igcl::from_reply(InitReply { result: CTL_RESULT_SUCCESS, api_handle: ApiHandle(handle) })
        .unwrap()
}

fn name_field(name: &str) -> [i8; 100] {
    let mut field: [i8; 100] = [0; 100];
    for (slot, byte) in field.iter_mut().zip(name.bytes()) {
        *slot = byte as i8;
    }
    field
}

fn properties(
    name: &str,
    vendor: u32,
    device: u32,
    kind: DeviceType,
    bus: u8,
) -> AdapterProperties {
    AdapterProperties {
        name: name_field(name),
        pci_vendor_id: vendor,
        pci_device_id: device,
        pci_subsys_vendor_id: 0x1043,
        pci_subsys_id: 0x8888,
        adapter_bdf: AdapterBdf { bus, device: 0, function: 0 },
        device_type: kind,
    }
}

/// A native layer with a fixed set of adapters. It reports the true count
/// only where the count variable comes in as zero, and otherwise takes it as
/// an upper bound.
struct Machine {
    adapters: Vec<(AdapterHandle, AdapterProperties, Vec<u8>)>,
    enumerations: RefCell<Vec<EnumerateRequest>>,
    described: RefCell<Vec<PropertiesRequest>>,
}

impl Machine {
    fn new(adapters: Vec<(AdapterHandle, AdapterProperties, Vec<u8>)>) -> Machine {
        Machine {
            adapters,
            enumerations: RefCell::new(Vec::new()),
            described: RefCell::new(Vec::new()),
        }
    }

    fn two_adapters() -> Machine {
        Machine::new(vec![
            (
                AdapterHandle(0xa000),
                properties(
                    "Intel(R) Arc(TM) A770 Graphics",
                    0x8086,
                    0x56a0,
                    DeviceType::Graphics,
                    3,
                ),
                vec![1, 2, 3, 4, 5, 6, 7, 8],
            ),
            (
                AdapterHandle(0xb000),
                properties("Companion Controller", 0x1234, 0x0042, DeviceType::System, 7),
                vec![8, 7, 6, 5, 4, 3, 2, 1],
            ),
        ])
    }

    fn enumerate(&self, request: &EnumerateRequest) -> EnumerateReply {
        self.enumerations.borrow_mut().push(*request);
        let there: u32 = self.adapters.len() as u32;
        match request.buffer {
            None => EnumerateReply {
                result: CTL_RESULT_SUCCESS,
                count: if request.count == 0 { there } else { request.count.min(there) },
                adapters: Vec::new(),
            },
            Some(slots) => {
                let written: u32 = slots.min(request.count).min(there);
                EnumerateReply {
                    result: CTL_RESULT_SUCCESS,
                    count: written,
                    adapters: self.adapters.iter().take(written as usize).map(|a| a.0).collect(),
                }
            },
        }
    }

    fn describe(&self, request: &PropertiesRequest) -> PropertiesReply {
        self.described.borrow_mut().push(*request);
        for (handle, properties, device_id) in self.adapters.iter() {
            if *handle == request.adapter {
                let mut id: Vec<u8> = device_id.clone();
                id.truncate(request.device_id_size as usize);
                return PropertiesReply {
                    result: CTL_RESULT_SUCCESS,
                    properties: *properties,
                    device_id: id,
                };
            }
        }
        PropertiesReply {
            result: CTL_RESULT_ERROR_DEVICE_LOST,
            properties: properties("", 0, 0, DeviceType::Max, 0),
            device_id: Vec::new(),
        }
    }
}

#[test]
fn version_packs_major_above_minor() {
    assert_eq!(ctl_make_version(1, 1), 0x0001_0001);
    assert_eq!(ctl_make_version(1, 0), 0x0001_0000);
    assert_eq!(ctl_make_version(0, 0), 0);
    assert_eq!(ctl_make_version(2, 7), 0x0002_0007);
    assert_eq!(ctl_make_version(0xffff, 0xffff), 0xffff_ffff);
}

#[test]
fn version_keeps_only_sixteen_bits_of_each_part() {
    assert_eq!(ctl_make_version(0x1_2345, 0x6_789a), 0x2345_789a);
    assert_eq!(ctl_make_version(0x1_0000, 0x1_0000), 0);
    assert_eq!(ctl_make_version(u32::MAX, u32::MAX), 0xffff_ffff);
}

#[test]
fn init_descriptor() {
    assert_eq!(CTL_IMPL_MAJOR_VERSION, 1);
    assert_eq!(CTL_IMPL_MINOR_VERSION, 1);
    assert_eq!(
        Igcl::init_args(),
        InitArgs {
            version: 0,
            app_version: 0x0001_0001,
            flags: 0,
            supported_version: 0x0001_0001,
            application_uid: ApplicationId { data1: 0, data2: 0, data3: 0, data4: [0; 8] },
        }
    );
}

#[test]
fn new_session_keeps_the_api_handle() {
    let seen: RefCell<Vec<InitArgs>> = RefCell::new(Vec::new());
    let init = |args: &InitArgs| {
        seen.borrow_mut().push(*args);
        InitReply { result: CTL_RESULT_SUCCESS, api_handle: ApiHandle(0x5151) }
    };
    let session = Igcl::new(init).unwrap();
    assert_eq!(session.api_handle(), ApiHandle(0x5151));
    assert_eq!(*seen.borrow(), vec![Igcl::init_args()]);
}

#[test]
fn new_session_accepts_the_still_open_code() {
    let init = |_: &InitArgs| InitReply {
        result: CTL_RESULT_SUCCESS_STILL_OPEN_BY_ANOTHER_CALLER,
        api_handle: ApiHandle(7),
    };
    assert_eq!(Igcl::new(init).unwrap().api_handle(), ApiHandle(7));
}

#[test]
fn failed_initialisation_opens_no_session() {
    let init = |_: &InitArgs| InitReply {
        result: CTL_RESULT_ERROR_NOT_INITIALIZED,
        api_handle: ApiHandle(0x5151),
    };
    match Igcl::new(init) {
        Err(error) => assert_eq!(error, Error(CTL_RESULT_ERROR_NOT_INITIALIZED)),
        Ok(session) => panic!("no session expected, got {session:?}"),
    }
}

#[test]
fn enumeration_asks_for_the_count_with_zero_and_then_fills_exactly_that_many() {
    let machine = Machine::new(vec![
        (AdapterHandle(1), properties("one", 1, 1, DeviceType::Graphics, 1), Vec::new()),
        (AdapterHandle(2), properties("two", 2, 2, DeviceType::Graphics, 2), Vec::new()),
        (AdapterHandle(3), properties("three", 3, 3, DeviceType::Graphics, 3), Vec::new()),
    ]);
    let enumerate = |request: &EnumerateRequest| machine.enumerate(request);
    let handles = session(0x77).adapter_handles(&enumerate).unwrap();
    assert_eq!(handles, vec![AdapterHandle(1), AdapterHandle(2), AdapterHandle(3)]);
    assert_eq!(
        *machine.enumerations.borrow(),
        vec![
            EnumerateRequest { api_handle: ApiHandle(0x77), count: 0, buffer: None },
            EnumerateRequest { api_handle: ApiHandle(0x77), count: 3, buffer: Some(3) },
        ]
    );
}

#[test]
fn enumeration_requests() {
    assert_eq!(
        EnumerateRequest::count_query(ApiHandle(9)),
        EnumerateRequest { api_handle: ApiHandle(9), count: 0, buffer: None }
    );
    assert_eq!(
        EnumerateRequest::fill_query(ApiHandle(9), 3),
        EnumerateRequest { api_handle: ApiHandle(9), count: 3, buffer: Some(3) }
    );
    assert_eq!(
        PropertiesRequest::new(AdapterHandle(4), 8),
        PropertiesRequest { adapter: AdapterHandle(4), version: 0, device_id_size: 8 }
    );
}

#[test]
fn two_adapters_are_enumerated_in_native_order() {
    let machine = Machine::two_adapters();
    let enumerate = |request: &EnumerateRequest| machine.enumerate(request);
    let describe = |request: &PropertiesRequest| machine.describe(request);
    let init = |_: &InitArgs| InitReply { result: CTL_RESULT_SUCCESS, api_handle: ApiHandle(0x10) };
    let session = Igcl::new(init).unwrap();
    let devices = session.enumerate_devices(8, &enumerate, &describe).unwrap();
    assert_eq!(devices.len(), 2);

    assert_eq!(devices[0].device_adapter_handle(), AdapterHandle(0xa000));
    assert_eq!(devices[0].pci_vendor_id(), 0x8086);
    assert_eq!(devices[0].pci_device_id(), 0x56a0);
    assert_eq!(devices[0].pci_subsys_vendor_id(), 0x1043);
    assert_eq!(devices[0].pci_subsys_id(), 0x8888);
    assert_eq!(devices[0].device_type(), DeviceType::Graphics);
    assert_eq!(devices[0].bus_device_function(), (3, 0, 0));
    assert_eq!(devices[0].device_id(), [1u8, 2, 3, 4, 5, 6, 7, 8]);
    assert_eq!(devices[0].name(), b"Intel(R) Arc(TM) A770 Graphics");

    assert_eq!(devices[1].device_adapter_handle(), AdapterHandle(0xb000));
    assert_eq!(devices[1].pci_vendor_id(), 0x1234);
    assert_eq!(devices[1].pci_device_id(), 0x0042);
    assert_eq!(devices[1].device_type(), DeviceType::System);
    assert_eq!(devices[1].bus_device_function(), (7, 0, 0));
    assert_eq!(devices[1].device_id(), [8u8, 7, 6, 5, 4, 3, 2, 1]);
    assert_eq!(devices[1].name(), b"Companion Controller");

    let expected: Vec<DeviceAdapter> = machine
        .adapters
        .iter()
        .map(|(handle, properties, device_id)| DeviceAdapter {
            device_adapter_handle: *handle,
            adapter_properties: *properties,
            device_id: device_id.clone(),
        })
        .collect();
    assert_eq!(devices, expected);
    assert_eq!(
        *machine.described.borrow(),
        vec![
            PropertiesRequest { adapter: AdapterHandle(0xa000), version: 0, device_id_size: 8 },
            PropertiesRequest { adapter: AdapterHandle(0xb000), version: 0, device_id_size: 8 },
        ]
    );
}

#[test]
fn no_device_identifier_where_the_platform_has_none() {
    let machine = Machine::two_adapters();
    let enumerate = |request: &EnumerateRequest| machine.enumerate(request);
    let describe = |request: &PropertiesRequest| machine.describe(request);
    let devices = session(1).enumerate_devices(0, &enumerate, &describe).unwrap();
    assert_eq!(devices.len(), 2);
    assert!(devices.iter().all(|device| device.device_id().is_empty()));
}

#[test]
fn no_adapters_give_an_empty_list() {
    let machine = Machine::new(Vec::new());
    let enumerate = |request: &EnumerateRequest| machine.enumerate(request);
    let describe = |request: &PropertiesRequest| machine.describe(request);
    assert_eq!(session(1).enumerate_devices(8, &enumerate, &describe), Ok(Vec::new()));
    assert_eq!(machine.enumerations.borrow().len(), 2);
    assert!(machine.described.borrow().is_empty());
}

#[test]
fn failed_count_call_ends_the_enumeration() {
    let calls: RefCell<Vec<EnumerateRequest>> = RefCell::new(Vec::new());
    let enumerate = |request: &EnumerateRequest| {
        calls.borrow_mut().push(*request);
        EnumerateReply {
            result: CTL_RESULT_ERROR_INVALID_API_HANDLE,
            count: 5,
            adapters: Vec::new(),
        }
    };
    let describe = |_: &PropertiesRequest| -> PropertiesReply { panic!("no adapter to describe") };
    assert_eq!(
        session(1).enumerate_devices(8, &enumerate, &describe),
        Err(Error(CTL_RESULT_ERROR_INVALID_API_HANDLE))
    );
    assert_eq!(calls.borrow().len(), 1);
}

#[test]
fn failed_fill_call_ends_the_enumeration() {
    let calls: RefCell<Vec<EnumerateRequest>> = RefCell::new(Vec::new());
    let enumerate = |request: &EnumerateRequest| {
        calls.borrow_mut().push(*request);
        match request.buffer {
            None => EnumerateReply { result: CTL_RESULT_SUCCESS, count: 2, adapters: Vec::new() },
            Some(_) => EnumerateReply {
                result: CTL_RESULT_ERROR_DEVICE_LOST,
                count: 2,
                adapters: vec![AdapterHandle(1), AdapterHandle(2)],
            },
        }
    };
    let describe = |_: &PropertiesRequest| -> PropertiesReply { panic!("no adapter to describe") };
    assert_eq!(
        session(1).enumerate_devices(8, &enumerate, &describe),
        Err(Error(CTL_RESULT_ERROR_DEVICE_LOST))
    );
    assert_eq!(calls.borrow().len(), 2);
}

#[test]
fn failed_properties_call_ends_the_enumeration_at_that_adapter() {
    let machine = Machine::two_adapters();
    let enumerate = |request: &EnumerateRequest| EnumerateReply {
        result: CTL_RESULT_SUCCESS,
        count: 3,
        adapters: match request.buffer {
            None => Vec::new(),
            Some(_) => vec![AdapterHandle(0xa000), AdapterHandle(0xdead), AdapterHandle(0xb000)],
        },
    };
    let describe = |request: &PropertiesRequest| machine.describe(request);
    assert_eq!(
        session(1).enumerate_devices(8, &enumerate, &describe),
        Err(Error(CTL_RESULT_ERROR_DEVICE_LOST))
    );
    let asked: Vec<AdapterHandle> = machine.described.borrow().iter().map(|r| r.adapter).collect();
    assert_eq!(asked, vec![AdapterHandle(0xa000), AdapterHandle(0xdead)]);
}

#[test]
fn reported_adapters_follow_the_returned_count() {
    let buffer: Vec<AdapterHandle> = vec![AdapterHandle(1), AdapterHandle(2), AdapterHandle(3)];
    let reply = |count: u32| EnumerateReply {
        result: CTL_RESULT_SUCCESS,
        count,
        adapters: buffer.clone(),
    };
    assert_eq!(reply(0).into_adapters(), Vec::new());
    assert_eq!(reply(2).into_adapters(), vec![AdapterHandle(1), AdapterHandle(2)]);
    assert_eq!(reply(3).into_adapters(), buffer);
    assert_eq!(reply(4).into_adapters(), buffer);
    assert_eq!(reply(u32::MAX).into_adapters(), buffer);
}

#[test]
fn one_adapter_is_described_from_its_reply() {
    let described = properties("Arc", 0x8086, 0x56a1, DeviceType::Graphics, 1);
    let ok = PropertiesReply {
        result: CTL_RESULT_SUCCESS,
        properties: described,
        device_id: vec![9; 8],
    };
    assert_eq!(
        DeviceAdapter::from_reply(AdapterHandle(5), ok),
        Ok(DeviceAdapter {
            device_adapter_handle: AdapterHandle(5),
            adapter_properties: described,
            device_id: vec![9; 8],
        })
    );
    let failed = PropertiesReply {
        result: CTL_RESULT_ERROR_DEVICE_LOST,
        properties: described,
        device_id: vec![9; 8],
    };
    assert_eq!(
        DeviceAdapter::from_reply(AdapterHandle(5), failed),
        Err(Error(CTL_RESULT_ERROR_DEVICE_LOST))
    );
}

#[test]
fn close_hands_the_api_handle_to_the_native_layer() {
    let closed: RefCell<Vec<ApiHandle>> = RefCell::new(Vec::new());
    let close = |handle: ApiHandle| {
        closed.borrow_mut().push(handle);
        CTL_RESULT_SUCCESS
    };
    assert_eq!(session(0x99).close(close), Ok(()));
    assert_eq!(*closed.borrow(), vec![ApiHandle(0x99)]);
}

#[test]
fn failed_close_is_reported() {
    let close = |_: ApiHandle| CTL_RESULT_ERROR_UNLOAD;
    assert_eq!(session(0x99).close(close), Err(Error(CTL_RESULT_ERROR_UNLOAD)));
    assert_eq!(Error(CTL_RESULT_ERROR_UNLOAD).description(), "Library unload failure.");
}
