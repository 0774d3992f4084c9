//! One physical adapter, and the resolution of driver settings against it.
//!
//! The native library keeps driver settings per scope: globally, or for one
//! application. It does not fall back to a wider scope when the scope asked
//! about has no setting of its own. The query functions here do that by
//! hand: they ask at the scope the caller names and, only if that call
//! fails, once more at the global scope.

use crate::error::{is_success, Error};
use crate::feature::{
    decode_endurance_gaming, decode_flip_mode, decode_frame_limit, endurance_gaming_of,
    feature_query, flip_mode_outcome, frame_limit_of, FeatureError, FeatureKind, FeatureQuery,
    FeatureReply, FlipMode,
};
use crate::native::{AdapterHandle, AdapterProperties, DeviceType, PropertiesReply};
use crate::telemetry::{telemetry_outcome, TelemetryReply};
use vstd::prelude::*;
use vstd::slice::slice_subrange;

pub use crate::telemetry::{Telemetry, TelemetryItem, Unit, Value};

verus! {

/// The scope in which a driver setting is looked up.
#[derive(Clone, Copy, Debug, PartialEq, Eq)]
pub enum DriverSettingScope<'a> {
    /// The global settings.
    Global,
    /// The settings of the running process.
    CurrentProcess,
    /// The settings of one process, named with its file extension, as in
    /// `hl2.exe`.
    Process { process_name: &'a str },
}

impl<'a> DriverSettingScope<'a> {
    /// The application name that stands for this scope in a query. The
    /// global scope has the empty name; the current process has the name
    /// handed in as `current_process`.
    pub open spec fn name_of(self, current_process: Seq<char>) -> Seq<char> {
        match self {
            DriverSettingScope::Global => Seq::empty(),
            DriverSettingScope::CurrentProcess => current_process,
            DriverSettingScope::Process { process_name } => process_name@,
        }
    }

    /// The scope that encloses this one, if there is one.
    pub open spec fn wider(self) -> Option<Self> {
        match self {
            DriverSettingScope::Global => None,
            _ => Some(DriverSettingScope::Global),
        }
    }

    /// How many scopes enclose this one.
    pub open spec fn levels_above(self) -> nat {
        match self {
            DriverSettingScope::Global => 0,
            _ => 1,
        }
    }

    /// The application name that stands for this scope in a query.
    /// `current_process` is the file name of the running executable, empty
    /// where it could not be found out.
    pub fn name(&self, current_process: &str) -> (name: String)
        ensures
            name@ == self.name_of(current_process@),
    {
        match self {
            DriverSettingScope::Global => String::new(),
            DriverSettingScope::CurrentProcess => current_process.to_owned(),
            DriverSettingScope::Process { process_name } => (*process_name).to_owned(),
        }
    }

    /// Get the scope that encapsulates the current one (if any).
    pub fn fall_back_to_higher_scope(&self) -> (out: Option<Self>)
        ensures
            out == self.wider(),
    {
        match self {
            Self::Global => None,
            _ => Some(Self::Global),
        }
    }

    /// Decides how a resolution goes on after `reply` came back for this
    /// scope: it is settled by a success, and by a failure where no wider
    /// scope is left; otherwise the wider scope is asked next.
    pub fn after_reply(&self, reply: FeatureReply) -> (step: Step<'a>)
        ensures
            step == next_step(*self, reply),
    {
        match Error::from_result(reply.result) {
            Ok(()) => Step::Settled(Ok(reply)),
            Err(error) => match self.fall_back_to_higher_scope() {
                None => Step::Settled(Err(error)),
                Some(wider) => Step::Retry(wider),
            },
        }
    }
}

/// What a resolution does once a reply has come back.
#[derive(Debug, PartialEq, Eq)]
pub enum Step<'a> {
    /// The resolution is over, with this outcome.
    Settled(Result<FeatureReply, Error>),
    /// The call failed and there is a wider scope: ask again there.
    Retry(DriverSettingScope<'a>),
}

/// What a query settles to once no further scope is tried after `reply`.
pub open spec fn settled(reply: FeatureReply) -> Result<FeatureReply, Error> {
    if reply.succeeded() {
        Ok(reply)
    } else {
        Err(Error(reply.result))
    }
}

/// The step that follows the reply that came back for `scope`. A successful
/// reply settles the resolution with that reply. A failed one settles it
/// with its error if `scope` has no enclosing scope, and otherwise moves the
/// resolution on to the enclosing scope.
pub open spec fn next_step<'a>(scope: DriverSettingScope<'a>, reply: FeatureReply) -> Step<'a> {
    if reply.succeeded() {
        Step::Settled(Ok(reply))
    } else {
        match scope.wider() {
            None => Step::Settled(Err(Error(reply.result))),
            Some(wider) => Step::Retry(wider),
        }
    }
}

/// The outcome of resolving a setting from `scope`, where `first` is the
/// reply at `scope` itself and `second` the reply at the enclosing scope.
/// The second reply counts only where the first did not settle the
/// resolution.
pub open spec fn resolution(
    scope: DriverSettingScope<'_>,
    first: FeatureReply,
    second: FeatureReply,
) -> Result<FeatureReply, Error> {
    match next_step(scope, first) {
        Step::Settled(outcome) => outcome,
        Step::Retry(_) => settled(second),
    }
}

/// Whether `query` is one that resolving `kind` from `scope` may send: the
/// query at `scope` itself, or the one at the scope that encloses it.
pub open spec fn may_ask(
    kind: FeatureKind,
    scope: DriverSettingScope<'_>,
    current_process: Seq<char>,
    query: FeatureQuery,
) -> bool {
    ||| query@ == feature_query(kind, scope.name_of(current_process))
    ||| (scope.wider() matches Some(wider) && query@ == feature_query(
        kind,
        wider.name_of(current_process),
    ))
}

/// Whether the native layer accepts every query that resolving `kind` from
/// `scope` may send to `adapter`.
pub open spec fn admits<F: Fn(AdapterHandle, &FeatureQuery) -> FeatureReply>(
    native: &F,
    adapter: AdapterHandle,
    kind: FeatureKind,
    scope: DriverSettingScope<'_>,
    current_process: Seq<char>,
) -> bool {
    forall|query: FeatureQuery|
        may_ask(kind, scope, current_process, query) ==> #[trigger] native.requires(
            (adapter, &query),
        )
}

/// Whether `reply` is something the native layer may return when it is asked
/// for `kind` on `adapter` under the application name `name`.
pub open spec fn answers<F: Fn(AdapterHandle, &FeatureQuery) -> FeatureReply>(
    native: &F,
    adapter: AdapterHandle,
    kind: FeatureKind,
    name: Seq<char>,
    reply: FeatureReply,
) -> bool {
    exists|query: FeatureQuery|
        query@ == feature_query(kind, name) && #[trigger] native.ensures((adapter, &query), reply)
}

/// Whether `outcome` is what resolving `kind` from `scope` gives against the
/// native layer: the first call asks at `scope`, a second call is made only
/// where the first did not settle the matter and then asks at the enclosing
/// scope, and the outcome follows from the replies by `resolution`.
pub open spec fn resolves_to<F: Fn(AdapterHandle, &FeatureQuery) -> FeatureReply>(
    native: &F,
    adapter: AdapterHandle,
    kind: FeatureKind,
    scope: DriverSettingScope<'_>,
    current_process: Seq<char>,
    outcome: Result<FeatureReply, Error>,
) -> bool {
    exists|first: FeatureReply, second: FeatureReply|
        {
            &&& answers(native, adapter, kind, scope.name_of(current_process), first)
            &&& next_step(scope, first) matches Step::Retry(wider) ==> answers(
                native,
                adapter,
                kind,
                wider.name_of(current_process),
                second,
            )
            &&& outcome == #[trigger] resolution(scope, first, second)
        }
}

/// The adapter that a properties reply describes, or the error it reports.
pub open spec fn described(adapter: AdapterHandle, reply: PropertiesReply) -> Result<
    DeviceAdapter,
    Error,
> {
    if is_success(reply.result) {
        Ok(
            DeviceAdapter {
                device_adapter_handle: adapter,
                adapter_properties: reply.properties,
                device_id: reply.device_id,
            },
        )
    } else {
        Err(Error(reply.result))
    }
}

/// The byte that a C character stands for: the same eight bits, read as an
/// unsigned number.
pub open spec fn byte_of(character: i8) -> u8 {
    if character >= 0 {
        character as u8
    } else {
        (character + 0x100) as u8
    }
}

/// Whether a name field holds a terminated string, that is, a zero
/// somewhere.
pub open spec fn is_terminated(name: Seq<i8>) -> bool {
    exists|i: int| 0 <= i < name.len() && name[i] == 0
}

/// Reinterprets C characters as bytes, in place, through
/// `bytemuck::cast_slice`. Both element types are one byte wide and aligned
/// to one byte, so the cast keeps the length and cannot fail; each byte has
/// the bits of the character it came from.
#[verifier::external_body]
fn characters_as_bytes(characters: &[i8]) -> (bytes: &[u8])
    ensures
        bytes@.len() == characters@.len(),
        forall|i: int|
            0 <= i < characters@.len() ==> bytes@[i] == byte_of(#[trigger] characters@[i]),
{
    bytemuck::cast_slice(characters)
}

/// One physical adapter known to the native library.
#[derive(Clone, Debug, PartialEq, Eq)]
pub struct DeviceAdapter {
    /// The native reference to the adapter.
    pub device_adapter_handle: AdapterHandle,
    /// The properties the native library reported for the adapter.
    pub adapter_properties: AdapterProperties,
    /// The device identifier that the operating system assigned; on Windows
    /// the locally unique identifier of the adapter.
    pub device_id: Vec<u8>,
}

impl DeviceAdapter {
    /// Wraps what the native library reported for `adapter` into a
    /// `DeviceAdapter`, or hands on the error of the call.
    pub fn from_reply(adapter: AdapterHandle, reply: PropertiesReply) -> (out: Result<
        DeviceAdapter,
        Error,
    >)
        ensures
            out == described(adapter, reply),
    {
        match Error::from_result(reply.result) {
            Ok(()) => Ok(
                DeviceAdapter {
                    device_adapter_handle: adapter,
                    adapter_properties: reply.properties,
                    device_id: reply.device_id,
                },
            ),
            Err(error) => Err(error),
        }
    }

    /// The native reference to the adapter.
    pub fn device_adapter_handle(&self) -> (handle: AdapterHandle)
        ensures
            handle == self.device_adapter_handle,
    {
        self.device_adapter_handle
    }

    /// Retrieve the unique device identifier, determined by the operating system.
    /// On windows, this will be the LUID.
    pub fn device_id(&self) -> (id: &[u8])
        ensures
            id@ == self.device_id@,
    {
        self.device_id.as_slice()
    }

    /// Retrieve the PCI Bus ID, the PCI Device ID, and the PCI Device Function in that order.
    pub fn bus_device_function(&self) -> (bdf: (u8, u8, u8))
        ensures
            bdf == (
                self.adapter_properties.adapter_bdf.bus,
                self.adapter_properties.adapter_bdf.device,
                self.adapter_properties.adapter_bdf.function,
            ),
    {
        let bdf = self.adapter_properties.adapter_bdf;
        (bdf.bus, bdf.device, bdf.function)
    }

    /// The name of the adapter: the bytes of the name field before its first
    /// zero. The field has to hold a zero.
    pub fn name(&self) -> (name: &[u8])
        requires
            is_terminated(self.adapter_properties.name@),
        ensures
            name@.len() < self.adapter_properties.name@.len(),
            self.adapter_properties.name@[name@.len() as int] == 0,
            forall|i: int|
                0 <= i < name@.len() ==> self.adapter_properties.name@[i] != 0 && name@[i]
                    == byte_of(#[trigger] self.adapter_properties.name@[i]),
    {
        let characters: &[i8] = self.adapter_properties.name.as_slice();
        let bytes: &[u8] = characters_as_bytes(characters);
        let mut end: usize = 0;
        while bytes[end] != 0
            invariant
                bytes@.len() == characters@.len(),
                forall|i: int|
                    0 <= i < characters@.len() ==> bytes@[i] == byte_of(#[trigger] characters@[i]),
                exists|i: int| end <= i < characters@.len() && characters@[i] == 0,
                forall|i: int| 0 <= i < end ==> characters@[i] != 0,
            decreases bytes@.len() - end,
        {
            end += 1;
        }
        slice_subrange(bytes, 0, end)
    }

    /// The PCI vendor identifier.
    pub fn pci_vendor_id(&self) -> (id: u32)
        ensures
            id == self.adapter_properties.pci_vendor_id,
    {
        self.adapter_properties.pci_vendor_id
    }

    /// The PCI device identifier.
    pub fn pci_device_id(&self) -> (id: u32)
        ensures
            id == self.adapter_properties.pci_device_id,
    {
        self.adapter_properties.pci_device_id
    }

    /// The PCI subsystem vendor identifier.
    pub fn pci_subsys_vendor_id(&self) -> (id: u16)
        ensures
            id == self.adapter_properties.pci_subsys_vendor_id,
    {
        self.adapter_properties.pci_subsys_vendor_id
    }

    /// The PCI subsystem identifier.
    pub fn pci_subsys_id(&self) -> (id: u16)
        ensures
            id == self.adapter_properties.pci_subsys_id,
    {
        self.adapter_properties.pci_subsys_id
    }

    /// The kind of device behind the adapter.
    pub fn device_type(&self) -> (kind: DeviceType)
        ensures
            kind == self.adapter_properties.device_type,
    {
        self.adapter_properties.device_type
    }

    /// Attempt to query the endurance gaming driver setting for the specified scope.
    /// Falls back to a higher scope if the setting could not be found in the current one.
    /// The payload is handed on as the native library wrote it.
    pub fn feature_endurance_gaming<F: Fn(AdapterHandle, &FeatureQuery) -> FeatureReply>(
        &self,
        scope: DriverSettingScope<'_>,
        current_process: &str,
        native: &F,
    ) -> (out: Result<Vec<u8>, Error>)
        requires
            admits(
                native,
                self.device_adapter_handle,
                FeatureKind::EnduranceGaming,
                scope,
                current_process@,
            ),
        ensures
            exists|outcome: Result<FeatureReply, Error>|
                {
                    &&& #[trigger] resolves_to(
                        native,
                        self.device_adapter_handle,
                        FeatureKind::EnduranceGaming,
                        scope,
                        current_process@,
                        outcome,
                    )
                    &&& match out {
                        Ok(payload) => endurance_gaming_of(outcome) == Ok::<Seq<u8>, Error>(
                            payload@,
                        ),
                        Err(error) => endurance_gaming_of(outcome) == Err::<Seq<u8>, Error>(error),
                    }
                },
    {
        decode_endurance_gaming(
            self.query_feature(FeatureKind::EnduranceGaming, scope, current_process, native),
        )
    }

    /// Attempt to query the frame rate limit driver setting.
    /// Falls back to a higher scope if the setting could not be found in the current one.
    pub fn feature_frame_limit<F: Fn(AdapterHandle, &FeatureQuery) -> FeatureReply>(
        &self,
        scope: DriverSettingScope<'_>,
        current_process: &str,
        native: &F,
    ) -> (out: Result<i32, Error>)
        requires
            admits(
                native,
                self.device_adapter_handle,
                FeatureKind::FrameLimit,
                scope,
                current_process@,
            ),
        ensures
            exists|outcome: Result<FeatureReply, Error>|
                {
                    &&& #[trigger] resolves_to(
                        native,
                        self.device_adapter_handle,
                        FeatureKind::FrameLimit,
                        scope,
                        current_process@,
                        outcome,
                    )
                    &&& out == frame_limit_of(outcome)
                },
    {
        decode_frame_limit(
            self.query_feature(FeatureKind::FrameLimit, scope, current_process, native),
        )
    }

    /// Attempt to query the flip mode driver setting.
    /// Falls back to a higher scope if the setting could not be found in the current one.
    /// A value that is none of the defined flip mode bits is an error of its
    /// own kind, apart from a failed call.
    pub fn feature_flip_mode<F: Fn(AdapterHandle, &FeatureQuery) -> FeatureReply>(
        &self,
        scope: DriverSettingScope<'_>,
        current_process: &str,
        native: &F,
    ) -> (out: Result<FlipMode, FeatureError>)
        requires
            admits(
                native,
                self.device_adapter_handle,
                FeatureKind::GamingFlipModes,
                scope,
                current_process@,
            ),
        ensures
            exists|outcome: Result<FeatureReply, Error>|
                {
                    &&& #[trigger] resolves_to(
                        native,
                        self.device_adapter_handle,
                        FeatureKind::GamingFlipModes,
                        scope,
                        current_process@,
                        outcome,
                    )
                    &&& out == flip_mode_outcome(outcome)
                },
    {
        decode_flip_mode(
            self.query_feature(FeatureKind::GamingFlipModes, scope, current_process, native),
        )
    }

    /// Reads the power and thermal telemetry of the adapter and decodes
    /// every reading.
    pub fn power_telemetry<F: Fn(AdapterHandle) -> TelemetryReply>(&self, native: &F) -> (out:
        Result<Telemetry, Error>)
        requires
            native.requires((self.device_adapter_handle,)),
        ensures
            exists|reply: TelemetryReply|
                #[trigger] native.ensures((self.device_adapter_handle,), reply) && out
                    == telemetry_outcome(reply),
    {
        let reply = native(self.device_adapter_handle);
        reply.decode()
    }

    /// Queries the native layer for `kind`, starting at `scope` and falling
    /// back to the enclosing scope only where a call fails. The reply of the
    /// first successful call is returned as it came; where every call
    /// failed, the error of the last one is.
    pub fn query_feature<F: Fn(AdapterHandle, &FeatureQuery) -> FeatureReply>(
        &self,
        kind: FeatureKind,
        scope: DriverSettingScope<'_>,
        current_process: &str,
        native: &F,
    ) -> (out: Result<FeatureReply, Error>)
        requires
            admits(native, self.device_adapter_handle, kind, scope, current_process@),
        ensures
            resolves_to(native, self.device_adapter_handle, kind, scope, current_process@, out),
    {
        let mut current = scope;
        let ghost mut failed: Option<FeatureReply> = None;
        loop
            invariant
                admits(native, self.device_adapter_handle, kind, scope, current_process@),
                failed is None ==> current == scope,
                failed matches Some(first) ==> {
                    &&& answers(
                        native,
                        self.device_adapter_handle,
                        kind,
                        scope.name_of(current_process@),
                        first,
                    )
                    &&& next_step(scope, first) == Step::Retry(current)
                },
            decreases current.levels_above(),
        {
            let query = FeatureQuery::new(kind, current.name(current_process));
            let reply = native(self.device_adapter_handle, &query);
            let ghost first = if failed is Some { failed->0 } else { reply };
            match current.after_reply(reply) {
                Step::Settled(outcome) => {
                    proof {
                        assert(outcome == resolution(scope, first, reply));
                    }
                    return outcome;
                },
                Step::Retry(wider) => {
                    proof {
                        failed = Some(reply);
                    }
                    current = wider;
                },
            }
        }
    }
}

/// The global scope has no scope to fall back to; the current process and
/// every named process fall back to the global scope.
pub proof fn lemma_fall_back(name: &str)
    ensures
        DriverSettingScope::Global.wider() is None,
        DriverSettingScope::CurrentProcess.wider() == Some(DriverSettingScope::Global),
        (DriverSettingScope::Process { process_name: name }).wider() == Some(
            DriverSettingScope::Global,
        ),
{
}

/// A resolution visits at most two scopes: where the first reply moves it
/// on to a wider scope, the reply that comes back there settles it, whatever
/// that reply is.
pub proof fn lemma_at_most_two_scopes(
    scope: DriverSettingScope<'_>,
    first: FeatureReply,
    second: FeatureReply,
)
    ensures
        next_step(scope, first) matches Step::Retry(wider) ==> next_step(wider, second)
            == Step::Settled(settled(second)),
{
}

/// The narrowest scope wins: where the call at the scope asked about
/// succeeds, its reply is the outcome, whatever the enclosing scope would
/// have answered.
pub proof fn lemma_narrowest_scope_wins(
    scope: DriverSettingScope<'_>,
    first: FeatureReply,
    second: FeatureReply,
)
    requires
        first.succeeded(),
    ensures
        resolution(scope, first, second) == Ok::<FeatureReply, Error>(first),
{
}

/// Against a native layer that has one successful answer for the scope
/// asked about, a resolution gives that answer, whatever the layer would
/// answer for any other scope.
pub proof fn lemma_successful_scope_decides<F: Fn(AdapterHandle, &FeatureQuery) -> FeatureReply>(
    native: &F,
    adapter: AdapterHandle,
    kind: FeatureKind,
    scope: DriverSettingScope<'_>,
    current_process: Seq<char>,
    answer: FeatureReply,
    outcome: Result<FeatureReply, Error>,
)
    requires
        answer.succeeded(),
        forall|reply: FeatureReply| #[trigger]
            answers(native, adapter, kind, scope.name_of(current_process), reply) ==> reply
                == answer,
        resolves_to(native, adapter, kind, scope, current_process, outcome),
    ensures
        outcome == Ok::<FeatureReply, Error>(answer),
{
}

/// Against a native layer that fails for the scope asked about, a
/// resolution from below the global scope gives what the layer answers for
/// the global scope: that answer if it is a success, and its error if not.
pub proof fn lemma_failed_scope_defers_to_global<
    F: Fn(AdapterHandle, &FeatureQuery) -> FeatureReply,
>(
    native: &F,
    adapter: AdapterHandle,
    kind: FeatureKind,
    scope: DriverSettingScope<'_>,
    current_process: Seq<char>,
    global: FeatureReply,
    outcome: Result<FeatureReply, Error>,
)
    requires
        !(scope is Global),
        forall|reply: FeatureReply| #[trigger]
            answers(native, adapter, kind, scope.name_of(current_process), reply)
                ==> !reply.succeeded(),
        forall|reply: FeatureReply| #[trigger]
            answers(native, adapter, kind, Seq::empty(), reply) ==> reply == global,
        resolves_to(native, adapter, kind, scope, current_process, outcome),
    ensures
        outcome == settled(global),
{
}

/// Falling back happens only on failure: a resolution asks a wider scope
/// exactly if the call failed and the scope asked is not the global one. A
/// successful reply settles it at once, also where the value it carries is
/// zero.
pub proof fn lemma_fall_back_only_on_failure(scope: DriverSettingScope<'_>, reply: FeatureReply)
    ensures
        next_step(scope, reply) is Retry <==> !is_success(reply.result) && !(scope is Global),
        is_success(reply.result) ==> next_step(scope, reply) == Step::Settled(
            Ok::<FeatureReply, Error>(reply),
        ),
{
}

} // verus!
