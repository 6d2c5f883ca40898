//! Host side of the guest protocol: the host capability table, module
//! parsing, import resolution and the runtime state that guest calls act on.
use vstd::prelude::*;
use crate::battery_indicator::{LedColor, LedWrite};
use vstd::string::StringSliceAdditionalSpecFns;

verus! {

#[verifier::external_type_specification]
#[verifier::external_body]
pub struct ExInterpreterError(wasmi::Error);

#[verifier::external_type_specification]
#[verifier::external_body]
pub struct ExFuncRef(wasmi::FuncRef);

#[verifier::external_type_specification]
#[verifier::external_body]
pub struct ExSignature(wasmi::Signature);

#[verifier::external_type_specification]
#[verifier::external_body]
pub struct ExModule(wasmi::Module);

/// Sensor identifier under which the simulated battery level is reported.
pub const SENSOR_BATTERY: i32 = 20;

/// Largest frame number; the frame after it is 0.
pub const FRAME_BOUND: i32 = 1_000_000_000;

/// Battery level at start, and the level after an empty battery.
pub const FULL_BATTERY: i32 = 100;

/// Dispatch index of the `set_led` host capability.
pub const SET_LED_INDEX: usize = 0;

/// Namespace under which guests import the host capabilities.
pub const HOST_NAMESPACE: &'static str = "env";

/// Errors of the host runtime.
pub enum RuntimeError {
    /// The execution engine refused a module or failed a call.
    Interpreter(wasmi::Error),
}

impl From<wasmi::Error> for RuntimeError {
    fn from(e: wasmi::Error) -> (r: Self) {
        RuntimeError::Interpreter(e)
    }
}

impl vstd::std_specs::convert::FromSpecImpl<wasmi::Error> for RuntimeError {
    open spec fn obeys_from_spec() -> bool {
        true
    }

    open spec fn from_spec(e: wasmi::Error) -> Self {
        RuntimeError::Interpreter(e)
    }
}

/// Failure to bind a module's import against the host capability table.
#[derive(PartialEq, Eq, Debug)]
pub enum LinkError {
    /// No capability of this name is offered by the host.
    MissingCapability(String),
}

/// Value types of the guest calling convention.
#[derive(PartialEq, Eq, Structural, Debug, Clone, Copy)]
pub enum ParamType {
    I32,
    I64,
    F32,
    F64,
}

/// A host capability: its argument and result types and its dispatch index.
pub struct CapabilityDescriptor {
    pub params: Vec<ParamType>,
    pub result: Option<ParamType>,
    pub index: usize,
}

/// The bytes of the name `set_led`.
pub open spec fn set_led_name() -> Seq<u8> {
    seq![115u8, 101u8, 116u8, 95u8, 108u8, 101u8, 100u8]
}

/// The capability table: the name `set_led` resolves to its dispatch index,
/// and no other name resolves.
pub open spec fn capability_index(name: Seq<u8>) -> Option<usize> {
    if name == set_led_name() {
        Some(SET_LED_INDEX)
    } else {
        None
    }
}

/// `set_led(led_index: i32, red: i32, green: i32, blue: i32)`, no result.
pub fn set_led_descriptor() -> (r: CapabilityDescriptor)
    ensures
        r.params@ == seq![ParamType::I32, ParamType::I32, ParamType::I32, ParamType::I32],
        r.result.is_none(),
        r.index == SET_LED_INDEX,
{
    let params: Vec<ParamType> = vec![ParamType::I32, ParamType::I32, ParamType::I32, ParamType::I32];
    CapabilityDescriptor { params, result: None, index: SET_LED_INDEX }
}

/// Whether the UTF-8 bytes of `name` are exactly `expected`.
pub fn name_is(name: &str, expected: &[u8]) -> (r: bool)
    ensures
        r == (name.spec_bytes() == expected@),
{
    let b = name.as_bytes();
    if b.len() != expected.len() {
        return false;
    }
    let mut i: usize = 0;
    while i < b.len()
        invariant
            b@ == name.spec_bytes(),
            b@.len() == expected@.len(),
            i <= b@.len(),
            forall|j: int| 0 <= j < i ==> b@[j] == expected@[j],
        decreases b@.len() - i,
    {
        if b[i] != expected[i] {
            return false;
        }
        i = i + 1;
    }
    assert(b@ =~= expected@);
    true
}

/// Looks up an import name in the capability table, yielding its dispatch
/// index, or a link error naming the capability that the host lacks.
pub fn resolve_import(field_name: &str) -> (r: Result<usize, LinkError>)
    ensures
        match capability_index(field_name.spec_bytes()) {
            Some(i) => r == Ok::<usize, LinkError>(i),
            None => r matches Err(LinkError::MissingCapability(n)) && n@ == field_name@,
        },
{
    let expected: [u8; 7] = [115u8, 101u8, 116u8, 95u8, 108u8, 101u8, 100u8];
    assert(expected@ =~= set_led_name());
    if name_is(field_name, &expected) {
        Ok(SET_LED_INDEX)
    } else {
        Err(LinkError::MissingCapability(field_name.to_owned()))
    }
}

/// Relies on wasmi::Signature::new: builds the engine's signature from the
/// given parameter and result types.
#[verifier::external_body]
fn engine_signature(params: &Vec<ParamType>, result: Option<ParamType>) -> (r: wasmi::Signature) {
    let to_engine = |t: &ParamType| match t {
        ParamType::I32 => wasmi::ValueType::I32,
        ParamType::I64 => wasmi::ValueType::I64,
        ParamType::F32 => wasmi::ValueType::F32,
        ParamType::F64 => wasmi::ValueType::F64,
    };
    let engine_params: Vec<wasmi::ValueType> = params.iter().map(to_engine).collect();
    wasmi::Signature::new(engine_params, result.as_ref().map(to_engine))
}

/// Relies on wasmi::FuncInstance::alloc_host: a host function that the
/// engine dispatches to the embedder under `index`.
#[verifier::external_body]
fn alloc_host(signature: wasmi::Signature, index: usize) -> (r: wasmi::FuncRef) {
    wasmi::FuncInstance::alloc_host(signature, index)
}

/// Relies on wasmi::Error::Function: the engine's error for an import that
/// the host does not export.
#[verifier::external_body]
fn missing_export_error(field_name: &str) -> (r: wasmi::Error) {
    wasmi::Error::Function(format!("host module doesn't export function with name {}", field_name))
}

/// Resolves a guest import for the engine: a host function bound to the
/// capability's dispatch index, or an error for a name the host lacks.
pub fn resolve_func(field_name: &str) -> (r: Result<wasmi::FuncRef, wasmi::Error>)
    ensures
        r.is_ok() <==> capability_index(field_name.spec_bytes()).is_some(),
{
    match resolve_import(field_name) {
        Ok(index) => {
            let d = set_led_descriptor();
            Ok(alloc_host(engine_signature(&d.params, d.result), index))
        },
        Err(_) => Err(missing_export_error(field_name)),
    }
}

/// Whether the engine accepts these bytes as a well-formed module.
pub uninterp spec fn is_valid_module(bytes: Seq<u8>) -> bool;

/// Relies on wasmi::Module::from_buffer: parses and validates a module; the
/// outcome depends on the bytes alone.
#[verifier::external_body]
fn module_from_buffer(bytes: &[u8]) -> (r: Result<wasmi::Module, wasmi::Error>)
    ensures
        r.is_ok() == is_valid_module(bytes@),
{
    wasmi::Module::from_buffer(bytes)
}

/// Parses and validates module bytes, keeping the engine's error.
pub fn load_module(bytes: &[u8]) -> (r: Result<wasmi::Module, RuntimeError>)
    ensures
        r.is_ok() == is_valid_module(bytes@),
        r.is_err() ==> r matches Err(RuntimeError::Interpreter(_)),
{
    match module_from_buffer(bytes) {
        Ok(m) => Ok(m),
        Err(e) => Err(RuntimeError::from(e)),
    }
}

/// The frame after `f`: counts up and wraps to 0 after `FRAME_BOUND`.
pub open spec fn next_frame(f: int) -> int {
    (f + 1) % (FRAME_BOUND + 1)
}

/// The battery level after `b`: one less, and full again after empty.
pub open spec fn next_battery(b: int) -> int {
    if b - 1 >= 0 {
        b - 1
    } else {
        FULL_BATTERY as int
    }
}

/// Host state that guests act on: the frame counter, the simulated battery
/// level, and the LED writes issued by guests and not yet shown.
pub struct Runtime {
    pub frame: i32,
    pub remaining_battery: i32,
    pub pending: Vec<LedWrite>,
}

impl Runtime {
    pub open spec fn wf(&self) -> bool {
        0 <= self.frame <= FRAME_BOUND && 0 <= self.remaining_battery <= FULL_BATTERY
    }

    /// LED writes dispatched by guests and not yet taken.
    pub open spec fn pending_writes(&self) -> Seq<LedWrite> {
        self.pending@
    }

    /// Frame 0, a full battery, nothing pending.
    pub fn new() -> (r: Runtime)
        ensures
            r.wf(),
            r.frame == 0,
            r.remaining_battery == FULL_BATTERY,
            r.pending_writes().len() == 0,
    {
        Runtime { frame: 0, remaining_battery: FULL_BATTERY, pending: Vec::new() }
    }

    /// Dispatches the host call `index` with its arguments; `set_led` records
    /// one LED write.
    pub fn invoke_index(&mut self, index: usize, args: &Vec<i32>)
        requires
            index == SET_LED_INDEX,
            args@.len() == 4,
        ensures
            final(self).frame == old(self).frame,
            final(self).remaining_battery == old(self).remaining_battery,
            final(self).pending_writes() == old(self).pending_writes().push(
                LedWrite { index: args@[0], color: LedColor(args@[1], args@[2], args@[3]) },
            ),
    {
        self.set_led(args[0], args[1], args[2], args[3]);
    }

    /// Records a write of one LED's colour.
    pub fn set_led(&mut self, idx: i32, red: i32, green: i32, blue: i32)
        ensures
            final(self).frame == old(self).frame,
            final(self).remaining_battery == old(self).remaining_battery,
            final(self).pending_writes() == old(self).pending_writes().push(
                LedWrite { index: idx, color: LedColor(red, green, blue) },
            ),
    {
        self.pending.push(LedWrite { index: idx, color: LedColor(red, green, blue) });
    }

    /// Dispatches a guest's `set_led` calls, in order, each through the
    /// dispatch index: exactly these writes become pending, in this order.
    pub fn dispatch_all(&mut self, calls: &Vec<LedWrite>)
        ensures
            final(self).frame == old(self).frame,
            final(self).remaining_battery == old(self).remaining_battery,
            final(self).pending_writes() == old(self).pending_writes() + calls@,
    {
        let mut i: usize = 0;
        while i < calls.len()
            invariant
                i <= calls@.len(),
                self.frame == old(self).frame,
                self.remaining_battery == old(self).remaining_battery,
                self.pending_writes() == old(self).pending_writes() + calls@.subrange(0, i as int),
            decreases calls@.len() - i,
        {
            let w = calls[i];
            let args: Vec<i32> = vec![w.index, w.color.0, w.color.1, w.color.2];
            self.invoke_index(SET_LED_INDEX, &args);
            i = i + 1;
            assert(self.pending_writes() =~= old(self).pending_writes() + calls@.subrange(0, i as int));
        }
        assert(calls@.subrange(0, i as int) =~= calls@);
    }

    /// Hands out the pending LED writes, in the order they were dispatched.
    pub fn take_pending(&mut self) -> (r: Vec<LedWrite>)
        ensures
            r@ == old(self).pending_writes(),
            final(self).pending_writes().len() == 0,
            final(self).frame == old(self).frame,
            final(self).remaining_battery == old(self).remaining_battery,
    {
        let mut out: Vec<LedWrite> = Vec::new();
        std::mem::swap(&mut out, &mut self.pending);
        out
    }

    /// Drains the battery by one percent, refilling it after empty.
    pub fn reduce_battery(&mut self)
        requires
            old(self).wf(),
        ensures
            final(self).wf(),
            final(self).remaining_battery == next_battery(old(self).remaining_battery as int),
            final(self).frame == old(self).frame,
            final(self).pending_writes() == old(self).pending_writes(),
    {
        self.remaining_battery = self.remaining_battery - 1;
        if self.remaining_battery < 0 {
            self.remaining_battery = FULL_BATTERY;
        }
    }

    /// Moves to the next frame, wrapping to 0 after `FRAME_BOUND`.
    pub fn advance_frame(&mut self)
        requires
            old(self).wf(),
        ensures
            final(self).wf(),
            final(self).frame == next_frame(old(self).frame as int),
            final(self).remaining_battery == old(self).remaining_battery,
            final(self).pending_writes() == old(self).pending_writes(),
    {
        self.frame = self.frame + 1;
        if self.frame > FRAME_BOUND {
            self.frame = 0;
        }
    }
}

} // verus!
