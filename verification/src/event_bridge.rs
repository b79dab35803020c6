//! Script calls from the UI: each is matched against a fixed table of
//! operations, its argument is validated, and only then is the render state
//! written.

use crate::render_state::{RenderState, Snapshot, BLEND_MODE_COUNT};
use vstd::prelude::*;

verus! {

/// An argument of a script call. A float is carried as the bits of an
/// IEEE 754 double.
#[derive(Clone, Debug, PartialEq, Eq)]
pub enum ScriptValue {
    /// No value.
    Null,
    /// A boolean.
    Bool(bool),
    /// An integer.
    Int(i32),
    /// A double, as bits.
    Float(u64),
    /// A string.
    Text(String),
}

/// A call from the scripting environment: a name and positional arguments.
#[derive(Clone, Debug, PartialEq, Eq)]
pub struct ScriptEvent {
    /// Name of the operation.
    pub name: String,
    /// The arguments, in call order.
    pub args: Vec<ScriptValue>,
}

/// Why a recognized call was refused. A refused call writes nothing.
#[derive(Clone, Copy, Debug, PartialEq, Eq, Structural)]
pub enum EventArgumentError {
    /// The operation takes an argument and the call has none.
    MissingArgument,
    /// The argument is not of the type that the operation takes.
    ArgumentType,
    /// The index names no entry of the enumeration.
    OutOfRange,
}

/// How a call ended.
#[derive(Clone, Copy, Debug, PartialEq, Eq, Structural)]
pub enum DispatchOutcome {
    /// The call was carried out.
    Acknowledged,
    /// The name is not in the table; another handler may take the call.
    NoHandler,
    /// The name is in the table and the argument was refused.
    Rejected(EventArgumentError),
}

/// The operations that the bridge recognizes.
#[derive(Clone, Copy, Debug, PartialEq, Eq, Structural)]
pub enum Operation {
    /// `setBlending(index)`: choose the blend equation.
    SetBlending,
    /// `setSpeed(speed)`: set the camera animation speed.
    SetSpeed,
    /// `setRotationSpeed(..)`: acknowledged, nothing is written.
    SetRotationSpeed,
    /// `setColorSpeed(..)`: acknowledged, nothing is written.
    SetColorSpeed,
}

/// A validated write to the render state.
#[derive(Clone, Copy, Debug, PartialEq, Eq, Structural)]
pub enum Commit {
    /// Replace the blend index.
    BlendIndex(u8),
    /// Replace the camera speed.
    SpeedBits(u64),
    /// Write nothing.
    Nothing,
}

/// The table of names: a name is matched exactly, or not at all.
pub open spec fn operation_named(name: Seq<char>) -> Option<Operation> {
    if name == "setBlending"@ {
        Some(Operation::SetBlending)
    } else if name == "setSpeed"@ {
        Some(Operation::SetSpeed)
    } else if name == "setRotationSpeed"@ {
        Some(Operation::SetRotationSpeed)
    } else if name == "setColorSpeed"@ {
        Some(Operation::SetColorSpeed)
    } else {
        None
    }
}

/// The write that an operation makes for its arguments, or why it makes
/// none. Only the first argument is read. A blend index is an integer below
/// the number of blend modes; a speed is a float; no type is coerced into
/// another.
pub open spec fn validated(operation: Operation, args: Seq<ScriptValue>) -> Result<
    Commit,
    EventArgumentError,
> {
    match operation {
        Operation::SetBlending => if args.len() == 0 {
            Err(EventArgumentError::MissingArgument)
        } else {
            match args[0] {
                ScriptValue::Int(index) => if 0 <= index < BLEND_MODE_COUNT {
                    Ok(Commit::BlendIndex(index as u8))
                } else {
                    Err(EventArgumentError::OutOfRange)
                },
                _ => Err(EventArgumentError::ArgumentType),
            }
        },
        Operation::SetSpeed => if args.len() == 0 {
            Err(EventArgumentError::MissingArgument)
        } else {
            match args[0] {
                ScriptValue::Float(bits) => Ok(Commit::SpeedBits(bits)),
                _ => Err(EventArgumentError::ArgumentType),
            }
        },
        Operation::SetRotationSpeed => Ok(Commit::Nothing),
        Operation::SetColorSpeed => Ok(Commit::Nothing),
    }
}

/// The render state after a validated write.
pub open spec fn committed(before: Snapshot, commit: Commit) -> Snapshot {
    match commit {
        Commit::BlendIndex(index) => Snapshot { blend_index: index, ..before },
        Commit::SpeedBits(bits) => Snapshot { speed_bits: bits, ..before },
        Commit::Nothing => before,
    }
}

/// How the call `name(args)` ends.
pub open spec fn outcome_of(name: Seq<char>, args: Seq<ScriptValue>) -> DispatchOutcome {
    match operation_named(name) {
        None => DispatchOutcome::NoHandler,
        Some(operation) => match validated(operation, args) {
            Ok(_) => DispatchOutcome::Acknowledged,
            Err(error) => DispatchOutcome::Rejected(error),
        },
    }
}

/// The render state after the call `name(args)`.
pub open spec fn state_after(before: Snapshot, name: Seq<char>, args: Seq<ScriptValue>) -> Snapshot {
    match operation_named(name) {
        None => before,
        Some(operation) => match validated(operation, args) {
            Ok(commit) => committed(before, commit),
            Err(_) => before,
        },
    }
}

/// Whether two strings hold the same characters.
fn same_text(a: &str, b: &str) -> (same: bool)
    ensures
        same == (a@ == b@),
{
    let left: String = a.to_owned();
    let right: String = b.to_owned();
    left == right
}

/// Looks a name up in the table.
pub fn lookup(name: &str) -> (found: Option<Operation>)
    ensures
        found == operation_named(name@),
{
    if same_text(name, "setBlending") {
        Some(Operation::SetBlending)
    } else if same_text(name, "setSpeed") {
        Some(Operation::SetSpeed)
    } else if same_text(name, "setRotationSpeed") {
        Some(Operation::SetRotationSpeed)
    } else if same_text(name, "setColorSpeed") {
        Some(Operation::SetColorSpeed)
    } else {
        None
    }
}

/// Extracts and checks the argument of an operation.
pub fn validate(operation: Operation, args: &Vec<ScriptValue>) -> (checked: Result<
    Commit,
    EventArgumentError,
>)
    ensures
        checked == validated(operation, args@),
{
    match operation {
        Operation::SetBlending => {
            if args.len() == 0 {
                return Err(EventArgumentError::MissingArgument);
            }
            match &args[0] {
                ScriptValue::Int(index) => {
                    if 0 <= *index && *index < BLEND_MODE_COUNT as i32 {
                        Ok(Commit::BlendIndex(*index as u8))
                    } else {
                        Err(EventArgumentError::OutOfRange)
                    }
                },
                _ => Err(EventArgumentError::ArgumentType),
            }
        },
        Operation::SetSpeed => {
            if args.len() == 0 {
                return Err(EventArgumentError::MissingArgument);
            }
            match &args[0] {
                ScriptValue::Float(bits) => Ok(Commit::SpeedBits(*bits)),
                _ => Err(EventArgumentError::ArgumentType),
            }
        },
        Operation::SetRotationSpeed => Ok(Commit::Nothing),
        Operation::SetColorSpeed => Ok(Commit::Nothing),
    }
}

/// Writes a validated value into the render state.
pub fn commit(state: &mut RenderState, commit: Commit)
    ensures
        final(state)@ == committed(old(state)@, commit),
{
    match commit {
        Commit::BlendIndex(index) => state.set_blend_index(index),
        Commit::SpeedBits(bits) => state.set_speed_bits(bits),
        Commit::Nothing => {},
    }
}

/// Carries out one script call: looks the name up, validates the argument,
/// and writes the render state only if both succeeded.
pub fn dispatch(state: &mut RenderState, event: &ScriptEvent) -> (outcome: DispatchOutcome)
    ensures
        outcome == outcome_of(event.name@, event.args@),
        final(state)@ == state_after(old(state)@, event.name@, event.args@),
{
    match lookup(event.name.as_str()) {
        None => DispatchOutcome::NoHandler,
        Some(operation) => match validate(operation, &event.args) {
            Ok(validated) => {
                commit(state, validated);
                DispatchOutcome::Acknowledged
            },
            Err(error) => DispatchOutcome::Rejected(error),
        },
    }
}

/// Carries out a script call for a handler whose host may be gone: without
/// a host the call is routed on and nothing is written.
pub fn dispatch_if_bound(host_alive: bool, state: &mut RenderState, event: &ScriptEvent) -> (outcome:
    DispatchOutcome)
    ensures
        host_alive ==> outcome == outcome_of(event.name@, event.args@) && final(state)@
            == state_after(old(state)@, event.name@, event.args@),
        !host_alive ==> outcome == DispatchOutcome::NoHandler && final(state)@ == old(state)@,
{
    if host_alive {
        dispatch(state, event)
    } else {
        DispatchOutcome::NoHandler
    }
}

/// A name outside the table is routed on: the outcome is "no handler" and
/// the render state is what it was.
pub proof fn lemma_unrecognized_is_routed(
    before: Snapshot,
    name: Seq<char>,
    args: Seq<ScriptValue>,
)
    requires
        operation_named(name) is None,
    ensures
        outcome_of(name, args) == DispatchOutcome::NoHandler,
        state_after(before, name, args) == before,
{
}

/// A blend index outside the enumeration is refused as out of range, and
/// the blend index read back afterwards is the one before the call.
pub proof fn lemma_blend_out_of_range_is_rejected(
    before: Snapshot,
    index: i32,
    args: Seq<ScriptValue>,
)
    requires
        args.len() > 0,
        args[0] == ScriptValue::Int(index),
        !(0 <= index < BLEND_MODE_COUNT),
    ensures
        outcome_of("setBlending"@, args) == DispatchOutcome::Rejected(
            EventArgumentError::OutOfRange,
        ),
        state_after(before, "setBlending"@, args) == before,
{
}

/// Writes are all or nothing: a call that is not acknowledged leaves the
/// render state as it was, and an acknowledged call leaves a valid blend
/// index valid.
pub proof fn lemma_only_valid_calls_write(
    before: Snapshot,
    name: Seq<char>,
    args: Seq<ScriptValue>,
)
    ensures
        outcome_of(name, args) != DispatchOutcome::Acknowledged ==> state_after(before, name, args)
            == before,
        before.blend_index < BLEND_MODE_COUNT ==> state_after(before, name, args).blend_index
            < BLEND_MODE_COUNT,
{
}

} // verus!
