//! Routing of remote calls: for each call, the display instructions to
//! perform and the reply to send.
//!
//! Nothing here touches the panel. The caller performs the instructions of a
//! [`Decision`] in order, under exclusive access to the panel, and then sends
//! the reply that [`Decision::conclude`] gives. A call that is refused
//! carries no instructions, so a rejected request never reaches the bus.

use crate::error::{
    decode_wire, internal_wire, validation_wire, DecodeFailure, Error, WriteError,
};
use crate::request::{findings, Msg};
use vstd::prelude::*;

verus! {

/// Name of the remote method that writes text.
pub const WRITE_METHOD: &'static str = "write";

/// Name of the remote method that blanks the panel.
pub const CLEAR_METHOD: &'static str = "clear";

/// Name of the remote method that resets the panel.
pub const RESET_METHOD: &'static str = "reset";

/// Reply to a call that was carried out.
pub const SUCCESS: &'static str = "success";

/// What the panel shows besides its characters.
#[derive(Clone, Copy, Debug, PartialEq, Eq, Structural)]
pub struct DisplayMode {
    pub display: bool,
    pub cursor_visible: bool,
    pub cursor_blink: bool,
}

/// One operation of the display driver.
#[derive(Debug, PartialEq, Eq)]
pub enum Instruction {
    /// Undo any shift of the display and move the cursor home. Text and mode
    /// stay as they are.
    Reset,
    /// Blank every character and move the cursor home.
    Clear,
    /// Switch display, cursor and blinking on or off.
    SetDisplayMode { mode: DisplayMode },
    /// Move the cursor to a linear offset.
    SetCursor { position: u8 },
    /// Write characters from the cursor onwards.
    WriteText { text: String },
}

/// What to do for one remote call: the instructions to perform, in order,
/// and the reply to send afterwards.
#[derive(Debug, PartialEq, Eq)]
pub struct Decision {
    pub instructions: Vec<Instruction>,
    pub reply: Result<&'static str, Error>,
}

/// The mode the panel is put in at start-up: display on, cursor hidden and
/// steady.
pub open spec fn startup_mode() -> DisplayMode {
    DisplayMode { display: true, cursor_visible: false, cursor_blink: false }
}

/// The instructions that bring the panel into its known initial state: at
/// start-up, and again on every reset.
pub open spec fn startup_instructions() -> Seq<Instruction> {
    seq![
        Instruction::Reset,
        Instruction::Clear,
        Instruction::SetDisplayMode { mode: startup_mode() },
    ]
}

/// The instructions that carry out a valid write request.
pub open spec fn write_instructions(msg: Msg) -> Seq<Instruction> {
    seq![
        Instruction::SetCursor { position: msg.position },
        Instruction::WriteText { text: msg.string },
    ]
}

/// The instructions to perform once, before any call is served.
pub fn startup() -> (instructions: Vec<Instruction>)
    ensures
        instructions@ == startup_instructions(),
{
    let mode = DisplayMode { display: true, cursor_visible: false, cursor_blink: false };
    let mut instructions: Vec<Instruction> = Vec::new();
    instructions.push(Instruction::Reset);
    instructions.push(Instruction::Clear);
    instructions.push(Instruction::SetDisplayMode { mode });
    instructions
}

/// Checks the outcome of decoding a write call's parameters: the request
/// itself where it decoded and is valid, else why it is refused.
pub fn check_write(params: Result<Msg, DecodeFailure>) -> (r: Result<Msg, WriteError>)
    ensures
        match params {
            Err(failure) => r == Err::<Msg, WriteError>(WriteError::MissingParams { e: failure }),
            Ok(msg) => if msg.valid() {
                r == Ok::<Msg, WriteError>(msg)
            } else {
                r matches Err(WriteError::Invalid { e }) && e@ == findings(
                    msg.position as int,
                    msg.string@,
                )
            },
        },
{
    match params {
        Err(failure) => Err(WriteError::MissingParams { e: failure }),
        Ok(msg) => match msg.validate() {
            Ok(()) => Ok(msg),
            Err(e) => Err(WriteError::Invalid { e }),
        },
    }
}

/// Handles a `write` call, given the outcome of decoding its parameters.
///
/// A valid request moves the cursor and writes the text, and is answered
/// with success. Undecodable parameters and invalid requests are answered
/// with their wire error and perform nothing.
pub fn handle_write(params: Result<Msg, DecodeFailure>) -> (d: Decision)
    ensures
        d.reply is Ok <==> (params matches Ok(msg) && msg.valid()),
        d.reply is Err ==> d.instructions@.len() == 0,
        match params {
            Err(failure) => {
                &&& d.instructions@.len() == 0
                &&& d.reply matches Err(wire)
                &&& wire@ == decode_wire(failure.message@)
            },
            Ok(msg) => if msg.valid() {
                &&& d.instructions@ == write_instructions(msg)
                &&& d.reply == Ok::<&'static str, Error>(SUCCESS)
            } else {
                &&& d.instructions@.len() == 0
                &&& d.reply matches Err(wire)
                &&& wire@ == validation_wire(findings(msg.position as int, msg.string@))
            },
        },
{
    match check_write(params) {
        Ok(msg) => {
            let mut instructions: Vec<Instruction> = Vec::new();
            instructions.push(Instruction::SetCursor { position: msg.position });
            instructions.push(Instruction::WriteText { text: msg.string });
            Decision { instructions, reply: Ok(SUCCESS) }
        },
        Err(refusal) => Decision { instructions: Vec::new(), reply: Err(Error::from(refusal)) },
    }
}

/// Handles a `clear` call: blanks the panel, and always answers success.
pub fn handle_clear() -> (d: Decision)
    ensures
        d.instructions@ == seq![Instruction::Clear],
        d.reply == Ok::<&'static str, Error>(SUCCESS),
{
    let mut instructions: Vec<Instruction> = Vec::new();
    instructions.push(Instruction::Clear);
    Decision { instructions, reply: Ok(SUCCESS) }
}

/// Handles a `reset` call: brings the panel back into the state it was
/// started in by issuing the start-up instructions again, and always answers
/// success. No line is claimed anew; the instructions go to the panel that is
/// already open.
pub fn handle_reset() -> (d: Decision)
    ensures
        d.instructions@ == startup_instructions(),
        d.reply == Ok::<&'static str, Error>(SUCCESS),
{
    Decision { instructions: startup(), reply: Ok(SUCCESS) }
}

impl Decision {
    /// The reply to send once the instructions were attempted. `fault` is the
    /// debug rendering of the fault that stopped them, if one did: the call
    /// is then answered with an internal error that carries it. Without a
    /// fault the decided reply stands.
    pub fn conclude(self, fault: Option<String>) -> (reply: Result<&'static str, Error>)
        ensures
            match fault {
                None => reply == self.reply,
                Some(text) => reply matches Err(wire) && wire@ == internal_wire(text@),
            },
    {
        match fault {
            None => self.reply,
            Some(text) => Err(Error::from(WriteError::Internal { e: text })),
        }
    }
}

} // verus!
