//! What the answers of the graphics backend mean.
//!
//! The application makes the calls; the functions here take what came back
//! and decide between success and a failure with its message.

use vstd::prelude::*;
use vstd::utf8::{decode_utf8, valid_utf8};
use crate::backend::Command;

verus! {

/// The error flag of a backend on which nothing has gone wrong.
pub const NO_ERROR: u32 = 0;

/// The error flag for an enumeration value that the backend does not accept.
pub const INVALID_ENUM: u32 = 0x0500;

/// The error flag for an operation that the backend's state does not allow.
pub const INVALID_OPERATION: u32 = 0x0502;

/// The error flag of a backend that has run out of memory.
pub const OUT_OF_MEMORY: u32 = 0x0505;

/// The status that a successful compilation or link reports.
pub const STATUS_TRUE: i32 = 1;

/// The message for an error flag, or `None` for the flag that reports no error.
pub open spec fn fault_message(code: u32) -> Option<Seq<char>> {
    if code == NO_ERROR {
        None
    } else if code == INVALID_ENUM {
        Some("Invalid enum"@)
    } else if code == INVALID_OPERATION {
        Some("Invalid operation"@)
    } else if code == OUT_OF_MEMORY {
        Some("Out of memory"@)
    } else {
        Some("Unknown error"@)
    }
}

/// The message of a failed compilation whose log is `log`: the log itself
/// where it is text, and a fixed message where it is not.
pub open spec fn compile_failure(log: Seq<u8>) -> Seq<char> {
    if valid_utf8(log) {
        decode_utf8(log)
    } else {
        "Shader compile failed. Since the ShaderInfoLog is not valid utf8, the error log could not be retrived"@
    }
}

/// The message of a failed link whose log is `log`: the log itself where it
/// is text, and a fixed message where it is not.
pub open spec fn link_failure(log: Seq<u8>) -> Seq<char> {
    if valid_utf8(log) {
        decode_utf8(log)
    } else {
        "Program link failed. Since the ProgramInfoLog is not valid utf8, the error log could not be retrived"@
    }
}

/// What a result that carries a message says: its error's characters.
pub open spec fn message_of<T>(r: Result<T, String>) -> Option<Seq<char>> {
    match r {
        Ok(_) => None,
        Err(s) => Some(s@),
    }
}

/// The text that `bytes` encode, by `String::from_utf8`: the string made of
/// exactly these bytes where they are well-formed UTF-8, and nothing where
/// they are not.
#[verifier::external_body]
pub(crate) fn text_of(bytes: Vec<u8>) -> (text: Option<String>)
    ensures
        text is Some <==> valid_utf8(bytes@),
        text matches Some(s) ==> s@ == decode_utf8(bytes@),
{
    String::from_utf8(bytes).ok()
}

/// Reads the error flag that the backend reported after a call: no error, or
/// the fault that the flag names.
pub fn check_error(code: u32) -> (r: Result<(), String>)
    ensures
        message_of(r) == fault_message(code),
{
    if code == NO_ERROR {
        Ok(())
    } else if code == INVALID_ENUM {
        Err("Invalid enum".to_string())
    } else if code == INVALID_OPERATION {
        Err("Invalid operation".to_string())
    } else if code == OUT_OF_MEMORY {
        Err("Out of memory".to_string())
    } else {
        Err("Unknown error".to_string())
    }
}

/// Reads the outcome of compiling a shader: its name where the status
/// reports success, and else the message of [`compile_failure`].  `log` is
/// the backend's log without the zero byte that ends it.
pub fn compile_shader(shader: u32, status: i32, log: Vec<u8>) -> (r: Result<u32, String>)
    ensures
        status == STATUS_TRUE ==> r == Ok::<u32, String>(shader),
        status != STATUS_TRUE ==> message_of(r) == Some(compile_failure(log@)),
{
    if status != STATUS_TRUE {
        match text_of(log) {
            Some(s) => return Err(s),
            None => return Err(
                "Shader compile failed. Since the ShaderInfoLog is not valid utf8, the error log could not be retrived".to_string(),
            ),
        }
    }
    Ok(shader)
}

/// Reads the outcome of linking a program: its name where the status reports
/// success, and else the message of [`link_failure`].  `log` is the backend's
/// log without the zero byte that ends it.
pub fn link_program(program: u32, status: i32, log: Vec<u8>) -> (r: Result<u32, String>)
    ensures
        status == STATUS_TRUE ==> r == Ok::<u32, String>(program),
        status != STATUS_TRUE ==> message_of(r) == Some(link_failure(log@)),
{
    if status != STATUS_TRUE {
        match text_of(log) {
            Some(s) => return Err(s),
            None => return Err(
                "Program link failed. Since the ProgramInfoLog is not valid utf8, the error log could not be retrived".to_string(),
            ),
        }
    }
    Ok(program)
}

/// The call that takes shader `s` off `program` and deletes it.
pub fn remove_shader(program: u32, s: u32) -> (command: Command)
    ensures
        command == (Command::RemoveShader { program, shader: s }),
{
    Command::RemoveShader { program, shader: s }
}

/// The call that deletes `program`.
pub fn remove_program(program: u32) -> (command: Command)
    ensures
        command == (Command::RemoveProgram { program }),
{
    Command::RemoveProgram { program }
}

} // verus!
