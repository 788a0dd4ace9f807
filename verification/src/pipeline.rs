//! The decision logic of the GPU pipeline setup, and a model of what the
//! fixed fragment stage displays.
//!
//! The surface, shader and texture objects themselves live outside this
//! library; what is verified here is how their reported outcomes are turned
//! into this library's errors, and which colour each displayed pixel has
//! after the pipeline's permanent red/blue channel swap.

use vstd::prelude::*;

use crate::error::Error;
use crate::frame::BUFFER_SIZE;
use crate::frame::CHANNELS;

verus! {

/// The diagnostic text attached to a failed compile or link: the driver's
/// own log where it gave one, the fallback text where it stayed silent.
pub open spec fn diagnostic_text(log: Option<String>, fallback: Seq<char>) -> Seq<char> {
    match log {
        Some(l) => l@,
        None => fallback,
    }
}

/// Turn a shader stage's reported compile status and info log into this
/// library's outcome: success exactly when the driver reported a successful
/// compile, otherwise a `ShaderCompileError` carrying the driver's log.
pub fn compile_outcome(status: Option<bool>, log: Option<String>) -> (r: Result<(), Error>)
    ensures
        status == Some(true) <==> r is Ok,
        status != Some(true) ==> (r matches Err(Error::ShaderCompileError(m))
            && m@ == diagnostic_text(log, "Unknown error creating shader"@)),
{
    match status {
        Some(true) => Ok(()),
        _ => match log {
            Some(l) => Err(Error::ShaderCompileError(l)),
            None => Err(Error::ShaderCompileError("Unknown error creating shader".to_owned())),
        },
    }
}

/// Turn the program's reported link status and info log into this library's
/// outcome: success exactly when the driver reported a successful link,
/// otherwise a `ProgramLinkError` carrying the driver's log.
pub fn link_outcome(status: Option<bool>, log: Option<String>) -> (r: Result<(), Error>)
    ensures
        status == Some(true) <==> r is Ok,
        status != Some(true) ==> (r matches Err(Error::ProgramLinkError(m))
            && m@ == diagnostic_text(log, "Unknown error creating program object"@)),
{
    match status {
        Some(true) => Ok(()),
        _ => match log {
            Some(l) => Err(Error::ProgramLinkError(l)),
            None => Err(Error::ProgramLinkError("Unknown error creating program object".to_owned())),
        },
    }
}

/// Where the byte at index `i` of the displayed frame comes from in the
/// stored frame: the red and blue channels of each pixel trade places, green
/// and alpha stay.
pub open spec fn swapped_index(i: int) -> int {
    let c = i % (CHANNELS as int);
    if c == 0 {
        i + 2
    } else if c == 2 {
        i - 2
    } else {
        i
    }
}

/// The frame the fragment stage displays: the stored frame with the red and
/// blue channel of every pixel swapped. The swap is a deliberate, permanent
/// part of the pipeline's contract.
pub open spec fn swapped_frame(s: Seq<u8>) -> Seq<u8> {
    Seq::new(s.len(), |i: int| s[swapped_index(i)])
}

/// Compute the frame as the fixed fragment stage displays it: every pixel's
/// red and blue channels swapped, green and alpha untouched.
pub fn displayed_frame(data: &Vec<u8>) -> (shown: Vec<u8>)
    requires
        data@.len() == BUFFER_SIZE,
    ensures
        shown@ =~= swapped_frame(data@),
{
    let mut shown: Vec<u8> = Vec::new();
    let mut i: usize = 0;
    while i < BUFFER_SIZE
        invariant
            i <= BUFFER_SIZE,
            i % CHANNELS == 0,
            data@.len() == BUFFER_SIZE,
            shown@.len() == i,
            forall|j: int| 0 <= j < i ==> shown@[j] == data@[swapped_index(j)],
        decreases BUFFER_SIZE - i,
    {
        shown.push(data[i + 2]);
        shown.push(data[i + 1]);
        shown.push(data[i]);
        shown.push(data[i + 3]);
        i = i + 4;
    }
    shown
}

} // verus!
