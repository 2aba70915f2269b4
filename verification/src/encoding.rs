//! Stream-start capability decisions and the engine's error taxonomy.
//!
//! The engine emits into any of the host's integer and floating sample
//! encodings except the 64-bit integer ones; an unsupported encoding
//! is rejected once, at stream start, never per sample.  Device lookup
//! itself happens outside this core: the host layer maps its findings
//! onto [`EngineError`] and retries with another selection if it
//! wishes — the engine has no retry policy of its own.

use vstd::prelude::*;

verus! {

/// A sample encoding a host may demand for an output stream.
#[derive(Clone, Copy, Debug, PartialEq, Eq, Structural)]
pub enum SampleEncoding {
    /// Signed 8-bit integer samples.
    I8,
    /// Signed 16-bit integer samples.
    I16,
    /// Signed 32-bit integer samples.
    I32,
    /// Signed 64-bit integer samples.
    I64,
    /// Unsigned 8-bit integer samples.
    U8,
    /// Unsigned 16-bit integer samples.
    U16,
    /// Unsigned 32-bit integer samples.
    U32,
    /// Unsigned 64-bit integer samples.
    U64,
    /// 32-bit floating-point samples.
    F32,
    /// 64-bit floating-point samples.
    F64,
}

/// Whether the engine can emit into the encoding: every one the host
/// offers except the 64-bit integer formats.
pub open spec fn spec_encoding_supported(e: SampleEncoding) -> bool {
    !(e == SampleEncoding::I64 || e == SampleEncoding::U64)
}

/// Errors of the engine lifecycle, each surfaced once at stream start.
#[derive(Clone, Debug, PartialEq, Eq)]
pub enum EngineError {
    /// No output device of the requested name exists; recoverable by
    /// retrying with another selection.
    DeviceNotFound(String),
    /// The host offers no default output device.
    NoDefaultDevice,
    /// The host demanded a sample encoding the engine does not emit;
    /// fatal for that start attempt only.
    UnsupportedEncoding(SampleEncoding),
}

impl SampleEncoding {
    /// Whether the engine supports emitting into this encoding.
    pub fn supported(self) -> (r: bool)
        ensures
            r == spec_encoding_supported(self),
    {
        match self {
            SampleEncoding::I64 => false,
            SampleEncoding::U64 => false,
            _ => true,
        }
    }
}

/// The device-selection decision of stream start: the first listed
/// device bearing the requested name, or the recoverable error naming
/// the request when none does.  Enumerating the devices, like opening
/// one, is the host layer's work; it hands the names in and retries
/// with another selection if it wishes.
pub fn select_device(names: &Vec<String>, requested: &String) -> (r: Result<usize, EngineError>)
    ensures
        r matches Ok(i) ==> i < names@.len() && names@[i as int]@ == requested@ && (forall|j: int|
            0 <= j < i ==> #[trigger] names@[j]@ != requested@),
        r is Err ==> (forall|j: int| 0 <= j < names@.len() ==> #[trigger] names@[j]@ != requested@),
        r matches Err(e) ==> e matches EngineError::DeviceNotFound(n) && n@ == requested@,
{
    let mut i: usize = 0;
    while i < names.len()
        invariant
            i <= names@.len(),
            forall|j: int| 0 <= j < i ==> #[trigger] names@[j]@ != requested@,
        decreases names@.len() - i,
    {
        if names[i].eq(requested) {
            return Ok(i);
        }
        i = i + 1;
    }
    Err(EngineError::DeviceNotFound(requested.clone()))
}

/// The stream-start capability decision: exactly the supported
/// encodings are accepted, and a refusal names the encoding.
pub fn check_encoding(e: SampleEncoding) -> (r: Result<(), EngineError>)
    ensures
        r is Ok <==> spec_encoding_supported(e),
        !spec_encoding_supported(e) ==> r == Result::<(), EngineError>::Err(
            EngineError::UnsupportedEncoding(e),
        ),
{
    if e.supported() {
        Ok(())
    } else {
        Err(EngineError::UnsupportedEncoding(e))
    }
}

} // verus!
