//! The synthesis adapter around the engine's boundary call.
//!
//! The boundary call hands the engine a parameter record and a
//! null-terminated phonetic byte sequence, and receives back either a
//! buffer pointer with a byte count, or a null pointer with a numeric
//! failure code in the same output slot. The call itself is foreign
//! code; the embedding program performs it and reports its outcome as an
//! [`EngineReply`] of plain values. Everything around the call — padding
//! the input with its terminator, and turning the raw outcome into an
//! owned byte buffer or a typed error — is verified here.

use vstd::prelude::*;

use crate::error::AqtkError;
use crate::error::SynthError;
use crate::error::spec_error_of_code;
use crate::error::spec_synth_error_of_code;

verus! {

/// The raw outcome of one boundary call, as plain values.
pub enum EngineReply {
    /// The engine returned a buffer: `size` is the byte count it wrote
    /// into the output slot, and `data` holds the bytes copied out of
    /// the engine-owned buffer — exactly `size` of them.
    Audio { data: Vec<u8>, size: i32 },
    /// The engine returned null and wrote this failure code into the
    /// output slot instead of a byte count.
    Failure(i32),
}

impl EngineReply {
    /// A reply is well formed when a returned buffer really holds the
    /// number of bytes the engine reported: the boundary protocol says
    /// the caller copies exactly that many.
    pub open spec fn wf(self) -> bool {
        self matches EngineReply::Audio { data, size } ==> size >= 0 && data@.len() == size as int
    }
}

/// Namespace for the adapter's operations; it holds no state, since the
/// engine keeps all state of its own on the far side of the boundary.
pub struct AquesTalk;

impl AquesTalk {
    /// Pads a phonetic input string, taken as its raw bytes, with the
    /// single terminating zero byte the engine's calling convention
    /// demands. The input itself is opaque to this layer and is not
    /// validated or altered.
    pub fn null_terminated_koe(koe: &[u8]) -> (r: Vec<u8>)
        ensures
            r@ == koe@.push(0u8),
    {
        let mut out: Vec<u8> = Vec::new();
        let mut i: usize = 0;
        while i < koe.len()
            invariant
                i <= koe@.len(),
                out@ == koe@.subrange(0, i as int),
            decreases koe@.len() - i,
        {
            out.push(koe[i]);
            i = i + 1;
        }
        proof {
            assert(out@ =~= koe@);
        }
        out.push(0u8);
        proof {
            assert(out@ =~= koe@.push(0u8));
        }
        out
    }

    /// Interprets the raw outcome of the boundary call. A returned
    /// buffer is handed through as the owned audio bytes, exactly as
    /// many as the engine reported; a failure code is translated through
    /// the documented table, and a code outside the table yields the
    /// unrecognized-code error rather than anything undefined.
    pub fn interpret_reply(reply: EngineReply) -> (r: Result<Vec<u8>, SynthError>)
        requires
            reply.wf(),
        ensures
            r is Ok <==> reply is Audio,
            r matches Ok(b) ==> (reply matches EngineReply::Audio { data, size }
                && b@ == data@ && b@.len() == size as int),
            r matches Err(e) ==> (reply matches EngineReply::Failure(code)
                && e == spec_synth_error_of_code(code)),
    {
        match reply {
            EngineReply::Audio { data, size: _ } => Ok(data),
            EngineReply::Failure(code) => match AqtkError::try_from(code) {
                Ok(e) => Err(SynthError::Engine(e)),
                Err(()) => Err(SynthError::UnrecognizedCode(code)),
            },
        }
    }
}

/// A failure code outside the documented table yields the typed
/// unrecognized-code result carrying that very code — never an abort and
/// never a documented variant it does not stand for.
pub proof fn lemma_unmapped_code_is_unrecognized(code: i32)
    requires
        spec_error_of_code(code as int) is None,
    ensures
        spec_synth_error_of_code(code) == SynthError::UnrecognizedCode(code),
{
}

} // verus!
