//! Line terminators appended to text that is sent to the device.

use vstd::prelude::*;

verus! {

/// The terminator appended to a line of text before it is sent.
#[derive(Debug, Clone, Copy, PartialEq, Eq, Structural)]
pub enum LineEnding {
    LF,
    CR,
    CRLF,
}

const LF_BYTES: [u8; 1] = [0x0Au8];

const CR_BYTES: [u8; 1] = [0x0Du8];

const CRLF_BYTES: [u8; 2] = [0x0Du8, 0x0Au8];

impl LineEnding {
    /// The bytes of this terminator, as a sequence.
    pub open spec fn bytes(self) -> Seq<u8> {
        match self {
            LineEnding::LF => seq![0x0Au8],
            LineEnding::CR => seq![0x0Du8],
            LineEnding::CRLF => seq![0x0Du8, 0x0Au8],
        }
    }

    /// The bytes of this terminator.
    pub fn as_bytes(&self) -> (out: &'static [u8])
        ensures
            out@ == self.bytes(),
    {
        match self {
            LineEnding::LF => &LF_BYTES,
            LineEnding::CR => &CR_BYTES,
            LineEnding::CRLF => &CRLF_BYTES,
        }
    }
}

} // verus!
