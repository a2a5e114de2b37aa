//! What a caller asks of one conversion.
use vstd::prelude::*;

verus! {

/// Which way a conversion goes.
#[derive(Clone, Copy, Debug, PartialEq, Eq, Structural)]
pub enum Direction {
    /// From a binary plugin to its JSON text.
    ToText,
    /// From JSON text to a binary plugin.
    ToBinary,
}

/// One conversion: the input file, the direction and the three options.
#[derive(Debug)]
pub struct ConversionRequest {
    pub input_path: String,
    pub direction: Direction,
    /// Rewrite the text through the legacy character table.
    pub transcode: bool,
    /// Write compact rather than pretty-printed JSON.
    pub compact: bool,
    /// Replace an output file that is already there.
    pub allow_overwrite: bool,
}

impl ConversionRequest {
    pub fn new(
        input_path: String,
        direction: Direction,
        transcode: bool,
        compact: bool,
        allow_overwrite: bool,
    ) -> (r: ConversionRequest)
        ensures
            r.input_path@ == input_path@,
            r.direction == direction,
            r.transcode == transcode,
            r.compact == compact,
            r.allow_overwrite == allow_overwrite,
    {
        ConversionRequest { input_path, direction, transcode, compact, allow_overwrite }
    }
}

} // verus!
