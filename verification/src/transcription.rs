//! The transcription of the captured sound.

use vstd::prelude::*;

verus! {

/// The transcriber of the captured sound.
pub struct Transcriber;

impl Transcriber {
    pub fn new() -> (transcriber: Transcriber)
        ensures
            transcriber == Transcriber,
    {
        Transcriber
    }
}

} // verus!
