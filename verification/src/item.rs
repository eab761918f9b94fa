use vstd::prelude::*;

verus! {

/// What a clipboard history entry holds.
#[derive(Clone, Copy, Debug, PartialEq, Eq, Structural)]
pub enum ClipKind {
    Text,
    Image,
    Files,
    Phrase,
}

} // verus!
