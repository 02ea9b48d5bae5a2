use vstd::prelude::*;

verus! {

/// State shared by the directories of one file.
pub struct Shared;

/// A source of a file's bytes.
pub struct Stream;

} // verus!
