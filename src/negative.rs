use vstd::prelude::*;

verus! {

/// The stage of raw processing that an image has reached.
#[derive(Debug, Clone, Copy, PartialEq, Eq, Structural)]
pub enum RawImageStage {
    RawImageStagePreOpcode1,
    RawImageStagePostOpcode1,
    RawImageStagePostOpcode2,
    RawImageStagePreOpcode3,
    RawImageStagePostOpcode3,
    RawImageStageNone,
}

} // verus!
