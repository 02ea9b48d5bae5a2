use crate::errors::{Error, ErrorKind};
use vstd::prelude::*;

verus! {

/// The most fixed-point passes that the neutral-to-white search makes.
pub const MAX_NEUTRAL_PASSES: u32 = 30;

/// How a profile with a given number of calibration illuminants is interpolated.
#[derive(Debug, Clone, Copy, PartialEq, Eq, Structural)]
pub enum BlendMode {
    /// One or two profiles, blended by correlated colour temperature.
    Dual,
    /// Three profiles, blended by barycentric illuminant weights.
    Triple,
}

/// Where the dual-mode weight `g` of the first profile falls.
#[derive(Debug, Clone, Copy, PartialEq, Eq, Structural)]
pub enum DualWeight {
    /// `g >= 1`: the first profile alone.
    AllFirst,
    /// `g <= 0`: the second profile alone.
    AllSecond,
    /// `0 < g < 1`: a weighted mix of both.
    Mixed,
}

/// Where one resolved matrix comes from.
#[derive(Debug, Clone, Copy, PartialEq, Eq, Structural)]
pub enum MatrixSource {
    /// The output is omitted: not asked for, or no slot holds a matrix.
    Absent,
    /// The stored matrix of this slot, unblended.
    Slot(usize),
    /// The weighted sum of the stored matrices of every slot of the mode.
    Mix,
}

/// Which optional outputs a resolution asks for.
#[derive(Debug, Clone, Copy, PartialEq, Eq, Structural)]
pub struct MatrixRequest {
    pub forward: bool,
    pub reduction: bool,
    pub calibration: bool,
}

/// The source of each output of one resolution.
#[derive(Debug, Clone, Copy, PartialEq, Eq, Structural)]
pub struct ResolutionPlan {
    pub color: MatrixSource,
    pub forward: MatrixSource,
    pub reduction: MatrixSource,
    pub calibration: MatrixSource,
}

/// What the neutral-to-white search does next.
#[derive(Debug, Clone, Copy, PartialEq, Eq, Structural)]
pub enum NeutralAction {
    /// Return the profile-connection white without searching.
    UseProfileWhite,
    /// Take the new candidate as the next starting point and make another pass.
    Continue,
    /// Return the new candidate.
    ReturnNext,
    /// Return the midpoint of the previous and the new candidate.
    ReturnMidpoint,
}

/// The mode that a profile with `count` illuminants is interpolated in, if any.
pub open spec fn mode_of(count: int) -> Option<BlendMode> {
    if count == 1 || count == 2 {
        Some(BlendMode::Dual)
    } else if count == 3 {
        Some(BlendMode::Triple)
    } else {
        None
    }
}

/// Slot `i` of `slots` holds a matrix.
pub open spec fn slot_filled<M>(slots: Seq<Option<M>>, i: int) -> bool {
    0 <= i < slots.len() && slots[i] is Some
}

/// Every slot of `slots` holds a matrix.
pub open spec fn all_filled<M>(slots: Seq<Option<M>>) -> bool {
    forall|i: int| 0 <= i < slots.len() ==> #[trigger] slots[i] is Some
}

/// The dual-mode source of a family whose first and second slots are filled as given.
pub open spec fn dual_source(weight: DualWeight, first: bool, second: bool) -> MatrixSource {
    if first && second {
        match weight {
            DualWeight::AllFirst => MatrixSource::Slot(0),
            DualWeight::AllSecond => MatrixSource::Slot(1),
            DualWeight::Mixed => MatrixSource::Mix,
        }
    } else if first {
        MatrixSource::Slot(0)
    } else if second {
        MatrixSource::Slot(1)
    } else {
        MatrixSource::Absent
    }
}

/// The source of an output that was asked for or not.
pub open spec fn if_requested(asked: bool, source: MatrixSource) -> MatrixSource {
    if asked {
        source
    } else {
        MatrixSource::Absent
    }
}

/// The dual-mode plan for a profile of `count` illuminants.
pub open spec fn dual_plan_of<M>(
    weight: DualWeight,
    count: int,
    request: MatrixRequest,
    forward: Seq<Option<M>>,
    reduction: Seq<Option<M>>,
) -> ResolutionPlan {
    ResolutionPlan {
        color: dual_source(weight, count >= 1, count >= 2),
        forward: if_requested(
            request.forward,
            dual_source(weight, slot_filled(forward, 0), slot_filled(forward, 1)),
        ),
        reduction: if_requested(
            request.reduction,
            dual_source(weight, slot_filled(reduction, 0), slot_filled(reduction, 1)),
        ),
        calibration: if_requested(request.calibration, dual_source(weight, count >= 1, count >= 2)),
    }
}

/// The triple-mode plan, where every output that is asked for is a mix of all three slots.
pub open spec fn triple_plan_of(request: MatrixRequest) -> ResolutionPlan {
    ResolutionPlan {
        color: MatrixSource::Mix,
        forward: if_requested(request.forward, MatrixSource::Mix),
        reduction: if_requested(request.reduction, MatrixSource::Mix),
        calibration: if_requested(request.calibration, MatrixSource::Mix),
    }
}

/// The action after pass `pass` of the search, given whether its candidate converged.
pub open spec fn neutral_step_of(pass: int, converged: bool) -> NeutralAction {
    if converged {
        NeutralAction::ReturnNext
    } else if pass == MAX_NEUTRAL_PASSES - 1 {
        NeutralAction::ReturnMidpoint
    } else {
        NeutralAction::Continue
    }
}

/// Picks the interpolation mode for a profile with `count` calibration illuminants.
pub fn blend_mode(count: usize) -> (r: Result<BlendMode, Error>)
    ensures
        mode_of(count as int) matches Some(m) ==> r == Ok::<BlendMode, Error>(m),
        mode_of(count as int) is None ==> (r matches Err(e) && e.spec_kind()
            == ErrorKind::InvalidColorSpec(count)),
{
    match count {
        1 | 2 => Ok(BlendMode::Dual),
        3 => Ok(BlendMode::Triple),
        c => Err(Error::new(ErrorKind::InvalidColorSpec(c))),
    }
}

fn pick_dual(weight: DualWeight, first: bool, second: bool) -> (r: MatrixSource)
    ensures
        r == dual_source(weight, first, second),
{
    if first && second {
        match weight {
            DualWeight::AllFirst => MatrixSource::Slot(0),
            DualWeight::AllSecond => MatrixSource::Slot(1),
            DualWeight::Mixed => MatrixSource::Mix,
        }
    } else if first {
        MatrixSource::Slot(0)
    } else if second {
        MatrixSource::Slot(1)
    } else {
        MatrixSource::Absent
    }
}

fn is_filled<M>(slots: &[Option<M>], i: usize) -> (r: bool)
    ensures
        r == slot_filled(slots@, i as int),
{
    i < slots.len() && slots[i].is_some()
}

fn every_filled<M>(slots: &[Option<M>]) -> (r: bool)
    ensures
        r == all_filled(slots@),
{
    let mut i: usize = 0;
    while i < slots.len()
        invariant
            0 <= i <= slots@.len(),
            forall|j: int| 0 <= j < i ==> #[trigger] slots@[j] is Some,
        decreases slots@.len() - i,
    {
        if slots[i].is_none() {
            return false;
        }
        i = i + 1;
    }
    true
}

/// Decides, for a profile of one or two illuminants, which stored matrix each requested
/// output is taken from, given where the blend weight of the first profile falls.
///
/// A family with both slots filled follows the weight; a family with one slot filled uses
/// that slot unblended; a family with none is omitted.
pub fn dual_plan<M>(
    weight: DualWeight,
    count: usize,
    request: MatrixRequest,
    forward: &[Option<M>],
    reduction: &[Option<M>],
) -> (r: ResolutionPlan)
    requires
        1 <= count <= 2,
    ensures
        r == dual_plan_of(weight, count as int, request, forward@, reduction@),
{
    let both = pick_dual(weight, true, count >= 2);
    let forward_source = if request.forward {
        pick_dual(weight, is_filled(forward, 0), is_filled(forward, 1))
    } else {
        MatrixSource::Absent
    };
    let reduction_source = if request.reduction {
        pick_dual(weight, is_filled(reduction, 0), is_filled(reduction, 1))
    } else {
        MatrixSource::Absent
    };
    let calibration_source = if request.calibration {
        both
    } else {
        MatrixSource::Absent
    };
    ResolutionPlan {
        color: both,
        forward: forward_source,
        reduction: reduction_source,
        calibration: calibration_source,
    }
}

/// Decides, for a profile of three illuminants, that every requested output is a
/// three-way mix, or fails when a requested optional family has an empty slot.
///
/// Forward matrices are checked before reduction matrices.
pub fn triple_plan<M>(request: MatrixRequest, forward: &[Option<M>], reduction: &[Option<M>]) -> (r:
    Result<ResolutionPlan, Error>)
    ensures
        request.forward && !all_filled(forward@) ==> (r matches Err(e) && e.spec_kind()
            == ErrorKind::MissingForwardMatrices),
        !(request.forward && !all_filled(forward@)) && request.reduction && !all_filled(
            reduction@,
        ) ==> (r matches Err(e) && e.spec_kind() == ErrorKind::MissingReductionMatrices),
        !(request.forward && !all_filled(forward@)) && !(request.reduction && !all_filled(
            reduction@,
        )) ==> r == Ok::<ResolutionPlan, Error>(triple_plan_of(request)),
{
    if request.forward && !every_filled(forward) {
        return Err(Error::new(ErrorKind::MissingForwardMatrices));
    }
    if request.reduction && !every_filled(reduction) {
        return Err(Error::new(ErrorKind::MissingReductionMatrices));
    }
    Ok(
        ResolutionPlan {
            color: MatrixSource::Mix,
            forward: if request.forward {
                MatrixSource::Mix
            } else {
                MatrixSource::Absent
            },
            reduction: if request.reduction {
                MatrixSource::Mix
            } else {
                MatrixSource::Absent
            },
            calibration: if request.calibration {
                MatrixSource::Mix
            } else {
                MatrixSource::Absent
            },
        },
    )
}

/// How the neutral-to-white search starts for a profile of `channels` colour channels:
/// a single channel carries no chromaticity, so the profile-connection white is used.
pub fn neutral_search_start(channels: u32) -> (r: NeutralAction)
    ensures
        channels == 1 ==> r == NeutralAction::UseProfileWhite,
        channels != 1 ==> r == NeutralAction::Continue,
{
    if channels == 1 {
        NeutralAction::UseProfileWhite
    } else {
        NeutralAction::Continue
    }
}

/// What the neutral-to-white search does after pass `pass` (counted from zero), given
/// whether the new candidate lies within the convergence tolerance of the previous one.
pub fn neutral_search_step(pass: u32, converged: bool) -> (r: NeutralAction)
    requires
        pass < MAX_NEUTRAL_PASSES,
    ensures
        r == neutral_step_of(pass as int, converged),
{
    if converged {
        NeutralAction::ReturnNext
    } else if pass == MAX_NEUTRAL_PASSES - 1 {
        NeutralAction::ReturnMidpoint
    } else {
        NeutralAction::Continue
    }
}

/// The search that sees `outcomes[j]` as the convergence outcome of pass `j` stops at pass
/// `pass`: every earlier pass continued, and this one returns.
pub open spec fn neutral_stops_at(outcomes: Seq<bool>, pass: int) -> bool {
    &&& 0 <= pass < outcomes.len()
    &&& neutral_step_of(pass, outcomes[pass]) != NeutralAction::Continue
    &&& forall|j: int| 0 <= j < pass ==> neutral_step_of(j, #[trigger] outcomes[j]) == NeutralAction::Continue
}

proof fn lemma_neutral_stops_from(outcomes: Seq<bool>, pass: int)
    requires
        outcomes.len() == MAX_NEUTRAL_PASSES,
        0 <= pass < MAX_NEUTRAL_PASSES,
        forall|j: int| 0 <= j < pass ==> !#[trigger] outcomes[j],
    ensures
        exists|k: int| pass <= k < MAX_NEUTRAL_PASSES && neutral_stops_at(outcomes, k),
    decreases MAX_NEUTRAL_PASSES - pass,
{
    if outcomes[pass] || pass == MAX_NEUTRAL_PASSES - 1 {
        assert(neutral_stops_at(outcomes, pass));
    } else {
        assert forall|j: int| 0 <= j < pass + 1 implies !#[trigger] outcomes[j] by {
            if j < pass {
                assert(!outcomes[j]);
            }
        }
        lemma_neutral_stops_from(outcomes, pass + 1);
    }
}

/// Whatever the convergence outcome of each pass, the neutral-to-white search returns at
/// one of its first `MAX_NEUTRAL_PASSES` passes: it never runs on unboundedly.
pub proof fn lemma_neutral_search_terminates(outcomes: Seq<bool>)
    requires
        outcomes.len() == MAX_NEUTRAL_PASSES,
    ensures
        exists|k: int| 0 <= k < MAX_NEUTRAL_PASSES && neutral_stops_at(outcomes, k),
{
    lemma_neutral_stops_from(outcomes, 0);
}

/// With two illuminants, a weight at or beyond an end of the blend range resolves to the
/// stored matrix of that end, unblended, and only a weight strictly inside it mixes.
pub proof fn lemma_dual_ends_are_stored<M>(
    request: MatrixRequest,
    forward: Seq<Option<M>>,
    reduction: Seq<Option<M>>,
)
    ensures
        dual_plan_of(DualWeight::AllFirst, 2, request, forward, reduction).color
            == MatrixSource::Slot(0),
        dual_plan_of(DualWeight::AllSecond, 2, request, forward, reduction).color
            == MatrixSource::Slot(1),
        dual_plan_of(DualWeight::Mixed, 2, request, forward, reduction).color == MatrixSource::Mix,
        request.forward && slot_filled(forward, 0) && slot_filled(forward, 1) ==> {
            &&& dual_plan_of(DualWeight::AllFirst, 2, request, forward, reduction).forward
                == MatrixSource::Slot(0)
            &&& dual_plan_of(DualWeight::AllSecond, 2, request, forward, reduction).forward
                == MatrixSource::Slot(1)
        },
{
}

} // verus!
