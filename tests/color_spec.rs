use dng_sdk_rs::temperature::isotherm_pair;
use dng_sdk_rs::color_spec::{
    blend_mode, dual_plan, neutral_search_start, neutral_search_step, triple_plan, BlendMode,
    DualWeight, MatrixRequest, MatrixSource, NeutralAction, ResolutionPlan, MAX_NEUTRAL_PASSES,
};
use dng_sdk_rs::errors::ErrorKind;

const NOTHING: MatrixRequest = MatrixRequest { forward: false, reduction: false, calibration: false };
const EVERYTHING: MatrixRequest = MatrixRequest { forward: true, reduction: true, calibration: true };

#[test]
fn mode_follows_illuminant_count() {
    assert_eq!(blend_mode(1).unwrap(), BlendMode::Dual);
    assert_eq!(blend_mode(2).unwrap(), BlendMode::Dual);
    assert_eq!(blend_mode(3).unwrap(), BlendMode::Triple);
    assert_eq!(blend_mode(0).unwrap_err().kind(), ErrorKind::InvalidColorSpec(0));
    assert_eq!(blend_mode(4).unwrap_err().kind(), ErrorKind::InvalidColorSpec(4));
}

#[test]
fn dual_ends_take_stored_matrix() {
    let fwd = [Some(1u8), Some(2u8)];
    let red = [Some(1u8), Some(2u8)];
    let first = dual_plan(DualWeight::AllFirst, 2, EVERYTHING, &fwd, &red);
    assert_eq!(
        first,
        ResolutionPlan {
            color: MatrixSource::Slot(0),
            forward: MatrixSource::Slot(0),
            reduction: MatrixSource::Slot(0),
            calibration: MatrixSource::Slot(0),
        }
    );
    let second = dual_plan(DualWeight::AllSecond, 2, EVERYTHING, &fwd, &red);
    assert_eq!(
        second,
        ResolutionPlan {
            color: MatrixSource::Slot(1),
            forward: MatrixSource::Slot(1),
            reduction: MatrixSource::Slot(1),
            calibration: MatrixSource::Slot(1),
        }
    );
    let mixed = dual_plan(DualWeight::Mixed, 2, EVERYTHING, &fwd, &red);
    assert_eq!(
        mixed,
        ResolutionPlan {
            color: MatrixSource::Mix,
            forward: MatrixSource::Mix,
            reduction: MatrixSource::Mix,
            calibration: MatrixSource::Mix,
        }
    );
}

#[test]
fn dual_daylight_white_takes_second_matrix() {
    // A query at the daylight illuminant's own white has g = 0.
    let none: [Option<u8>; 2] = [None, None];
    let plan = dual_plan(DualWeight::AllSecond, 2, NOTHING, &none, &none);
    assert_eq!(plan.color, MatrixSource::Slot(1));
    assert_eq!(plan.forward, MatrixSource::Absent);
}

#[test]
fn dual_single_slot_is_unblended() {
    let fwd = [None, Some(7u8)];
    let red = [Some(7u8), None];
    let plan = dual_plan(DualWeight::Mixed, 2, EVERYTHING, &fwd, &red);
    assert_eq!(plan.color, MatrixSource::Mix);
    assert_eq!(plan.forward, MatrixSource::Slot(1));
    assert_eq!(plan.reduction, MatrixSource::Slot(0));
}

#[test]
fn dual_empty_family_is_omitted() {
    let none: [Option<u8>; 2] = [None, None];
    let plan = dual_plan(DualWeight::Mixed, 2, EVERYTHING, &none, &none);
    assert_eq!(plan.forward, MatrixSource::Absent);
    assert_eq!(plan.reduction, MatrixSource::Absent);
    assert_eq!(plan.calibration, MatrixSource::Mix);
}

#[test]
fn single_illuminant_uses_its_profile() {
    let fwd = [Some(1u8)];
    let plan = dual_plan(DualWeight::Mixed, 1, EVERYTHING, &fwd, &fwd);
    assert_eq!(
        plan,
        ResolutionPlan {
            color: MatrixSource::Slot(0),
            forward: MatrixSource::Slot(0),
            reduction: MatrixSource::Slot(0),
            calibration: MatrixSource::Slot(0),
        }
    );
}

#[test]
fn unrequested_outputs_are_absent() {
    let fwd = [Some(1u8), Some(2u8)];
    let plan = dual_plan(DualWeight::AllFirst, 2, NOTHING, &fwd, &fwd);
    assert_eq!(plan.forward, MatrixSource::Absent);
    assert_eq!(plan.reduction, MatrixSource::Absent);
    assert_eq!(plan.calibration, MatrixSource::Absent);
}

#[test]
fn triple_missing_forward_matrix() {
    let fwd = [Some(1u8), Some(2u8), None];
    let red = [Some(1u8), Some(2u8), Some(3u8)];
    let asked = MatrixRequest { forward: true, reduction: false, calibration: false };
    assert_eq!(triple_plan(asked, &fwd, &red).unwrap_err().kind(), ErrorKind::MissingForwardMatrices);
    let plan = triple_plan(NOTHING, &fwd, &red).unwrap();
    assert_eq!(plan.color, MatrixSource::Mix);
    assert_eq!(plan.forward, MatrixSource::Absent);
}

#[test]
fn triple_missing_reduction_matrix() {
    let fwd = [Some(1u8), Some(2u8), Some(3u8)];
    let red = [None, Some(2u8), Some(3u8)];
    assert_eq!(
        triple_plan(EVERYTHING, &fwd, &red).unwrap_err().kind(),
        ErrorKind::MissingReductionMatrices
    );
    let asked = MatrixRequest { forward: true, reduction: false, calibration: true };
    let plan = triple_plan(asked, &fwd, &red).unwrap();
    assert_eq!(plan.forward, MatrixSource::Mix);
    assert_eq!(plan.reduction, MatrixSource::Absent);
    assert_eq!(plan.calibration, MatrixSource::Mix);
}

#[test]
fn triple_forward_checked_before_reduction() {
    let none: [Option<u8>; 3] = [None, None, None];
    assert_eq!(
        triple_plan(EVERYTHING, &none, &none).unwrap_err().kind(),
        ErrorKind::MissingForwardMatrices
    );
}

#[test]
fn single_channel_uses_profile_white() {
    assert_eq!(neutral_search_start(1), NeutralAction::UseProfileWhite);
    assert_eq!(neutral_search_start(3), NeutralAction::Continue);
    assert_eq!(neutral_search_start(0), NeutralAction::Continue);
}

#[test]
fn neutral_search_steps() {
    assert_eq!(neutral_search_step(0, true), NeutralAction::ReturnNext);
    assert_eq!(neutral_search_step(0, false), NeutralAction::Continue);
    assert_eq!(neutral_search_step(28, false), NeutralAction::Continue);
    assert_eq!(neutral_search_step(29, false), NeutralAction::ReturnMidpoint);
    assert_eq!(neutral_search_step(29, true), NeutralAction::ReturnNext);
}

#[test]
fn neutral_search_never_converging_stops_after_thirty_passes() {
    let mut pass: u32 = 0;
    let action = loop {
        match neutral_search_step(pass, false) {
            NeutralAction::Continue => pass += 1,
            other => break other,
        }
    };
    assert_eq!(action, NeutralAction::ReturnMidpoint);
    assert_eq!(pass + 1, MAX_NEUTRAL_PASSES);
    assert_eq!(MAX_NEUTRAL_PASSES, 30);
}

#[test]
fn isotherm_scan_stops_at_first_crossing() {
    assert_eq!(isotherm_pair(&[false, false, false, true, true]), Some(3));
    // The first row is never a stopping point.
    assert_eq!(isotherm_pair(&[true, false, true]), Some(2));
    assert_eq!(isotherm_pair(&[false, true]), Some(1));
}

#[test]
fn isotherm_scan_forced_at_last_row() {
    let crossed = [false; 31];
    assert_eq!(isotherm_pair(&crossed), Some(30));
    assert_eq!(isotherm_pair(&[false, false]), Some(1));
}

#[test]
fn isotherm_scan_needs_two_rows() {
    assert_eq!(isotherm_pair(&[]), None);
    assert_eq!(isotherm_pair(&[true]), None);
}
