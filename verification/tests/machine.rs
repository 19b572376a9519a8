use widget_core::error::IconError;
use widget_core::extract::{advance, Stage};

#[test]
fn missing_path_fails_before_acquisition() {
    // The path check fails: the very first transition is terminal, with
    // NotFound, before any handle acquisition stage is entered.
    assert_eq!(advance(Stage::Validating, false), Stage::Failed(IconError::NotFound));
}

#[test]
fn successful_run_reaches_done() {
    let mut stage = Stage::Validating;
    stage = advance(stage, true);
    assert_eq!(stage, Stage::AcquiringHandle);
    stage = advance(stage, true);
    assert_eq!(stage, Stage::ExtractingPixels);
    stage = advance(stage, true);
    assert_eq!(stage, Stage::Converting);
    stage = advance(stage, true);
    assert_eq!(stage, Stage::Resampling);
    stage = advance(stage, true);
    assert_eq!(stage, Stage::Encoding);
    stage = advance(stage, true);
    assert_eq!(stage, Stage::Done);
}

#[test]
fn each_stage_fails_with_its_own_kind() {
    assert_eq!(
        advance(Stage::AcquiringHandle, false),
        Stage::Failed(IconError::HandleAcquisitionFailed)
    );
    assert_eq!(
        advance(Stage::ExtractingPixels, false),
        Stage::Failed(IconError::BufferExtractionFailed)
    );
    assert_eq!(advance(Stage::Encoding, false), Stage::Failed(IconError::EncodingFailed));
}

#[test]
fn conversion_stages_cannot_fail() {
    assert_eq!(advance(Stage::Converting, false), Stage::Resampling);
    assert_eq!(advance(Stage::Resampling, false), Stage::Encoding);
}

#[test]
fn terminal_stages_absorb_every_outcome() {
    assert_eq!(advance(Stage::Done, false), Stage::Done);
    assert_eq!(advance(Stage::Done, true), Stage::Done);
    let failed = Stage::Failed(IconError::NotFound);
    assert_eq!(advance(failed, true), failed);
    assert_eq!(advance(failed, false), failed);
}
