use vstd::prelude::*;

verus! {

use crate::encode::{base64_standard, encode_canonical, png_encoding};
use crate::error::IconError;
use crate::pixel::{CANONICAL_SIZE, PixelBuffer, swapped_pixels};
use crate::resample::{canonical_pixels, resample_to_canonical};

/// The stages a single extraction call passes through, in order.  Control
/// flow is strictly linear: there are no backward transitions and no retries,
/// and any stage failure moves directly to `Failed` with its error kind.
#[derive(Clone, Copy, Debug, PartialEq, Eq, Structural)]
pub enum Stage {
    Validating,
    AcquiringHandle,
    ExtractingPixels,
    Converting,
    Resampling,
    Encoding,
    Done,
    Failed(IconError),
}

impl Stage {
    /// Position of a stage along the linear pipeline; the two terminal
    /// stages sit at the end.
    pub open spec fn position(self) -> int {
        match self {
            Stage::Validating => 0,
            Stage::AcquiringHandle => 1,
            Stage::ExtractingPixels => 2,
            Stage::Converting => 3,
            Stage::Resampling => 4,
            Stage::Encoding => 5,
            Stage::Done => 6,
            Stage::Failed(_) => 7,
        }
    }
}

/// One transition of the extraction state machine, driven by whether the
/// current stage's work succeeded.  Converting and resampling are pure
/// computation and cannot fail; the terminal stages absorb every outcome.
pub open spec fn step_spec(s: Stage, ok: bool) -> Stage {
    match s {
        Stage::Validating => if ok {
            Stage::AcquiringHandle
        } else {
            Stage::Failed(IconError::NotFound)
        },
        Stage::AcquiringHandle => if ok {
            Stage::ExtractingPixels
        } else {
            Stage::Failed(IconError::HandleAcquisitionFailed)
        },
        Stage::ExtractingPixels => if ok {
            Stage::Converting
        } else {
            Stage::Failed(IconError::BufferExtractionFailed)
        },
        Stage::Converting => Stage::Resampling,
        Stage::Resampling => Stage::Encoding,
        Stage::Encoding => if ok {
            Stage::Done
        } else {
            Stage::Failed(IconError::EncodingFailed)
        },
        Stage::Done => Stage::Done,
        Stage::Failed(k) => Stage::Failed(k),
    }
}

/// Advances the extraction state machine by the outcome of the current
/// stage's work.
pub fn advance(s: Stage, ok: bool) -> (r: Stage)
    ensures
        r == step_spec(s, ok),
{
    match s {
        Stage::Validating => if ok {
            Stage::AcquiringHandle
        } else {
            Stage::Failed(IconError::NotFound)
        },
        Stage::AcquiringHandle => if ok {
            Stage::ExtractingPixels
        } else {
            Stage::Failed(IconError::HandleAcquisitionFailed)
        },
        Stage::ExtractingPixels => if ok {
            Stage::Converting
        } else {
            Stage::Failed(IconError::BufferExtractionFailed)
        },
        Stage::Converting => Stage::Resampling,
        Stage::Resampling => Stage::Encoding,
        Stage::Encoding => if ok {
            Stage::Done
        } else {
            Stage::Failed(IconError::EncodingFailed)
        },
        Stage::Done => Stage::Done,
        Stage::Failed(k) => Stage::Failed(k),
    }
}

/// The stage an extraction reaches after a whole sequence of stage outcomes.
pub open spec fn run_from(s: Stage, outcomes: Seq<bool>) -> Stage
    decreases outcomes.len(),
{
    if outcomes.len() == 0 {
        s
    } else {
        run_from(step_spec(s, outcomes[0]), outcomes.drop_first())
    }
}

/// The pipeline never moves backward: each transition either keeps the stage
/// (in a terminal stage) or moves it strictly towards the end of the call.
pub proof fn lemma_no_backward_transition(s: Stage, ok: bool)
    ensures
        step_spec(s, ok).position() > s.position() || step_spec(s, ok) == s,
{
}

/// A failed extraction is terminal: no later outcome changes the stage or
/// the error kind, so nothing is ever retried.
pub proof fn lemma_failed_is_terminal(k: IconError, outcomes: Seq<bool>)
    ensures
        run_from(Stage::Failed(k), outcomes) == Stage::Failed(k),
    decreases outcomes.len(),
{
    if outcomes.len() > 0 {
        lemma_failed_is_terminal(k, outcomes.drop_first());
    }
}

/// A path that fails validation ends the whole call in `Failed(NotFound)`:
/// the extraction never reaches the handle-acquisition stage, whatever the
/// OS would have answered later.
pub proof fn lemma_missing_path_never_acquires(outcomes: Seq<bool>)
    requires
        outcomes.len() > 0,
        !outcomes[0],
    ensures
        run_from(Stage::Validating, outcomes) == Stage::Failed(IconError::NotFound),
{
    lemma_failed_is_terminal(IconError::NotFound, outcomes.drop_first());
}

/// The PNG stream that an extraction builds for the raw OS pixels of a
/// `width x height` icon bitmap: channels swapped to RGBA, resampled to
/// canonical size, then PNG-compressed.
pub open spec fn extraction_png(width: u32, height: u32, bgra: Seq<u8>) -> Seq<u8> {
    png_encoding(
        CANONICAL_SIZE,
        CANONICAL_SIZE,
        canonical_pixels(width, height, swapped_pixels(bgra)),
    )
}

/// The base64 text that a successful extraction emits for the raw OS pixels
/// of a `width x height` icon bitmap: the PNG stream, text-encoded.
pub open spec fn extraction_text(width: u32, height: u32, bgra: Seq<u8>) -> Seq<char> {
    base64_standard(extraction_png(width, height, bgra))
}

/// The computational tail of an extraction, shared by every platform that
/// hands over raw reversed-order pixels: swap the channels to RGBA, resample
/// to the canonical square, compress to PNG and wrap in base64 text.  The
/// call succeeds unless the compressed stream is too large to wrap in text.
pub fn encode_icon_from_bgra(buffer: PixelBuffer) -> (r: Result<String, IconError>)
    requires
        buffer.wf(),
    ensures
        match r {
            Ok(text) => text@ == extraction_text(buffer.width, buffer.height, buffer.bytes@),
            Err(e) => {
                &&& e == IconError::EncodingFailed
                &&& extraction_png(buffer.width, buffer.height, buffer.bytes@).len()
                    > usize::MAX as int / 4
            },
        },
{
    let mut pixels = buffer;
    pixels.swap_channels();
    let image = resample_to_canonical(pixels);
    match encode_canonical(&image) {
        Ok(icon) => Ok(icon.text),
        Err(e) => Err(e),
    }
}

/// Extraction is a function of the source pixels alone: two calls over the
/// same unchanged raw bitmap that both succeed carry the very same encoded
/// icon text.
pub proof fn lemma_extraction_deterministic(
    width: u32,
    height: u32,
    bgra: Seq<u8>,
    first: Seq<char>,
    second: Seq<char>,
)
    requires
        first == extraction_text(width, height, bgra),
        second == extraction_text(width, height, bgra),
    ensures
        first == second,
{
}

/// The single-entry icon capability of this build target.  No dedicated
/// extractor is compiled for this OS, so every call reports `Unsupported`,
/// whatever the path: no partial or best-effort behavior is attempted.
pub fn get_icon(_path: String) -> (r: Result<String, IconError>)
    ensures
        r == Err::<String, IconError>(IconError::Unsupported),
{
    Err(IconError::Unsupported)
}

} // verus!
