//! The transformation dispatcher.  A transformation runs in two halves
//! around the pixel-level strategy, which an outside collaborator performs
//! on the decoded buffer: `prepare` reads and decodes the current image and
//! validates the request; `commit` re-encodes the transformed buffer and
//! appends the snapshot.  A failure in either half leaves the history
//! exactly as it was.

use crate::codec;
use crate::codec::loaded;
use crate::codec::PixelBuffer;
use crate::codec::png_encoded;
use crate::codec::rgb_of_dyn;
use crate::codec::rgb_view;
use crate::history::History;
use crate::request::describe;
use crate::request::description_of;
use crate::request::request_valid;
use crate::request::validate;
use crate::request::TransformationRequest;
use vstd::prelude::*;

verus! {

/// Why a transformation did not commit: its parameters were rejected, the
/// current image could not be decoded, or the result could not be encoded.
#[derive(Clone, Copy, Debug, PartialEq, Eq)]
pub enum TransformationError {
    Validation,
    Decode,
    Encode,
}

/// A validated transformation, ready for its strategy: the decoded current
/// image, the description the snapshot will carry, and the request itself.
pub struct PreparedTransformation {
    pub buffer: PixelBuffer,
    pub description: String,
    pub request: TransformationRequest,
}

/// Decodes the history's current image and validates `request`.  Fails
/// with `Decode` when the current image is not a readable image, then with
/// `Validation` when the request's parameters are rejected; otherwise it
/// hands back the decoded buffer for the strategy to transform, and the
/// description of the request.  The history is never touched.
pub fn prepare(history: &History, request: &TransformationRequest) -> (r: Result<
    PreparedTransformation,
    TransformationError,
>)
    ensures
        match r {
            Ok(p) => loaded(history.current_spec()) is Some && request_valid(*request)
                && rgb_view(p.buffer) == rgb_of_dyn(loaded(history.current_spec())->Some_0)
                && p.description@ == description_of(*request) && p.request == *request,
            Err(e) => {
                &&& (e == TransformationError::Decode <==> loaded(history.current_spec()) is None)
                &&& (e == TransformationError::Validation <==> loaded(history.current_spec())
                    is Some && !request_valid(*request))
                &&& e != TransformationError::Encode
            },
        },
{
    let current = history.get_latest_image();
    let decoded = match codec::load_from_memory(current) {
        Ok(d) => d,
        Err(_) => {
            return Err(TransformationError::Decode);
        },
    };
    if !validate(request) {
        return Err(TransformationError::Validation);
    }
    let buffer = codec::to_rgb(&decoded);
    let description = describe(request);
    Ok(PreparedTransformation { buffer, description, request: *request })
}

/// Re-encodes the transformed buffer as PNG and appends it as a new
/// snapshot carrying `description`.  The committed bytes decode back to
/// exactly the pixel buffer that produced them, so the snapshot loses
/// nothing of the strategy's result.  On an encoding failure the history is
/// left completely unmodified: no half-committed snapshot ever appears.
pub fn commit(history: &mut History, description: String, buffer: PixelBuffer) -> (r: Result<
    (),
    TransformationError,
>)
    ensures
        match r {
            Ok(_) => {
                &&& png_encoded(rgb_view(buffer)) is Some
                &&& final(history).baseline_spec() == old(history).baseline_spec()
                &&& final(history).stack_spec() == old(history).stack_spec().push(
                    (description@, png_encoded(rgb_view(buffer))->Some_0),
                )
                &&& final(history).current_spec() == png_encoded(rgb_view(buffer))->Some_0
                &&& loaded(final(history).current_spec()) is Some
                &&& rgb_of_dyn(loaded(final(history).current_spec())->Some_0) == rgb_view(buffer)
            },
            Err(e) => {
                &&& e == TransformationError::Encode
                &&& png_encoded(rgb_view(buffer)) is None
                &&& final(history).stack_spec() == old(history).stack_spec()
                &&& final(history).baseline_spec() == old(history).baseline_spec()
            },
        },
{
    match codec::encode_png(buffer) {
        Ok(bytes) => {
            history.push_snapshot(description, bytes);
            Ok(())
        },
        Err(_) => Err(TransformationError::Encode),
    }
}

} // verus!
