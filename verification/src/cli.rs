//! The command-line operations: their settings and the single-shot
//! transformation each performs.  Reading the input file, running the
//! pixel-level strategy and writing the output stay with the caller; the
//! handlers here decode the input and pin down the request the strategy
//! must perform.

use crate::codec;
use crate::codec::loaded;
use crate::codec::rgb_of_dyn;
use crate::codec::rgb_view;
use crate::codec::PixelBuffer;
use crate::decimal::parse_u32;
use crate::decimal::u32_from_text;
use crate::engine::TransformationError;
use crate::request::AdjacencyMode;
use crate::request::SkeletonizationAlgorithm;
use crate::request::TransformationRequest;
use vstd::prelude::*;

verus! {

/// The threshold a command-line argument selects: its numeral's value, or
/// 150 when the text does not parse as a `u32`.
pub open spec fn threshold_from_text(s: Seq<char>) -> u32 {
    match u32_from_text(s) {
        Some(v) => v,
        None => 150,
    }
}

/// Settings of the binarization operation: the input and output paths and
/// the threshold.
pub struct ConvertToBinaryConfig {
    pub input_file: String,
    pub output_file: String,
    pub threshold: u32,
}

impl ConvertToBinaryConfig {
    /// Collects the settings, parsing the threshold argument and falling
    /// back to the default of 150 on malformed numeric input.
    pub fn new(input_file: String, output_file: String, threshold_text: &str) -> (c:
        ConvertToBinaryConfig)
        ensures
            c.input_file@ == input_file@,
            c.output_file@ == output_file@,
            c.threshold == threshold_from_text(threshold_text@),
    {
        let threshold = match parse_u32(threshold_text) {
            Some(v) => v,
            None => 150,
        };
        ConvertToBinaryConfig { input_file, output_file, threshold }
    }
}

/// Settings of the skeletonization operation: the input and output paths,
/// the strategy, and the adjacency mode where the strategy requires one.
pub struct SkeletonizeConfig {
    pub input_file: String,
    pub output_file: String,
    pub algorithm: SkeletonizationAlgorithm,
    pub adjacency_mode: Option<AdjacencyMode>,
}

impl SkeletonizeConfig {
    /// Collects the settings.
    pub fn new(
        input_file: String,
        output_file: String,
        algorithm: SkeletonizationAlgorithm,
        adjacency_mode: Option<AdjacencyMode>,
    ) -> (c: SkeletonizeConfig)
        ensures
            c.input_file@ == input_file@,
            c.output_file@ == output_file@,
            c.algorithm == algorithm,
            c.adjacency_mode == adjacency_mode,
    {
        SkeletonizeConfig { input_file, output_file, algorithm, adjacency_mode }
    }
}

/// The single-shot binarization operation.
pub struct ConvertToBinaryHandler {}

impl ConvertToBinaryHandler {
    /// Decodes the input image and pins down the binarization request the
    /// caller must perform on the returned buffer before saving it.  The
    /// command-line path imposes no range check on the threshold.
    pub fn execute(config: &ConvertToBinaryConfig, input: &Vec<u8>) -> (r: Result<
        (PixelBuffer, TransformationRequest),
        TransformationError,
    >)
        ensures
            match r {
                Ok((b, req)) => loaded(input@) is Some && rgb_view(b) == rgb_of_dyn(
                    loaded(input@)->Some_0,
                ) && req == (TransformationRequest::ConvertToBinary {
                    threshold: config.threshold,
                }),
                Err(e) => e == TransformationError::Decode && loaded(input@) is None,
            },
    {
        let decoded = match codec::load_from_memory(input) {
            Ok(d) => d,
            Err(_) => {
                return Err(TransformationError::Decode);
            },
        };
        let buffer = codec::to_rgb(&decoded);
        Ok((buffer, TransformationRequest::ConvertToBinary { threshold: config.threshold }))
    }
}

/// The single-shot skeletonization operation.
pub struct SkeletonizeHandler {}

impl SkeletonizeHandler {
    /// Decodes the input image and pins down the skeletonization request
    /// the caller must perform on the returned buffer before saving it.
    /// The Rosenfeld strategy mandates an adjacency mode: invoked without
    /// one, the operation reports a validation failure before touching the
    /// input.
    pub fn execute(config: &SkeletonizeConfig, input: &Vec<u8>) -> (r: Result<
        (PixelBuffer, TransformationRequest),
        TransformationError,
    >)
        ensures
            match r {
                Ok((b, req)) => (config.algorithm is Rosenfeld
                    ==> config.adjacency_mode is Some) && loaded(input@) is Some && rgb_view(b)
                    == rgb_of_dyn(loaded(input@)->Some_0) && req
                    == (TransformationRequest::Skeletonize {
                    algorithm: config.algorithm,
                    adjacency_mode: config.adjacency_mode,
                }),
                Err(e) => {
                    &&& (e == TransformationError::Validation <==> config.algorithm is Rosenfeld
                        && config.adjacency_mode is None)
                    &&& (e == TransformationError::Decode <==> !(config.algorithm is Rosenfeld
                        && config.adjacency_mode is None) && loaded(input@) is None)
                    &&& e != TransformationError::Encode
                },
            },
    {
        match config.algorithm {
            SkeletonizationAlgorithm::Rosenfeld => {
                if config.adjacency_mode.is_none() {
                    return Err(TransformationError::Validation);
                }
            },
            _ => {
            },
        }
        let decoded = match codec::load_from_memory(input) {
            Ok(d) => d,
            Err(_) => {
                return Err(TransformationError::Decode);
            },
        };
        let buffer = codec::to_rgb(&decoded);
        Ok(
            (
                buffer,
                TransformationRequest::Skeletonize {
                    algorithm: config.algorithm,
                    adjacency_mode: config.adjacency_mode,
                },
            ),
        )
    }
}

} // verus!
