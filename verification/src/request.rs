//! Transformation requests: a tagged choice of exactly one strategy variant
//! plus its parameters, with its validation rule and the description that a
//! committed snapshot of it carries.

use crate::decimal::dec_rep;
use crate::decimal::u32_to_string;
use vstd::prelude::*;

verus! {

/// The neighbourhood a skeletonization strategy walks: four- or
/// eight-connected.
#[derive(Clone, Copy, Debug, PartialEq, Eq)]
pub enum AdjacencyMode {
    Four,
    Eight,
}

/// The three skeletonization strategies the editor offers.
#[derive(Clone, Copy, Debug, PartialEq, Eq)]
pub enum SkeletonizationAlgorithm {
    Eberly,
    Rosenfeld,
    ZhangSuen,
}

/// One user-selected transformation: threshold binarization, or a
/// skeletonization strategy with its optional adjacency mode.
#[derive(Clone, Copy, Debug, PartialEq, Eq)]
pub enum TransformationRequest {
    ConvertToBinary { threshold: u32 },
    Skeletonize { algorithm: SkeletonizationAlgorithm, adjacency_mode: Option<AdjacencyMode> },
}

/// A request is valid when its threshold lies in [0, 255] and, for a
/// strategy that mandates an adjacency mode (Rosenfeld), the mode is there.
pub open spec fn request_valid(r: TransformationRequest) -> bool {
    match r {
        TransformationRequest::ConvertToBinary { threshold } => threshold <= 255,
        TransformationRequest::Skeletonize { algorithm, adjacency_mode } => match algorithm {
            SkeletonizationAlgorithm::Rosenfeld => adjacency_mode is Some,
            _ => true,
        },
    }
}

/// The display name of a skeletonization strategy.
pub open spec fn algorithm_label(a: SkeletonizationAlgorithm) -> Seq<char> {
    match a {
        SkeletonizationAlgorithm::Eberly => "Eberly"@,
        SkeletonizationAlgorithm::Rosenfeld => "Rosenfeld"@,
        SkeletonizationAlgorithm::ZhangSuen => "Zhang Suen"@,
    }
}

/// The description a successful transformation leaves on its snapshot.
pub open spec fn description_of(r: TransformationRequest) -> Seq<char> {
    match r {
        TransformationRequest::ConvertToBinary { threshold } => "Converted to binary with threshold: "@
            + dec_rep(threshold as nat),
        TransformationRequest::Skeletonize { algorithm, adjacency_mode } => "Skeletonized the image with the "@
            + algorithm_label(algorithm) + " algorithm"@,
    }
}

/// Checks a request against `request_valid`.
pub fn validate(r: &TransformationRequest) -> (ok: bool)
    ensures
        ok == request_valid(*r),
{
    match r {
        TransformationRequest::ConvertToBinary { threshold } => *threshold <= 255,
        TransformationRequest::Skeletonize { algorithm, adjacency_mode } => match algorithm {
            SkeletonizationAlgorithm::Rosenfeld => adjacency_mode.is_some(),
            _ => true,
        },
    }
}

/// Builds the snapshot description of a request.
pub fn describe(r: &TransformationRequest) -> (s: String)
    ensures
        s@ == description_of(*r),
{
    match r {
        TransformationRequest::ConvertToBinary { threshold } => {
            let mut s = String::from_str("Converted to binary with threshold: ");
            let t = u32_to_string(*threshold);
            s.append(t.as_str());
            s
        },
        TransformationRequest::Skeletonize { algorithm, adjacency_mode } => {
            let mut s = String::from_str("Skeletonized the image with the ");
            match algorithm {
                SkeletonizationAlgorithm::Eberly => s.append("Eberly"),
                SkeletonizationAlgorithm::Rosenfeld => s.append("Rosenfeld"),
                SkeletonizationAlgorithm::ZhangSuen => s.append("Zhang Suen"),
            }
            s.append(" algorithm");
            s
        },
    }
}

/// Whether two string slices hold the same characters.
fn str_eq(a: &str, b: &str) -> (r: bool)
    ensures
        r == (a@ == b@),
{
    let x = a.to_owned();
    let y = b.to_owned();
    x == y
}

impl SkeletonizationAlgorithm {
    /// The strategy a command-line algorithm name selects.
    pub open spec fn from_name_spec(s: Seq<char>) -> Option<SkeletonizationAlgorithm> {
        if s == "Eberly"@ {
            Some(SkeletonizationAlgorithm::Eberly)
        } else if s == "Rosenfeld"@ {
            Some(SkeletonizationAlgorithm::Rosenfeld)
        } else if s == "ZhangSuen"@ {
            Some(SkeletonizationAlgorithm::ZhangSuen)
        } else {
            None
        }
    }

    /// Parses a command-line algorithm name; unknown names select nothing.
    pub fn from_name(s: &str) -> (r: Option<SkeletonizationAlgorithm>)
        ensures
            r == SkeletonizationAlgorithm::from_name_spec(s@),
    {
        if str_eq(s, "Eberly") {
            Some(SkeletonizationAlgorithm::Eberly)
        } else if str_eq(s, "Rosenfeld") {
            Some(SkeletonizationAlgorithm::Rosenfeld)
        } else if str_eq(s, "ZhangSuen") {
            Some(SkeletonizationAlgorithm::ZhangSuen)
        } else {
            None
        }
    }
}

impl AdjacencyMode {
    /// The mode a command-line adjacency name selects.
    pub open spec fn from_name_spec(s: Seq<char>) -> Option<AdjacencyMode> {
        if s == "Four"@ {
            Some(AdjacencyMode::Four)
        } else if s == "Eight"@ {
            Some(AdjacencyMode::Eight)
        } else {
            None
        }
    }

    /// Parses a command-line adjacency name; unknown names select nothing.
    pub fn from_name(s: &str) -> (r: Option<AdjacencyMode>)
        ensures
            r == AdjacencyMode::from_name_spec(s@),
    {
        if str_eq(s, "Four") {
            Some(AdjacencyMode::Four)
        } else if str_eq(s, "Eight") {
            Some(AdjacencyMode::Eight)
        } else {
            None
        }
    }
}

impl TransformationRequest {
    /// The skeletonization request each interactive chooser entry stands
    /// for: entry 0 is Rosenfeld with eight-adjacency, 1 is Eberly and 2 is
    /// Zhang-Suen; other entries select nothing.
    pub open spec fn from_choice_spec(choice: u8) -> Option<TransformationRequest> {
        if choice == 0 {
            Some(TransformationRequest::Skeletonize {
                algorithm: SkeletonizationAlgorithm::Rosenfeld,
                adjacency_mode: Some(AdjacencyMode::Eight),
            })
        } else if choice == 1 {
            Some(TransformationRequest::Skeletonize {
                algorithm: SkeletonizationAlgorithm::Eberly,
                adjacency_mode: None,
            })
        } else if choice == 2 {
            Some(TransformationRequest::Skeletonize {
                algorithm: SkeletonizationAlgorithm::ZhangSuen,
                adjacency_mode: None,
            })
        } else {
            None
        }
    }

    /// Maps an interactive chooser entry to its skeletonization request.
    pub fn skeletonize_from_choice(choice: u8) -> (r: Option<TransformationRequest>)
        ensures
            r == TransformationRequest::from_choice_spec(choice),
    {
        if choice == 0 {
            Some(TransformationRequest::Skeletonize {
                algorithm: SkeletonizationAlgorithm::Rosenfeld,
                adjacency_mode: Some(AdjacencyMode::Eight),
            })
        } else if choice == 1 {
            Some(TransformationRequest::Skeletonize {
                algorithm: SkeletonizationAlgorithm::Eberly,
                adjacency_mode: None,
            })
        } else if choice == 2 {
            Some(TransformationRequest::Skeletonize {
                algorithm: SkeletonizationAlgorithm::ZhangSuen,
                adjacency_mode: None,
            })
        } else {
            None
        }
    }
}

} // verus!
