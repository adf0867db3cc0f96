//! Slicing a pose model's flat output into landmark records.
//!
//! The decoder is generic over the element type of the model's output, so it
//! never inspects the values it moves.
use vstd::prelude::*;

verus! {

/// Number of landmarks in a complete pose.
pub const POSE_LANDMARKS: usize = 33;

/// Number of output values per landmark: `x, y, z, visibility` and one unused.
pub const LANDMARK_STRIDE: usize = 5;

/// One anatomical keypoint: normalised position and a confidence score.
#[derive(Debug, Clone, Copy, PartialEq)]
pub struct Landmark<T> {
    pub x: T,
    pub y: T,
    pub z: T,
    pub visibility: T,
}

/// Whether landmark `i` can be read from an output of `len` values: its
/// first four values lie inside the output.
pub open spec fn landmark_fits(i: int, len: int) -> bool {
    i * 5 + 3 < len
}

/// How many landmarks an output of `len` values yields: those of indices
/// `0..33` whose four values lie inside it.
pub open spec fn decoded_count(len: int) -> int {
    if len < 4 {
        0
    } else if (len + 1) / 5 >= 33 {
        33
    } else {
        (len + 1) / 5
    }
}

/// Landmark `i` read from the flat output `raw`.
pub open spec fn landmark_at<T>(raw: Seq<T>, i: int) -> Landmark<T> {
    Landmark { x: raw[i * 5], y: raw[i * 5 + 1], z: raw[i * 5 + 2], visibility: raw[i * 5 + 3] }
}

/// The pose decoded from the flat output `raw`.
pub open spec fn decoded_pose<T>(raw: Seq<T>) -> Seq<Landmark<T>> {
    Seq::new(decoded_count(raw.len() as int) as nat, |i: int| landmark_at(raw, i))
}

proof fn lemma_fits_below_count(i: int, len: int)
    requires
        0 <= i < 33,
        len >= 0,
    ensures
        landmark_fits(i, len) <==> i < decoded_count(len),
{
}

/// Reads landmarks `0..33` from a flat output, five values per landmark,
/// stopping at the first landmark whose four values do not all lie inside
/// the output.
pub fn decode<T: Copy>(raw: &Vec<T>) -> (pose: Vec<Landmark<T>>)
    ensures
        pose@ == decoded_pose(raw@),
{
    let len: usize = raw.len();
    let mut pose: Vec<Landmark<T>> = Vec::new();
    let mut i: usize = 0;
    while i < POSE_LANDMARKS
        invariant
            len == raw@.len(),
            i <= 33,
            pose@.len() == i,
            i <= decoded_count(len as int),
            forall|j: int| 0 <= j < i ==> #[trigger] pose@[j] == landmark_at(raw@, j),
        ensures
            pose@.len() == decoded_count(len as int),
            forall|j: int| 0 <= j < pose@.len() ==> #[trigger] pose@[j] == landmark_at(raw@, j),
        decreases 33 - i,
    {
        let offset: usize = i * LANDMARK_STRIDE;
        if offset + 3 >= len {
            proof {
                lemma_fits_below_count(i as int, len as int);
            }
            break;
        }
        proof {
            lemma_fits_below_count(i as int, len as int);
        }
        pose.push(
            Landmark { x: raw[offset], y: raw[offset + 1], z: raw[offset + 2], visibility: raw[offset + 3] },
        );
        i = i + 1;
    }
    assert(pose@ =~= decoded_pose(raw@));
    pose
}

/// An output of exactly `33*5` values yields all 33 landmarks.
pub proof fn lemma_full_output_decodes_all(len: int)
    requires
        len == 33 * 5,
    ensures
        decoded_count(len) == 33,
{
}

/// An output too short for landmark `k` (fewer than `k*5+4` values) but long
/// enough for every landmark before it yields exactly `k` landmarks.
pub proof fn lemma_short_output_decodes_prefix(len: int, k: int)
    requires
        0 <= k < 33,
        0 <= len < k * 5 + 4,
        k == 0 || len >= (k - 1) * 5 + 4,
    ensures
        decoded_count(len) == k,
{
}

} // verus!
