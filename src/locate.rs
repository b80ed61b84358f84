use vstd::prelude::*;
use crate::error::ConvertError;
use kmpsearch::Haystack;

verus! {

/// The four bytes that open the embedded Ogg bitstream.
pub const STREAM_MARKER: [u8; 4] = [0x4f, 0x67, 0x67, 0x53];

/// `needle` occurs in `hay` starting at index `i`.
pub open spec fn occurs_at(hay: Seq<u8>, needle: Seq<u8>, i: int) -> bool {
    0 <= i && i + needle.len() <= hay.len() && hay.subrange(i, i + needle.len()) == needle
}

/// `i` is the least index at which `needle` occurs in `hay`.
pub open spec fn first_occurrence(hay: Seq<u8>, needle: Seq<u8>, i: int) -> bool {
    occurs_at(hay, needle, i) && forall|j: int| 0 <= j < i ==> !occurs_at(hay, needle, j)
}

/// Relies on kmpsearch's `Haystack::first_indexof_needle`: the least index at
/// which a non-empty needle occurs, or `None` when it never occurs.
#[verifier::external_body]
fn first_index_of(hay: &[u8], needle: &[u8]) -> (r: Option<usize>)
    requires
        needle@.len() > 0,
    ensures
        match r {
            Some(i) => first_occurrence(hay@, needle@, i as int),
            None => forall|j: int| !occurs_at(hay@, needle@, j),
        },
{
    hay.first_indexof_needle(needle)
}

/// Finds the first occurrence of `marker` anywhere in `bytes` and returns its
/// index; the embedded stream runs from there to the end of `bytes`.
pub fn locate_stream(bytes: &[u8], marker: &[u8]) -> (r: Result<usize, ConvertError>)
    requires
        marker@.len() > 0,
    ensures
        match r {
            Ok(i) => first_occurrence(bytes@, marker@, i as int),
            Err(e) => e == ConvertError::MissingEmbeddedStream && forall|j: int|
                !occurs_at(bytes@, marker@, j),
        },
{
    match first_index_of(bytes, marker) {
        Some(i) => Ok(i),
        None => Err(ConvertError::MissingEmbeddedStream),
    }
}

/// A buffer has at most one first occurrence of a marker: when the marker
/// occurs at several places, the located start is the earliest of them.
pub proof fn lemma_first_occurrence_is_earliest(hay: Seq<u8>, needle: Seq<u8>, i: int, j: int)
    requires
        first_occurrence(hay, needle, i),
        occurs_at(hay, needle, j),
    ensures
        i <= j,
{
}

/// The first occurrence is unique.
pub proof fn lemma_first_occurrence_unique(hay: Seq<u8>, needle: Seq<u8>, i: int, j: int)
    requires
        first_occurrence(hay, needle, i),
        first_occurrence(hay, needle, j),
    ensures
        i == j,
{
}

} // verus!
