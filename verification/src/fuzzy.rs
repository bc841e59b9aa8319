//! Typo-tolerant resolution of a requested tag name against the names that exist.
//!
//! A similarity score is carried as the bit pattern of a binary64 number, so
//! that the library compares scores with integer arithmetic only.

use crate::text::name_set;
use rayon::iter::{IndexedParallelIterator, IntoParallelRefIterator, ParallelIterator};
use vstd::prelude::*;

verus! {

/// Bit pattern of the acceptance threshold, the binary64 number nearest to four fifths.
pub const THRESHOLD_BITS: u64 = 0x3FE9_9999_9999_999A;

/// Bit pattern of positive infinity: the largest pattern that is a number.
pub const INFINITY_BITS: u64 = 0x7FF0_0000_0000_0000;

/// Smallest pattern with the sign bit set.
pub const SIGN_BIT: u64 = 0x8000_0000_0000_0000;

/// The Jaro-Winkler similarity of two texts, as the bit pattern of the binary64
/// number that `strsim::jaro_winkler` computes for them.
pub uninterp spec fn jaro_winkler_bits(a: Seq<char>, b: Seq<char>) -> u64;

/// Calls `strsim::jaro_winkler` and hands back the bits of its result.
///
/// Trusted: the result is a function of the two texts alone.
#[verifier::external_body]
pub(crate) fn similarity_bits(a: &str, b: &str) -> (bits: u64)
    ensures
        bits == jaro_winkler_bits(a@, b@),
{
    strsim::jaro_winkler(a, b).to_bits()
}

/// Position of a score in the order of the numbers: of two numbers the
/// larger has the larger rank, whatever their signs. Negative zero ranks just
/// below zero, and a pattern that is no number ranks beyond the infinities.
pub open spec fn rank(bits: u64) -> int {
    if bits < SIGN_BIT {
        bits + SIGN_BIT
    } else {
        u64::MAX - bits
    }
}

/// Whether a score is a number strictly above the threshold.
pub open spec fn accepts(bits: u64) -> bool {
    THRESHOLD_BITS < bits <= INFINITY_BITS
}

/// Computes the rank of a score.
pub fn score_rank(bits: u64) -> (r: u64)
    ensures
        r == rank(bits),
{
    if bits < SIGN_BIT {
        bits + SIGN_BIT
    } else {
        u64::MAX - bits
    }
}

/// Tells whether a score passes the acceptance threshold.
pub fn exceeds_threshold(bits: u64) -> (b: bool)
    ensures
        b == accepts(bits),
{
    THRESHOLD_BITS < bits && bits <= INFINITY_BITS
}

/// Rank of the similarity between a requested name and a candidate.
pub open spec fn score(requested: Seq<char>, candidate: Seq<char>) -> int {
    rank(jaro_winkler_bits(requested, candidate))
}

/// `best` is one of `names`, and none of them is more similar to `requested`.
pub open spec fn is_best(requested: Seq<char>, names: Set<Seq<char>>, best: Seq<char>) -> bool {
    &&& names.contains(best)
    &&& forall|n: Seq<char>| names.contains(n) ==> score(requested, n) <= score(requested, best)
}

/// What the resolver hands back once the best candidate and its similarity are known.
pub open spec fn settled(requested: Seq<char>, best: Seq<char>, similarity: u64) -> Seq<char> {
    if accepts(similarity) {
        best
    } else {
        requested
    }
}

/// `resolved` is a name that resolution of `requested` against `names` may give.
///
/// With no names the request stands as it is. Otherwise a most similar name
/// replaces it if its similarity passes the threshold. Which of several equally
/// similar names is taken is left open.
pub open spec fn resolves_to(requested: Seq<char>, names: Set<Seq<char>>, resolved: Seq<char>) -> bool {
    ||| (forall|n: Seq<char>| !names.contains(n)) && resolved == requested
    ||| exists|best: Seq<char>| #[trigger]
            is_best(requested, names, best) && resolved == settled(
                requested,
                best,
                jaro_winkler_bits(requested, best),
            )
}

/// Resolution gives the request itself or one of the names, nothing else.
pub proof fn lemma_resolved_is_known(
    requested: Seq<char>,
    names: Set<Seq<char>>,
    resolved: Seq<char>,
)
    requires
        resolves_to(requested, names, resolved),
    ensures
        resolved == requested || names.contains(resolved),
{
}

/// Resolution replaces the request only by a name that exists, that is as
/// similar to the request as any, and whose similarity passes the threshold.
pub proof fn lemma_substitute_is_accepted(
    requested: Seq<char>,
    names: Set<Seq<char>>,
    resolved: Seq<char>,
)
    requires
        resolves_to(requested, names, resolved),
        resolved != requested,
    ensures
        is_best(requested, names, resolved),
        accepts(jaro_winkler_bits(requested, resolved)),
{
}

/// Where no name passes the threshold, the request stands as it is.
pub proof fn lemma_nothing_similar_enough(
    requested: Seq<char>,
    names: Set<Seq<char>>,
    resolved: Seq<char>,
)
    requires
        forall|n: Seq<char>| names.contains(n) ==> !accepts(jaro_winkler_bits(requested, n)),
        resolves_to(requested, names, resolved),
    ensures
        resolved == requested,
{
}

/// Rank of the similarity between `name` and one candidate.
pub fn candidate_rank(name: &str, candidate: &String) -> (r: u64)
    ensures
        r == score(name@, candidate@),
{
    score_rank(similarity_bits(name, candidate.as_str()))
}

/// Calls rayon's `par_iter`, `enumerate` and `max_by_key` on the candidates,
/// ranking each with `candidate_rank`, and hands back the position of the winner.
///
/// Trusted: there is no winner among no candidates; otherwise the winner is a
/// position in the list whose rank no other position exceeds. Nothing is said
/// of which position wins a tie.
#[verifier::external_body]
pub(crate) fn most_similar(name: &str, candidates: &Vec<String>) -> (best: Option<usize>)
    ensures
        candidates@.len() == 0 ==> best is None,
        candidates@.len() > 0 ==> best is Some && best->0 < candidates@.len(),
        best is Some ==> forall|j: int|
            0 <= j < candidates@.len() ==> score(name@, #[trigger] candidates@[j]@) <= score(
                name@,
                candidates@[best->0 as int]@,
            ),
{
    candidates.par_iter().enumerate().max_by_key(|entry| candidate_rank(name, entry.1)).map(
        |entry| entry.0,
    )
}

/// Decides between the requested name and the best candidate, given the
/// similarity of the two.
pub fn settle(name: &str, best: &str, similarity: u64) -> (fixed: String)
    ensures
        fixed@ == settled(name@, best@, similarity),
{
    if exceeds_threshold(similarity) {
        best.to_owned()
    } else {
        name.to_owned()
    }
}

/// Resolves a requested name against the names that exist: the request itself
/// if there are none or if none is similar enough, else a most similar name.
pub fn resolve(name: &str, all_tags: &Vec<String>) -> (fixed: String)
    ensures
        resolves_to(name@, name_set(all_tags@), fixed@),
{
    if all_tags.is_empty() {
        return name.to_owned();
    }
    match most_similar(name, all_tags) {
        Some(at) => {
            let best = all_tags[at].as_str();
            let similarity = similarity_bits(name, best);
            let fixed = settle(name, best, similarity);
            proof {
                assert(name_set(all_tags@).contains(best@));
                assert(is_best(name@, name_set(all_tags@), best@));
            }
            fixed
        },
        None => name.to_owned(),
    }
}

} // verus!
