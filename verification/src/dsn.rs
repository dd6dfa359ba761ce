//! Decisions of the distributed storage network (DSN) side of the node.
//!
//! Every archived segment is announced piece by piece: the pieces of segment
//! `s` get the indexes `s * pieces_in_segment`, `s * pieces_in_segment + 1`,
//! and so on, one for each piece of the segment. After all announcements
//! have finished, the first failed one is what gets reported.
use vstd::prelude::*;

verus! {

/// Index of the piece at `position` within segment `segment_index`, where
/// every segment spans `pieces_in_segment` indexes.
pub open spec fn piece_index(segment_index: int, pieces_in_segment: int, position: int) -> int {
    segment_index * pieces_in_segment + position
}

/// Index of the first piece of a segment.
pub fn first_piece_index(segment_index: u64, pieces_in_segment: u32) -> (res: u64)
    requires
        piece_index(segment_index as int, pieces_in_segment as int, 0) <= u64::MAX,
    ensures
        res == piece_index(segment_index as int, pieces_in_segment as int, 0),
        res == segment_index * pieces_in_segment,
{
    let pieces: u64 = pieces_in_segment as u64;
    segment_index * pieces
}

/// Whether the indexes of `piece_count` pieces of segment `segment_index`, and
/// the count past the last of them, fit in `u64`.
pub fn piece_index_count_fits(segment_index: u64, pieces_in_segment: u32, piece_count: usize) -> (res: bool)
    ensures
        res == (piece_index(segment_index as int, pieces_in_segment as int, piece_count as int)
            <= u64::MAX),
        res == (segment_index * pieces_in_segment + piece_count <= u64::MAX),
{
    let pieces: u64 = pieces_in_segment as u64;
    let count: u64 = piece_count as u64;
    match segment_index.checked_mul(pieces) {
        Some(first) => first.checked_add(count).is_some(),
        None => {
            assert(segment_index * pieces_in_segment + piece_count > u64::MAX) by (nonlinear_arith)
                requires
                    segment_index * pieces > u64::MAX,
                    pieces == pieces_in_segment,
                    piece_count >= 0,
            ;
            false
        },
    }
}

/// Indexes of the `piece_count` pieces of an archived segment, in order.
///
/// The indexes are counted upward from the first one, one step past the last
/// piece, so that count past the last piece must still fit in `u64`.
pub fn segment_piece_indexes(segment_index: u64, pieces_in_segment: u32, piece_count: usize) -> (res: Vec<u64>)
    requires
        piece_index(segment_index as int, pieces_in_segment as int, piece_count as int) <= u64::MAX,
    ensures
        res@.len() == piece_count,
        forall|i: int|
            0 <= i < piece_count ==> #[trigger] res@[i] == piece_index(
                segment_index as int,
                pieces_in_segment as int,
                i,
            ),
        forall|i: int|
            0 <= i < piece_count ==> #[trigger] res@[i] == segment_index * pieces_in_segment + i,
        piece_count > 0 ==> res@[0] == segment_index * pieces_in_segment,
        forall|i: int| 0 <= i < piece_count ==> #[trigger] res@[i] == res@[0] + i,
{
    let first = first_piece_index(segment_index, pieces_in_segment);
    let mut res: Vec<u64> = Vec::new();
    let mut i: usize = 0;
    while i < piece_count
        invariant
            i <= piece_count,
            first == piece_index(segment_index as int, pieces_in_segment as int, 0),
            first + piece_count <= u64::MAX,
            res@.len() == i,
            forall|j: int|
                0 <= j < i ==> #[trigger] res@[j] == piece_index(
                    segment_index as int,
                    pieces_in_segment as int,
                    j,
                ),
        decreases piece_count - i,
    {
        let position: u64 = i as u64;
        res.push(first + position);
        i = i + 1;
    }
    res
}

/// Position of the first failed announcement among the results of the
/// announcements of a segment, or `None` when all of them succeeded.
pub fn first_failed_announcement<T, E>(results: &Vec<Result<T, E>>) -> (res: Option<usize>)
    ensures
        match res {
            None => forall|i: int| 0 <= i < results@.len() ==> #[trigger] results@[i] is Ok,
            Some(k) => {
                &&& k < results@.len()
                &&& results@[k as int] is Err
                &&& forall|i: int| 0 <= i < k ==> #[trigger] results@[i] is Ok
            },
        },
{
    let mut i: usize = 0;
    while i < results.len()
        invariant
            i <= results@.len(),
            forall|j: int| 0 <= j < i ==> #[trigger] results@[j] is Ok,
        decreases results@.len() - i,
    {
        if results[i].is_err() {
            return Some(i);
        }
        i = i + 1;
    }
    None
}

/// Configuration of the node's DSN networking.
pub struct DsnConfig<K, A> {
    /// Identity keypair of the node in the DSN.
    pub keypair: K,
    /// Addresses to listen on.
    pub dsn_listen_on: Vec<A>,
    /// Bootstrap nodes.
    pub dsn_bootstrap_node: Vec<A>,
}

/// The DSN configuration of a full node: there is one exactly when the node
/// is asked to listen on at least one DSN address.
pub fn dsn_config<K, A>(keypair: K, dsn_listen_on: Vec<A>, dsn_bootstrap_node: Vec<A>) -> (res:
    Option<DsnConfig<K, A>>)
    ensures
        (res is Some) == (dsn_listen_on@.len() > 0),
        res matches Some(config) ==> {
            &&& config.keypair == keypair
            &&& config.dsn_listen_on@ == dsn_listen_on@
            &&& config.dsn_bootstrap_node@ == dsn_bootstrap_node@
        },
{
    if dsn_listen_on.len() > 0 {
        Some(DsnConfig { keypair, dsn_listen_on, dsn_bootstrap_node })
    } else {
        None
    }
}

/// Piece indexes are consecutive from the first piece of the segment: the
/// first piece of segment `s` has index `s * pieces_in_segment`, and each
/// further piece has the index of the piece before it plus one.
pub proof fn lemma_piece_indexes_consecutive(segment_index: u64, pieces_in_segment: u32, position: nat)
    ensures
        piece_index(segment_index as int, pieces_in_segment as int, 0) == segment_index
            * pieces_in_segment,
        piece_index(segment_index as int, pieces_in_segment as int, (position + 1) as int) == piece_index(
            segment_index as int,
            pieces_in_segment as int,
            position as int,
        ) + 1,
        piece_index(segment_index as int, pieces_in_segment as int, position as int) == segment_index
            * pieces_in_segment + position,
{
}

/// Consecutive segments are adjacent: the first piece of segment `s + 1`
/// directly follows the last of the `pieces_in_segment` pieces of segment `s`.
pub proof fn lemma_next_segment_follows(segment_index: u64, pieces_in_segment: u32)
    ensures
        piece_index(segment_index + 1, pieces_in_segment as int, 0) == piece_index(
            segment_index as int,
            pieces_in_segment as int,
            pieces_in_segment - 1,
        ) + 1,
{
    assert((segment_index + 1) * pieces_in_segment == segment_index * pieces_in_segment
        + pieces_in_segment) by (nonlinear_arith);
}

/// Pieces of different segments never share an index: within its segment a
/// piece's position is below `pieces_in_segment`, so its index determines
/// both its segment and its position.
pub proof fn lemma_piece_indexes_unique(
    segment_a: u64,
    position_a: u32,
    segment_b: u64,
    position_b: u32,
    pieces_in_segment: u32,
)
    requires
        position_a < pieces_in_segment,
        position_b < pieces_in_segment,
        piece_index(segment_a as int, pieces_in_segment as int, position_a as int) == piece_index(
            segment_b as int,
            pieces_in_segment as int,
            position_b as int,
        ),
    ensures
        segment_a == segment_b,
        position_a == position_b,
{
    let p = pieces_in_segment as int;
    let a = segment_a as int;
    let b = segment_b as int;
    if a < b {
        assert(a * p + p <= b * p) by (nonlinear_arith)
            requires
                a < b,
                p > 0,
        ;
    } else if b < a {
        assert(b * p + p <= a * p) by (nonlinear_arith)
            requires
                b < a,
                p > 0,
        ;
    }
}

} // verus!
