use vstd::prelude::*;
use vstd::seq_lib::group_to_multiset_ensures;

use crate::errors::PQRSError;
use crate::format::{print_row, Formats};
use crate::gateway;
use crate::gateway::rows_len_of;
use crate::stream::min_nat;

verus! {

/// The row ordinals `0 .. n`, in order.
pub open spec fn index_range(n: nat) -> Seq<u64> {
    Seq::new(n, |i: int| i as u64)
}

/// How many of the positions below `total` the index set selects.
pub open spec fn selected_count(idxs: Seq<u64>, total: nat) -> nat
    decreases total,
{
    if total == 0 {
        0
    } else {
        selected_count(idxs, (total - 1) as nat) + if idxs.contains((total - 1) as u64) {
            1nat
        } else {
            0nat
        }
    }
}

/// A sample drawn over the whole ordinal range selects every row: when every
/// position below `total` is in the index set, the count of selected
/// positions is the total itself.
pub proof fn lemma_sample_of_everything(idxs: Seq<u64>, total: nat)
    requires
        total <= u64::MAX,
        forall|p: u64| p < total ==> idxs.contains(p),
    ensures
        selected_count(idxs, total) == total,
    decreases total,
{
    if total > 0 {
        lemma_sample_of_everything(idxs, (total - 1) as nat);
        assert(idxs.contains((total - 1) as u64));
    }
}

/// An empty index set selects nothing.
pub proof fn lemma_empty_sample(idxs: Seq<u64>, total: nat)
    requires
        idxs.len() == 0,
    ensures
        selected_count(idxs, total) == 0,
    decreases total,
{
    if total > 0 {
        lemma_empty_sample(idxs, (total - 1) as nat);
        assert(!idxs.contains((total - 1) as u64));
    }
}

/// Builds the sample's ordinal positions: the dense range `0 .. total_rows`,
/// shuffled by a uniform pseudo-random permutation, truncated to the first
/// `min(sample_size, total_rows)` entries. Which positions remain depends on
/// the generator; their number does not, every position is below
/// `total_rows`, none repeats (the draw is without replacement), and a
/// sample at least as large as the file keeps every position.
pub fn build_sample_indexes(total_rows: u64, sample_size: usize) -> (r: Vec<u64>)
    ensures
        r@.len() == min_nat(sample_size as nat, total_rows as nat),
        forall|j: int| 0 <= j < r@.len() ==> r@[j] < total_rows,
        r@.no_duplicates(),
        sample_size >= total_rows ==> forall|p: u64| p < total_rows ==> r@.contains(p),
{
    broadcast use group_to_multiset_ensures;

    let mut v: Vec<u64> = Vec::new();
    let mut i: u64 = 0;
    while i < total_rows
        invariant
            0 <= i <= total_rows,
            v@ =~= index_range(i as nat),
        decreases total_rows - i,
    {
        v.push(i);
        proof {
            assert(v@ =~= index_range((i + 1) as nat));
        }
        i = i + 1;
    }
    let ghost range = index_range(total_rows as nat);
    gateway::shuffle_indexes(&mut v);
    proof {
        assert(v@.len() == range.len()) by {
            assert(v@.to_multiset().len() == range.to_multiset().len());
        }
        assert forall|j: int| 0 <= j < v@.len() implies v@[j] < total_rows by {
            assert(v@.contains(v@[j]));
            assert(v@.to_multiset().count(v@[j]) > 0);
            assert(range.to_multiset().count(v@[j]) > 0);
            assert(range.contains(v@[j]));
            let w = choose|w: int| 0 <= w < range.len() && range[w] == v@[j];
            assert(range[w] < total_rows);
        }
    }
    proof {
        assert(range.no_duplicates());
        range.lemma_multiset_has_no_duplicates();
        v@.lemma_multiset_has_no_duplicates_conv();
    }
    let keep: usize = if total_rows < sample_size as u64 {
        total_rows as usize
    } else {
        sample_size
    };
    let ghost before = v@;
    v.truncate(keep);
    proof {
        if sample_size >= total_rows {
            assert(keep as nat == total_rows as nat);
            assert(v@ =~= before);
            assert forall|p: u64| p < total_rows implies v@.contains(p) by {
                assert(range.contains(p)) by {
                    assert(range[p as int] == p);
                }
                assert(range.to_multiset().count(p) > 0);
                assert(before.to_multiset().count(p) > 0);
                assert(before.contains(p));
            }
        } else {
            assert(v@ =~= before.subrange(0, keep as int));
            assert forall|j: int| 0 <= j < v@.len() implies v@[j] < total_rows by {
                assert(v@[j] == before[j]);
            }
            assert(v@.no_duplicates()) by {
                assert(forall|j: int| 0 <= j < v@.len() ==> v@[j] == before[j]);
            }
        }
    }
    v
}

/// Whether the index set holds the position `x`.
fn contains_index(v: &Vec<u64>, x: u64) -> (r: bool)
    ensures
        r == v@.contains(x),
{
    let mut i: usize = 0;
    while i < v.len()
        invariant
            0 <= i <= v@.len(),
            forall|j: int| 0 <= j < i ==> v@[j] != x,
        decreases v@.len() - i,
    {
        if v[i] == x {
            return true;
        }
        i = i + 1;
    }
    proof {
        assert(!v@.contains(x));
    }
    false
}

/// Walks every row of `it` in physical order and prints, in `format`, exactly
/// those rows whose ordinal position is in `indexes`. Rows are emitted as
/// encountered, never reordered. Returns how many rows were printed; the
/// count saturates at `usize::MAX`. Every remaining row must render (see
/// `rows_render`), since the format library's renderers abort otherwise.
pub fn print_selected_rows(
    it: &mut parquet::record::reader::RowIter<'static>,
    indexes: &Vec<u64>,
    format: Formats,
) -> (r: Result<usize, PQRSError>)
    requires
        gateway::rows_render(*old(it)),
    ensures
        r is Ok ==> rows_len_of(*old(it)) <= u64::MAX && r->Ok_0 as nat == min_nat(
            selected_count(indexes@, rows_len_of(*old(it))),
            usize::MAX as nat,
        ),
        r is Ok ==> rows_len_of(*final(it)) == 0,
        r is Err ==> r matches Err(PQRSError::ParquetError(_)),
{
    let mut printed: usize = 0;
    let mut pos: u64 = 0;
    loop
        invariant_except_break
            gateway::rows_render(*it),
            rows_len_of(*it) + pos as nat == rows_len_of(*old(it)),
            printed as nat == min_nat(selected_count(indexes@, pos as nat), usize::MAX as nat),
        ensures
            rows_len_of(*it) == 0,
            rows_len_of(*old(it)) == pos as nat,
            printed as nat == min_nat(selected_count(indexes@, pos as nat), usize::MAX as nat),
        decreases rows_len_of(*it),
    {
        match gateway::next_row(it) {
            Err(e) => {
                return Err(e);
            },
            Ok(None) => {
                break ;
            },
            Ok(Some(row)) => {
                if contains_index(indexes, pos) {
                    let _ = print_row(&row, format);
                    if printed < usize::MAX {
                        printed = printed + 1;
                    }
                }
                if pos == u64::MAX {
                    return Err(PQRSError::ParquetError(
                        "row position overflows a 64-bit counter".to_owned(),
                    ));
                }
                pos = pos + 1;
            },
        }
    }
    Ok(printed)
}

/// Prints a uniformly random sample of `sample_size` distinct rows off
/// `it`, in physical order: the dense ordinal range over `total_rows` (the
/// file's footer row count) is shuffled and truncated, and every row is
/// then tested against the drawn positions as it streams by. A sample size
/// of zero prints nothing; when the sample covers the whole range and the
/// footer count matches the stream's length, every row prints exactly once.
pub fn print_rows_random(
    it: &mut parquet::record::reader::RowIter<'static>,
    total_rows: u64,
    sample_size: usize,
    format: Formats,
) -> (r: Result<usize, PQRSError>)
    requires
        gateway::rows_render(*old(it)),
    ensures
        r is Ok && sample_size == 0 ==> r->Ok_0 == 0,
        (r is Ok && sample_size >= total_rows && rows_len_of(*old(it)) == total_rows as nat)
            ==> r->Ok_0 as nat == min_nat(total_rows as nat, usize::MAX as nat),
        r is Err ==> r matches Err(PQRSError::ParquetError(_)),
{
    let indexes = build_sample_indexes(total_rows, sample_size);
    let ghost pre = rows_len_of(*it);
    let r = print_selected_rows(it, &indexes, format);
    proof {
        if sample_size == 0 {
            lemma_empty_sample(indexes@, pre);
        }
        if sample_size >= total_rows && pre == total_rows as nat {
            lemma_sample_of_everything(indexes@, total_rows as nat);
        }
    }
    r
}

} // verus!
