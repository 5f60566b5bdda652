use vstd::prelude::*;

use crate::errors::PQRSError;
use crate::gateway;

verus! {

/// The footer metadata of one row group: how many rows it holds and how many
/// bytes its column chunks take, before and after compression.
#[derive(Debug, Clone, Copy, PartialEq, Eq)]
pub struct RowGroupMeta {
    /// Number of rows stored in this row group.
    pub num_rows: i64,
    /// Total uncompressed byte size of this row group's column chunks.
    pub total_byte_size: i64,
    /// Total compressed byte size of this row group's column chunks.
    pub compressed_size: i64,
}

/// The decoded footer of one file: its row groups in file order, plus the
/// file-level fields that the schema report shows.
#[derive(Debug, Clone, PartialEq, Eq)]
pub struct FileMeta {
    /// Per-row-group metadata, in the order the row groups appear in the file.
    pub row_groups: Vec<RowGroupMeta>,
    /// Format version recorded in the footer.
    pub version: i32,
    /// Total row count recorded in the footer.
    pub num_rows: i64,
    /// The application that wrote the file, when recorded.
    pub created_by: Option<String>,
}

/// The sum of the row counts of a sequence of row groups.
pub open spec fn total_rows(gs: Seq<RowGroupMeta>) -> int
    decreases gs.len(),
{
    if gs.len() == 0 {
        0
    } else {
        total_rows(gs.drop_last()) + gs.last().num_rows
    }
}

/// The sum of the uncompressed byte sizes of a sequence of row groups.
pub open spec fn total_uncompressed(gs: Seq<RowGroupMeta>) -> int
    decreases gs.len(),
{
    if gs.len() == 0 {
        0
    } else {
        total_uncompressed(gs.drop_last()) + gs.last().total_byte_size
    }
}

/// The sum of the compressed byte sizes of a sequence of row groups.
pub open spec fn total_compressed(gs: Seq<RowGroupMeta>) -> int
    decreases gs.len(),
{
    if gs.len() == 0 {
        0
    } else {
        total_compressed(gs.drop_last()) + gs.last().compressed_size
    }
}

/// Every row group reports a non-negative row count.
pub open spec fn rows_nonneg(gs: Seq<RowGroupMeta>) -> bool {
    forall|i: int| 0 <= i < gs.len() ==> (#[trigger] gs[i]).num_rows >= 0
}

/// Every row group reports non-negative byte sizes.
pub open spec fn sizes_nonneg(gs: Seq<RowGroupMeta>) -> bool {
    forall|i: int|
        0 <= i < gs.len() ==> (#[trigger] gs[i]).total_byte_size >= 0 && gs[i].compressed_size >= 0
}

proof fn lemma_total_take_step(gs: Seq<RowGroupMeta>, i: int)
    requires
        0 <= i < gs.len(),
    ensures
        total_rows(gs.take(i + 1)) == total_rows(gs.take(i)) + gs[i].num_rows,
        total_uncompressed(gs.take(i + 1)) == total_uncompressed(gs.take(i))
            + gs[i].total_byte_size,
        total_compressed(gs.take(i + 1)) == total_compressed(gs.take(i)) + gs[i].compressed_size,
{
    assert(gs.take(i + 1).drop_last() =~= gs.take(i));
    assert(gs.take(i + 1).last() == gs[i]);
}

/// When every row count is non-negative, the sum over a prefix never exceeds
/// the sum over the whole sequence.
proof fn lemma_total_rows_prefix(gs: Seq<RowGroupMeta>, i: int)
    requires
        rows_nonneg(gs),
        0 <= i <= gs.len(),
    ensures
        total_rows(gs.take(i)) <= total_rows(gs),
    decreases gs.len(),
{
    if i == gs.len() {
        assert(gs.take(i) =~= gs);
    } else {
        assert(gs.drop_last().take(i) =~= gs.take(i));
        assert(rows_nonneg(gs.drop_last()));
        lemma_total_rows_prefix(gs.drop_last(), i);
    }
}

/// When every byte size is non-negative, the size sums over a prefix never
/// exceed the sums over the whole sequence.
proof fn lemma_total_sizes_prefix(gs: Seq<RowGroupMeta>, i: int)
    requires
        sizes_nonneg(gs),
        0 <= i <= gs.len(),
    ensures
        total_uncompressed(gs.take(i)) <= total_uncompressed(gs),
        total_compressed(gs.take(i)) <= total_compressed(gs),
    decreases gs.len(),
{
    if i == gs.len() {
        assert(gs.take(i) =~= gs);
    } else {
        assert(gs.drop_last().take(i) =~= gs.take(i));
        assert(sizes_nonneg(gs.drop_last()));
        lemma_total_sizes_prefix(gs.drop_last(), i);
    }
}

/// The number of rows in a file is the sum of the row counts of its row
/// groups. Returns an error when the metadata reports a negative count
/// (a structurally invalid footer) or when the sum does not fit in `i64`.
pub fn get_row_count(meta: &FileMeta) -> (r: Result<i64, PQRSError>)
    ensures
        r is Ok <==> rows_nonneg(meta.row_groups@) && total_rows(meta.row_groups@) <= i64::MAX,
        r is Ok ==> r->Ok_0 == total_rows(meta.row_groups@) && r->Ok_0 >= 0,
        r is Err ==> r matches Err(PQRSError::ParquetError(_)),
{
    let gs = &meta.row_groups;
    let mut acc: i64 = 0;
    let mut i: usize = 0;
    while i < gs.len()
        invariant
            gs@ == meta.row_groups@,
            0 <= i <= gs@.len(),
            acc == total_rows(gs@.take(i as int)),
            acc >= 0,
            forall|j: int| 0 <= j < i ==> (#[trigger] gs@[j]).num_rows >= 0,
        decreases gs@.len() - i,
    {
        let g = gs[i];
        if g.num_rows < 0 {
            proof {
                assert(!rows_nonneg(gs@)) by {
                    assert(gs@[i as int].num_rows < 0);
                }
            }
            return Err(PQRSError::ParquetError(
                "row group reports a negative row count".to_owned(),
            ));
        }
        proof {
            lemma_total_take_step(gs@, i as int);
        }
        if acc > i64::MAX - g.num_rows {
            proof {
                if rows_nonneg(gs@) {
                    lemma_total_rows_prefix(gs@, i as int + 1);
                    assert(total_rows(gs@) > i64::MAX);
                }
            }
            return Err(PQRSError::ParquetError(
                "total row count overflows a 64-bit integer".to_owned(),
            ));
        }
        acc = acc + g.num_rows;
        i = i + 1;
    }
    proof {
        assert(gs@.take(gs@.len() as int) =~= gs@);
    }
    Ok(acc)
}

/// The storage footprint of a file: the sums of the uncompressed and the
/// compressed byte sizes of its row groups, in that order. The footer itself
/// is not counted. Returns an error when the metadata reports a negative
/// size or when a sum does not fit in `i64`.
pub fn get_size(meta: &FileMeta) -> (r: Result<(i64, i64), PQRSError>)
    ensures
        r is Ok <==> sizes_nonneg(meta.row_groups@) && total_uncompressed(meta.row_groups@)
            <= i64::MAX && total_compressed(meta.row_groups@) <= i64::MAX,
        r is Ok ==> r->Ok_0.0 == total_uncompressed(meta.row_groups@) && r->Ok_0.1
            == total_compressed(meta.row_groups@),
        r is Ok ==> r->Ok_0.0 >= 0 && r->Ok_0.1 >= 0,
        r is Err ==> r matches Err(PQRSError::ParquetError(_)),
{
    let gs = &meta.row_groups;
    let mut unc: i64 = 0;
    let mut com: i64 = 0;
    let mut i: usize = 0;
    while i < gs.len()
        invariant
            gs@ == meta.row_groups@,
            0 <= i <= gs@.len(),
            unc == total_uncompressed(gs@.take(i as int)),
            com == total_compressed(gs@.take(i as int)),
            unc >= 0,
            com >= 0,
            forall|j: int|
                0 <= j < i ==> (#[trigger] gs@[j]).total_byte_size >= 0 && gs@[j].compressed_size
                    >= 0,
        decreases gs@.len() - i,
    {
        let g = gs[i];
        if g.total_byte_size < 0 || g.compressed_size < 0 {
            proof {
                assert(!sizes_nonneg(gs@)) by {
                    assert(gs@[i as int].total_byte_size < 0 || gs@[i as int].compressed_size < 0);
                }
            }
            return Err(PQRSError::ParquetError(
                "row group reports a negative byte size".to_owned(),
            ));
        }
        proof {
            lemma_total_take_step(gs@, i as int);
        }
        if unc > i64::MAX - g.total_byte_size || com > i64::MAX - g.compressed_size {
            proof {
                if sizes_nonneg(gs@) {
                    lemma_total_sizes_prefix(gs@, i as int + 1);
                    assert(total_uncompressed(gs@) > i64::MAX || total_compressed(gs@)
                        > i64::MAX);
                }
            }
            return Err(PQRSError::ParquetError(
                "total byte size overflows a 64-bit integer".to_owned(),
            ));
        }
        unc = unc + g.total_byte_size;
        com = com + g.compressed_size;
        i = i + 1;
    }
    proof {
        assert(gs@.take(gs@.len() as int) =~= gs@);
    }
    Ok((unc, com))
}

/// Reads the footer of the file at `path` and returns its total row count:
/// the sum of the row counts of its row groups.
pub fn file_row_count(path: &str) -> (r: Result<i64, PQRSError>)
    ensures
        r is Ok ==> r->Ok_0 >= 0,
        r is Err ==> r matches Err(PQRSError::ParquetError(_)),
{
    let file_meta = match gateway::read_file_meta(path) {
        Ok(m) => m,
        Err(e) => {
            return Err(e);
        },
    };
    get_row_count(&file_meta)
}

/// Reads the footer of the file at `path` and returns its uncompressed and
/// compressed byte sizes, in that order: the sums over its row groups,
/// excluding the footer itself.
pub fn file_size(path: &str) -> (r: Result<(i64, i64), PQRSError>)
    ensures
        r is Ok ==> r->Ok_0.0 >= 0 && r->Ok_0.1 >= 0,
        r is Err ==> r matches Err(PQRSError::ParquetError(_)),
{
    let file_meta = match gateway::read_file_meta(path) {
        Ok(m) => m,
        Err(e) => {
            return Err(e);
        },
    };
    get_size(&file_meta)
}

} // verus!
