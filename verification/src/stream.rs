use vstd::prelude::*;

use crate::errors::PQRSError;
use crate::format::{print_row, Formats};
use crate::gateway;
use crate::gateway::rows_len_of;

verus! {

/// The smaller of two naturals.
pub open spec fn min_nat(a: nat, b: nat) -> nat {
    if a <= b {
        a
    } else {
        b
    }
}

/// The spec view of an optional row limit.
pub open spec fn limit_view(limit: Option<usize>) -> Option<nat> {
    match limit {
        Option::None => Option::None,
        Option::Some(k) => Option::Some(k as nat),
    }
}

/// How many rows a bounded stream emits from a source holding `total` rows
/// when the caller asks for at most `limit` of them: every row when no limit
/// is given, and otherwise exactly the limit, capped by what is there.
pub open spec fn bounded_count(total: nat, limit: Option<nat>) -> nat {
    match limit {
        Option::None => total,
        Option::Some(k) => min_nat(k, total),
    }
}

/// Streams rows off `it` in physical order, printing each in `format`, until
/// the source is exhausted or `num_records` rows have been printed. Returns
/// how many rows were printed; the count saturates at `usize::MAX` while the
/// stream itself still runs to its bound. Every remaining row must render
/// (see `rows_render`); a caller that cannot establish that aborts inside
/// the format library on an out-of-range temporal value, as the original
/// tool does.
pub fn print_row_stream(
    it: &mut parquet::record::reader::RowIter<'static>,
    num_records: Option<usize>,
    format: Formats,
) -> (r: Result<usize, PQRSError>)
    requires
        gateway::rows_render(*old(it)),
    ensures
        r is Ok ==> r->Ok_0 as nat == min_nat(
            bounded_count(rows_len_of(*old(it)), limit_view(num_records)),
            usize::MAX as nat,
        ),
        r is Ok ==> rows_len_of(*final(it)) + bounded_count(
            rows_len_of(*old(it)),
            limit_view(num_records),
        ) == rows_len_of(*old(it)),
        num_records matches Some(k) ==> (k == 0 ==> r is Ok && r->Ok_0 == 0),
        r is Err ==> r matches Err(PQRSError::ParquetError(_)),
{
    let mut printed: usize = 0;
    let ghost mut consumed: nat = 0nat;
    loop
        invariant_except_break
            gateway::rows_render(*it),
            rows_len_of(*it) + consumed == rows_len_of(*old(it)),
            printed as nat == min_nat(consumed, usize::MAX as nat),
            num_records matches Some(k) ==> consumed <= k as nat,
        ensures
            rows_len_of(*it) + consumed == rows_len_of(*old(it)),
            printed as nat == min_nat(consumed, usize::MAX as nat),
            match num_records {
                Option::Some(k) => consumed == k as nat || (rows_len_of(*it) == 0 && consumed
                    <= k as nat),
                Option::None => rows_len_of(*it) == 0,
            },
        decreases rows_len_of(*it),
    {
        if let Some(k) = num_records {
            if printed >= k {
                break ;
            }
        }
        match gateway::next_row(it) {
            Err(e) => {
                return Err(e);
            },
            Ok(None) => {
                break ;
            },
            Ok(Some(row)) => {
                let _ = print_row(&row, format);
                if printed < usize::MAX {
                    printed = printed + 1;
                }
                proof {
                    consumed = consumed + 1;
                }
            },
        }
    }
    Ok(printed)
}

/// The total number of rows across a sequence of batch row counts.
pub open spec fn sum_sizes(s: Seq<nat>) -> nat
    decreases s.len(),
{
    if s.len() == 0 {
        0
    } else {
        s[0] + sum_sizes(s.skip(1))
    }
}

/// The emission plan of the bounded batch stream: how many rows of each
/// incoming batch are emitted, given the batches' row counts in order and an
/// optional row budget. A batch within the budget is emitted whole; the batch
/// that would cross it is truncated to the remaining budget, and nothing
/// after it is read.
pub open spec fn emit_counts(sizes: Seq<nat>, limit: Option<nat>) -> Seq<nat>
    decreases sizes.len(),
{
    if sizes.len() == 0 {
        Seq::empty()
    } else {
        match limit {
            Option::None => seq![sizes[0]] + emit_counts(sizes.skip(1), Option::None),
            Option::Some(k) => if k == 0 {
                Seq::empty()
            } else if sizes[0] <= k {
                seq![sizes[0]] + emit_counts(sizes.skip(1), Option::Some((k - sizes[0]) as nat))
            } else {
                seq![k]
            },
        }
    }
}

/// Without a limit, every batch is emitted whole.
pub proof fn lemma_emit_counts_unbounded(sizes: Seq<nat>)
    ensures
        emit_counts(sizes, Option::None) =~= sizes,
    decreases sizes.len(),
{
    if sizes.len() > 0 {
        lemma_emit_counts_unbounded(sizes.skip(1));
        assert(emit_counts(sizes, Option::None) =~= seq![sizes[0]] + sizes.skip(1));
        assert(seq![sizes[0]] + sizes.skip(1) =~= sizes);
    }
}

/// A bounded stream over batches totalling `sum_sizes(sizes)` rows emits
/// exactly the limit, capped by what is there.
pub proof fn lemma_emit_counts_total(sizes: Seq<nat>, k: nat)
    ensures
        sum_sizes(emit_counts(sizes, Option::Some(k))) == min_nat(k, sum_sizes(sizes)),
    decreases sizes.len(),
{
    if sizes.len() == 0 {
    } else if k == 0 {
    } else if sizes[0] <= k {
        let rest = emit_counts(sizes.skip(1), Option::Some((k - sizes[0]) as nat));
        lemma_emit_counts_total(sizes.skip(1), (k - sizes[0]) as nat);
        assert((seq![sizes[0]] + rest).skip(1) =~= rest);
        assert(sum_sizes(seq![sizes[0]] + rest) == sizes[0] + sum_sizes(rest));
    } else {
        let single: Seq<nat> = seq![k];
        assert(single.skip(1) =~= Seq::<nat>::empty());
        assert(sum_sizes(single.skip(1)) == 0);
        assert(sum_sizes(single) == single[0] + sum_sizes(single.skip(1)));
    }
}

/// A sink that renders whole batches to standard output.
pub enum BatchSink {
    Json(gateway::JsonStdoutSink),
    Csv(gateway::CsvStdoutSink),
}

/// The row counts of the batches written to the sink so far, in order.
pub open spec fn sink_rows(s: BatchSink) -> Seq<nat> {
    match s {
        BatchSink::Json(j) => gateway::json_sink_rows(j),
        BatchSink::Csv(c) => gateway::csv_sink_rows(c),
    }
}

/// Writes one batch to whichever sink is in use.
fn sink_write(sink: &mut BatchSink, b: &gateway::Batch) -> (r: Result<(), PQRSError>)
    ensures
        r is Ok ==> sink_rows(*final(sink)) == sink_rows(*old(sink)).push(
            gateway::batch_rows_of(*b),
        ),
        (*final(sink)) is Json <==> (*old(sink)) is Json,
        r is Err ==> r matches Err(PQRSError::ArrowReadWriteError(_)),
{
    match sink {
        BatchSink::Json(j) => gateway::json_sink_write(j, b),
        BatchSink::Csv(c) => gateway::csv_sink_write(c, b),
    }
}

/// Streams batches off `source` in physical order and renders them to
/// standard output in `format`, truncating the batch that would cross the
/// `num_records` budget and reading nothing after it. Returns how many rows
/// were emitted; the count saturates at `usize::MAX`. The native format
/// renders row by row, not over batches, and is reported as unsupported.
pub fn print_batches(
    source: &mut gateway::BatchSource,
    num_records: Option<usize>,
    format: Formats,
) -> (r: Result<usize, PQRSError>)
    ensures
        format is Default ==> r == Err::<usize, PQRSError>(PQRSError::UnsupportedOperation),
        (format is Csv || format is CsvNoHeader) ==> (num_records matches Some(k) ==> (k == 0
            ==> r is Ok && r->Ok_0 == 0)),
        !(format is Default) && r is Err ==> r matches Err(PQRSError::ArrowReadWriteError(_)),
        !(format is Default) && r is Ok ==> r->Ok_0 as nat == min_nat(
            bounded_count(
                sum_sizes(gateway::batch_sizes_of(*old(source))),
                limit_view(num_records),
            ),
            usize::MAX as nat,
        ),
        !(format is Default) && r is Ok ==> gateway::batch_sizes_of(*final(source))
            == gateway::batch_sizes_of(*old(source)).skip(
            emit_counts(gateway::batch_sizes_of(*old(source)), limit_view(num_records)).len() as int,
        ),
{
    let mut sink: BatchSink = match format {
        Formats::Default => {
            return Err(PQRSError::UnsupportedOperation);
        },
        Formats::Json => BatchSink::Json(gateway::new_json_stdout_sink()),
        Formats::Csv => BatchSink::Csv(gateway::new_csv_stdout_sink(true)),
        Formats::CsvNoHeader => BatchSink::Csv(gateway::new_csv_stdout_sink(false)),
    };
    let ghost sizes0 = gateway::batch_sizes_of(*source);
    let ghost limit0 = limit_view(num_records);
    let mut left: Option<usize> = num_records;
    let mut printed: usize = 0;
    let ghost mut emitted: Seq<nat> = Seq::empty();
    loop
        invariant_except_break
            !(format is Default),
            sink is Json <==> format is Json,
            limit_view(num_records) == Option::Some(0nat) ==> left == Option::Some(0usize),
            emitted.len() <= sizes0.len(),
            gateway::batch_sizes_of(*source) == sizes0.skip(emitted.len() as int),
            emit_counts(sizes0, limit0) =~= emitted + emit_counts(
                gateway::batch_sizes_of(*source),
                limit_view(left),
            ),
            sink_rows(sink) =~= emitted,
            printed as nat == min_nat(sum_sizes(emitted), usize::MAX as nat),
            limit0 is None <==> left is None,
        ensures
            sink is Json <==> format is Json,
            emitted =~= emit_counts(sizes0, limit0),
            gateway::batch_sizes_of(*source) == sizes0.skip(emitted.len() as int),
            printed as nat == min_nat(sum_sizes(emitted), usize::MAX as nat),
        decreases gateway::batch_sizes_of(*source).len(),
    {
        if let Some(l) = left {
            if l == 0 {
                proof {
                    lemma_emit_counts_empty_budget(gateway::batch_sizes_of(*source));
                    assert(emitted + Seq::<nat>::empty() =~= emitted);
                }
                break ;
            }
        }
        let next = match gateway::next_batch(source) {
            Ok(n) => n,
            Err(e) => {
                return Err(e);
            },
        };
        let b = match next {
            None => {
                proof {
                    assert(emitted + Seq::<nat>::empty() =~= emitted);
                }
                break ;
            },
            Some(b) => b,
        };
        let rows = gateway::batch_num_rows(&b);
        let ghost rem_before = sizes0.skip(emitted.len() as int);
        match left {
            None => {
                if let Err(e) = sink_write(&mut sink, &b) {
                    return Err(e);
                }
                proof {
                    lemma_push_is_append_one(emitted, rows as nat);
                    lemma_sum_sizes_push(emitted, rows as nat);
                    assert(emitted.push(rows as nat) + emit_counts(
                        rem_before.skip(1),
                        limit_view(left),
                    ) =~= emitted + (seq![rows as nat] + emit_counts(
                        rem_before.skip(1),
                        limit_view(left),
                    )));
                    emitted = emitted.push(rows as nat);
                }
                if rows > usize::MAX - printed {
                    printed = usize::MAX;
                } else {
                    printed = printed + rows;
                }
            },
            Some(l) => {
                if rows <= l {
                    if let Err(e) = sink_write(&mut sink, &b) {
                        return Err(e);
                    }
                    left = Some(l - rows);
                    proof {
                        lemma_push_is_append_one(emitted, rows as nat);
                        lemma_sum_sizes_push(emitted, rows as nat);
                        assert(emitted.push(rows as nat) + emit_counts(
                            rem_before.skip(1),
                            Option::Some((l - rows) as nat),
                        ) =~= emitted + (seq![rows as nat] + emit_counts(
                            rem_before.skip(1),
                            Option::Some((l - rows) as nat),
                        )));
                        emitted = emitted.push(rows as nat);
                    }
                    if rows > usize::MAX - printed {
                        printed = usize::MAX;
                    } else {
                        printed = printed + rows;
                    }
                } else {
                    let pb = gateway::batch_prefix(&b, l);
                    if let Err(e) = sink_write(&mut sink, &pb) {
                        return Err(e);
                    }
                    proof {
                        lemma_push_is_append_one(emitted, l as nat);
                        lemma_sum_sizes_push(emitted, l as nat);
                        assert(emit_counts(rem_before, Option::Some(l as nat)) =~= seq![l as nat]);
                        assert(emitted + seq![l as nat] =~= emitted.push(l as nat));
                        emitted = emitted.push(l as nat);
                    }
                    if l > usize::MAX - printed {
                        printed = usize::MAX;
                    } else {
                        printed = printed + l;
                    }
                    proof {
                        assert(gateway::batch_sizes_of(*source) == sizes0.skip(
                            emitted.len() as int,
                        )) by {
                            assert(rem_before.skip(1) =~= sizes0.skip(emitted.len() as int));
                        }
                    }
                    break ;
                }
            },
        }
        proof {
            assert(gateway::batch_sizes_of(*source) =~= sizes0.skip(emitted.len() as int)) by {
                assert(rem_before.skip(1) =~= sizes0.skip(emitted.len() as int));
            }
        }
    }
    if let BatchSink::Json(ref mut j) = sink {
        if let Err(e) = gateway::json_sink_finish(j) {
            return Err(e);
        }
    }
    proof {
        match limit0 {
            Option::Some(k) => lemma_emit_counts_total(sizes0, k),
            Option::None => lemma_emit_counts_unbounded(sizes0),
        }
    }
    Ok(printed)
}

/// With an exhausted budget nothing more is emitted, whatever remains.
proof fn lemma_emit_counts_empty_budget(sizes: Seq<nat>)
    ensures
        emit_counts(sizes, Option::Some(0nat)) =~= Seq::<nat>::empty(),
{
}

/// Appending one element is the same as pushing it.
proof fn lemma_push_is_append_one(s: Seq<nat>, x: nat)
    ensures
        s.push(x) =~= s + seq![x],
{
}

/// Pushing one more count onto a sequence adds it to the total.
proof fn lemma_sum_sizes_push(s: Seq<nat>, x: nat)
    ensures
        sum_sizes(s.push(x)) == sum_sizes(s) + x,
    decreases s.len(),
{
    if s.len() == 0 {
        assert(s.push(x).skip(1) =~= Seq::<nat>::empty());
        assert(s.push(x)[0] == x);
        assert(sum_sizes(Seq::<nat>::empty()) == 0);
        assert(sum_sizes(s.push(x)) == x + sum_sizes(s.push(x).skip(1)));
    } else {
        assert(s.push(x).skip(1) =~= s.skip(1).push(x));
        lemma_sum_sizes_push(s.skip(1), x);
        assert(s.push(x)[0] == s[0]);
        assert(sum_sizes(s.push(x)) == s[0] + sum_sizes(s.push(x).skip(1)));
    }
}

/// One step of a prefix sum: taking one more batch adds its row count.
proof fn lemma_sum_take_succ(sizes: Seq<nat>, j: int)
    requires
        0 <= j < sizes.len(),
    ensures
        sum_sizes(sizes.take(j + 1)) == sum_sizes(sizes.take(j)) + sizes[j],
    decreases j,
{
    if j == 0 {
        assert(sizes.take(0) =~= Seq::<nat>::empty());
        assert(sizes.take(1) =~= seq![sizes[0]]);
        assert(sizes.take(1).skip(1) =~= Seq::<nat>::empty());
        assert(sum_sizes(sizes.take(1)) == sizes[0] + sum_sizes(sizes.take(1).skip(1)));
    } else {
        lemma_sum_take_succ(sizes.skip(1), j - 1);
        assert(sizes.take(j + 1).skip(1) =~= sizes.skip(1).take(j));
        assert(sizes.take(j).skip(1) =~= sizes.skip(1).take(j - 1));
        assert(sizes.take(j + 1)[0] == sizes[0]);
        assert(sizes.take(j)[0] == sizes[0]);
        assert(sum_sizes(sizes.take(j + 1)) == sizes[0] + sum_sizes(sizes.skip(1).take(j)));
        assert(sum_sizes(sizes.take(j)) == sizes[0] + sum_sizes(sizes.skip(1).take(j - 1)));
        assert(sizes.skip(1)[j - 1] == sizes[j]);
    }
}

/// Prefix sums grow with the prefix.
proof fn lemma_sum_take_mono(sizes: Seq<nat>, i: int, j: int)
    requires
        0 <= i <= j <= sizes.len(),
    ensures
        sum_sizes(sizes.take(i)) <= sum_sizes(sizes.take(j)),
    decreases j - i,
{
    if i < j {
        lemma_sum_take_succ(sizes, j - 1);
        lemma_sum_take_mono(sizes, i, j - 1);
    }
}

/// When the row budget falls strictly inside batch `j` (the first `j`
/// batches hold fewer rows than the budget, and batch `j` crosses it), the
/// bounded batch stream emits the first `j` batches whole, truncates batch
/// `j` to exactly the remaining budget, and reads no batch after it.
pub proof fn lemma_limit_inside_batch(sizes: Seq<nat>, k: nat, j: int)
    requires
        0 <= j < sizes.len(),
        sum_sizes(sizes.take(j)) < k,
        k < sum_sizes(sizes.take(j + 1)),
    ensures
        emit_counts(sizes, Option::Some(k)).len() == j + 1,
        forall|i: int| 0 <= i < j ==> emit_counts(sizes, Option::Some(k))[i] == sizes[i],
        emit_counts(sizes, Option::Some(k))[j] == k - sum_sizes(sizes.take(j)),
    decreases j,
{
    lemma_sum_take_succ(sizes, j);
    if j == 0 {
        assert(sizes.take(0) =~= Seq::<nat>::empty());
        assert(sum_sizes(sizes.take(0)) == 0);
        assert(k < sizes[0]);
        assert(emit_counts(sizes, Option::Some(k)) =~= seq![k]);
    } else {
        assert(sizes.take(1) =~= seq![sizes[0]]);
        assert(sum_sizes(seq![sizes[0]]) == sizes[0]) by {
            let single: Seq<nat> = seq![sizes[0]];
            assert(single.skip(1) =~= Seq::<nat>::empty());
            assert(sum_sizes(single.skip(1)) == 0);
            assert(sum_sizes(single) == single[0] + sum_sizes(single.skip(1)));
        }
        lemma_sum_take_mono(sizes, 1, j);
        assert(sizes[0] <= sum_sizes(sizes.take(j)));
        assert(sizes[0] <= k);
        let k2 = (k - sizes[0]) as nat;
        assert(sizes.take(j).skip(1) =~= sizes.skip(1).take(j - 1));
        assert(sizes.take(j + 1).skip(1) =~= sizes.skip(1).take(j));
        assert(sum_sizes(sizes.take(j)) == sizes[0] + sum_sizes(sizes.skip(1).take(j - 1)));
        assert(sum_sizes(sizes.take(j + 1)) == sizes[0] + sum_sizes(sizes.skip(1).take(j)));
        lemma_limit_inside_batch(sizes.skip(1), k2, j - 1);
        let rest = emit_counts(sizes.skip(1), Option::Some(k2));
        assert(emit_counts(sizes, Option::Some(k)) =~= seq![sizes[0]] + rest);
        assert forall|i: int| 0 <= i < j implies (seq![sizes[0]] + rest)[i] == sizes[i] by {
            if i > 0 {
                assert(rest[i - 1] == sizes.skip(1)[i - 1]);
            }
        }
        assert((seq![sizes[0]] + rest)[j] == rest[j - 1]);
    }
}

/// What the bounded batch stream emits, batch by batch: whole batches within
/// the budget, then the prefix of the batch that crosses it, and nothing
/// after that.
pub open spec fn emitted_rows<T>(batches: Seq<Seq<T>>, limit: Option<nat>) -> Seq<T>
    decreases batches.len(),
{
    if batches.len() == 0 {
        Seq::empty()
    } else {
        match limit {
            Option::None => batches[0] + emitted_rows(batches.skip(1), Option::None),
            Option::Some(k) => if k == 0 {
                Seq::empty()
            } else if batches[0].len() <= k {
                batches[0] + emitted_rows(
                    batches.skip(1),
                    Option::Some((k - batches[0].len()) as nat),
                )
            } else {
                batches[0].take(k as int)
            },
        }
    }
}

/// The sum over a sequence of counts with one more count in front.
proof fn lemma_sum_cons(x: nat, rest: Seq<nat>)
    ensures
        sum_sizes(seq![x] + rest) == x + sum_sizes(rest),
{
    assert((seq![x] + rest).skip(1) =~= rest);
    assert((seq![x] + rest)[0] == x);
    assert(sum_sizes(seq![x] + rest) == x + sum_sizes((seq![x] + rest).skip(1)));
}

/// The rows the bounded batch stream emits number exactly what its emission
/// plan counts: the plan over the batches' row counts sums to the length of
/// the emitted row sequence.
pub proof fn lemma_emitted_rows_len<T>(batches: Seq<Seq<T>>, limit: Option<nat>)
    ensures
        emitted_rows(batches, limit).len() == sum_sizes(
            emit_counts(batches.map_values(|b: Seq<T>| b.len()), limit),
        ),
    decreases batches.len(),
{
    let lens = batches.map_values(|b: Seq<T>| b.len());
    if batches.len() == 0 {
    } else {
        assert(lens[0] == batches[0].len());
        assert(batches.skip(1).map_values(|b: Seq<T>| b.len()) =~= lens.skip(1));
        match limit {
            Option::None => {
                lemma_emitted_rows_len(batches.skip(1), Option::None);
                lemma_sum_cons(lens[0], emit_counts(lens.skip(1), Option::None));
            },
            Option::Some(k) => {
                if k == 0 {
                } else if batches[0].len() <= k {
                    let k2 = (k - batches[0].len()) as nat;
                    lemma_emitted_rows_len(batches.skip(1), Option::Some(k2));
                    lemma_sum_cons(lens[0], emit_counts(lens.skip(1), Option::Some(k2)));
                } else {
                    lemma_sum_cons(k, Seq::<nat>::empty());
                    assert(seq![k] + Seq::<nat>::empty() =~= seq![k]);
                }
            },
        }
    }
}

/// The rows that the bounded batch stream emits are exactly the first
/// `min(k, total)` rows of the unbounded stream, in order: limiting never
/// depends on batch boundaries aligning with the requested limit.
pub proof fn lemma_bounded_stream_prefix<T>(batches: Seq<Seq<T>>, k: nat)
    ensures
        emitted_rows(batches, Option::Some(k)) =~= batches.flatten().take(
            min_nat(k, batches.flatten().len() as nat) as int,
        ),
    decreases batches.len(),
{
    if batches.len() == 0 {
        assert(batches.flatten() =~= Seq::<T>::empty());
    } else {
        let b0 = batches[0];
        let rest = batches.skip(1);
        assert(batches.drop_first() =~= rest);
        assert(batches.first() == b0);
        assert(batches.flatten() =~= b0 + rest.flatten());
        if k == 0 {
        } else if b0.len() <= k {
            lemma_bounded_stream_prefix(rest, (k - b0.len()) as nat);
            let m = min_nat((k - b0.len()) as nat, rest.flatten().len() as nat);
            assert(min_nat(k, batches.flatten().len() as nat) == b0.len() + m);
            assert((b0 + rest.flatten()).take((b0.len() + m) as int) =~= b0 + rest.flatten().take(
                m as int,
            ));
        } else {
            assert((b0 + rest.flatten()).take(k as int) =~= b0.take(k as int));
        }
    }
}

} // verus!
