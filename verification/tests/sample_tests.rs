use std::sync::Arc;

use arrow::array::Int64Array;
use arrow::datatypes::{DataType, Field, Schema};
use arrow::record_batch::RecordBatch;
use parquet::arrow::ArrowWriter;
use parquet::file::reader::FileReader;
use parquet::file::serialized_reader::SerializedFileReader;
use parquet::record::reader::RowIter;

use pqrs::format::Formats;
use pqrs::sample::{build_sample_indexes, print_rows_random, print_selected_rows};

fn make_parquet(rows: i64) -> Vec<u8> {
    let schema = Arc::new(Schema::new(vec![Field::new("foo", DataType::Int64, false)]));
    let values: Vec<i64> = (0..rows).collect();
    let batch =
        RecordBatch::try_new(schema.clone(), vec![Arc::new(Int64Array::from(values))]).unwrap();
    let mut buf: Vec<u8> = Vec::new();
    let mut writer = ArrowWriter::try_new(&mut buf, schema, None).unwrap();
    writer.write(&batch).unwrap();
    writer.close().unwrap();
    buf
}

fn row_iter_over(data: Vec<u8>) -> RowIter<'static> {
    let reader = SerializedFileReader::new(bytes::Bytes::from(data)).unwrap();
    let boxed: Box<dyn FileReader> = Box::new(reader);
    RowIter::from_file_into(boxed)
}

#[test]
fn full_sample_keeps_every_position_once() {
    // A shuffle that dropped or duplicated a position would fail this.
    let mut indexes = build_sample_indexes(50, 50);
    assert_eq!(indexes.len(), 50);
    indexes.sort();
    let expected: Vec<u64> = (0..50).collect();
    assert_eq!(indexes, expected);
}

#[test]
fn oversized_sample_behaves_like_a_full_one() {
    let mut indexes = build_sample_indexes(5, 100);
    assert_eq!(indexes.len(), 5);
    indexes.sort();
    assert_eq!(indexes, vec![0, 1, 2, 3, 4]);
}

#[test]
fn empty_sample_selects_nothing() {
    let indexes = build_sample_indexes(5, 0);
    assert!(indexes.is_empty());
}

#[test]
fn partial_sample_has_the_requested_size_and_stays_in_range() {
    let mut indexes = build_sample_indexes(100, 10);
    assert_eq!(indexes.len(), 10);
    assert!(indexes.iter().all(|&i| i < 100));
    // Drawn without replacement: no duplicates.
    indexes.sort();
    indexes.dedup();
    assert_eq!(indexes.len(), 10);
}

#[test]
fn validate_sample() {
    // Selecting one known position prints exactly one row.
    let mut it = row_iter_over(make_parquet(3));
    let printed = print_selected_rows(&mut it, &vec![1], Formats::Default).unwrap();
    assert_eq!(printed, 1);
}

#[test]
fn selecting_every_position_prints_every_row_once() {
    let mut it = row_iter_over(make_parquet(4));
    let printed = print_selected_rows(&mut it, &vec![0, 1, 2, 3], Formats::Default).unwrap();
    assert_eq!(printed, 4);
}

#[test]
fn selecting_no_position_prints_nothing() {
    let mut it = row_iter_over(make_parquet(4));
    let printed = print_selected_rows(&mut it, &vec![], Formats::Default).unwrap();
    assert_eq!(printed, 0);
}

#[test]
fn sampling_the_whole_file_prints_every_row() {
    // The drawn positions cover the whole range, so each of the rows prints
    // exactly once as the stream passes them.
    let mut it = row_iter_over(make_parquet(4));
    assert_eq!(print_rows_random(&mut it, 4, 10, Formats::Default).unwrap(), 4);
    let mut it = row_iter_over(make_parquet(4));
    assert_eq!(print_rows_random(&mut it, 4, 4, Formats::Json).unwrap(), 4);
}

#[test]
fn sampling_nothing_prints_nothing() {
    let mut it = row_iter_over(make_parquet(4));
    assert_eq!(print_rows_random(&mut it, 4, 0, Formats::Default).unwrap(), 0);
}

#[test]
fn a_partial_sample_prints_its_size() {
    // Every drawn position lies below the row count, so each selects one row.
    let mut it = row_iter_over(make_parquet(5));
    assert_eq!(print_rows_random(&mut it, 5, 2, Formats::Default).unwrap(), 2);
}

#[test]
fn positions_beyond_the_file_select_nothing() {
    let mut it = row_iter_over(make_parquet(3));
    let printed = print_selected_rows(&mut it, &vec![5, 6], Formats::Json).unwrap();
    assert_eq!(printed, 0);
}
