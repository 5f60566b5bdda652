use std::sync::Arc;

use arrow::array::Int64Array;
use arrow::datatypes::{DataType, Field, Schema};
use arrow::record_batch::RecordBatch;
use parquet::arrow::arrow_reader::ParquetRecordBatchReaderBuilder;
use parquet::arrow::ArrowWriter;
use parquet::file::reader::FileReader;
use parquet::file::serialized_reader::SerializedFileReader;
use parquet::record::reader::RowIter;

use pqrs::format::{unsupported_line, Formats};
use pqrs::gateway::BatchSource;
use pqrs::stream::{print_batches, print_row_stream};

/// One in-memory Parquet file holding the values `0 .. rows` in one column.
fn make_parquet(rows: i64) -> Vec<u8> {
    let schema = Arc::new(Schema::new(vec![Field::new("foo", DataType::Int64, false)]));
    let values: Vec<i64> = (0..rows).collect();
    let batch =
        RecordBatch::try_new(schema.clone(), vec![Arc::new(Int64Array::from(values))]).unwrap();
    let mut buf: Vec<u8> = Vec::new();
    let mut writer = ArrowWriter::try_new(&mut buf, schema, None).unwrap();
    writer.write(&batch).unwrap();
    writer.close().unwrap();
    buf
}

fn row_iter_over(data: Vec<u8>) -> RowIter<'static> {
    let reader = SerializedFileReader::new(bytes::Bytes::from(data)).unwrap();
    let boxed: Box<dyn FileReader> = Box::new(reader);
    RowIter::from_file_into(boxed)
}

fn batch_source_over(data: Vec<u8>, batch_size: usize) -> BatchSource {
    let reader = ParquetRecordBatchReaderBuilder::try_new(bytes::Bytes::from(data))
        .unwrap()
        .with_batch_size(batch_size)
        .build()
        .unwrap();
    BatchSource { inner: reader }
}

#[test]
fn validate_cat() {
    // An unbounded row stream prints every row, in physical order.
    let mut it = row_iter_over(make_parquet(3));
    assert_eq!(print_row_stream(&mut it, None, Formats::Default).unwrap(), 3);
}

#[test]
fn validate_cat_json() {
    // The JSON rendering goes over batches and emits one object per row.
    let mut source = batch_source_over(make_parquet(3), 8192);
    assert_eq!(print_batches(&mut source, None, Formats::Json).unwrap(), 3);
}

#[test]
fn validate_cat_csv() {
    let mut source = batch_source_over(make_parquet(3), 8192);
    assert_eq!(print_batches(&mut source, None, Formats::Csv).unwrap(), 3);
}

#[test]
fn csv_without_header_emits_the_same_rows() {
    let mut source = batch_source_over(make_parquet(4), 2);
    assert_eq!(print_batches(&mut source, None, Formats::CsvNoHeader).unwrap(), 4);
}

#[test]
fn validate_head() {
    // A limit of 1 prints exactly the first row.
    let mut it = row_iter_over(make_parquet(3));
    assert_eq!(print_row_stream(&mut it, Some(1), Formats::Default).unwrap(), 1);
    // The stream was only advanced past that one row: two remain.
    assert_eq!(print_row_stream(&mut it, None, Formats::Default).unwrap(), 2);
}

#[test]
fn row_stream_limit_beyond_the_file_prints_everything() {
    let mut it = row_iter_over(make_parquet(3));
    assert_eq!(print_row_stream(&mut it, Some(10), Formats::Default).unwrap(), 3);
}

#[test]
fn row_stream_limit_zero_prints_nothing() {
    let mut it = row_iter_over(make_parquet(3));
    assert_eq!(print_row_stream(&mut it, Some(0), Formats::Default).unwrap(), 0);
}

#[test]
fn batch_stream_limit_matches_the_budget() {
    // Batches of 3, 3, 3 and 1 rows; a limit of 7 lands inside the third.
    let mut source = batch_source_over(make_parquet(10), 3);
    assert_eq!(print_batches(&mut source, Some(7), Formats::Json).unwrap(), 7);
}

#[test]
fn batch_stream_truncates_and_stops_reading() {
    // With batches of 3 rows and a limit of 7, the stream must truncate the
    // third batch and leave the fourth unread.
    let mut source = batch_source_over(make_parquet(10), 3);
    assert_eq!(print_batches(&mut source, Some(7), Formats::Json).unwrap(), 7);
    let leftover = source.inner.next().expect("the final batch was read early").unwrap();
    assert_eq!(leftover.num_rows(), 1);
    assert!(source.inner.next().is_none());
}

#[test]
fn batch_stream_limit_zero_reads_nothing() {
    let mut source = batch_source_over(make_parquet(6), 3);
    assert_eq!(print_batches(&mut source, Some(0), Formats::Json).unwrap(), 0);
    let first = source.inner.next().expect("the first batch was read").unwrap();
    assert_eq!(first.num_rows(), 3);
}

#[test]
fn batch_stream_unbounded_reads_everything() {
    let mut source = batch_source_over(make_parquet(10), 3);
    assert_eq!(print_batches(&mut source, None, Formats::Json).unwrap(), 10);
    assert!(source.inner.next().is_none());
}

#[test]
fn batch_stream_refuses_the_native_format() {
    let mut source = batch_source_over(make_parquet(2), 2);
    assert_eq!(
        print_batches(&mut source, None, Formats::Default),
        Err(pqrs::errors::PQRSError::UnsupportedOperation)
    );
}

#[test]
fn rendered_rows_take_the_expected_shapes() {
    // One brace-delimited line per row in the native form, one compact JSON
    // object per row in the JSON form, and an explicit marker for CSV at row
    // granularity.
    let mut it = row_iter_over(make_parquet(1));
    let row = it.next().unwrap().unwrap();
    assert_eq!(pqrs::format::print_row(&row, Formats::Default), "{foo: 0}");
    assert_eq!(pqrs::format::print_row(&row, Formats::Json), "{\"foo\":0}");
    assert_eq!(pqrs::format::print_row(&row, Formats::Csv), "Unsupported! {foo: 0}");
    assert_eq!(pqrs::format::print_row(&row, Formats::CsvNoHeader), "Unsupported! {foo: 0}");
}

#[test]
fn unsupported_line_keeps_the_row_text() {
    assert_eq!(unsupported_line("{foo: 1}"), "Unsupported! {foo: 1}");
}

#[test]
fn format_labels_and_granularity() {
    assert_eq!(Formats::Default.label(), "Default");
    assert_eq!(Formats::Csv.label(), "Csv");
    assert_eq!(Formats::CsvNoHeader.label(), "CsvNoHeader");
    assert_eq!(Formats::Json.label(), "Json");
    assert!(!Formats::Default.uses_batches());
    assert!(Formats::Csv.uses_batches());
    assert!(Formats::CsvNoHeader.uses_batches());
    assert!(Formats::Json.uses_batches());
}
