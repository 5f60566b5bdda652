use std::io::Write;
use std::sync::{Arc, Mutex};

use arrow::array::{Int64Array, StringArray};
use arrow::datatypes::{DataType, Field, Schema};
use arrow::record_batch::RecordBatch;
use parquet::arrow::arrow_reader::ParquetRecordBatchReaderBuilder;
use parquet::arrow::ArrowWriter;

use pqrs::errors::PQRSError;
use pqrs::format::Formats;
use pqrs::gateway::{
    close_batch_writer, new_batch_writer, BatchSource, ByteSink, SchemaHolder,
};
use pqrs::merge::{
    merge_begin, merge_write_input, parse_compression, parse_encoding, validate_merge_config,
    ColumnEncoding, CompressionCodec, MergeWriteConfig,
};
use pqrs::stream::print_batches;

/// A byte sink whose contents stay reachable after the writer consumes it.
#[derive(Clone)]
struct SharedBuf(Arc<Mutex<Vec<u8>>>);

impl Write for SharedBuf {
    fn write(&mut self, buf: &[u8]) -> std::io::Result<usize> {
        self.0.lock().unwrap().write(buf)
    }

    fn flush(&mut self) -> std::io::Result<()> {
        Ok(())
    }
}

fn make_parquet_values(values: Vec<i64>) -> Vec<u8> {
    let schema = Arc::new(Schema::new(vec![Field::new("foo", DataType::Int64, false)]));
    let batch =
        RecordBatch::try_new(schema.clone(), vec![Arc::new(Int64Array::from(values))]).unwrap();
    let mut buf: Vec<u8> = Vec::new();
    let mut writer = ArrowWriter::try_new(&mut buf, schema, None).unwrap();
    writer.write(&batch).unwrap();
    writer.close().unwrap();
    buf
}

fn make_parquet(rows: i64) -> Vec<u8> {
    let schema = Arc::new(Schema::new(vec![Field::new("foo", DataType::Int64, false)]));
    let values: Vec<i64> = (0..rows).collect();
    let batch =
        RecordBatch::try_new(schema.clone(), vec![Arc::new(Int64Array::from(values))]).unwrap();
    let mut buf: Vec<u8> = Vec::new();
    let mut writer = ArrowWriter::try_new(&mut buf, schema, None).unwrap();
    writer.write(&batch).unwrap();
    writer.close().unwrap();
    buf
}

fn batch_source_over(data: Vec<u8>, batch_size: usize) -> BatchSource {
    let reader = ParquetRecordBatchReaderBuilder::try_new(bytes::Bytes::from(data))
        .unwrap()
        .with_batch_size(batch_size)
        .build()
        .unwrap();
    BatchSource { inner: reader }
}

fn no_config() -> Option<MergeWriteConfig> {
    None
}

#[test]
fn validate_merge() {
    // Two inputs whose rows sum to 5573; the merged output holds them all.
    let input_a = make_parquet(2907);
    let input_b = make_parquet(2666);
    let inputs = vec!["a.parquet".to_string(), "b.parquet".to_string()];
    let plan = merge_begin(false, &vec![true, true], &inputs, "out.parquet", &no_config());
    assert_eq!(plan, Ok(None));

    let schema = Arc::new(Schema::new(vec![Field::new("foo", DataType::Int64, false)]));
    let buf = SharedBuf(Arc::new(Mutex::new(Vec::new())));
    let sink = ByteSink { inner: Box::new(buf.clone()) };
    let mut writer = new_batch_writer(sink, &SchemaHolder { inner: schema }, None).unwrap();

    let mut source_a = batch_source_over(input_a, 1024);
    let mut source_b = batch_source_over(input_b, 1024);
    merge_write_input(&mut source_a, &mut writer).unwrap();
    merge_write_input(&mut source_b, &mut writer).unwrap();
    close_batch_writer(writer).unwrap();

    let merged = buf.0.lock().unwrap().clone();
    let mut merged_source = batch_source_over(merged, 8192);
    assert_eq!(print_batches(&mut merged_source, None, Formats::Json).unwrap(), 5573);
}

#[test]
fn merged_rows_keep_the_inputs_in_order() {
    // Batches from the first input stand before batches from the second.
    let input_a = make_parquet_values(vec![0, 1, 2]);
    let input_b = make_parquet_values(vec![100, 101]);

    let schema = Arc::new(Schema::new(vec![Field::new("foo", DataType::Int64, false)]));
    let buf = SharedBuf(Arc::new(Mutex::new(Vec::new())));
    let sink = ByteSink { inner: Box::new(buf.clone()) };
    let mut writer = new_batch_writer(sink, &SchemaHolder { inner: schema }, None).unwrap();
    let mut source_a = batch_source_over(input_a, 2);
    let mut source_b = batch_source_over(input_b, 2);
    merge_write_input(&mut source_a, &mut writer).unwrap();
    merge_write_input(&mut source_b, &mut writer).unwrap();
    close_batch_writer(writer).unwrap();

    let merged = buf.0.lock().unwrap().clone();
    let reader = ParquetRecordBatchReaderBuilder::try_new(bytes::Bytes::from(merged))
        .unwrap()
        .build()
        .unwrap();
    let mut seen: Vec<i64> = Vec::new();
    for batch in reader {
        let batch = batch.unwrap();
        let column = batch
            .column(0)
            .as_any()
            .downcast_ref::<Int64Array>()
            .unwrap();
        seen.extend(column.values().iter().copied());
    }
    assert_eq!(seen, vec![0, 1, 2, 100, 101]);
}

#[test]
fn a_mismatched_schema_fails_at_write_time() {
    // Merge does not pre-check schema identity; the format library refuses
    // the mismatched batch when it is written.
    let schema_b = Arc::new(Schema::new(vec![Field::new("foo", DataType::Utf8, false)]));
    let batch =
        RecordBatch::try_new(schema_b.clone(), vec![Arc::new(StringArray::from(vec!["x"]))])
            .unwrap();
    let mut raw: Vec<u8> = Vec::new();
    let mut plain_writer = ArrowWriter::try_new(&mut raw, schema_b, None).unwrap();
    plain_writer.write(&batch).unwrap();
    plain_writer.close().unwrap();

    let schema_a = Arc::new(Schema::new(vec![Field::new("foo", DataType::Int64, false)]));
    let buf = SharedBuf(Arc::new(Mutex::new(Vec::new())));
    let sink = ByteSink { inner: Box::new(buf.clone()) };
    let mut writer = new_batch_writer(sink, &SchemaHolder { inner: schema_a }, None).unwrap();
    let mut source = batch_source_over(raw, 1024);
    match merge_write_input(&mut source, &mut writer) {
        Err(PQRSError::ParquetError(_)) | Err(PQRSError::ArrowReadWriteError(_)) => (),
        other => panic!("expected a format-level error, got {:?}", other),
    }
}

#[test]
fn merge_refuses_an_existing_output() {
    // The output-absence check comes first, so no input is even looked at.
    let inputs = vec!["a.parquet".to_string()];
    let r = merge_begin(true, &vec![true], &inputs, "out.parquet", &no_config());
    assert_eq!(r, Err(PQRSError::FileExists("out.parquet".to_string())));
}

#[test]
fn merge_refuses_a_missing_input() {
    let inputs = vec!["a.parquet".to_string(), "b.parquet".to_string()];
    let r = merge_begin(false, &vec![true, false], &inputs, "out.parquet", &no_config());
    assert_eq!(r, Err(PQRSError::FileNotFound("b.parquet".to_string())));
}

#[test]
fn merge_refuses_an_out_of_range_brotli_level() {
    // An invalid compression level fails before any output is created.
    let config = MergeWriteConfig {
        dictionary_enabled: None,
        column_dictionary: vec![],
        column_encodings: vec![],
        compression: Some("brotli".to_string()),
        compression_level: Some(100),
    };
    let inputs = vec!["a.parquet".to_string()];
    let r = merge_begin(false, &vec![true], &inputs, "out.parquet", &Some(config));
    match r {
        Err(PQRSError::InvalidConfigurationValue(_)) => (),
        other => panic!("expected a configuration error, got {:?}", other),
    }
}

#[test]
fn merge_refuses_an_unknown_encoding_name() {
    let config = MergeWriteConfig {
        dictionary_enabled: Some(true),
        column_dictionary: vec![],
        column_encodings: vec![("foo".to_string(), "mystery".to_string())],
        compression: None,
        compression_level: None,
    };
    let inputs = vec!["a.parquet".to_string()];
    let r = merge_begin(false, &vec![true], &inputs, "out.parquet", &Some(config));
    match r {
        Err(PQRSError::InvalidConfigurationValue(_)) => (),
        other => panic!("expected a configuration error, got {:?}", other),
    }
}

#[test]
fn encoding_names_resolve_to_the_closed_set() {
    assert_eq!(parse_encoding("plain"), Ok(ColumnEncoding::Plain));
    assert_eq!(parse_encoding("rle"), Ok(ColumnEncoding::Rle));
    assert_eq!(parse_encoding("delta_byte_array"), Ok(ColumnEncoding::DeltaByteArray));
    assert_eq!(parse_encoding("byte_stream_split"), Ok(ColumnEncoding::ByteStreamSplit));
    assert!(parse_encoding("snappy").is_err());
    assert!(parse_encoding("").is_err());
}

#[test]
fn dictionary_encodings_are_refused_as_overrides() {
    // The writer panics on these as per-column overrides; validation turns
    // them into configuration errors instead.
    assert!(parse_encoding("plain_dictionary").is_err());
    assert!(parse_encoding("rle_dictionary").is_err());
}

#[test]
fn compression_levels_are_checked_per_codec() {
    assert_eq!(parse_compression("gzip", Some(5)), Ok(CompressionCodec::Gzip(Some(5))));
    assert!(parse_compression("gzip", Some(10)).is_err());
    assert_eq!(parse_compression("brotli", Some(11)), Ok(CompressionCodec::Brotli(Some(11))));
    assert!(parse_compression("brotli", Some(12)).is_err());
    assert_eq!(parse_compression("zstd", Some(22)), Ok(CompressionCodec::Zstd(Some(22))));
    assert!(parse_compression("zstd", Some(23)).is_err());
    assert_eq!(parse_compression("snappy", None), Ok(CompressionCodec::Snappy));
    assert!(parse_compression("snappy", Some(1)).is_err());
    assert_eq!(parse_compression("uncompressed", None), Ok(CompressionCodec::Uncompressed));
    assert_eq!(parse_compression("lz4_raw", None), Ok(CompressionCodec::Lz4Raw));
    assert!(parse_compression("deflate", None).is_err());
}

#[test]
fn a_valid_config_keeps_every_field() {
    let config = MergeWriteConfig {
        dictionary_enabled: Some(false),
        column_dictionary: vec![("a".to_string(), true)],
        column_encodings: vec![("a".to_string(), "delta_binary_packed".to_string())],
        compression: Some("zstd".to_string()),
        compression_level: Some(3),
    };
    let v = validate_merge_config(&config).unwrap();
    assert_eq!(v.dictionary_enabled, Some(false));
    assert_eq!(v.column_dictionary, vec![("a".to_string(), true)]);
    assert_eq!(v.column_encodings, vec![("a".to_string(), ColumnEncoding::DeltaBinaryPacked)]);
    assert_eq!(v.compression, Some(CompressionCodec::Zstd(Some(3))));
}

#[test]
fn a_level_without_a_codec_is_refused() {
    let config = MergeWriteConfig {
        dictionary_enabled: None,
        column_dictionary: vec![],
        column_encodings: vec![],
        compression: None,
        compression_level: Some(3),
    };
    match validate_merge_config(&config) {
        Err(PQRSError::InvalidConfigurationValue(_)) => (),
        other => panic!("expected a configuration error, got {:?}", other),
    }
}
