use vstd::prelude::*;

use crate::errors::PQRSError;
use crate::merge::{ColumnEncoding, CompressionCodec};
use crate::meta::{FileMeta, RowGroupMeta};
use parquet::basic::{BrotliLevel, Compression, Encoding, GzipLevel, ZstdLevel};
use parquet::schema::types::ColumnPath;
use rand::seq::SliceRandom;
use std::io::Write;

verus! {

// ---------------------------------------------------------------------------
// Declared outside types. Verus treats their values as opaque; the named
// spec functions below give the contracts something to speak about.
// ---------------------------------------------------------------------------
/// One decoded logical row of a Parquet file.
#[verifier::external_type_specification]
#[verifier::external_body]
pub struct ExRow(parquet::record::Row);

/// A one-shot iterator over a file's rows, in physical order.
#[verifier::external_type_specification]
#[verifier::external_body]
pub struct ExRowIter<'a>(parquet::record::reader::RowIter<'a>);

/// A JSON value produced from one row.
#[verifier::external_type_specification]
#[verifier::external_body]
pub struct ExJsonValue(serde_json::Value);

/// The error type of the Parquet decoder.
#[verifier::external_type_specification]
#[verifier::external_body]
pub struct ExParquetError(parquet::errors::ParquetError);

/// The number of rows that `it` has not yet yielded.
pub uninterp spec fn rows_len_of(it: parquet::record::reader::RowIter<'static>) -> nat;

/// Whether the format library's text and JSON renderings of this row return
/// rather than abort: every date and timestamp value the row holds lies in
/// the range its calendar conversions accept.
pub uninterp spec fn row_renders(r: parquet::record::Row) -> bool;

/// Whether every row that `it` has not yet yielded renders (see
/// `row_renders`).
pub uninterp spec fn rows_render(it: parquet::record::reader::RowIter<'static>) -> bool;

/// The row's native brace-delimited text, a function of the row alone.
pub uninterp spec fn row_text_of(r: parquet::record::Row) -> Seq<char>;

/// The row's JSON projection rendered as one compact object, a function of
/// the row alone.
pub uninterp spec fn row_json_of(r: parquet::record::Row) -> Seq<char>;

/// The compact text rendering of a JSON value, a function of the value
/// alone: the library keeps object keys sorted, so the text is determined.
pub uninterp spec fn json_text_of(v: serde_json::Value) -> Seq<char>;

// ---------------------------------------------------------------------------
// Row-level gateway functions.
// ---------------------------------------------------------------------------
/// Relies on `SerializedFileReader::try_from(&str)` and
/// `RowIter::from_file_into`: opens the Parquet file at `path` and returns an
/// iterator over its rows in physical order, or a decode error. Whether the
/// rows it will yield render (see `rows_render`) depends on what is in the
/// file, so nothing is stated of it; the row-printing functions require it,
/// and a caller that proceeds without it aborts inside the format library
/// on an out-of-range temporal value.
#[verifier::external_body]
pub fn open_row_iter(path: &str) -> (r: Result<
    parquet::record::reader::RowIter<'static>,
    PQRSError,
>)
    ensures
        r is Err ==> r matches Err(PQRSError::ParquetError(_)),
{
    match parquet::file::serialized_reader::SerializedFileReader::try_from(path) {
        Ok(reader) => Ok(parquet::record::reader::RowIter::from_file_into(Box::new(reader))),
        Err(e) => Err(PQRSError::ParquetError(e.to_string())),
    }
}

/// Relies on `RowIter::next`: yields the next row in physical order, `None`
/// exactly when the source is exhausted, or a decode error. The iterator
/// aborts inside the format library if its reader cannot re-read a row
/// group; the serialized readers this crate builds, with default reader
/// properties, do not hit that path.
#[verifier::external_body]
pub(crate) fn next_row(it: &mut parquet::record::reader::RowIter<'static>) -> (r: Result<
    Option<parquet::record::Row>,
    PQRSError,
>)
    ensures
        r is Ok ==> ((r->Ok_0 is Some) <==> rows_len_of(*old(it)) > 0),
        r is Ok && r->Ok_0 is Some ==> rows_len_of(*final(it)) == rows_len_of(*old(it)) - 1,
        r is Ok && r->Ok_0 is None ==> rows_len_of(*final(it)) == rows_len_of(*old(it)),
        rows_render(*old(it)) && r is Ok && r->Ok_0 is Some ==> row_renders(r->Ok_0->Some_0)
            && rows_render(*final(it)),
        rows_render(*old(it)) && r is Ok && r->Ok_0 is None ==> rows_render(*final(it)),
        r is Err ==> r matches Err(PQRSError::ParquetError(_)),
{
    match it.next() {
        Some(Ok(row)) => Ok(Some(row)),
        Some(Err(e)) => Err(PQRSError::ParquetError(e.to_string())),
        None => Ok(None),
    }
}

/// Relies on the `Display` impl of `parquet::record::Row`: the row's native
/// brace-delimited text form, a function of the row alone. The impl unwraps
/// its date and timestamp conversions, so a row holding an out-of-range
/// temporal value aborts; the `requires` leaves those rows out.
#[verifier::external_body]
pub(crate) fn row_native_text(row: &parquet::record::Row) -> (r: String)
    requires
        row_renders(*row),
    ensures
        r@ == row_text_of(*row),
{
    row.to_string()
}

/// Relies on `Row::to_json_value`: the row projected to one JSON object, a
/// function of the row alone, with the same temporal-range caveat as the
/// text form.
#[verifier::external_body]
pub(crate) fn row_json_value(row: &parquet::record::Row) -> (r: serde_json::Value)
    requires
        row_renders(*row),
    ensures
        json_text_of(r) == row_json_of(*row),
{
    row.to_json_value()
}

/// Relies on the `Display` impl of `serde_json::Value`: the value rendered
/// as compact JSON text, a function of the value alone.
#[verifier::external_body]
pub(crate) fn json_value_text(v: &serde_json::Value) -> (r: String)
    ensures
        r@ == json_text_of(*v),
{
    v.to_string()
}

/// Relies on `writeln!` to standard output.
#[verifier::external_body]
pub(crate) fn out_line(s: &str) {
    let _ = writeln!(std::io::stdout(), "{}", s);
}

// ---------------------------------------------------------------------------
// Footer metadata.
// ---------------------------------------------------------------------------
/// Relies on `SerializedFileReader::try_from(&str)` and the accessors of
/// `ParquetMetaData`, `FileMetaData` and `RowGroupMetaData`: decodes the
/// footer of the file at `path` into the library's metadata model, copying
/// each row group's row count and byte sizes in file order.
#[verifier::external_body]
pub(crate) fn read_file_meta(path: &str) -> (r: Result<FileMeta, PQRSError>)
    ensures
        r is Err ==> r matches Err(PQRSError::ParquetError(_)),
{
    let reader = parquet::file::serialized_reader::SerializedFileReader::try_from(path)
        .map_err(|e| PQRSError::ParquetError(e.to_string()))?;
    let md = parquet::file::reader::FileReader::metadata(&reader);
    let row_groups = md.row_groups().iter().map(|rg| RowGroupMeta {
        num_rows: rg.num_rows(),
        total_byte_size: rg.total_byte_size(),
        compressed_size: rg.compressed_size(),
    }).collect();
    let fm = md.file_metadata();
    let created_by = fm.created_by().map(|s| s.to_string());
    Ok(FileMeta { row_groups, version: fm.version(), num_rows: fm.num_rows(), created_by })
}

/// Relies on `rand::seq::SliceRandom::shuffle` with `rand::thread_rng`:
/// permutes the vector in place. Which permutation comes back depends on the
/// generator, so only the collection of elements is stated.
#[verifier::external_body]
pub(crate) fn shuffle_indexes(v: &mut Vec<u64>)
    ensures
        final(v)@.to_multiset() == old(v)@.to_multiset(),
{
    v.shuffle(&mut rand::thread_rng());
}

/// One entry met while walking a directory tree.
#[verifier::external_type_specification]
#[verifier::external_body]
pub struct ExDirEntry(walkdir::DirEntry);

/// Relies on `DirEntry::file_name` and `OsStr::to_str`: the entry's file
/// name as text, when the name is valid Unicode.
#[verifier::external_body]
pub(crate) fn entry_file_name(e: &walkdir::DirEntry) -> (r: Option<String>) {
    e.file_name().to_str().map(|s| s.to_string())
}

/// Relies on `std::path::Path::exists`: whether `path` names an existing
/// file or directory. The result depends on the state of the filesystem.
#[verifier::external_body]
pub fn check_path_present(file_path: &str) -> bool {
    std::path::Path::new(file_path).exists()
}

/// Relies on `FileMetaData::key_value_metadata`: the footer's free-form
/// key/value entries, copied one for one, or `None` where the file has none.
#[verifier::external_body]
pub(crate) fn read_key_value_metadata(path: &str) -> (r: Result<
    Option<Vec<crate::schema::KeyValueMeta>>,
    PQRSError,
>)
    ensures
        r is Err ==> r matches Err(PQRSError::ParquetError(_)),
{
    let reader = match parquet::file::serialized_reader::SerializedFileReader::try_from(path) {
        Ok(reader) => reader,
        Err(e) => return Err(PQRSError::ParquetError(e.to_string())),
    };
    let md = parquet::file::reader::FileReader::metadata(&reader);
    Ok(md.file_metadata().key_value_metadata().map(|kvs| {
        kvs.iter().map(|kv| crate::schema::KeyValueMeta {
            key: kv.key.to_string(),
            value: kv.value.clone(),
        }).collect()
    }))
}

/// Relies on `SchemaDescriptor::columns` and the `ColumnDescriptor`
/// accessors: one entry per column, with the name, dotted path, optionality
/// and the physical and converted types rendered as text, in schema order.
#[verifier::external_body]
pub(crate) fn read_column_information(path: &str) -> (r: Result<
    Vec<crate::schema::ColumnInfo>,
    PQRSError,
>)
    ensures
        r is Err ==> r matches Err(PQRSError::ParquetError(_)),
{
    let reader = match parquet::file::serialized_reader::SerializedFileReader::try_from(path) {
        Ok(reader) => reader,
        Err(e) => return Err(PQRSError::ParquetError(e.to_string())),
    };
    let md = parquet::file::reader::FileReader::metadata(&reader);
    Ok(md.file_metadata().schema_descr().columns().iter().map(|col| crate::schema::ColumnInfo {
        name: col.name().to_string(),
        path: col.path().string(),
        optional: col.self_type().is_optional(),
        physical_type: col.physical_type().to_string(),
        converted_type: col.converted_type().to_string(),
    }).collect())
}

/// Relies on `parquet::schema::printer::print_schema` and
/// `String::from_utf8`: the schema rendered as message text.
#[verifier::external_body]
pub(crate) fn read_schema_message(path: &str) -> (r: Result<String, PQRSError>)
    ensures
        r is Err ==> r matches Err(PQRSError::ParquetError(_)) || r matches Err(
            PQRSError::UTF8ConvertError(_),
        ),
{
    let reader = match parquet::file::serialized_reader::SerializedFileReader::try_from(path) {
        Ok(reader) => reader,
        Err(e) => return Err(PQRSError::ParquetError(e.to_string())),
    };
    let md = parquet::file::reader::FileReader::metadata(&reader);
    let mut buf: Vec<u8> = Vec::new();
    parquet::schema::printer::print_schema(&mut buf, md.file_metadata().schema());
    String::from_utf8(buf).map_err(|e| PQRSError::UTF8ConvertError(e.to_string()))
}

/// Relies on `parquet::schema::printer::print_parquet_metadata`: prints the
/// full footer metadata of the file at `path` to standard output.
#[verifier::external_body]
pub(crate) fn print_detailed_metadata(path: &str) -> (r: Result<(), PQRSError>)
    ensures
        r is Err ==> r matches Err(PQRSError::ParquetError(_)),
{
    let reader = match parquet::file::serialized_reader::SerializedFileReader::try_from(path) {
        Ok(reader) => reader,
        Err(e) => return Err(PQRSError::ParquetError(e.to_string())),
    };
    let md = parquet::file::reader::FileReader::metadata(&reader);
    parquet::schema::printer::print_parquet_metadata(&mut std::io::stdout(), md);
    Ok(())
}

/// Relies on `parquet::schema::printer::print_file_metadata`: prints the
/// file-level footer metadata of the file at `path` to standard output.
#[verifier::external_body]
pub(crate) fn print_basic_metadata(path: &str) -> (r: Result<(), PQRSError>)
    ensures
        r is Err ==> r matches Err(PQRSError::ParquetError(_)),
{
    let reader = match parquet::file::serialized_reader::SerializedFileReader::try_from(path) {
        Ok(reader) => reader,
        Err(e) => return Err(PQRSError::ParquetError(e.to_string())),
    };
    let md = parquet::file::reader::FileReader::metadata(&reader);
    parquet::schema::printer::print_file_metadata(&mut std::io::stdout(), md.file_metadata());
    Ok(())
}

// ---------------------------------------------------------------------------
// Column batches. Verus refuses the declarations of the batch reader and of
// the batch type itself (their impls mention Arrow traits Verus has not
// seen), so each is held opaquely in a field of a struct of this crate, with
// a named spec function for what it holds.
// ---------------------------------------------------------------------------
/// A one-shot source of a file's record batches, in physical order. The
/// caller that opens the file fills `inner` with the built reader.
#[verifier::external_body]
pub struct BatchSource {
    pub inner: parquet::arrow::arrow_reader::ParquetRecordBatchReader,
}

/// A columnar slice of decoded data with one column of equal length per field.
#[verifier::external_body]
pub struct Batch {
    inner: arrow::record_batch::RecordBatch,
}

/// The row counts of the batches that `s` has not yet yielded, in the order
/// it will yield them.
pub uninterp spec fn batch_sizes_of(s: BatchSource) -> Seq<nat>;

/// The number of rows held by the batch `b`.
pub uninterp spec fn batch_rows_of(b: Batch) -> nat;

/// Relies on `ParquetRecordBatchReader::next` (its `Iterator` impl): yields
/// the next batch in file order, `None` exactly when the source is
/// exhausted, or a decode error.
#[verifier::external_body]
pub(crate) fn next_batch(s: &mut BatchSource) -> (res: Result<Option<Batch>, PQRSError>)
    ensures
        res is Ok ==> ((res->Ok_0 is Some) <==> batch_sizes_of(*old(s)).len() > 0),
        res is Ok && res->Ok_0 is Some ==> batch_sizes_of(*final(s)) == batch_sizes_of(
            *old(s),
        ).skip(1) && batch_rows_of(res->Ok_0->Some_0) == batch_sizes_of(*old(s))[0],
        res is Ok && res->Ok_0 is None ==> batch_sizes_of(*final(s)) == batch_sizes_of(*old(s)),
        res is Err ==> res matches Err(PQRSError::ArrowReadWriteError(_)),
{
    match s.inner.next() {
        Some(Ok(b)) => Ok(Some(Batch { inner: b })),
        Some(Err(e)) => Err(PQRSError::ArrowReadWriteError(e.to_string())),
        None => Ok(None),
    }
}

/// Relies on `RecordBatch::num_rows`.
#[verifier::external_body]
pub(crate) fn batch_num_rows(b: &Batch) -> (n: usize)
    ensures
        n == batch_rows_of(*b),
{
    b.inner.num_rows()
}

/// Relies on `RecordBatch::slice`: the slice holding the first `len` rows of
/// the batch, sliceable at any row boundary.
#[verifier::external_body]
pub(crate) fn batch_prefix(b: &Batch, len: usize) -> (s: Batch)
    requires
        len <= batch_rows_of(*b),
    ensures
        batch_rows_of(s) == len,
{
    Batch { inner: b.inner.slice(0, len) }
}

// ---------------------------------------------------------------------------
// Rendering sinks on standard output. Verus refuses the writers' own
// declarations (they are generic over `std::io::Write` and over the JSON
// format marker), so each is held opaquely in a private field.
// ---------------------------------------------------------------------------
/// A JSON-lines writer over standard output.
#[verifier::external_body]
pub struct JsonStdoutSink {
    inner: arrow::json::LineDelimitedWriter<std::io::Stdout>,
}

/// The row counts of the batches written to `s` so far, in order.
pub uninterp spec fn json_sink_rows(s: JsonStdoutSink) -> Seq<nat>;

/// A CSV writer over standard output, with or without a header line.
#[verifier::external_body]
pub struct CsvStdoutSink {
    inner: arrow::csv::Writer<std::io::Stdout>,
}

/// The row counts of the batches written to `s` so far, in order.
pub uninterp spec fn csv_sink_rows(s: CsvStdoutSink) -> Seq<nat>;

/// Whether `s` will still write its single header line, of column names,
/// before the next batch it is handed: true exactly from a with-header
/// construction until the first write.
pub uninterp spec fn csv_header_pending(s: CsvStdoutSink) -> bool;

/// Relies on `arrow::json::LineDelimitedWriter::new` over standard output:
/// a fresh sink that has written nothing.
#[verifier::external_body]
pub(crate) fn new_json_stdout_sink() -> (s: JsonStdoutSink)
    ensures
        json_sink_rows(s) == Seq::<nat>::empty(),
{
    JsonStdoutSink { inner: arrow::json::LineDelimitedWriter::new(std::io::stdout()) }
}

/// Relies on `arrow::csv::WriterBuilder::with_header` and `build` over
/// standard output: a fresh sink that has written nothing and will write
/// one header line, of column names, before its first batch exactly when
/// `header` is set.
#[verifier::external_body]
pub(crate) fn new_csv_stdout_sink(header: bool) -> (s: CsvStdoutSink)
    ensures
        csv_sink_rows(s) == Seq::<nat>::empty(),
        csv_header_pending(s) == header,
{
    let builder = arrow::csv::WriterBuilder::new().with_header(header);
    CsvStdoutSink { inner: builder.build(std::io::stdout()) }
}

/// Relies on `arrow::json::Writer::write`: renders every row of the batch as
/// one JSON object per line.
#[verifier::external_body]
pub(crate) fn json_sink_write(s: &mut JsonStdoutSink, b: &Batch) -> (res: Result<
    (),
    PQRSError,
>)
    ensures
        res is Ok ==> json_sink_rows(*final(s)) == json_sink_rows(*old(s)).push(batch_rows_of(*b)),
        res is Err ==> res matches Err(PQRSError::ArrowReadWriteError(_)),
{
    match s.inner.write(&b.inner) {
        Ok(()) => Ok(()),
        Err(e) => Err(PQRSError::ArrowReadWriteError(e.to_string())),
    }
}

/// Relies on `arrow::json::Writer::finish`: completes the JSON output.
#[verifier::external_body]
pub(crate) fn json_sink_finish(s: &mut JsonStdoutSink) -> (res: Result<(), PQRSError>)
    ensures
        res is Ok ==> json_sink_rows(*final(s)) == json_sink_rows(*old(s)),
        res is Err ==> res matches Err(PQRSError::ArrowReadWriteError(_)),
{
    match s.inner.finish() {
        Ok(()) => Ok(()),
        Err(e) => Err(PQRSError::ArrowReadWriteError(e.to_string())),
    }
}

// ---------------------------------------------------------------------------
// The merge output writer. Verus refuses the writer's declaration (it is
// generic over `std::io::Write`), so it is held opaquely; the byte sink, the
// schema and the writer properties that the caller supplies are carried the
// same way.
// ---------------------------------------------------------------------------
/// An owned, writable byte sink for the output file. The caller that creates
/// the output file fills `inner` with it.
#[verifier::external_body]
pub struct ByteSink {
    pub inner: Box<dyn std::io::Write + Send>,
}

/// The schema that governs the output file. The caller fills `inner` with
/// the first input's schema.
#[verifier::external_body]
pub struct SchemaHolder {
    pub inner: arrow::datatypes::SchemaRef,
}

/// Writer tuning already turned into the format library's own form.
#[verifier::external_body]
pub struct PropsHolder {
    pub inner: parquet::file::properties::WriterProperties,
}

/// A writer-properties builder being filled from validated writer tuning.
#[verifier::external_body]
pub struct PropsBuilder {
    inner: parquet::file::properties::WriterPropertiesBuilder,
}

/// The tuning applied to the builder so far through the wrappers below, on
/// top of the format library's own defaults.
pub uninterp spec fn props_builder_settings(b: PropsBuilder) -> crate::merge::PropsSettings;

/// The tuning that the built properties carry.
pub uninterp spec fn props_settings(p: PropsHolder) -> crate::merge::PropsSettings;

/// Relies on `WriterProperties::builder`: a builder holding the format
/// library's defaults, with no tuning applied yet.
#[verifier::external_body]
pub(crate) fn props_builder_new() -> (r: PropsBuilder)
    ensures
        props_builder_settings(r) == crate::merge::no_settings(),
{
    PropsBuilder { inner: parquet::file::properties::WriterProperties::builder() }
}

/// Relies on `WriterPropertiesBuilder::set_dictionary_enabled`: the
/// writer-wide dictionary-encoding default.
#[verifier::external_body]
pub(crate) fn props_set_dictionary(b: PropsBuilder, enabled: bool) -> (r: PropsBuilder)
    ensures
        props_builder_settings(r).dictionary_enabled == Option::Some(enabled),
        props_builder_settings(r).column_dictionary == props_builder_settings(b).column_dictionary,
        props_builder_settings(r).column_encodings == props_builder_settings(b).column_encodings,
        props_builder_settings(r).compression == props_builder_settings(b).compression,
{
    PropsBuilder { inner: b.inner.set_dictionary_enabled(enabled) }
}

/// Relies on `WriterPropertiesBuilder::set_column_dictionary_enabled` with
/// `ColumnPath::from`: a per-column dictionary-encoding override.
#[verifier::external_body]
pub(crate) fn props_set_column_dictionary(
    b: PropsBuilder,
    column: &str,
    enabled: bool,
) -> (r: PropsBuilder)
    ensures
        props_builder_settings(r).dictionary_enabled == props_builder_settings(
            b,
        ).dictionary_enabled,
        props_builder_settings(r).column_dictionary == props_builder_settings(
            b,
        ).column_dictionary.push((column@, enabled)),
        props_builder_settings(r).column_encodings == props_builder_settings(b).column_encodings,
        props_builder_settings(r).compression == props_builder_settings(b).compression,
{
    let path = ColumnPath::from(column.to_string());
    PropsBuilder { inner: b.inner.set_column_dictionary_enabled(path, enabled) }
}

/// Relies on `WriterPropertiesBuilder::set_column_encoding` with
/// `ColumnPath::from`: a per-column encoding override, carried over variant
/// by variant. The dictionary encodings, which the setter refuses by panic,
/// are not in the encoding enumeration, so every variant here is accepted.
#[verifier::external_body]
pub(crate) fn props_set_column_encoding(
    b: PropsBuilder,
    column: &str,
    e: ColumnEncoding,
) -> (r: PropsBuilder)
    ensures
        props_builder_settings(r).dictionary_enabled == props_builder_settings(
            b,
        ).dictionary_enabled,
        props_builder_settings(r).column_dictionary == props_builder_settings(b).column_dictionary,
        props_builder_settings(r).column_encodings == props_builder_settings(
            b,
        ).column_encodings.push((column@, e)),
        props_builder_settings(r).compression == props_builder_settings(b).compression,
{
    #[allow(deprecated)]
    let enc = match e {
        ColumnEncoding::Plain => Encoding::PLAIN,
        ColumnEncoding::Rle => Encoding::RLE,
        ColumnEncoding::BitPacked => Encoding::BIT_PACKED,
        ColumnEncoding::DeltaBinaryPacked => Encoding::DELTA_BINARY_PACKED,
        ColumnEncoding::DeltaLengthByteArray => Encoding::DELTA_LENGTH_BYTE_ARRAY,
        ColumnEncoding::DeltaByteArray => Encoding::DELTA_BYTE_ARRAY,
        ColumnEncoding::ByteStreamSplit => Encoding::BYTE_STREAM_SPLIT,
    };
    PropsBuilder { inner: b.inner.set_column_encoding(ColumnPath::from(column.to_string()), enc) }
}

/// Relies on `WriterPropertiesBuilder::set_compression` with the codecs'
/// level constructors: the output compression, variant by variant. A codec
/// given without a level takes the format library's default level; a level
/// outside the codec's range, which validation refuses, would fall back to
/// that default too, so the settings are stated only for in-range codecs.
#[verifier::external_body]
pub(crate) fn props_set_compression(b: PropsBuilder, c: CompressionCodec) -> (r: PropsBuilder)
    ensures
        props_builder_settings(r).dictionary_enabled == props_builder_settings(
            b,
        ).dictionary_enabled,
        props_builder_settings(r).column_dictionary == props_builder_settings(b).column_dictionary,
        props_builder_settings(r).column_encodings == props_builder_settings(b).column_encodings,
        crate::merge::codec_level_ok(c) ==> props_builder_settings(r).compression == Option::Some(
            c,
        ),
{
    let codec = match c {
        CompressionCodec::Uncompressed => Compression::UNCOMPRESSED,
        CompressionCodec::Snappy => Compression::SNAPPY,
        CompressionCodec::Lzo => Compression::LZO,
        CompressionCodec::Lz4 => Compression::LZ4,
        CompressionCodec::Lz4Raw => Compression::LZ4_RAW,
        CompressionCodec::Gzip(l) => Compression::GZIP(l.and_then(|v| GzipLevel::try_new(v as u32).ok()).unwrap_or_default()),
        CompressionCodec::Brotli(l) => Compression::BROTLI(l.and_then(|v| BrotliLevel::try_new(v as u32).ok()).unwrap_or_default()),
        CompressionCodec::Zstd(l) => Compression::ZSTD(l.and_then(|v| ZstdLevel::try_new(v as i32).ok()).unwrap_or_default()),
    };
    PropsBuilder { inner: b.inner.set_compression(codec) }
}

/// Relies on `WriterPropertiesBuilder::build`: the built properties carry
/// exactly the tuning applied to the builder.
#[verifier::external_body]
pub(crate) fn props_build(b: PropsBuilder) -> (r: PropsHolder)
    ensures
        props_settings(r) == props_builder_settings(b),
{
    PropsHolder { inner: b.inner.build() }
}

/// A writer that streams record batches into one output file.
#[verifier::external_body]
pub struct BatchWriter {
    inner: parquet::arrow::arrow_writer::ArrowWriter<Box<dyn std::io::Write + Send>>,
}

/// The row counts of the batches handed to `w` so far, in order.
pub uninterp spec fn writer_rows(w: BatchWriter) -> Seq<nat>;

/// The tuning the writer was created with.
pub uninterp spec fn writer_tuning(w: BatchWriter) -> crate::merge::PropsSettings;

/// Relies on `ArrowWriter::try_new`: a writer over `sink` that will write
/// `schema` into the output's footer, tuned by `props` when given and by
/// the format library's defaults otherwise. The fresh writer has been
/// handed no batches and carries the given tuning.
#[verifier::external_body]
pub fn new_batch_writer(sink: ByteSink, schema: &SchemaHolder, props: Option<PropsHolder>) -> (r:
    Result<BatchWriter, PQRSError>)
    ensures
        r is Ok ==> writer_rows(r->Ok_0) == Seq::<nat>::empty(),
        r is Ok ==> (props matches Some(p) ==> writer_tuning(r->Ok_0) == props_settings(p)),
        r is Ok ==> (props is None ==> writer_tuning(r->Ok_0) == crate::merge::no_settings()),
        r is Err ==> r matches Err(PQRSError::ParquetError(_)),
{
    match parquet::arrow::arrow_writer::ArrowWriter::try_new(
        sink.inner,
        schema.inner.clone(),
        props.map(|p| p.inner),
    ) {
        Ok(w) => Ok(BatchWriter { inner: w }),
        Err(e) => Err(PQRSError::ParquetError(e.to_string())),
    }
}

/// Relies on `ArrowWriter::write`: appends the batch's rows to the output.
/// The write fails when the batch's schema does not match the writer's.
#[verifier::external_body]
pub(crate) fn write_batch_out(w: &mut BatchWriter, b: &Batch) -> (r: Result<(), PQRSError>)
    ensures
        r is Ok ==> writer_rows(*final(w)) == writer_rows(*old(w)).push(batch_rows_of(*b)),
        r is Err ==> r matches Err(PQRSError::ParquetError(_)),
{
    match w.inner.write(&b.inner) {
        Ok(()) => Ok(()),
        Err(e) => Err(PQRSError::ParquetError(e.to_string())),
    }
}

/// Relies on `ArrowWriter::close`: flushes the remaining rows and finalizes
/// the footer. Without a successful close the bytes written so far are not a
/// valid file of the storage format.
#[verifier::external_body]
pub fn close_batch_writer(w: BatchWriter) -> (r: Result<(), PQRSError>)
    ensures
        r is Err ==> r matches Err(PQRSError::ParquetError(_)),
{
    match w.inner.close() {
        Ok(_) => Ok(()),
        Err(e) => Err(PQRSError::ParquetError(e.to_string())),
    }
}

/// Relies on `arrow::csv::Writer::write`: renders every row of the batch as
/// one CSV record, emitting the single header line first exactly when it
/// was still pending; afterwards no header is pending, so it is written at
/// most once, before any data row.
#[verifier::external_body]
pub(crate) fn csv_sink_write(s: &mut CsvStdoutSink, b: &Batch) -> (res: Result<(), PQRSError>)
    ensures
        res is Ok ==> csv_sink_rows(*final(s)) == csv_sink_rows(*old(s)).push(batch_rows_of(*b)),
        res is Ok ==> !csv_header_pending(*final(s)),
        res is Err ==> res matches Err(PQRSError::ArrowReadWriteError(_)),
{
    match s.inner.write(&b.inner) {
        Ok(()) => Ok(()),
        Err(e) => Err(PQRSError::ArrowReadWriteError(e.to_string())),
    }
}

} // verus!
