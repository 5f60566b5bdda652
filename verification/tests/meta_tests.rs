use pqrs::errors::PQRSError;
use pqrs::meta::{get_row_count, get_size, FileMeta, RowGroupMeta};
use pqrs::text::{
    compressed_size_line, get_pretty_size, i64_to_string, rowcount_line, u64_to_string,
    uncompressed_size_line,
};

fn meta_of(groups: Vec<(i64, i64, i64)>) -> FileMeta {
    FileMeta {
        row_groups: groups
            .into_iter()
            .map(|(rows, unc, com)| RowGroupMeta {
                num_rows: rows,
                total_byte_size: unc,
                compressed_size: com,
            })
            .collect(),
        version: 1,
        num_rows: 0,
        created_by: None,
    }
}

#[test]
fn validate_rowcount() {
    // One row group of 3 rows, as in a three-row cities file.
    let meta = meta_of(vec![(3, 1000, 500)]);
    assert_eq!(get_row_count(&meta).unwrap(), 3);
    let line = rowcount_line("cities.parquet", 3);
    assert_eq!(line, "File Name: cities.parquet: 3 rows");
    assert!(line.contains("3 rows"));
}

#[test]
fn rowcount_sums_across_row_groups() {
    let meta = meta_of(vec![(1, 10, 5), (2, 20, 10), (39, 30, 15)]);
    assert_eq!(get_row_count(&meta).unwrap(), 42);
}

#[test]
fn rowcount_of_empty_file_is_zero() {
    let meta = meta_of(vec![]);
    assert_eq!(get_row_count(&meta).unwrap(), 0);
}

#[test]
fn rowcount_rejects_negative_counts() {
    let meta = meta_of(vec![(3, 10, 5), (-1, 10, 5)]);
    match get_row_count(&meta) {
        Err(PQRSError::ParquetError(_)) => (),
        other => panic!("expected a decode error, got {:?}", other),
    }
}

#[test]
fn rowcount_rejects_overflowing_sums() {
    let meta = meta_of(vec![(i64::MAX, 0, 0), (1, 0, 0)]);
    match get_row_count(&meta) {
        Err(PQRSError::ParquetError(_)) => (),
        other => panic!("expected an overflow error, got {:?}", other),
    }
}

#[test]
fn size_sums_across_row_groups() {
    let meta = meta_of(vec![(1, 40000, 8000), (2, 23085, 5067)]);
    assert_eq!(get_size(&meta).unwrap(), (63085, 13067));
}

#[test]
fn size_rejects_negative_sizes() {
    let meta = meta_of(vec![(1, -7, 0)]);
    match get_size(&meta) {
        Err(PQRSError::ParquetError(_)) => (),
        other => panic!("expected a decode error, got {:?}", other),
    }
}

#[test]
fn validate_uncompressed_size() {
    // Row groups summing to 63085 uncompressed bytes.
    let meta = meta_of(vec![(1, 40000, 8000), (2, 23085, 5067)]);
    let (unc, _) = get_size(&meta).unwrap();
    assert_eq!(uncompressed_size_line(unc, false), "Uncompressed Size: 63085");
}

#[test]
fn validate_uncompressed_size_pretty() {
    assert_eq!(uncompressed_size_line(63085, true), "Uncompressed Size: 61 KiB");
}

#[test]
fn validate_compressed_size() {
    let meta = meta_of(vec![(1, 40000, 8000), (2, 23085, 5067)]);
    let (_, com) = get_size(&meta).unwrap();
    assert_eq!(compressed_size_line(com, false), "Compressed Size: 13067");
}

#[test]
fn validate_compressed_size_pretty() {
    // 13067 / 1024 truncates to 12.
    assert_eq!(compressed_size_line(13067, true), "Compressed Size: 12 KiB");
}

#[test]
fn pretty_size_covers_every_unit() {
    assert_eq!(get_pretty_size(0), "0 Bytes");
    assert_eq!(get_pretty_size(500), "500 Bytes");
    assert_eq!(get_pretty_size(1023), "1023 Bytes");
    assert_eq!(get_pretty_size(1024), "1 KiB");
    assert_eq!(get_pretty_size(1024 * 1024 - 1), "1023 KiB");
    assert_eq!(get_pretty_size(1024 * 1024), "1 MiB");
    assert_eq!(get_pretty_size(5 * 1024 * 1024 * 1024), "5 GiB");
    assert_eq!(get_pretty_size(3 * 1024 * 1024 * 1024 * 1024), "3 TiB");
    assert_eq!(get_pretty_size(2 * 1024 * 1024 * 1024 * 1024 * 1024), "2 PiB");
    assert_eq!(get_pretty_size(-5), "-5 Bytes");
}

#[test]
fn decimal_renderings_are_exact() {
    assert_eq!(u64_to_string(0), "0");
    assert_eq!(u64_to_string(7), "7");
    assert_eq!(u64_to_string(1234567890), "1234567890");
    assert_eq!(u64_to_string(u64::MAX), "18446744073709551615");
    assert_eq!(i64_to_string(-42), "-42");
    assert_eq!(i64_to_string(i64::MIN), "-9223372036854775808");
}
