use pqrs::args::{
    check_all_present, ensure_all_present, CatCommandArgs, HeadCommandArgs, RowCountCommandArgs,
    SampleCommandArgs,
};
use pqrs::errors::PQRSError;
use pqrs::format::Formats;
use pqrs::gateway::check_path_present;
use pqrs::meta::{FileMeta, RowGroupMeta};
use pqrs::schema::{build_parquet_schema, metadata_header_line, ColumnInfo, KeyValueMeta};
use pqrs::text::{is_hidden_name, str_eq};

#[test]
fn existing_and_missing_paths_are_told_apart() {
    assert!(check_path_present("/"));
    assert!(!check_path_present("/no/such/file/anywhere.parquet"));
}

#[test]
fn the_first_missing_path_in_list_order_decides() {
    let names = vec!["a".to_string(), "b".to_string(), "c".to_string()];
    let present = vec![true, false, false];
    assert_eq!(
        check_all_present(&present, &names),
        Err(PQRSError::FileNotFound("b".to_string()))
    );
    assert_eq!(check_all_present(&vec![true, true, true], &names), Ok(()));
}

#[test]
fn a_missing_path_stops_the_whole_list() {
    let names =
        vec!["/".to_string(), "/no/such/file/anywhere.parquet".to_string(), "/".to_string()];
    assert_eq!(
        ensure_all_present(&names),
        Err(PQRSError::FileNotFound("/no/such/file/anywhere.parquet".to_string()))
    );
    assert_eq!(ensure_all_present(&vec!["/".to_string()]), Ok(()));
}

#[test]
fn rowcount_command_checks_paths_before_reading() {
    let cmd = RowCountCommandArgs { files: vec!["/no/such/file.parquet".to_string()] };
    assert_eq!(
        cmd.execute(),
        Err(PQRSError::FileNotFound("/no/such/file.parquet".to_string()))
    );
}

#[test]
fn cat_format_dispatch_prefers_json_then_csv() {
    let args = |csv: bool, no_header: bool, json: bool| CatCommandArgs {
        csv,
        csv_no_header: no_header,
        json,
        locations: vec![],
    };
    assert!(matches!(args(false, false, false).format(), Formats::Default));
    assert!(matches!(args(true, false, false).format(), Formats::Csv));
    assert!(matches!(args(true, true, false).format(), Formats::CsvNoHeader));
    assert!(matches!(args(false, false, true).format(), Formats::Json));
}

#[test]
fn head_and_sample_format_dispatch() {
    let head = HeadCommandArgs { csv: true, json: false, records: 5, file: "f".to_string() };
    assert!(matches!(head.format(), Formats::Csv));
    let head = HeadCommandArgs { csv: false, json: true, records: 5, file: "f".to_string() };
    assert!(matches!(head.format(), Formats::Json));
    let sample = SampleCommandArgs { json: true, records: 1, file: "f".to_string() };
    assert!(matches!(sample.format(), Formats::Json));
    let sample = SampleCommandArgs { json: false, records: 1, file: "f".to_string() };
    assert!(matches!(sample.format(), Formats::Default));
}

#[test]
fn hidden_names_start_with_a_dot() {
    assert!(is_hidden_name(".hidden"));
    assert!(is_hidden_name("."));
    assert!(!is_hidden_name("visible.parquet"));
    assert!(!is_hidden_name(""));
}

#[test]
fn string_equality_compares_contents() {
    assert!(str_eq("gzip", "gzip"));
    assert!(!str_eq("gzip", "zstd"));
    assert!(!str_eq("gzip", "gzipp"));
    assert!(str_eq("", ""));
}

#[test]
fn the_schema_report_keeps_its_parts() {
    let meta = FileMeta {
        row_groups: vec![RowGroupMeta { num_rows: 3, total_byte_size: 10, compressed_size: 5 }],
        version: 1,
        num_rows: 3,
        created_by: Some("writer".to_string()),
    };
    let kv = Some(vec![KeyValueMeta { key: "k".to_string(), value: Some("v".to_string()) }]);
    let columns = vec![ColumnInfo {
        name: "foo".to_string(),
        path: "foo".to_string(),
        optional: true,
        physical_type: "INT64".to_string(),
        converted_type: "NONE".to_string(),
    }];
    let report = build_parquet_schema(meta, kv.clone(), columns.clone(), "message".to_string());
    assert_eq!(report.version, 1);
    assert_eq!(report.num_rows, 3);
    assert_eq!(report.created_by, Some("writer".to_string()));
    assert_eq!(report.metadata, kv);
    assert_eq!(report.columns, columns);
    assert_eq!(report.message, "message");
}

#[test]
fn the_metadata_header_names_the_file() {
    assert_eq!(metadata_header_line("cities.parquet"), "Metadata for file: cities.parquet");
}
