use vstd::prelude::*;
use vstd::string::StringExecFns;

use crate::errors::PQRSError;
use crate::gateway;
use crate::meta::FileMeta;

verus! {

/// One key/value entry of a file's free-form footer metadata.
#[derive(Debug, Clone, PartialEq, Eq)]
pub struct KeyValueMeta {
    pub key: String,
    pub value: Option<String>,
}

/// The report of one column descriptor: its name, its dotted path, whether
/// it is optional, and its physical and converted types as text.
#[derive(Debug, Clone, PartialEq, Eq)]
pub struct ColumnInfo {
    pub name: String,
    pub path: String,
    pub optional: bool,
    pub physical_type: String,
    pub converted_type: String,
}

/// The structured schema report of one file: the footer's file-level fields,
/// its free-form key/value metadata, its column descriptors, and the schema
/// rendered as message text.
#[derive(Debug, Clone, PartialEq, Eq)]
pub struct ParquetSchema {
    pub version: i32,
    pub num_rows: i64,
    pub created_by: Option<String>,
    pub metadata: Option<Vec<KeyValueMeta>>,
    pub columns: Vec<ColumnInfo>,
    pub message: String,
}

/// Assembles the schema report from its decoded parts, changing none of them.
pub fn build_parquet_schema(
    file_meta: FileMeta,
    metadata: Option<Vec<KeyValueMeta>>,
    columns: Vec<ColumnInfo>,
    message: String,
) -> (r: ParquetSchema)
    ensures
        r.version == file_meta.version,
        r.num_rows == file_meta.num_rows,
        r.created_by == file_meta.created_by,
        r.metadata == metadata,
        r.columns == columns,
        r.message == message,
{
    ParquetSchema {
        version: file_meta.version,
        num_rows: file_meta.num_rows,
        created_by: file_meta.created_by,
        metadata,
        columns,
        message,
    }
}

/// Decodes the footer of the file at `path` into the structured schema
/// report: file-level fields, key/value metadata, column descriptors and
/// the schema message text.
pub fn get_parquet_schema(path: &str) -> (r: Result<ParquetSchema, PQRSError>)
    ensures
        r is Err ==> r matches Err(PQRSError::ParquetError(_)) || r matches Err(
            PQRSError::UTF8ConvertError(_),
        ),
{
    let file_meta = match gateway::read_file_meta(path) {
        Ok(m) => m,
        Err(e) => {
            return Err(e);
        },
    };
    let metadata = match gateway::read_key_value_metadata(path) {
        Ok(m) => m,
        Err(e) => {
            return Err(e);
        },
    };
    let columns = match gateway::read_column_information(path) {
        Ok(c) => c,
        Err(e) => {
            return Err(e);
        },
    };
    let message = match gateway::read_schema_message(path) {
        Ok(m) => m,
        Err(e) => {
            return Err(e);
        },
    };
    Ok(build_parquet_schema(file_meta, metadata, columns, message))
}

/// The header line printed above one file's metadata report.
pub fn metadata_header_line(file_name: &str) -> (r: String)
    ensures
        r@ == "Metadata for file: "@ + file_name@,
{
    let mut s = "Metadata for file: ".to_owned();
    s.append(file_name);
    proof {
        reveal_strlit("Metadata for file: ");
    }
    s
}

/// Prints one file's metadata report as text: the header line, a blank line,
/// and then either the full footer metadata or only its file-level part.
pub fn print_schema_report(file_name: &str, detailed: bool) -> (r: Result<(), PQRSError>)
    ensures
        r is Err ==> r matches Err(PQRSError::ParquetError(_)),
{
    let header = metadata_header_line(file_name);
    gateway::out_line(header.as_str());
    gateway::out_line("");
    if detailed {
        gateway::print_detailed_metadata(file_name)
    } else {
        gateway::print_basic_metadata(file_name)
    }
}

} // verus!
