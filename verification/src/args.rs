use vstd::prelude::*;
use vstd::string::StringExecFns;

use crate::errors::PQRSError;
use crate::format::Formats;
use crate::gateway;
use crate::meta;
use crate::schema;
use crate::text;

verus! {

/// The presence pre-flight over observed existence bits: succeeds exactly
/// when every path was present, and otherwise the first missing path in
/// list order decides the error.
pub fn check_all_present(present: &Vec<bool>, names: &Vec<String>) -> (r: Result<(), PQRSError>)
    requires
        present@.len() == names@.len(),
    ensures
        r is Ok <==> (forall|i: int| 0 <= i < present@.len() ==> present@[i]),
        !(forall|i: int| 0 <= i < present@.len() ==> present@[i]) ==> (r matches Err(
            PQRSError::FileNotFound(p),
        ) && exists|j: int|
            0 <= j < present@.len() && !present@[j] && p@ == names@[j]@ && (forall|i: int|
                0 <= i < j ==> present@[i])),
{
    let mut i: usize = 0;
    while i < present.len()
        invariant
            present@.len() == names@.len(),
            0 <= i <= present@.len(),
            forall|j: int| 0 <= j < i ==> present@[j],
        decreases present@.len() - i,
    {
        if !present[i] {
            return Err(PQRSError::FileNotFound(names[i].clone()));
        }
        i = i + 1;
    }
    Ok(())
}

/// Ensures every named path exists before any file is opened: the paths are
/// looked up in list order and the first missing one, as observed, decides
/// the error, so that a missing file anywhere in the list prevents output
/// from every file, not just the missing one.
pub fn ensure_all_present(names: &Vec<String>) -> (r: Result<(), PQRSError>)
    ensures
        r is Err ==> (r matches Err(PQRSError::FileNotFound(p)) && exists|j: int|
            0 <= j < names@.len() && p@ == names@[j]@),
{
    let mut present: Vec<bool> = Vec::new();
    let mut i: usize = 0;
    while i < names.len()
        invariant
            0 <= i <= names@.len(),
            present@.len() == i,
        decreases names@.len() - i,
    {
        present.push(gateway::check_path_present(names[i].as_str()));
        i = i + 1;
    }
    check_all_present(&present, names)
}

/// Whether the given entry in the walked tree is a hidden file: its name
/// starts with a dot. An entry whose name is not valid Unicode is not
/// considered hidden.
pub fn is_hidden(entry: &walkdir::DirEntry) -> bool {
    match gateway::entry_file_name(entry) {
        Some(name) => text::is_hidden_name(name.as_str()),
        None => false,
    }
}

/// Arguments of the command that prints the contents of files.
#[derive(Debug, Clone, PartialEq, Eq)]
pub struct CatCommandArgs {
    /// Use CSV format for printing.
    pub csv: bool,
    /// Use CSV format without a header for printing.
    pub csv_no_header: bool,
    /// Use JSON lines format for printing.
    pub json: bool,
    /// Files or folders to read from.
    pub locations: Vec<String>,
}

impl CatCommandArgs {
    /// The output format the flags select, JSON first, then headerless CSV,
    /// then CSV, and the native form by default.
    pub fn format(&self) -> (f: Formats)
        ensures
            f == (if self.json {
                Formats::Json
            } else if self.csv_no_header {
                Formats::CsvNoHeader
            } else if self.csv {
                Formats::Csv
            } else {
                Formats::Default
            }),
    {
        if self.json {
            Formats::Json
        } else if self.csv_no_header {
            Formats::CsvNoHeader
        } else if self.csv {
            Formats::Csv
        } else {
            Formats::Default
        }
    }
}

/// Arguments of the command that prints the first rows of one file.
#[derive(Debug, Clone, PartialEq, Eq)]
pub struct HeadCommandArgs {
    /// Use CSV format for printing.
    pub csv: bool,
    /// Use JSON lines format for printing.
    pub json: bool,
    /// The number of records to show.
    pub records: usize,
    /// File to read.
    pub file: String,
}

impl HeadCommandArgs {
    /// The output format the flags select.
    pub fn format(&self) -> (f: Formats)
        ensures
            f == (if self.json {
                Formats::Json
            } else if self.csv {
                Formats::Csv
            } else {
                Formats::Default
            }),
    {
        if self.json {
            Formats::Json
        } else if self.csv {
            Formats::Csv
        } else {
            Formats::Default
        }
    }
}

/// Arguments of the command that merges files into one output file.
#[derive(Debug, Clone, PartialEq, Eq)]
pub struct MergeCommandArgs {
    /// Files to read.
    pub input: Vec<String>,
    /// File to write.
    pub output: String,
}

/// Arguments of the command that prints row counts.
#[derive(Debug, Clone, PartialEq, Eq)]
pub struct RowCountCommandArgs {
    /// Files to read.
    pub files: Vec<String>,
}

impl RowCountCommandArgs {
    /// Checks that every file exists, then prints one row-count line per
    /// file, in the order given, and returns the printed lines: one per
    /// file, each carrying that file's name and a non-negative count. A
    /// file-not-found error names one of the given files.
    pub fn execute(&self) -> (r: Result<Vec<String>, PQRSError>)
        ensures
            r is Ok ==> r->Ok_0@.len() == self.files@.len(),
            r is Ok ==> forall|j: int|
                0 <= j < self.files@.len() ==> text::is_rowcount_line(
                    (#[trigger] r->Ok_0@[j])@,
                    self.files@[j]@,
                ),
            r is Err ==> r matches Err(PQRSError::FileNotFound(_)) || r matches Err(
                PQRSError::ParquetError(_),
            ),
            r matches Err(PQRSError::FileNotFound(p)) ==> exists|j: int|
                0 <= j < self.files@.len() && p@ == self.files@[j]@,
    {
        if let Err(e) = ensure_all_present(&self.files) {
            return Err(e);
        }
        let mut lines: Vec<String> = Vec::new();
        let mut i: usize = 0;
        while i < self.files.len()
            invariant
                0 <= i <= self.files@.len(),
                lines@.len() == i,
                forall|j: int|
                    0 <= j < i ==> text::is_rowcount_line(
                        (#[trigger] lines@[j])@,
                        self.files@[j]@,
                    ),
            decreases self.files@.len() - i,
        {
            let count = match meta::file_row_count(self.files[i].as_str()) {
                Ok(c) => c,
                Err(e) => {
                    return Err(e);
                },
            };
            let line = text::rowcount_line(self.files[i].as_str(), count);
            gateway::out_line(line.as_str());
            lines.push(line);
            proof {
                assert(text::is_rowcount_line(lines@[i as int]@, self.files@[i as int]@)) by {
                    assert(0 <= count as int && lines@[i as int]@ == "File Name: "@
                        + self.files@[i as int]@ + ": "@ + text::dec_int(count as int)
                        + " rows"@);
                }
            }
            i = i + 1;
        }
        Ok(lines)
    }
}

/// Arguments of the command that samples random records of one file.
#[derive(Debug, Clone, PartialEq, Eq)]
pub struct SampleCommandArgs {
    /// Use JSON lines format for printing.
    pub json: bool,
    /// The number of records to sample.
    pub records: usize,
    /// File to read.
    pub file: String,
}

impl SampleCommandArgs {
    /// The output format the flags select.
    pub fn format(&self) -> (f: Formats)
        ensures
            f == (if self.json {
                Formats::Json
            } else {
                Formats::Default
            }),
    {
        if self.json {
            Formats::Json
        } else {
            Formats::Default
        }
    }
}

/// Arguments of the command that prints schemas and footer metadata.
#[derive(Debug, Clone, PartialEq, Eq)]
pub struct SchemaCommandArgs {
    /// Enable printing full file metadata.
    pub detailed: bool,
    /// Print in JSON format.
    pub json: bool,
    /// Files to read.
    pub files: Vec<String>,
}

impl SchemaCommandArgs {
    /// Checks that every file exists, then prints each file's metadata
    /// report as text, detailed or file-level. A file-not-found error names
    /// one of the given files.
    pub fn execute(&self) -> (r: Result<(), PQRSError>)
        ensures
            r is Err ==> r matches Err(PQRSError::FileNotFound(_)) || r matches Err(
                PQRSError::ParquetError(_),
            ),
            r matches Err(PQRSError::FileNotFound(p)) ==> exists|j: int|
                0 <= j < self.files@.len() && p@ == self.files@[j]@,
    {
        if let Err(e) = ensure_all_present(&self.files) {
            return Err(e);
        }
        let mut i: usize = 0;
        while i < self.files.len()
            invariant
                0 <= i <= self.files@.len(),
            decreases self.files@.len() - i,
        {
            if let Err(e) = schema::print_schema_report(self.files[i].as_str(), self.detailed) {
                return Err(e);
            }
            i = i + 1;
        }
        Ok(())
    }
}

/// Arguments of the command that prints storage sizes.
#[derive(Debug, Clone, PartialEq, Eq)]
pub struct SizeCommandArgs {
    /// Show pretty, human readable size.
    pub pretty: bool,
    /// Show compressed size.
    pub compressed: bool,
    /// Files to read.
    pub files: Vec<String>,
}

impl SizeCommandArgs {
    /// Checks that every file exists, then prints one size report per file,
    /// returning the printed lines: the heading, then per file a blank line,
    /// its name line, and its size line — the uncompressed sum unless the
    /// compressed one was asked for, raw or pretty-printed, never negative.
    /// A file-not-found error names one of the given files.
    pub fn execute(&self) -> (r: Result<Vec<String>, PQRSError>)
        ensures
            r is Ok ==> r->Ok_0@.len() == 1 + 3 * self.files@.len(),
            r is Ok ==> r->Ok_0@[0]@ == "Size in Bytes:"@,
            r is Ok ==> forall|j: int|
                0 <= j < self.files@.len() ==> ((#[trigger] r->Ok_0@[1 + 3 * j])@
                    == Seq::<char>::empty() && r->Ok_0@[2 + 3 * j]@ == "File Name: "@
                    + self.files@[j]@ && text::is_size_line(
                    r->Ok_0@[3 + 3 * j]@,
                    self.compressed,
                    self.pretty,
                )),
            r is Err ==> r matches Err(PQRSError::FileNotFound(_)) || r matches Err(
                PQRSError::ParquetError(_),
            ),
            r matches Err(PQRSError::FileNotFound(p)) ==> exists|j: int|
                0 <= j < self.files@.len() && p@ == self.files@[j]@,
    {
        if let Err(e) = ensure_all_present(&self.files) {
            return Err(e);
        }
        let mut lines: Vec<String> = Vec::new();
        let heading = "Size in Bytes:".to_owned();
        gateway::out_line(heading.as_str());
        lines.push(heading);
        let mut i: usize = 0;
        while i < self.files.len()
            invariant
                0 <= i <= self.files@.len(),
                lines@.len() == 1 + 3 * i,
                lines@[0]@ == "Size in Bytes:"@,
                forall|j: int|
                    0 <= j < i ==> ((#[trigger] lines@[1 + 3 * j])@ == Seq::<char>::empty()
                        && lines@[2 + 3 * j]@ == "File Name: "@ + self.files@[j]@
                        && text::is_size_line(
                        lines@[3 + 3 * j]@,
                        self.compressed,
                        self.pretty,
                    )),
            decreases self.files@.len() - i,
        {
            let ghost lines0 = lines@;
            let sizes = match meta::file_size(self.files[i].as_str()) {
                Ok(s) => s,
                Err(e) => {
                    return Err(e);
                },
            };
            let blank = String::new();
            gateway::out_line(blank.as_str());
            lines.push(blank);
            let mut name_line = "File Name: ".to_owned();
            name_line.append(self.files[i].as_str());
            gateway::out_line(name_line.as_str());
            lines.push(name_line);
            let line = if !self.compressed {
                text::uncompressed_size_line(sizes.0, self.pretty)
            } else {
                text::compressed_size_line(sizes.1, self.pretty)
            };
            gateway::out_line(line.as_str());
            lines.push(line);
            proof {
                let ji = i as int;
                assert(lines@[1 + 3 * ji]@ == Seq::<char>::empty());
                assert(lines@[2 + 3 * ji]@ == "File Name: "@ + self.files@[ji]@);
                let witness: int = if !self.compressed {
                    sizes.0 as int
                } else {
                    sizes.1 as int
                };
                assert(text::is_size_line(lines@[3 + 3 * ji]@, self.compressed, self.pretty)) by {
                    assert(0 <= witness && lines@[3 + 3 * ji]@ == text::size_line_chars(
                        self.compressed,
                        self.pretty,
                        witness,
                    ));
                }
                assert forall|j: int| 0 <= j < ji implies ((#[trigger] lines@[1 + 3 * j])@
                    == Seq::<char>::empty() && lines@[2 + 3 * j]@ == "File Name: "@
                    + self.files@[j]@ && text::is_size_line(
                    lines@[3 + 3 * j]@,
                    self.compressed,
                    self.pretty,
                )) by {
                    assert(lines@[1 + 3 * j] == lines0[1 + 3 * j]);
                    assert(lines@[2 + 3 * j] == lines0[2 + 3 * j]);
                    assert(lines@[3 + 3 * j] == lines0[3 + 3 * j]);
                }
            }
            i = i + 1;
        }
        Ok(lines)
    }
}

} // verus!
