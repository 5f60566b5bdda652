use vstd::prelude::*;

verus! {

/// The errors that the library's operations can surface.
///
/// Every variant carries plain data (a path or a human-readable message),
/// so that contracts can speak about errors directly.
#[derive(Debug, Clone, PartialEq, Eq)]
pub enum PQRSError {
    /// An input path does not exist on the filesystem.
    FileNotFound(String),
    /// An input path exists but could not be opened.
    CouldNotOpenFile(String),
    /// The output path already exists; refusing to overwrite it.
    FileExists(String),
    /// The file is not a structurally valid Parquet file.
    ParquetError(String),
    /// A malformed numeric argument.
    UnableToReadNumber(String),
    /// A generic read or write failure.
    UnableToProcessFile(String),
    /// Reading or writing Arrow data failed.
    ArrowReadWriteError(String),
    /// The requested operation is not supported in this mode.
    UnsupportedOperation,
    /// Converting to or from JSON failed.
    SerdeJsonError(String),
    /// Bytes that were expected to be UTF-8 text are not.
    UTF8ConvertError(String),
    /// A writer-tuning value (encoding name, compression name or level)
    /// is outside the known set.
    InvalidConfigurationValue(String),
}

} // verus!
