use vstd::prelude::*;
use vstd::string::StringExecFns;

use crate::gateway;

verus! {

/// Output formats supported. Only the cat command accepts the CSV forms,
/// and those are defined at batch granularity only.
#[derive(Copy, Clone, Debug)]
pub enum Formats {
    Default,
    Csv,
    CsvNoHeader,
    Json,
}

impl Formats {
    /// The format's name as text.
    pub fn label(&self) -> (r: String)
        ensures
            r@ == match *self {
                Formats::Default => "Default"@,
                Formats::Csv => "Csv"@,
                Formats::CsvNoHeader => "CsvNoHeader"@,
                Formats::Json => "Json"@,
            },
    {
        proof {
            reveal_strlit("Default");
            reveal_strlit("Csv");
            reveal_strlit("CsvNoHeader");
            reveal_strlit("Json");
        }
        match self {
            Formats::Default => "Default".to_owned(),
            Formats::Csv => "Csv".to_owned(),
            Formats::CsvNoHeader => "CsvNoHeader".to_owned(),
            Formats::Json => "Json".to_owned(),
        }
    }

    /// Whether this format renders column-wise over batches. The JSON and CSV
    /// forms do; the native form renders row by row.
    pub fn uses_batches(&self) -> (r: bool)
        ensures
            r == !(*self is Default),
    {
        match self {
            Formats::Default => false,
            _ => true,
        }
    }
}

/// The marker line emitted when a row is rendered in a format that is only
/// defined at batch granularity: the condition is reported explicitly instead
/// of emitting silently misaligned row text.
pub fn unsupported_line(native: &str) -> (r: String)
    ensures
        r@ == "Unsupported! "@ + native@,
{
    let mut s = "Unsupported! ".to_owned();
    s.append(native);
    proof {
        reveal_strlit("Unsupported! ");
    }
    s
}

/// Prints one decoded row and returns the printed line: the row's native
/// text form for the default format, one compact JSON object for the JSON
/// format, and an explicit unsupported marker for the CSV forms, which only
/// render at batch granularity. The row must render (its temporal values in
/// range), since the format library's renderers abort otherwise.
pub fn print_row(row: &parquet::record::Row, format: Formats) -> (line: String)
    requires
        gateway::row_renders(*row),
    ensures
        format is Default ==> line@ == gateway::row_text_of(*row),
        format is Json ==> line@ == gateway::row_json_of(*row),
        (format is Csv || format is CsvNoHeader) ==> line@ == "Unsupported! "@
            + gateway::row_text_of(*row),
{
    let line = match format {
        Formats::Default => gateway::row_native_text(row),
        Formats::Json => {
            let value = gateway::row_json_value(row);
            gateway::json_value_text(&value)
        },
        Formats::Csv | Formats::CsvNoHeader => {
            let text = gateway::row_native_text(row);
            unsupported_line(text.as_str())
        },
    };
    gateway::out_line(line.as_str());
    line
}

} // verus!
