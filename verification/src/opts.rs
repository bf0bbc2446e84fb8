//! The options of the CSV conversion on its own, as a single-command line.

use std::str::FromStr;
use vstd::prelude::*;

use crate::cli::checked_text;
use crate::error::ErrorKind;
use crate::strings::{joined, lowercase, owned, str_same, to_lowercase};

verus! {

/// The command line as a whole: one subcommand with its options.
#[derive(Debug, Clone, PartialEq, Eq)]
pub struct Opts {
    /// The subcommand to run.
    pub cmd: SubCommand,
}

/// The subcommands.
#[derive(Debug, Clone, PartialEq, Eq)]
pub enum SubCommand {
    /// Convert CSV to JSON or YAML.
    Csv(CsvOpts),
}

/// The format that CSV is converted to.
#[derive(Clone, Copy, Debug, PartialEq, Eq, Structural)]
pub enum OutputFormat {
    /// JSON, pretty-printed.
    Json,
    /// YAML.
    Yaml,
}

/// What to convert, into what, and how to read it.
#[derive(Debug, Clone, PartialEq, Eq)]
pub struct CsvOpts {
    /// The CSV file to read.
    pub input: String,
    /// The file to write.
    pub output: Option<String>,
    /// The format to write.
    pub format: OutputFormat,
    /// The character that separates fields.
    pub delimiter: char,
    /// Whether the first record names the fields.
    pub header: bool,
}

/// Whether `filename` may serve as an input: it must exist.
pub open spec fn file_verdict(filename: Seq<char>, exists: bool) -> Result<Seq<char>, Seq<char>> {
    if exists {
        Ok(filename)
    } else {
        Err("File not found: "@ + filename)
    }
}

/// Accepts `filename` as an input, given whether a file of that name exists.
pub fn verify_file_exists(filename: &str, exists: bool) -> (result: Result<String, String>)
    ensures
        checked_text(result) == file_verdict(filename@, exists),
{
    if exists {
        Ok(owned(filename))
    } else {
        Err(joined("File not found: ", filename))
    }
}

impl OutputFormat {
    /// The name of the format.
    pub open spec fn name(self) -> Seq<char> {
        match self {
            OutputFormat::Json => "json"@,
            OutputFormat::Yaml => "yaml"@,
        }
    }

    /// The format that a lower-case name stands for.
    pub open spec fn named(name: Seq<char>) -> Option<OutputFormat> {
        if name == "json"@ {
            Some(OutputFormat::Json)
        } else if name == "yaml"@ {
            Some(OutputFormat::Yaml)
        } else {
            None
        }
    }

    /// The name of the format.
    pub fn as_str(self) -> (name: &'static str)
        ensures
            name@ == self.name(),
    {
        match self {
            OutputFormat::Json => "json",
            OutputFormat::Yaml => "yaml",
        }
    }

    /// Looks a format up by its exact lower-case name.
    pub fn from_name(name: &str) -> (format: Option<OutputFormat>)
        ensures
            format == OutputFormat::named(name@),
    {
        if str_same(name, "json") {
            Some(OutputFormat::Json)
        } else if str_same(name, "yaml") {
            Some(OutputFormat::Yaml)
        } else {
            None
        }
    }
}

impl From<OutputFormat> for &'static str {
    fn from(value: OutputFormat) -> (name: &'static str) {
        match value {
            OutputFormat::Json => "json",
            OutputFormat::Yaml => "yaml",
        }
    }
}

impl vstd::std_specs::convert::FromSpecImpl<OutputFormat> for &'static str {
    open spec fn obeys_from_spec() -> bool {
        true
    }

    open spec fn from_spec(value: OutputFormat) -> &'static str {
        match value {
            OutputFormat::Json => "json",
            OutputFormat::Yaml => "yaml",
        }
    }
}

/// What `parse_format` answers for `text`: the format that its lower-case
/// form names, or `InvalidFormat`.
pub open spec fn parsed_format(text: Seq<char>) -> Result<OutputFormat, ErrorKind> {
    match OutputFormat::named(lowercase(text)) {
        Some(format) => Ok(format),
        None => Err(ErrorKind::InvalidFormat),
    }
}

/// Reads an output format selector, in any letter case.
pub fn parse_format(format: &str) -> (result: Result<OutputFormat, ErrorKind>)
    ensures
        result == parsed_format(format@),
{
    let lower = to_lowercase(format);
    match OutputFormat::from_name(lower.as_str()) {
        Some(format) => Ok(format),
        None => Err(ErrorKind::InvalidFormat),
    }
}

impl FromStr for OutputFormat {
    type Err = ErrorKind;

    /// Reads the selector as `parse_format` does: in any letter case, with
    /// `InvalidFormat` for a name that is none of the formats.
    fn from_str(s: &str) -> (result: Result<Self, Self::Err>)
        ensures
            result == parsed_format(s@),
    {
        parse_format(s)
    }
}

} // verus!
