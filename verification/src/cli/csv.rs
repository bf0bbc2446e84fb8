//! Options of the CSV conversion.

use vstd::prelude::*;

use crate::strings::joined;

verus! {

/// The format that CSV is converted to.
#[derive(Clone, Copy, Debug, PartialEq, Eq, Structural)]
pub enum OutputFormat {
    /// JSON, pretty-printed.
    Json,
    /// YAML.
    Yaml,
}

/// What to convert, into what, and how to read it.
#[derive(Debug, Clone, PartialEq, Eq)]
pub struct CsvOpts {
    /// The CSV file to read.
    pub input: String,
    /// The file to write; by default `output.` and the format's name.
    pub output: Option<String>,
    /// The format to write.
    pub format: OutputFormat,
    /// The character that separates fields.
    pub delimiter: char,
    /// Whether the first record names the fields.
    pub header: bool,
}

impl OutputFormat {
    /// The name of the format, which is also its file extension.
    pub open spec fn name(self) -> Seq<char> {
        match self {
            OutputFormat::Json => "json"@,
            OutputFormat::Yaml => "yaml"@,
        }
    }

    /// The name of the format, which is also its file extension.
    pub fn as_str(self) -> (name: &'static str)
        ensures
            name@ == self.name(),
    {
        match self {
            OutputFormat::Json => "json",
            OutputFormat::Yaml => "yaml",
        }
    }
}

impl From<OutputFormat> for &'static str {
    fn from(value: OutputFormat) -> (name: &'static str) {
        match value {
            OutputFormat::Json => "json",
            OutputFormat::Yaml => "yaml",
        }
    }
}

impl vstd::std_specs::convert::FromSpecImpl<OutputFormat> for &'static str {
    open spec fn obeys_from_spec() -> bool {
        true
    }

    open spec fn from_spec(value: OutputFormat) -> &'static str {
        match value {
            OutputFormat::Json => "json",
            OutputFormat::Yaml => "yaml",
        }
    }
}

impl CsvOpts {
    /// The name of the file to write: the one given, or `output.` followed by
    /// the format's name.
    pub open spec fn output_name_spec(self) -> Seq<char> {
        match self.output {
            Some(name) => name@,
            None => "output."@ + self.format.name(),
        }
    }

    /// The name of the file to write.
    pub fn output_name(&self) -> (name: String)
        ensures
            name@ == self.output_name_spec(),
    {
        match &self.output {
            Some(name) => name.clone(),
            None => joined("output.", self.format.as_str()),
        }
    }
}

} // verus!
