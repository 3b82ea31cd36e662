//! Options of the `csv` command.
use super::same_text;
use vstd::prelude::*;

verus! {

/// The format a CSV file is converted to.
#[derive(Debug, Clone, Copy, PartialEq, Eq, Structural)]
pub enum OutputFormat {
    Json,
    Yaml,
}

/// Options of `csv`.
pub struct CsvOpts {
    pub input: String,
    pub output: Option<String>,
    pub format: OutputFormat,
    pub delimiter: char,
    pub header: bool,
}

/// The name of an output format on the command line, also the extension of
/// the default output file.
pub open spec fn output_format_name(f: OutputFormat) -> Seq<char> {
    match f {
        OutputFormat::Json => "json"@,
        OutputFormat::Yaml => "yaml"@,
    }
}

impl OutputFormat {
    /// The name of the format on the command line.
    pub fn as_str(&self) -> (r: &'static str)
        ensures
            r@ == output_format_name(*self),
    {
        match self {
            OutputFormat::Json => "json",
            OutputFormat::Yaml => "yaml",
        }
    }

    /// The output format with the given name.
    pub fn parse(s: &str) -> (r: Result<OutputFormat, String>)
        ensures
            r matches Ok(f) ==> output_format_name(f) == s@,
            (s@ == "json"@ || s@ == "yaml"@) ==> r is Ok,
            r matches Err(m) ==> m@ == "不支持的输出格式为: "@ + s@,
    {
        if same_text(s, "json") {
            Ok(OutputFormat::Json)
        } else if same_text(s, "yaml") {
            Ok(OutputFormat::Yaml)
        } else {
            let mut msg = String::from_str("不支持的输出格式为: ");
            msg.append(s);
            Err(msg)
        }
    }
}

impl std::str::FromStr for OutputFormat {
    type Err = String;

    fn from_str(s: &str) -> Result<Self, Self::Err> {
        Self::parse(s)
    }
}

/// Parses an output format name given on the command line.
pub fn parse_format(format: &str) -> (r: Result<OutputFormat, String>)
    ensures
        r matches Ok(f) ==> output_format_name(f) == format@,
        (format@ == "json"@ || format@ == "yaml"@) ==> r is Ok,
        r matches Err(m) ==> m@ == "不支持的输出格式为: "@ + format@,
{
    OutputFormat::parse(format)
}

/// The name of the output file: the one given, else `output.` and the format's name.
pub fn output_path(output: &Option<String>, format: OutputFormat) -> (r: String)
    ensures
        output matches Some(o) ==> r@ == o@,
        output is None ==> r@ == "output."@ + output_format_name(format),
{
    match output {
        Some(o) => o.clone(),
        None => {
            let mut name = String::from_str("output.");
            name.append(format.as_str());
            name
        },
    }
}

} // verus!
