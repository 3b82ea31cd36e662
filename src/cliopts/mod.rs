//! Command-line options of the tool, as plain data, and the checks on their values.
pub mod base64_opts;
pub mod csv_opts;
pub mod password_opts;
pub mod text;

use vstd::prelude::*;

pub use base64_opts::{Base64DecodeOpts, Base64EncodeOpts, Base64Format, Base64SubCommand};
pub use csv_opts::{CsvOpts, OutputFormat};
pub use password_opts::GenPassOpts;
pub use text::{TextSignFormat, TextSignOpts, TextSubCommand, TextVerifyOpts};

verus! {

/// The message given when an input file does not exist.
pub const MISSING_FILE: &'static str = "文件不存在，请重新选择文件！";

/// The options of one run of the tool.
pub struct Opts {
    pub cmd: SubCommand,
}

/// The tool's commands.
pub enum SubCommand {
    Csv(CsvOpts),
    GenPass(GenPassOpts),
    Base64(Base64SubCommand),
    Text(TextSubCommand),
}

/// Whether two strings hold the same characters.
pub fn same_text(a: &str, b: &str) -> (r: bool)
    ensures
        r == (a@ == b@),
{
    let n = a.unicode_len();
    if n != b.unicode_len() {
        return false;
    }
    let mut i: usize = 0;
    while i < n
        invariant
            n == a@.len(),
            n == b@.len(),
            0 <= i <= n,
            forall|j: int| 0 <= j < i ==> a@[j] == b@[j],
        decreases n - i,
    {
        if a.get_char(i) != b.get_char(i) {
            return false;
        }
        i = i + 1;
    }
    assert(a@ =~= b@);
    true
}

/// Relies on `std::path::Path::exists`: whether the path names something on
/// disk. Nothing is promised of the answer.
#[verifier::external_body]
fn path_exists(path: &str) -> (r: bool) {
    std::path::Path::new(path).exists()
}

/// The check on an input file name, given whether that file exists: the name is
/// accepted when it is `-` (standard input) or the file exists.
pub fn input_file_check(filename: &str, exists: bool) -> (r: Result<String, &'static str>)
    ensures
        (filename@ == "-"@ || exists) ==> (r matches Ok(s) && s@ == filename@),
        !(filename@ == "-"@ || exists) ==> (r matches Err(e) && e@ == MISSING_FILE@),
{
    if same_text(filename, "-") || exists {
        Ok(filename.to_owned())
    } else {
        Err(MISSING_FILE)
    }
}

/// Accepts `-` (standard input) or the name of a file that exists; otherwise
/// fails with `MISSING_FILE`.
pub fn verfiy_input_file(filename: &str) -> (r: Result<String, &'static str>)
    ensures
        filename@ == "-"@ ==> (r matches Ok(s) && s@ == filename@),
        r matches Ok(s) ==> s@ == filename@,
        r matches Err(e) ==> e@ == MISSING_FILE@ && filename@ != "-"@,
{
    let exists = if same_text(filename, "-") {
        true
    } else {
        path_exists(filename)
    };
    input_file_check(filename, exists)
}

} // verus!
