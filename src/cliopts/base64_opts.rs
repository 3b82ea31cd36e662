//! Options of the `base64` command.
use super::same_text;
use vstd::prelude::*;

verus! {

/// The base64 alphabet: the standard one with padding, or the URL-safe one without.
#[derive(Debug, Clone, Copy, PartialEq, Eq, Structural)]
pub enum Base64Format {
    Standard,
    UrlSafe,
}

/// The `base64` subcommands.
pub enum Base64SubCommand {
    Encode(Base64EncodeOpts),
    Decode(Base64DecodeOpts),
}

/// Options of `base64 encode`.
pub struct Base64EncodeOpts {
    pub input: String,
    pub format: Base64Format,
}

/// Options of `base64 decode`.
pub struct Base64DecodeOpts {
    pub input: String,
    pub format: Base64Format,
}

/// The name of an alphabet on the command line.
pub open spec fn base64_format_name(f: Base64Format) -> Seq<char> {
    match f {
        Base64Format::Standard => "standard"@,
        Base64Format::UrlSafe => "urlsafe"@,
    }
}

impl Base64Format {
    /// The name of the alphabet on the command line.
    pub fn as_str(&self) -> (r: &'static str)
        ensures
            r@ == base64_format_name(*self),
    {
        match self {
            Base64Format::Standard => "standard",
            Base64Format::UrlSafe => "urlsafe",
        }
    }

    /// The alphabet with the given name.
    pub fn parse(s: &str) -> (r: Result<Base64Format, String>)
        ensures
            r matches Ok(f) ==> base64_format_name(f) == s@,
            (s@ == "standard"@ || s@ == "urlsafe"@) ==> r is Ok,
            r matches Err(m) ==> m@ == "不支持的Base64格式"@,
    {
        if same_text(s, "standard") {
            Ok(Base64Format::Standard)
        } else if same_text(s, "urlsafe") {
            Ok(Base64Format::UrlSafe)
        } else {
            Err(String::from_str("不支持的Base64格式"))
        }
    }
}

impl std::str::FromStr for Base64Format {
    type Err = String;

    fn from_str(s: &str) -> Result<Self, Self::Err> {
        Self::parse(s)
    }
}

/// Parses an alphabet name given on the command line.
pub fn parse_base64_format(format: &str) -> (r: Result<Base64Format, String>)
    ensures
        r matches Ok(f) ==> base64_format_name(f) == format@,
        (format@ == "standard"@ || format@ == "urlsafe"@) ==> r is Ok,
        r matches Err(m) ==> m@ == "不支持的Base64格式"@,
{
    Base64Format::parse(format)
}

} // verus!
