//! Options of the `text` command: signing and verifying a text.
use super::same_text;
use vstd::prelude::*;

verus! {

/// The signature scheme: a BLAKE3 keyed hash, or an Ed25519 signature.
#[derive(Debug, Clone, Copy, PartialEq, Eq, Structural)]
pub enum TextSignFormat {
    Blake3,
    Ed25519,
}

/// The `text` subcommands.
pub enum TextSubCommand {
    Sign(TextSignOpts),
    Verify(TextVerifyOpts),
}

/// Options of `text sign`.
pub struct TextSignOpts {
    pub input: String,
    pub key: String,
    pub format: TextSignFormat,
}

/// Options of `text verify`.
pub struct TextVerifyOpts {
    pub input: String,
    pub signature: String,
    pub key: String,
    pub format: TextSignFormat,
}

/// The name of a format on the command line.
pub open spec fn format_name(f: TextSignFormat) -> Seq<char> {
    match f {
        TextSignFormat::Blake3 => "blake3"@,
        TextSignFormat::Ed25519 => "ed25519"@,
    }
}

impl TextSignFormat {
    /// The name of the format on the command line.
    pub fn as_str(&self) -> (r: &'static str)
        ensures
            r@ == format_name(*self),
    {
        match self {
            TextSignFormat::Blake3 => "blake3",
            TextSignFormat::Ed25519 => "ed25519",
        }
    }

    /// The format with the given name.
    pub fn parse(s: &str) -> (r: Result<TextSignFormat, String>)
        ensures
            r matches Ok(f) ==> format_name(f) == s@,
            (s@ == "blake3"@ || s@ == "ed25519"@) ==> r is Ok,
            r matches Err(m) ==> m@ == "不支持的签名格式: "@ + s@,
    {
        if same_text(s, "blake3") {
            Ok(TextSignFormat::Blake3)
        } else if same_text(s, "ed25519") {
            Ok(TextSignFormat::Ed25519)
        } else {
            let mut msg = String::from_str("不支持的签名格式: ");
            msg.append(s);
            Err(msg)
        }
    }
}

impl std::str::FromStr for TextSignFormat {
    type Err = String;

    fn from_str(s: &str) -> Result<Self, Self::Err> {
        Self::parse(s)
    }
}

/// Parses a format name given on the command line.
pub fn parse_format(format: &str) -> (r: Result<TextSignFormat, String>)
    ensures
        r matches Ok(f) ==> format_name(f) == format@,
        (format@ == "blake3"@ || format@ == "ed25519"@) ==> r is Ok,
{
    TextSignFormat::parse(format)
}

} // verus!
