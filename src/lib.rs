//! Text signing and verification with a keyed hash or with Ed25519 signatures,
//! together with the small helpers of the `rcli` command-line tool.
pub mod cliopts;
pub mod codec;
pub mod csv_convert;
pub mod gen_pass;
pub mod text_sign;

pub use cliopts::{
    verfiy_input_file, Base64DecodeOpts, Base64EncodeOpts, Base64Format, Base64SubCommand, CsvOpts,
    GenPassOpts, Opts, OutputFormat, SubCommand, TextSignFormat, TextSignOpts, TextSubCommand,
    TextVerifyOpts,
};
pub use codec::{decode_base64, decode_signature, encode_base64, encode_signature};
pub use csv_convert::{pair_record, pair_records};
pub use gen_pass::generate_password;
pub use text_sign::{
    load_ed25519_key, load_mac_key, sign_bytes, sign_text, verify_bytes, verify_text, Blake3,
    Ed25519Signer, Ed25519Verifier, TextSignError,
};
