use rcli::cliopts::base64_opts::parse_base64_format;
use rcli::cliopts::csv_opts::{output_path, parse_format as parse_output_format};
use rcli::cliopts::text::parse_format;
use rcli::cliopts::{input_file_check, same_text};
use rcli::{verfiy_input_file, Base64Format, OutputFormat, TextSignFormat};

#[test]
fn test_verfiy_input_file() {
    assert_eq!(verfiy_input_file("-"), Ok("-".into()));
    assert_eq!(verfiy_input_file("*"), Err("文件不存在，请重新选择文件！"));
    // A file that exists beside the tests, wherever they run from the crate's root.
    assert_eq!(verfiy_input_file("src/lib.rs"), Ok("src/lib.rs".into()));
    assert_eq!(
        verfiy_input_file("non_exist"),
        Err("文件不存在，请重新选择文件！")
    );
}

#[test]
fn input_file_check_uses_the_given_answer() {
    assert_eq!(input_file_check("-", false), Ok("-".to_string()));
    assert_eq!(input_file_check("a.txt", true), Ok("a.txt".to_string()));
    assert_eq!(input_file_check("a.txt", false), Err("文件不存在，请重新选择文件！"));
}

#[test]
fn same_text_compares_characters() {
    assert!(same_text("blake3", "blake3"));
    assert!(!same_text("blake3", "blake"));
    assert!(!same_text("abc", "abd"));
    assert!(same_text("", ""));
}

#[test]
fn text_sign_format_names() {
    assert_eq!(parse_format("blake3"), Ok(TextSignFormat::Blake3));
    assert_eq!(parse_format("ed25519"), Ok(TextSignFormat::Ed25519));
    assert_eq!(parse_format("rsa"), Err("不支持的签名格式: rsa".to_string()));
    assert_eq!(TextSignFormat::Blake3.as_str(), "blake3");
    assert_eq!(TextSignFormat::Ed25519.as_str(), "ed25519");
}

#[test]
fn base64_format_names() {
    assert_eq!(parse_base64_format("standard"), Ok(Base64Format::Standard));
    assert_eq!(parse_base64_format("urlsafe"), Ok(Base64Format::UrlSafe));
    assert_eq!(parse_base64_format("Standard"), Err("不支持的Base64格式".to_string()));
    assert_eq!(Base64Format::UrlSafe.as_str(), "urlsafe");
}

#[test]
fn output_format_names_and_default_path() {
    assert_eq!(parse_output_format("json"), Ok(OutputFormat::Json));
    assert_eq!(parse_output_format("yaml"), Ok(OutputFormat::Yaml));
    assert_eq!(parse_output_format("xml"), Err("不支持的输出格式为: xml".to_string()));
    assert_eq!(output_path(&None, OutputFormat::Yaml), "output.yaml");
    assert_eq!(output_path(&Some("out.json".to_string()), OutputFormat::Yaml), "out.json");
}


#[test]
fn formats_parse_through_from_str() {
    assert_eq!("ed25519".parse::<TextSignFormat>(), Ok(TextSignFormat::Ed25519));
    assert_eq!("urlsafe".parse::<Base64Format>(), Ok(Base64Format::UrlSafe));
    assert_eq!("yaml".parse::<OutputFormat>(), Ok(OutputFormat::Yaml));
    assert!("md5".parse::<TextSignFormat>().is_err());
}
