use hold_sccache::config::{
    default_cargo_config_path, default_sccache_config_dir, get_max_size, get_max_size_dir,
    get_max_size_from,
    is_wired, is_wired_at,
    parse_max_size, sccache_config_path, unwire_cmd, unwire_from, wire_cmd, wire_to, ConfigError,
};
use hold_sccache::number::IntErrorKind;
use hold_sccache::size::{size_arg_panics, SizeError};

const GIB: u64 = 1024 * 1024 * 1024;

#[test]
fn test_parse_size_g() {
    assert_eq!(parse_max_size("20G").unwrap(), 20 * 1024 * 1024 * 1024);
}

#[test]
fn test_parse_size_m() {
    assert_eq!(parse_max_size("512M").unwrap(), 512 * 1024 * 1024);
}

#[test]
fn test_wire_max_size_stored_and_readable() {
    let out = wire_to(None, "20G").unwrap();
    let max = get_max_size_from(Some(out.sccache_text.as_str())).unwrap().unwrap();
    assert_eq!(max, 20 * 1024 * 1024 * 1024);
}

#[test]
fn test_wire_empty_config() {
    let out = wire_to(None, "20G").unwrap();
    assert!(out.cargo_text.contains("sccache"));
}

#[test]
fn test_wire_preserves_existing_keys() {
    let existing = "[build]\ntarget-dir = \"/tmp/target\"\n";
    let out = wire_to(Some(existing), "20G").unwrap();
    assert!(out.cargo_text.contains("target-dir"));
    assert!(out.cargo_text.contains("sccache"));
}

#[test]
fn test_wire_idempotent() {
    let first = wire_to(None, "20G").unwrap();
    let second = wire_to(Some(first.cargo_text.as_str()), "20G").unwrap();
    assert_eq!(first.cargo_text, second.cargo_text);
}

#[test]
fn test_unwire_removes_only_rustc_wrapper() {
    let existing = "[build]\ntarget-dir = \"/tmp/target\"\n";
    let wired = wire_to(Some(existing), "20G").unwrap();
    let content = unwire_from(Some(wired.cargo_text.as_str())).unwrap().unwrap();
    assert!(!content.contains("rustc-wrapper"));
    assert!(content.contains("target-dir"));
}

#[test]
fn test_unwire_idempotent() {
    let wired = wire_to(None, "20G").unwrap();
    let content1 = unwire_from(Some(wired.cargo_text.as_str())).unwrap().unwrap();
    let content2 = unwire_from(Some(content1.as_str())).unwrap().unwrap();
    assert_eq!(content1, content2);
}

#[test]
fn wire_of_missing_file_writes_build_table() {
    let out = wire_to(None, "20G").unwrap();
    assert_eq!(out.cargo_text, "[build]\nrustc-wrapper = \"sccache\"\n");
    assert_eq!(out.sccache_text, "21474836480");
}

#[test]
fn wire_keeps_comments_and_other_tables() {
    let existing = "# fleet config\n[net]\nretry = 3\n\n[build]\ntarget-dir = \"/t\" # shared\n";
    let out = wire_to(Some(existing), "1K").unwrap();
    assert!(out.cargo_text.starts_with("# fleet config\n[net]\nretry = 3\n"));
    assert!(out.cargo_text.contains("target-dir = \"/t\" # shared\n"));
    assert!(out.cargo_text.contains("rustc-wrapper = \"sccache\""));
    assert_eq!(out.sccache_text, "1024");
}

#[test]
fn wire_replaces_another_wrapper() {
    let existing = "[build]\nrustc-wrapper = \"other\"\n";
    let out = wire_to(Some(existing), "2M").unwrap();
    assert_eq!(is_wired_at(Some(out.cargo_text.as_str())).unwrap(), true);
    assert!(!out.cargo_text.contains("other"));
}

#[test]
fn wire_leaves_a_wired_config_byte_identical() {
    let existing = "[build]\nrustc-wrapper = \"sccache\"   # keep\ntarget-dir = \"/x\"\n";
    let out = wire_to(Some(existing), "20G").unwrap();
    assert_eq!(out.cargo_text, existing);
}

#[test]
fn wire_refuses_build_that_is_not_a_table() {
    let r = wire_to(Some("build = 1\n"), "20G");
    assert!(matches!(r, Err(ConfigError::BuildNotTable)));
}

#[test]
fn wire_refuses_invalid_toml() {
    let r = wire_to(Some("[build\n"), "20G");
    assert!(matches!(r, Err(ConfigError::Toml(_))));
}

#[test]
fn wire_checks_the_size_first() {
    let r = wire_to(Some("[build\n"), "20X");
    assert!(matches!(r, Err(ConfigError::Size(SizeError::UnknownUnit))));
}

#[test]
fn parse_size_units_and_errors() {
    assert_eq!(parse_max_size("3g").unwrap(), 3 * GIB);
    assert_eq!(parse_max_size("7k").unwrap(), 7 * 1024);
    assert_eq!(parse_max_size("7K").unwrap(), 7 * 1024);
    assert_eq!(parse_max_size("99b").unwrap(), 99);
    assert_eq!(parse_max_size("+5B").unwrap(), 5);
    assert!(matches!(parse_max_size(""), Err(ConfigError::Size(SizeError::Empty))));
    assert!(matches!(
        parse_max_size("G"),
        Err(ConfigError::Size(SizeError::InvalidNumber(IntErrorKind::Empty)))
    ));
    assert!(matches!(
        parse_max_size("2xG"),
        Err(ConfigError::Size(SizeError::InvalidNumber(IntErrorKind::InvalidDigit)))
    ));
    assert!(matches!(
        parse_max_size("-2G"),
        Err(ConfigError::Size(SizeError::InvalidNumber(IntErrorKind::InvalidDigit)))
    ));
    assert!(matches!(
        parse_max_size("99999999999999999999B"),
        Err(ConfigError::Size(SizeError::InvalidNumber(IntErrorKind::PosOverflow)))
    ));
    assert!(matches!(parse_max_size("20T"), Err(ConfigError::Size(SizeError::UnknownUnit))));
}

#[test]
fn size_arguments_that_cannot_be_read() {
    assert!(size_arg_panics("20\u{e9}"));
    assert!(size_arg_panics("17179869184G"));
    assert!(!size_arg_panics("17179869183G"));
    assert!(!size_arg_panics(""));
    assert!(!size_arg_panics("x\u{e9}G"));
    assert_eq!(parse_max_size("17179869183G").unwrap(), 17179869183 * GIB);
}

#[test]
fn stored_size_reading() {
    assert_eq!(get_max_size_from(None).unwrap(), None);
    assert_eq!(get_max_size_from(Some("  \n")).unwrap(), None);
    assert_eq!(get_max_size_from(Some(" 42\n")).unwrap(), Some(42));
    assert!(matches!(
        get_max_size_from(Some("20G")),
        Err(ConfigError::StoredSize(IntErrorKind::InvalidDigit))
    ));
}

#[test]
fn wired_state_of_texts() {
    assert_eq!(is_wired_at(None).unwrap(), false);
    assert_eq!(is_wired_at(Some("[build]\nrustc-wrapper = \"sccache\"\n")).unwrap(), true);
    assert_eq!(is_wired_at(Some("[build]\nrustc-wrapper = \"ccache\"\n")).unwrap(), false);
    assert_eq!(is_wired_at(Some("build = { rustc-wrapper = \"sccache\" }\n")).unwrap(), false);
    assert!(matches!(is_wired_at(Some("= nope")), Err(ConfigError::Toml(_))));
}

#[test]
fn unwire_of_missing_file_writes_nothing() {
    assert!(unwire_from(None).unwrap().is_none());
}

#[test]
fn default_paths_under_home() {
    assert_eq!(
        default_cargo_config_path(Some("/home/u")).unwrap(),
        "/home/u/wintermute/.cargo/config.toml"
    );
    assert_eq!(default_sccache_config_dir(Some("/home/u/")).unwrap(), "/home/u/.config/sccache");
    assert!(matches!(default_cargo_config_path(None), Err(ConfigError::HomeNotSet)));
    assert_eq!(sccache_config_path("/etc/sc"), "/etc/sc/config");
}

#[test]
fn wire_and_unwire_commands_resolve_paths() {
    let plan = wire_cmd("20G", None, None, Some("/h")).unwrap();
    assert_eq!(plan.cargo_path, "/h/wintermute/.cargo/config.toml");
    assert_eq!(plan.sccache_path, "/h/.config/sccache/config");
    assert_eq!(plan.size_bytes, 20 * GIB);
    let plan = wire_cmd("1M", Some("/c.toml"), Some("/s"), None).unwrap();
    assert_eq!(plan.cargo_path, "/c.toml");
    assert_eq!(plan.sccache_path, "/s/config");
    assert!(matches!(wire_cmd("bad", None, Some("/s"), None), Err(ConfigError::HomeNotSet)));
    assert!(matches!(
        wire_cmd("12X", Some("/c"), Some("/s"), None),
        Err(ConfigError::Size(SizeError::UnknownUnit))
    ));
    assert_eq!(unwire_cmd(Some("/c"), None).unwrap(), "/c");
    assert_eq!(unwire_cmd(None, Some("/h")).unwrap(), "/h/wintermute/.cargo/config.toml");
}

#[test]
fn default_path_readers_need_home() {
    assert!(matches!(is_wired(None, None), Err(ConfigError::HomeNotSet)));
    assert!(matches!(get_max_size(None, Some("5")), Err(ConfigError::HomeNotSet)));
    assert_eq!(is_wired(Some("/h"), None).unwrap(), false);
    assert_eq!(is_wired(Some("/h"), Some("[build]\nrustc-wrapper = \"sccache\"\n")).unwrap(), true);
    assert!(matches!(is_wired(Some("/h"), Some("[build")), Err(ConfigError::Toml(_))));
    assert_eq!(get_max_size(Some("/h"), None).unwrap(), None);
    assert_eq!(get_max_size(Some("/h"), Some("2048\n")).unwrap(), Some(2048));
    assert!(matches!(get_max_size(Some("/h"), Some("x")), Err(ConfigError::StoredSize(_))));
}

#[test]
fn unwire_after_wire_gives_the_text_back() {
    let original = "[build]\ntarget-dir = \"/tmp/target\"\n";
    let wired = wire_to(Some(original), "10G").unwrap();
    assert_ne!(wired.cargo_text, original);
    let back = unwire_from(Some(wired.cargo_text.as_str())).unwrap();
    assert_eq!(back.as_deref(), Some(original));
}

#[test]
fn rewiring_the_written_text_writes_the_same() {
    let first = wire_to(Some("[profile.dev]\ndebug = 1\n"), "1M").unwrap();
    let second = wire_to(Some(first.cargo_text.as_str()), "1M").unwrap();
    assert_eq!(second.cargo_text, first.cargo_text);
    assert_eq!(second.sccache_text, first.sccache_text);
    assert_eq!(first.sccache_text, "1048576");
    assert_eq!(is_wired_at(Some(first.cargo_text.as_str())).unwrap(), true);
}

#[test]
fn unwired_text_reads_unwired_and_unwires_to_itself() {
    let once = unwire_from(Some("[build]\nrustc-wrapper = \"sccache\"\njobs = 4\n")).unwrap().unwrap();
    assert_eq!(is_wired_at(Some(once.as_str())).unwrap(), false);
    let twice = unwire_from(Some(once.as_str())).unwrap().unwrap();
    assert_eq!(twice, once);
}

#[test]
fn size_cap_of_a_config_directory() {
    let (path, size) = get_max_size_dir("/tmp/s", Some(" 4096\n"));
    assert_eq!(path, "/tmp/s/config");
    assert_eq!(size.unwrap(), Some(4096));
    let (_, missing) = get_max_size_dir("/tmp/s/", None);
    assert_eq!(missing.unwrap(), None);
    let (_, bad) = get_max_size_dir("/tmp/s", Some("4K"));
    assert!(matches!(bad, Err(ConfigError::StoredSize(IntErrorKind::InvalidDigit))));
}
