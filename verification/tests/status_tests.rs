use hold_sccache::status::{
    check_wired, parse_size_str, read_max_size, read_max_size_panics, run, status_paths,
    StatusArgs, StatusProbe,
};
use hold_sccache::config::{wire_cmd, wire_to};
use hold_sccache::wire::write_sccache_config;

const GIB_20: u64 = 20 * 1024 * 1024 * 1024;

#[test]
fn ac4_wire_max_size_readable_by_status() {
    let plan = wire_cmd("20G", Some("/tmp/x/config.toml"), Some("/tmp/x/sccache-conf"), None).unwrap();
    assert_eq!(plan.sccache_path, "/tmp/x/sccache-conf/config");
    let written = wire_to(None, "20G").unwrap();
    let args = StatusArgs {
        config: Some("/tmp/x/config.toml".to_string()),
        sccache_config_dir: Some("/tmp/x/sccache-conf".to_string()),
    };
    let probe = StatusProbe {
        installed: false,
        config_text: Some(written.cargo_text.clone()),
        sccache_config_text: Some(written.sccache_text.clone()),
        live_cache_bytes: None,
    };
    let out = run(&args, None, &probe);
    assert!(out.wired);
    assert_eq!(out.max_bytes, Some(GIB_20));
    assert_eq!(out.sccache_config_path, plan.sccache_path);
}

#[test]
fn toml_form_sccache_config_is_readable_by_status() {
    let file = write_sccache_config("/tmp/x/sccache-conf", "20G");
    assert_eq!(file.path, "/tmp/x/sccache-conf/config");
    assert_eq!(read_max_size(Some(file.content.as_str())), Some(GIB_20));
}

#[test]
fn bare_byte_counts_are_read_without_a_size_line() {
    assert_eq!(read_max_size(Some("21474836480")), Some(GIB_20));
    assert_eq!(read_max_size(Some("  1024\n")), Some(1024));
    assert_eq!(read_max_size(Some("")), None);
    assert_eq!(read_max_size(Some("12x")), None);
    assert!(!read_max_size_panics(Some("99999999999999999999")));
    assert_eq!(read_max_size(Some("99999999999999999999")), None);
}

#[test]
fn ac7_status_exits_0_with_all_fields_present() {
    let args = StatusArgs { config: Some("/tmp/c.toml".to_string()), sccache_config_dir: Some("/tmp/s".to_string()) };
    let probe = StatusProbe { installed: false, config_text: None, sccache_config_text: None, live_cache_bytes: Some(5) };
    let out = run(&args, None, &probe);
    assert!(!out.wired);
    assert_eq!(out.max_bytes, None);
    assert_eq!(out.cache_bytes, None);
    assert!(!out.installed);
    assert_eq!(out.config_path, "/tmp/c.toml");
    assert_eq!(out.sccache_config_path, "/tmp/s/config");
}

#[test]
fn status_reports_wiring_and_live_cache_when_installed() {
    let args = StatusArgs { config: None, sccache_config_dir: None };
    let probe = StatusProbe {
        installed: true,
        config_text: Some("[build]\nrustc-wrapper = \"sccache\"\n".to_string()),
        sccache_config_text: Some("size = \"1K\"\n".to_string()),
        live_cache_bytes: Some(5),
    };
    let out = run(&args, Some("/home/u"), &probe);
    assert!(out.wired);
    assert_eq!(out.cache_bytes, Some(5));
    assert_eq!(out.max_bytes, Some(1024));
    assert_eq!(out.config_path, "/home/u/wintermute/.cargo/config.toml");
    assert_eq!(out.sccache_config_path, "/home/u/.config/sccache/config");
}

#[test]
fn status_paths_fall_back_without_home() {
    let p = status_paths(&StatusArgs { config: None, sccache_config_dir: None }, None);
    assert_eq!(p.config_path, "~/.cargo/config.toml");
    assert_eq!(p.sccache_config_dir, "~/.config/sccache");
}

#[test]
fn size_lines_are_read_loosely() {
    assert_eq!(read_max_size(None), None);
    assert_eq!(read_max_size(Some("[cache.disk]\n  size= \"512M\"  \n")), Some(512 * 1024 * 1024));
    assert_eq!(read_max_size(Some("sizeable = 3\nsize = \"1G\"")), None);
    assert_eq!(read_max_size(Some("size = 2K")), Some(2048));
    assert_eq!(read_max_size(Some("dir = \"/x\"\n")), None);
    assert_eq!(read_max_size(Some("size = \"\"")), None);
    assert!(read_max_size_panics(Some("size = \"9\u{e9}\"")));
    assert!(read_max_size_panics(Some("size = \"18446744073709551615K\"")));
    assert!(!read_max_size_panics(Some("size = \"x\"")));
}

#[test]
fn size_strings() {
    assert_eq!(parse_size_str("20G"), Some(GIB_20));
    assert_eq!(parse_size_str("20"), None);
    assert_eq!(parse_size_str(""), None);
}

#[test]
fn wired_check_degrades_to_false() {
    assert!(!check_wired(None));
    assert!(!check_wired(Some("[build")));
    assert!(check_wired(Some("[build]\nrustc-wrapper = \"sccache\"\n")));
}
