use hold_sccache::toml_doc::{build_slot_usable, is_wired_document, render_document, unwire_document};
use hold_sccache::wire::{
    default_fleet_config, default_sccache_config_dir, load_or_create_doc, merge_rustc_wrapper,
    run_unwire, run_wire, unwire_edit, wire_edit, write_sccache_config, UnwireArgs, WireArgs,
    WireError,
};

#[test]
fn ac2_wire_preserves_target_dir() {
    let mut doc = load_or_create_doc(Some("[build]\ntarget-dir = \"/tmp/cargo-target\"\n")).unwrap();
    assert!(merge_rustc_wrapper(&mut doc));
    let result = render_document(&doc);
    assert!(result.contains("rustc-wrapper"));
    assert!(result.contains("target-dir"));
    assert!(result.contains("/tmp/cargo-target"));
    assert!(result.contains("sccache"));
}

#[test]
fn ac3_wire_is_idempotent() {
    let mut doc = load_or_create_doc(None).unwrap();
    assert!(merge_rustc_wrapper(&mut doc));
    let first = render_document(&doc);
    let mut again = load_or_create_doc(Some(first.as_str())).unwrap();
    assert!(!merge_rustc_wrapper(&mut again));
    assert_eq!(render_document(&again), first);
}

#[test]
fn ac5_unwire_only_removes_rustc_wrapper() {
    let initial = "[build]\ntarget-dir = \"/tmp/cargo-target\"\nrustc-wrapper = \"sccache\"\n";
    let mut doc = load_or_create_doc(Some(initial)).unwrap();
    assert!(unwire_document(&mut doc));
    let result = render_document(&doc);
    assert!(!result.contains("rustc-wrapper"));
    assert!(result.contains("target-dir"));
    assert!(result.contains("/tmp/cargo-target"));
    let mut again = load_or_create_doc(Some(result.as_str())).unwrap();
    assert!(!unwire_document(&mut again));
    assert_eq!(render_document(&again), result);
    assert!(!is_wired_document(&again));
}

#[test]
fn sccache_config_layout() {
    let f = write_sccache_config("/home/u/.config/sccache", "20G");
    assert_eq!(f.path, "/home/u/.config/sccache/config");
    assert_eq!(
        f.content,
        "# sccache configuration \u{2014} managed by hold-sccache\n[cache.disk]\ndir = \"/home/u/.config/sccache\"\nsize = \"20G\"\n"
    );
    let g = write_sccache_config("conf", "1M");
    assert!(g.content.contains("dir = \"sccache\"\n"));
}

#[test]
fn build_slot_that_is_not_a_table() {
    let doc = load_or_create_doc(Some("build = \"x\"\n")).unwrap();
    assert!(!build_slot_usable(&doc));
    let doc = load_or_create_doc(Some("other = 1\n")).unwrap();
    assert!(build_slot_usable(&doc));
}

#[test]
fn parse_errors_surface() {
    assert!(matches!(load_or_create_doc(Some("[[")), Err(WireError::Toml(_))));
}

#[test]
fn wire_targets() {
    let args = WireArgs { max_size: "20G".to_string(), config: None, sccache_config_dir: None };
    let t = run_wire(&args, Some("/h")).unwrap();
    assert_eq!(t.config_path, "/h/wintermute/.cargo/config.toml");
    assert_eq!(t.sccache_config_dir, "/h/.config/sccache");
    assert!(matches!(run_wire(&args, None), Err(WireError::NoHomeDirectory)));
    assert_eq!(run_unwire(&UnwireArgs { config: Some("/c".to_string()) }, None).unwrap(), "/c");
    assert!(matches!(default_fleet_config(None), Err(WireError::NoHomeDirectory)));
    assert_eq!(default_sccache_config_dir(Some("/h")).unwrap(), "/h/.config/sccache");
}

#[test]
fn wire_edit_writes_once() {
    let mut doc = load_or_create_doc(Some("[build]\njobs = 2\n")).ok().unwrap();
    let text = wire_edit(&mut doc).unwrap();
    assert!(text.contains("rustc-wrapper = \"sccache\""));
    assert!(text.contains("jobs = 2"));
    let mut again = load_or_create_doc(Some(text.as_str())).ok().unwrap();
    assert!(wire_edit(&mut again).is_none());
    assert_eq!(render_document(&again), text);
}

#[test]
fn unwire_edit_writes_once() {
    let mut doc = load_or_create_doc(Some("[build]\nrustc-wrapper = \"sccache\"\njobs = 2\n")).ok().unwrap();
    let text = unwire_edit(&mut doc).unwrap();
    assert_eq!(text, "[build]\njobs = 2\n");
    let mut again = load_or_create_doc(Some(text.as_str())).ok().unwrap();
    assert!(unwire_edit(&mut again).is_none());
    let mut empty = load_or_create_doc(None).ok().unwrap();
    assert!(unwire_edit(&mut empty).is_none());
}

#[test]
fn edits_settle_on_the_same_document() {
    let mut doc = load_or_create_doc(None).ok().unwrap();
    assert!(wire_edit(&mut doc).is_some());
    assert!(is_wired_document(&doc));
    assert!(wire_edit(&mut doc).is_none());
    assert!(unwire_edit(&mut doc).is_some());
    assert!(!is_wired_document(&doc));
    assert!(unwire_edit(&mut doc).is_none());
    assert_eq!(render_document(&doc), "[build]\n");
}

#[test]
fn sccache_config_without_line_breaks_reads_back() {
    let file = write_sccache_config("/var/conf/sccache", "512M");
    assert_eq!(hold_sccache::status::read_max_size(Some(file.content.as_str())), Some(512 * 1024 * 1024));
    let bad = write_sccache_config("/var/conf/sccache", "abc");
    assert_eq!(hold_sccache::status::read_max_size(Some(bad.content.as_str())), None);
}
