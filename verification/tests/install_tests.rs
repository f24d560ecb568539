use hold_sccache::install::{resolve_install_dir, sccache_candidates, InstallError};

#[test]
fn install_dir_choice() {
    assert_eq!(resolve_install_dir(Some("/opt/bin"), None).unwrap(), "/opt/bin");
    assert_eq!(resolve_install_dir(None, Some("/home/u")).unwrap(), "/home/u/.local/bin");
    assert_eq!(resolve_install_dir(None, None), Err(InstallError::HomeNotSet));
}

#[test]
fn candidates_follow_path_entries() {
    assert!(sccache_candidates(None).is_empty());
    assert_eq!(sccache_candidates(Some("/usr/bin:/bin/")), vec!["/usr/bin/sccache", "/bin/sccache"]);
    assert_eq!(sccache_candidates(Some("")), vec!["sccache"]);
}
