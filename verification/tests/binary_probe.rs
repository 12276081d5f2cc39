use converter_desk::binary_probe::resolve_binary;

fn found(p: &str) -> Option<(String, bool)> {
    Some((p.to_string(), true))
}

fn missing(p: &str) -> Option<(String, bool)> {
    Some((p.to_string(), false))
}

fn path_dirs(entries: &[(&str, bool)]) -> Vec<(String, bool)> {
    entries.iter().map(|(p, e)| (p.to_string(), *e)).collect()
}

#[test]
fn env_var_wins_over_bundled_and_path() {
    let result = resolve_binary(
        found("/tmp/x/yt-dlp-env"),
        found("/opt/app/yt-dlp"),
        path_dirs(&[("/usr/bin/yt-dlp", true)]),
    );
    assert_eq!(result, Some("/tmp/x/yt-dlp-env".to_string()));
}

#[test]
fn bundled_wins_when_env_absent() {
    let result = resolve_binary(None, found("/opt/app/yt-dlp"), path_dirs(&[("/usr/bin/yt-dlp", true)]));
    assert_eq!(result, Some("/opt/app/yt-dlp".to_string()));
}

#[test]
fn path_fallback_fires() {
    let result = resolve_binary(
        None,
        missing("/opt/app/fake-bin-path-fallback"),
        path_dirs(&[
            ("/usr/local/bin/fake-bin-path-fallback", false),
            ("/tmp/t/fake-bin-path-fallback", true),
            ("/usr/bin/fake-bin-path-fallback", true),
        ]),
    );
    assert_eq!(result, Some("/tmp/t/fake-bin-path-fallback".to_string()));
}

#[test]
fn returns_none_when_nothing_found() {
    let result = resolve_binary(
        None,
        missing("/opt/app/___nonexistent_binary_xyz_42___"),
        path_dirs(&[("/usr/bin/___nonexistent_binary_xyz_42___", false)]),
    );
    assert!(result.is_none(), "must return None for non-existent binary");
    assert_eq!(resolve_binary::<String>(None, None, Vec::new()), None);
}

#[test]
fn stale_env_path_skipped() {
    let result = resolve_binary(
        missing("/this/path/does/not/exist/yt-dlp-ghost"),
        None,
        path_dirs(&[("/usr/bin/yt-dlp", true)]),
    );
    assert_eq!(result, Some("/usr/bin/yt-dlp".to_string()));
    let nothing = resolve_binary(missing("/this/path/does/not/exist/yt-dlp-ghost"), None, Vec::new());
    assert_eq!(nothing, None);
}
