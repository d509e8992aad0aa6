use rustc_tools_util::{BuildConfig, HostQueries, VersionInfo};

fn config(major: &str, minor: &str, patch: &str) -> BuildConfig {
    BuildConfig {
        version_major: major.to_string(),
        version_minor: minor.to_string(),
        version_patch: patch.to_string(),
        release_channel: None,
        commit_hash: None,
        commit_date: None,
    }
}

fn no_queries() -> HostQueries {
    HostQueries {
        env_channel: None,
        git_hash: None,
        git_date: None,
    }
}

#[test]
fn resolve_then_render_begins_with_version() {
    let info = VersionInfo::resolve(config("0", "5", "17"), no_queries()).unwrap();
    let rendered = info.render();
    assert!(rendered.starts_with("clippy 0.5.17"));
}

#[test]
fn embedded_mode_keeps_injected_strings_verbatim() {
    let cfg = BuildConfig {
        version_major: "1".to_string(),
        version_minor: "2".to_string(),
        version_patch: "3".to_string(),
        release_channel: Some("beta".to_string()),
        commit_hash: Some("  abc123 \n".to_string()),
        commit_date: Some(" 2024-01-01\n".to_string()),
    };
    let info = VersionInfo::resolve(cfg, no_queries()).unwrap();
    assert_eq!(info.host_compiler, Some("beta".to_string()));
    assert_eq!(info.commit_hash, Some("  abc123 \n".to_string()));
    assert_eq!(info.commit_date, Some(" 2024-01-01\n".to_string()));
}

#[test]
fn standalone_mode_defaults_channel_to_nightly() {
    let info = VersionInfo::resolve(config("1", "0", "0"), no_queries()).unwrap();
    assert_eq!(info.host_compiler, Some("nightly".to_string()));
    assert_eq!(info.commit_hash, None);
    assert_eq!(info.commit_date, None);
}

#[test]
fn standalone_mode_takes_environment_channel_verbatim() {
    let queries = HostQueries {
        env_channel: Some("stable".to_string()),
        git_hash: Some("f00dcafe\n".to_string()),
        git_date: Some("2023-12-31".to_string()),
    };
    let info = VersionInfo::resolve(config("1", "0", "0"), queries).unwrap();
    assert_eq!(info.host_compiler, Some("stable".to_string()));
    assert_eq!(info.commit_hash, Some("f00dcafe\n".to_string()));
    assert_eq!(info.commit_date, Some("2023-12-31".to_string()));
}

#[test]
fn render_trims_hash_and_keeps_date() {
    let info = VersionInfo {
        major: 1,
        minor: 2,
        patch: 3,
        host_compiler: None,
        commit_hash: Some("  abc123\n".to_string()),
        commit_date: Some("2024-01-01".to_string()),
    };
    let rendered = info.render();
    assert!(rendered.contains("(abc123 2024-01-01)"));
    assert_eq!(rendered, "clippy 1.2.3 (abc123 2024-01-01)");
}

#[test]
fn render_absent_fields_collapse_to_blank() {
    let info = VersionInfo {
        major: 1,
        minor: 2,
        patch: 3,
        host_compiler: None,
        commit_hash: None,
        commit_date: None,
    };
    let rendered = info.render();
    assert!(rendered.contains("( )"));
    assert_eq!(rendered, "clippy 1.2.3 ( )");
}

#[test]
fn render_all_whitespace_hash_collapses_to_blank() {
    let info = VersionInfo {
        major: 0,
        minor: 0,
        patch: 0,
        host_compiler: None,
        commit_hash: Some(" \t \n".to_string()),
        commit_date: None,
    };
    assert_eq!(info.render(), "clippy 0.0.0 ( )");
}

#[test]
fn render_trims_unicode_whitespace_around_hash() {
    let info = VersionInfo {
        major: 1,
        minor: 2,
        patch: 3,
        host_compiler: None,
        commit_hash: Some("\u{000C}\u{00A0}\u{2003}abc123\u{2028}\u{3000}\u{000B}".to_string()),
        commit_date: Some("2024-01-01".to_string()),
    };
    assert_eq!(info.render(), "clippy 1.2.3 (abc123 2024-01-01)");
}

#[test]
fn render_keeps_interior_whitespace_of_hash() {
    let info = VersionInfo {
        major: 1,
        minor: 2,
        patch: 3,
        host_compiler: None,
        commit_hash: Some(" a\u{00A0}b ".to_string()),
        commit_date: None,
    };
    assert_eq!(info.render(), "clippy 1.2.3 (a\u{00A0}b )");
}

#[test]
fn render_handles_non_ascii_hash() {
    let info = VersionInfo {
        major: 9,
        minor: 8,
        patch: 7,
        host_compiler: None,
        commit_hash: Some("  héllo wörld  ".to_string()),
        commit_date: Some("2022-02-02".to_string()),
    };
    assert_eq!(info.render(), "clippy 9.8.7 (héllo wörld 2022-02-02)");
}

#[test]
fn malformed_numerics_are_rejected() {
    assert!(VersionInfo::resolve(config("x", "2", "3"), no_queries()).is_none());
    assert!(VersionInfo::resolve(config("", "2", "3"), no_queries()).is_none());
    assert!(VersionInfo::resolve(config("1", "2x", "3"), no_queries()).is_none());
    assert!(VersionInfo::resolve(config("1", "2", "3.0"), no_queries()).is_none());
    assert!(VersionInfo::resolve(config("-1", "2", "3"), no_queries()).is_none());
    assert!(VersionInfo::resolve(config("+1", "2", "3"), no_queries()).is_none());
    assert!(VersionInfo::resolve(config("1", "2", " 3"), no_queries()).is_none());
}

#[test]
fn out_of_range_numerics_are_rejected() {
    assert!(VersionInfo::resolve(config("256", "0", "0"), no_queries()).is_none());
    assert!(VersionInfo::resolve(config("0", "256", "0"), no_queries()).is_none());
    assert!(VersionInfo::resolve(config("0", "0", "65536"), no_queries()).is_none());
    assert!(VersionInfo::resolve(config("0", "0", "999999999999"), no_queries()).is_none());
}

#[test]
fn boundary_numerics_are_accepted() {
    let info = VersionInfo::resolve(config("255", "255", "65535"), no_queries()).unwrap();
    assert_eq!(info.major, 255);
    assert_eq!(info.minor, 255);
    assert_eq!(info.patch, 65535);
    assert!(info.render().starts_with("clippy 255.255.65535"));
}

#[test]
fn leading_zeros_parse_and_render_canonically() {
    let info = VersionInfo::resolve(config("007", "000", "010"), no_queries()).unwrap();
    assert_eq!(info.major, 7);
    assert_eq!(info.minor, 0);
    assert_eq!(info.patch, 10);
    assert!(info.render().starts_with("clippy 7.0.10"));
}

#[test]
fn new_resolves_like_resolve_on_valid_input() {
    let info = VersionInfo::new(config("4", "5", "6"), no_queries());
    assert_eq!(info.major, 4);
    assert_eq!(info.minor, 5);
    assert_eq!(info.patch, 6);
    assert_eq!(info.host_compiler, Some("nightly".to_string()));
}

#[test]
fn get_channel_falls_back_to_nightly() {
    assert_eq!(
        rustc_tools_util::get_channel(None),
        Some("nightly".to_string())
    );
    assert_eq!(
        rustc_tools_util::get_channel(Some("dev".to_string())),
        Some("dev".to_string())
    );
}

#[test]
fn embedded_mode_without_optional_constants_leaves_fields_absent() {
    let cfg = BuildConfig {
        version_major: "1".to_string(),
        version_minor: "2".to_string(),
        version_patch: "3".to_string(),
        release_channel: Some("nightly".to_string()),
        commit_hash: None,
        commit_date: None,
    };
    let queries = HostQueries {
        env_channel: Some("ignored".to_string()),
        git_hash: Some("ignored".to_string()),
        git_date: Some("ignored".to_string()),
    };
    let info = VersionInfo::resolve(cfg, queries).unwrap();
    assert_eq!(info.host_compiler, Some("nightly".to_string()));
    assert_eq!(info.commit_hash, None);
    assert_eq!(info.commit_date, None);
}
