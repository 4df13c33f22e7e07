use rime_wanxiang_updater::url_utils::{
    apply_mirror_to_download_url, build_github_api_url, build_releases_api_url,
    build_releases_tag_api_url, is_ipv4, is_valid_domain_or_ip, parse_github_repo,
    resolve_mirror, sanitize_mirror_domain, sanitize_repo_url,
};

#[test]
fn test_sanitize_mirror_domain() {
    assert_eq!(
        sanitize_mirror_domain("https://gh-proxy.com"),
        "gh-proxy.com"
    );
    assert_eq!(
        sanitize_mirror_domain("http://gh-proxy.com"),
        "gh-proxy.com"
    );
    assert_eq!(
        sanitize_mirror_domain("https://gh-proxy.com/"),
        "gh-proxy.com"
    );
    assert_eq!(
        sanitize_mirror_domain("gh-proxy.com/path/to/resource"),
        "gh-proxy.com"
    );
    assert_eq!(sanitize_mirror_domain("gh-proxy.com"), "gh-proxy.com");
    assert_eq!(sanitize_mirror_domain("192.168.1.1"), "192.168.1.1");
    assert_eq!(
        sanitize_mirror_domain("https://192.168.1.1/"),
        "192.168.1.1"
    );
    assert_eq!(sanitize_mirror_domain(""), "gh-proxy.com");
    assert_eq!(
        sanitize_mirror_domain("invalid domain with spaces"),
        "gh-proxy.com"
    );
    assert_eq!(sanitize_mirror_domain("https://"), "gh-proxy.com");
}

#[test]
fn test_sanitize_repo_url() {
    assert_eq!(
        sanitize_repo_url("https://github.com/amzxyz/rime_wanxiang/"),
        "https://github.com/amzxyz/rime_wanxiang"
    );

    assert_eq!(
        sanitize_repo_url("amzxyz/rime_wanxiang"),
        "https://github.com/amzxyz/rime_wanxiang"
    );

    assert_eq!(
        sanitize_repo_url("https://github.com/amzxyz/rime_wanxiang"),
        "https://github.com/amzxyz/rime_wanxiang"
    );
}

#[test]
fn test_parse_github_repo() {
    assert_eq!(
        parse_github_repo("https://github.com/amzxyz/rime_wanxiang"),
        Some(("amzxyz".to_string(), "rime_wanxiang".to_string()))
    );

    assert_eq!(
        parse_github_repo("https://github.com/amzxyz/rime_wanxiang/"),
        Some(("amzxyz".to_string(), "rime_wanxiang".to_string()))
    );

    assert_eq!(
        parse_github_repo("amzxyz/rime_wanxiang"),
        Some(("amzxyz".to_string(), "rime_wanxiang".to_string()))
    );

    assert_eq!(parse_github_repo("invalid"), None);
    assert_eq!(parse_github_repo(""), None);
    assert_eq!(parse_github_repo("https://github.com/"), None);
}

#[test]
fn test_build_api_urls() {
    assert_eq!(
        build_releases_api_url("amzxyz", "rime_wanxiang"),
        "https://api.github.com/repos/amzxyz/rime_wanxiang/releases"
    );

    assert_eq!(
        build_releases_tag_api_url("amzxyz", "RIME-LMDG", "LTS"),
        "https://api.github.com/repos/amzxyz/RIME-LMDG/releases/tags/LTS"
    );
}

#[test]
fn test_apply_mirror_to_download_url() {
    let origin_url = "https://github.com/amzxyz/rime_wanxiang/releases/download/test/file.zip";

    assert_eq!(
        apply_mirror_to_download_url("gh-proxy.com", origin_url),
        "https://gh-proxy.com/https://github.com/amzxyz/rime_wanxiang/releases/download/test/file.zip"
    );

    assert_eq!(
        apply_mirror_to_download_url("github.com", origin_url),
        origin_url
    );

    assert_eq!(apply_mirror_to_download_url("", origin_url), origin_url);
}

#[test]
fn mirror_domain_is_trimmed_and_cut_at_the_first_slash() {
    assert_eq!(
        sanitize_mirror_domain("  https://mirror.example.org/a/b  "),
        "mirror.example.org"
    );
    assert_eq!(
        sanitize_mirror_domain("\thttp://10.0.0.1/x\n"),
        "10.0.0.1"
    );
    assert_eq!(sanitize_mirror_domain("/only/a/path"), "gh-proxy.com");
}

#[test]
fn mirror_domain_falls_back_on_what_is_no_host() {
    assert_eq!(sanitize_mirror_domain("localhost"), "gh-proxy.com");
    assert_eq!(sanitize_mirror_domain("bad_name.com"), "gh-proxy.com");
    assert_eq!(sanitize_mirror_domain("-lead.com"), "gh-proxy.com");
    assert_eq!(sanitize_mirror_domain("trail-.com"), "gh-proxy.com");
    assert_eq!(sanitize_mirror_domain("a..b"), "gh-proxy.com");
    assert_eq!(sanitize_mirror_domain("tab\there.com"), "gh-proxy.com");
    assert_eq!(sanitize_mirror_domain("ftp://x.com"), "gh-proxy.com");
}

#[test]
fn mirror_domain_keeps_what_reads_as_labels() {
    assert_eq!(sanitize_mirror_domain("256.1.1.1"), "256.1.1.1");
    assert_eq!(sanitize_mirror_domain("01.2.3.4"), "01.2.3.4");
    assert_eq!(sanitize_mirror_domain("a-b.c-d.e"), "a-b.c-d.e");
}

#[test]
fn ipv4_takes_four_numbers_up_to_255() {
    assert!(is_ipv4("192.168.1.1"));
    assert!(is_ipv4("0.0.0.0"));
    assert!(is_ipv4("255.255.255.255"));
    assert!(is_ipv4("+1.2.3.4"));
    assert!(!is_ipv4("256.0.0.1"));
    assert!(!is_ipv4("1.2.3"));
    assert!(!is_ipv4("1.2.3.4.5"));
    assert!(!is_ipv4("01.2.3.4"));
    assert!(!is_ipv4("1..2.3"));
    assert!(!is_ipv4("1.2.3.x"));
    assert!(!is_ipv4("1.2.3.-4"));
    assert!(!is_ipv4(""));
}

#[test]
fn host_names_are_held_to_their_limits() {
    assert!(!is_valid_domain_or_ip(""));
    assert!(is_valid_domain_or_ip("example.com"));
    assert!(is_valid_domain_or_ip("10.1.2.3"));
    assert!(!is_valid_domain_or_ip("exa mple.com"));
    assert!(!is_valid_domain_or_ip("example"));
    let label63 = "a".repeat(63);
    let label64 = "a".repeat(64);
    assert!(is_valid_domain_or_ip(&format!("{}.com", label63)));
    assert!(!is_valid_domain_or_ip(&format!("{}.com", label64)));
    let long = format!("{}.{}.{}.{}", label63, label63, label63, "b".repeat(61));
    assert_eq!(long.len(), 253);
    assert!(is_valid_domain_or_ip(&long));
    let longer = format!("{}.{}.{}.{}", label63, label63, label63, "b".repeat(62));
    assert!(!is_valid_domain_or_ip(&longer));
}

#[test]
fn host_names_may_hold_letters_of_any_script() {
    assert!(is_valid_domain_or_ip("b\u{fc}cher.example"));
    assert!(is_valid_domain_or_ip("\u{4f8b}\u{3048}.jp"));
    assert!(!is_valid_domain_or_ip("a\u{2603}.example"));
    let label = "\u{4f8b}".repeat(21);
    assert!(is_valid_domain_or_ip(&format!("{}.jp", label)));
    let label = "\u{4f8b}".repeat(22);
    assert!(!is_valid_domain_or_ip(&format!("{}.jp", label)));
}

#[test]
fn repo_url_is_completed_only_for_bare_paths() {
    assert_eq!(
        sanitize_repo_url("  owner/repo///  "),
        "https://github.com/owner/repo"
    );
    assert_eq!(
        sanitize_repo_url("github.com/owner/repo"),
        "github.com/owner/repo"
    );
    assert_eq!(sanitize_repo_url("http://x/y/"), "http://x/y");
    assert_eq!(sanitize_repo_url("plain"), "plain");
    assert_eq!(sanitize_repo_url("///"), "");
    assert_eq!(sanitize_repo_url(""), "");
}

#[test]
fn repo_is_read_from_address_or_path() {
    assert_eq!(
        parse_github_repo("https://github.com/a/b/c"),
        Some(("a".to_string(), "b".to_string()))
    );
    assert_eq!(
        parse_github_repo("  a/b  "),
        Some(("a".to_string(), "b".to_string()))
    );
    assert_eq!(parse_github_repo("a//b"), None);
    assert_eq!(parse_github_repo("/a/b"), None);
    assert_eq!(parse_github_repo("http://github.com/a/b"), None);
    assert_eq!(parse_github_repo("https://github.com/a"), None);
    assert_eq!(parse_github_repo("https://gitlab.com/a/b"), None);
}

#[test]
fn api_url_joins_its_parts() {
    assert_eq!(
        build_github_api_url("o", "r", "releases/latest"),
        "https://api.github.com/repos/o/r/releases/latest"
    );
    assert_eq!(
        build_github_api_url("", "", ""),
        "https://api.github.com/repos///"
    );
    assert_eq!(
        build_releases_tag_api_url("o", "r", "dict-nightly"),
        build_github_api_url("o", "r", "releases/tags/dict-nightly")
    );
}

#[test]
fn mirror_embeds_the_origin_address_verbatim() {
    let origin = "https://github.com/o/r/releases/download/v1/a b?.zip";
    let mirrored = apply_mirror_to_download_url("m.example", origin);
    assert_eq!(mirrored, format!("https://m.example/{}", origin));
    assert!(mirrored.starts_with("https://"));
    assert!(mirrored.ends_with(origin));
    assert_eq!(
        apply_mirror_to_download_url("GitHub.com", "u"),
        "https://GitHub.com/u"
    );
}

#[test]
fn mirror_is_resolved_only_where_one_is_configured() {
    assert_eq!(resolve_mirror(""), "");
    assert_eq!(resolve_mirror(" \t"), "");
    assert_eq!(
        resolve_mirror("https://gh-proxy.com/x"),
        "gh-proxy.com"
    );
    assert_eq!(
        resolve_mirror("https://"),
        "gh-proxy.com"
    );
    assert_eq!(
        resolve_mirror("a b"),
        "gh-proxy.com"
    );
}
