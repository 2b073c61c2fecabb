use slicing_server::engine::engines;
use slicing_server::error::ErrorKind;
use slicing_server::release::github_release::{select_asset, slug, GithubAsset};
use slicing_server::release::github_req_client::{
    latest_release_url, query_github_api, release_by_tag_url, user_agent,
};
use slicing_server::release::{
    AssetFilter, GithubRelease, GithubReleaseConfig, LatestRelease, LocalRelease,
    LocalReleaseConfig, Release, ReleaseConfig, ReleaseStrategy,
};
use slicing_server::text::{
    chars_of, contains, ends_with, has_char, matches_at, replace_char, same_text, skip,
    starts_with, string_of,
};

fn slic3r_config() -> GithubReleaseConfig {
    GithubReleaseConfig {
        repo: "slic3r/Slic3r".to_owned(),
        asset_filter: AssetFilter { infix: "-x86_64".to_owned(), suffix: ".AppImage".to_owned() },
    }
}

fn prusa_filter() -> AssetFilter {
    AssetFilter { infix: "-x64-GTK3".to_owned(), suffix: ".AppImage".to_owned() }
}

fn belt_config() -> LocalReleaseConfig {
    LocalReleaseConfig {
        release_url: "https://github.com/Autodrop3d/BeltEngine".to_owned(),
        bin_path: "/opt/belt/beltengine".to_owned(),
    }
}

fn asset(name: &str, url: &str) -> GithubAsset {
    GithubAsset { name: name.to_owned(), browser_download_url: url.to_owned() }
}

#[test]
fn parse_accepts_a_tagged_release_url() {
    let release = slic3r_config()
        .parse("https://github.com/slic3r/Slic3r/releases/tag/1.3.0")
        .unwrap();
    match release {
        Release::Github(release) => {
            assert_eq!(release.config.repo, "slic3r/Slic3r");
            assert_eq!(release.tag, "1.3.0");
            assert_eq!(release.config.asset_filter.infix, "-x86_64");
            assert_eq!(release.config.asset_filter.suffix, ".AppImage");
        }
        Release::Local(_) => panic!("a GitHub release was expected"),
    }
}

#[test]
fn resolve_path_is_lowercased_and_hyphenated() {
    let release = GithubRelease { config: slic3r_config(), tag: "1.3.0".to_owned() };
    let path = release.resolve_path("/data");
    assert_eq!(path, "/data/engines/slic3r-slic3r/slic3r-slic3r-1.3.0.AppImage");
    assert!(path.ends_with("slic3r-slic3r/slic3r-slic3r-1.3.0.AppImage"));
    assert_eq!(release.bin_dir("/data"), "/data/engines/slic3r-slic3r");
}

#[test]
fn resolve_path_depends_on_repo_and_tag_alone() {
    let one = GithubRelease { config: slic3r_config(), tag: "1.3.0".to_owned() };
    let mut other_config = slic3r_config();
    other_config.asset_filter = prusa_filter();
    let other = GithubRelease { config: other_config, tag: "1.3.0".to_owned() };
    assert_eq!(one.resolve_path("/d"), other.resolve_path("/d"));
    let later = GithubRelease { config: slic3r_config(), tag: "1.3.1".to_owned() };
    assert_ne!(one.resolve_path("/d"), later.resolve_path("/d"));
}

#[test]
fn resolve_path_of_a_tag_with_upper_case_and_slash_in_repo() {
    let release = GithubRelease {
        config: GithubReleaseConfig {
            repo: "prusa3d/PrusaSlicer".to_owned(),
            asset_filter: prusa_filter(),
        },
        tag: "version_2.5.0-RC1".to_owned(),
    };
    assert_eq!(
        release.resolve_path("/home/u/.local/share/slicer-server"),
        "/home/u/.local/share/slicer-server/engines/prusa3d-prusaslicer/prusa3d-prusaslicer-version_2.5.0-rc1.AppImage"
    );
}

#[test]
fn slug_lowercases_beyond_ascii() {
    assert_eq!(slug("Slic3r/Slic3r"), "slic3r-slic3r");
    assert_eq!(slug("ÄB/Ç"), "äb-ç");
    assert_eq!(slug(""), "");
}

#[test]
fn parse_rejects_a_url_without_tag() {
    let err = slic3r_config().parse("https://github.com/slic3r/Slic3r/releases/tag/").unwrap_err();
    assert_eq!(err.kind, ErrorKind::ReleaseParseError);
    assert_eq!(
        err.message,
        "Invalid Github release URL: https://github.com/slic3r/Slic3r/releases/tag/"
    );
}

#[test]
fn parse_rejects_partial_matches() {
    let config = slic3r_config();
    let rejected = [
        "",
        "https://github.com/slic3r/Slic3r/releases",
        "https://github.com/slic3r/Slic3r/releases/tag",
        "https://github.com/slic3r/Slic3r/releases/tag/1.3.0/",
        "https://github.com/slic3r/Slic3r/releases/tag/1.3.0/assets",
        "https://github.com/slic3r/Slic3r/releases/tag//1.3.0",
        " https://github.com/slic3r/Slic3r/releases/tag/1.3.0",
        "http://github.com/slic3r/Slic3r/releases/tag/1.3.0",
        "https://github.com/prusa3d/PrusaSlicer/releases/tag/1.3.0",
        "https://github.com/slic3r/slic3r/releases/tag/1.3.0",
    ];
    for url in rejected {
        let err = config.parse(url).unwrap_err();
        assert_eq!(err.kind, ErrorKind::ReleaseParseError);
        assert_eq!(err.message, format!("Invalid Github release URL: {}", url));
        assert!(config.parse_inner(url).is_none());
    }
}

#[test]
fn parse_takes_any_tag_without_slash() {
    let config = slic3r_config();
    for tag in ["v", "1.3.0", "version 2", "ünïcode-✓", "a?b#c"] {
        let url = format!("https://github.com/slic3r/Slic3r/releases/tag/{}", tag);
        let release = config.parse_inner(&url).unwrap();
        assert_eq!(release.tag, tag);
    }
}

#[test]
fn prusa_slicer_asset_selection() {
    let filter = prusa_filter();
    assert!(filter.accepts("PrusaSlicer-2.5.0-x64-GTK3.AppImage"));
    assert!(!filter.accepts("PrusaSlicer-2.5.0-macos.dmg"));
    assert!(!filter.accepts("PrusaSlicer-2.5.0-x64-GTK3.AppImage.zip"));
    assert!(!filter.accepts("PrusaSlicer-2.5.0-x64-GTK2.AppImage"));
    assert!(!filter.accepts(""));
}

#[test]
fn catalog_filters_match_the_assets_of_their_engines() {
    let catalog = engines(None);
    let names = [
        ("slic3r", "Slic3r-1.3.0-x86_64.AppImage", "Slic3r-1.3.0-i686.AppImage"),
        (
            "prusa_slicer",
            "PrusaSlicer-2.5.0+linux-x64-GTK3-202209060725.AppImage",
            "PrusaSlicer-2.5.0+linux-x64-GTK3-202209060725.tar.bz2",
        ),
        (
            "super_slicer",
            "SuperSlicer-ubuntu_18.04-2.4.58.5.AppImage",
            "SuperSlicer-ubuntu_20.04-2.4.58.5.AppImage",
        ),
    ];
    for (id, good, bad) in names {
        let engine = catalog.iter().find(|engine| engine.id == id).unwrap();
        match &engine.release_config {
            ReleaseStrategy::Github(config) => {
                assert!(config.asset_filter.accepts(good));
                assert!(!config.asset_filter.accepts(bad));
            }
            ReleaseStrategy::Local(_) => panic!("a GitHub strategy was expected"),
        }
    }
}

#[test]
fn select_asset_takes_the_first_match() {
    let assets = vec![
        asset("PrusaSlicer-2.5.0-macos.dmg", "https://example.org/a"),
        asset("PrusaSlicer-2.5.0-x64-GTK3.AppImage", "https://example.org/b"),
        asset("PrusaSlicer-2.5.1-x64-GTK3.AppImage", "https://example.org/c"),
    ];
    assert_eq!(select_asset(&assets, &prusa_filter()), Some(1));
    let unfit = vec![asset("PrusaSlicer-2.5.0-macos.dmg", "https://example.org/a")];
    assert_eq!(select_asset(&unfit, &prusa_filter()), None);
    assert_eq!(select_asset(&Vec::new(), &prusa_filter()), None);
}

#[test]
fn github_bin_path_if_downloaded() {
    let release = GithubRelease { config: slic3r_config(), tag: "1.3.0".to_owned() };
    assert_eq!(
        release.bin_path_if_downloaded("/data", true).unwrap(),
        "/data/engines/slic3r-slic3r/slic3r-slic3r-1.3.0.AppImage"
    );
    let err = release.bin_path_if_downloaded("/data", false).unwrap_err();
    assert_eq!(err.kind, ErrorKind::NotInstalled);
    assert_eq!(err.message, "slic3r/Slic3r 1.3.0 is not installed");
}

#[test]
fn github_bin_path_stands_below_the_data_directory() {
    let release = GithubRelease { config: slic3r_config(), tag: "1.3.0".to_owned() };
    match release.bin_path() {
        Ok(path) => assert!(path.ends_with("/engines/slic3r-slic3r/slic3r-slic3r-1.3.0.AppImage")),
        Err(err) => assert_eq!(err.kind, ErrorKind::DirectoriesUnavailable),
    }
}

#[test]
fn local_parse_takes_its_own_url_only() {
    let config = belt_config();
    match config.parse("https://github.com/Autodrop3d/BeltEngine").unwrap() {
        Release::Local(release) => {
            assert_eq!(release.config.bin_path, "/opt/belt/beltengine");
            assert_eq!(release.resolve_path(), "/opt/belt/beltengine");
        }
        Release::Github(_) => panic!("a local release was expected"),
    }
    for url in ["", "https://github.com/Autodrop3d/BeltEngine/", "https://github.com/Autodrop3d"] {
        let err = config.parse(url).unwrap_err();
        assert_eq!(err.kind, ErrorKind::ReleaseParseError);
        assert_eq!(err.message, "Incorrect release URL for locally installed engine");
    }
}

#[test]
fn local_bin_path_if_downloaded() {
    let release = LocalRelease { config: belt_config() };
    assert_eq!(release.bin_path_if_downloaded(true).unwrap(), "/opt/belt/beltengine");
    let err = release.bin_path_if_downloaded(false).unwrap_err();
    assert_eq!(err.kind, ErrorKind::NotInstalled);
    assert_eq!(err.message, "Engine must be manually installed");
}

#[test]
fn local_release_download_always_fails() {
    for force in [false, true] {
        let release = Release::Local(LocalRelease { config: belt_config() });
        let err = release.download("/data", force).unwrap_err();
        assert_eq!(err.kind, ErrorKind::ManualInstallRequired);
        assert_eq!(err.message, "Engine must be manually installed");
    }
}

#[test]
fn latest_release_of_each_strategy() {
    match belt_config().latest_release() {
        LatestRelease::Known(Release::Local(release)) => {
            assert_eq!(release.config.release_url, "https://github.com/Autodrop3d/BeltEngine")
        }
        _ => panic!("the local release was expected"),
    }
    match slic3r_config().latest_release() {
        LatestRelease::Query(request) => {
            assert_eq!(request.url, "https://api.github.com/repos/slic3r/Slic3r/releases/latest");
            assert_eq!(request.user_agent, "slicing-server");
            assert!(request.https_only);
        }
        _ => panic!("a query was expected"),
    }
}

#[test]
fn latest_release_from_the_providers_answer() {
    let config = slic3r_config();
    match config
        .latest_release_from(Some("https://github.com/slic3r/Slic3r/releases/tag/1.3.0"))
        .unwrap()
    {
        Release::Github(release) => assert_eq!(release.tag, "1.3.0"),
        Release::Local(_) => panic!("a GitHub release was expected"),
    }
    let err = config.latest_release_from(Some("https://example.org")).unwrap_err();
    assert_eq!(err.kind, ErrorKind::ReleaseParseError);
    let err = config.latest_release_from(None).unwrap_err();
    assert_eq!(err.kind, ErrorKind::DownloadError);
    assert_eq!(err.message, "Missing html_url in JSON");
}

#[test]
fn api_requests() {
    assert_eq!(user_agent(), "slicing-server");
    assert_eq!(
        release_by_tag_url("slic3r/Slic3r", "1.3.0"),
        "https://api.github.com/repos/slic3r/Slic3r/releases/tags/1.3.0"
    );
    assert_eq!(
        latest_release_url("prusa3d/PrusaSlicer"),
        "https://api.github.com/repos/prusa3d/PrusaSlicer/releases/latest"
    );
    let request = query_github_api("https://api.github.com/x");
    assert_eq!(request.url, "https://api.github.com/x");
    assert_eq!(request.user_agent, "slicing-server");
    assert!(request.https_only);
}

#[test]
fn strategy_dispatches_to_its_kind() {
    let github = ReleaseStrategy::Github(slic3r_config());
    assert!(matches!(
        github.parse("https://github.com/slic3r/Slic3r/releases/tag/1.3.0"),
        Ok(Release::Github(_))
    ));
    assert!(github.parse("https://github.com/Autodrop3d/BeltEngine").is_err());
    let local = ReleaseStrategy::Local(belt_config());
    assert!(matches!(
        local.parse("https://github.com/Autodrop3d/BeltEngine"),
        Ok(Release::Local(_))
    ));
    assert!(matches!(local.latest_release(), LatestRelease::Known(_)));
    assert!(matches!(github.latest_release(), LatestRelease::Query(_)));
}

#[test]
fn text_helpers() {
    let s = chars_of("héllo/wörld");
    assert_eq!(s.len(), 11);
    assert_eq!(string_of(&s), "héllo/wörld");
    assert!(starts_with(&s, &chars_of("hé")));
    assert!(starts_with(&s, &chars_of("")));
    assert!(!starts_with(&s, &chars_of("he")));
    assert!(!starts_with(&chars_of("h"), &chars_of("hé")));
    assert!(ends_with(&s, &chars_of("rld")));
    assert!(ends_with(&s, &s));
    assert!(!ends_with(&s, &chars_of("xhéllo/wörld")));
    assert!(contains(&s, &chars_of("o/w")));
    assert!(contains(&s, &chars_of("")));
    assert!(contains(&s, &chars_of("héllo/wörld")));
    assert!(!contains(&s, &chars_of("o/x")));
    assert!(!contains(&chars_of(""), &chars_of("a")));
    assert!(contains(&chars_of(""), &chars_of("")));
    assert!(matches_at(&s, &chars_of("llo"), 2));
    assert!(!matches_at(&s, &chars_of("llo"), 3));
    assert!(!matches_at(&s, &chars_of("rld"), 9));
    assert!(matches_at(&s, &chars_of(""), 11));
    assert!(!matches_at(&s, &chars_of(""), 12));
    assert!(has_char(&s, '/'));
    assert!(!has_char(&s, '-'));
    assert_eq!(string_of(&replace_char(&chars_of("a/b/c"), '/', '-')), "a-b-c");
    assert_eq!(string_of(&skip(&s, 6)), "wörld");
    assert_eq!(string_of(&skip(&s, 11)), "");
    assert!(same_text("abc", "abc"));
    assert!(!same_text("abc", "abd"));
    assert!(!same_text("abc", "ab"));
    assert!(same_text("", ""));
}
