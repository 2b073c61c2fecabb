use slicing_server::error::ErrorKind;
use slicing_server::release::github_release::{
    Download, DownloadAction, DownloadEvent, DownloadPhase, GithubAsset, ProgressReport,
    BYTES_PER_MEGABYTE, EXECUTABLE_MODE, REPORT_INTERVAL_MS,
};
use slicing_server::release::{AssetFilter, GithubRelease, GithubReleaseConfig, Release};

fn prusa_release() -> GithubRelease {
    GithubRelease {
        config: GithubReleaseConfig {
            repo: "prusa3d/PrusaSlicer".to_owned(),
            asset_filter: AssetFilter {
                infix: "-x64-GTK3".to_owned(),
                suffix: ".AppImage".to_owned(),
            },
        },
        tag: "version_2.5.0".to_owned(),
    }
}

fn assets() -> Vec<GithubAsset> {
    vec![
        GithubAsset {
            name: "PrusaSlicer-2.5.0-macos.dmg".to_owned(),
            browser_download_url: "https://example.org/mac".to_owned(),
        },
        GithubAsset {
            name: "PrusaSlicer-2.5.0-x64-GTK3.AppImage".to_owned(),
            browser_download_url: "https://example.org/linux".to_owned(),
        },
    ]
}

fn is_network(action: DownloadAction) -> bool {
    matches!(
        action,
        DownloadAction::QueryRelease
            | DownloadAction::RequestAsset
            | DownloadAction::ReadChunk
            | DownloadAction::WriteChunk { .. }
    )
}

fn receiving() -> Download {
    let (download, _) = prusa_release().download("/data", true);
    let (download, _) = download.step(DownloadEvent::DirsCreated);
    let (download, _) = download.step(DownloadEvent::Assets(assets()));
    let (download, action) =
        download.step(DownloadEvent::ResponseStarted { content_length: Some(5_000_000), now: 10_000 });
    assert_eq!(action, DownloadAction::ReadChunk);
    download
}

#[test]
fn download_begins_with_fixed_paths() {
    let (download, action) = prusa_release().download("/data", false);
    assert_eq!(action, DownloadAction::CheckInstalled);
    assert_eq!(download.phase, DownloadPhase::CheckingCache);
    assert_eq!(
        download.bin_path,
        "/data/engines/prusa3d-prusaslicer/prusa3d-prusaslicer-version_2.5.0.AppImage"
    );
    assert_eq!(
        download.download_path,
        "/data/engines/prusa3d-prusaslicer/prusa3d-prusaslicer-version_2.5.0.AppImage.partial"
    );
    assert_eq!(download.bin_dir, "/data/engines/prusa3d-prusaslicer");
    assert_eq!(
        download.release_url,
        "https://api.github.com/repos/prusa3d/PrusaSlicer/releases/tags/version_2.5.0"
    );
    assert!(download.asset_url.is_none());
    assert!(download.outcome().is_none());
    assert!(!download.is_over());
}

#[test]
fn cached_download_issues_no_network_action() {
    let (download, first) = prusa_release().download("/data", false);
    assert!(!is_network(first));
    let (download, second) = download.step(DownloadEvent::Existence(true));
    assert_eq!(second, DownloadAction::Finish);
    assert!(!is_network(second));
    assert!(download.is_over());
    assert_eq!(download.phase, DownloadPhase::Installed);
    assert_eq!(
        download.outcome().unwrap().unwrap(),
        "/data/engines/prusa3d-prusaslicer/prusa3d-prusaslicer-version_2.5.0.AppImage"
    );
    let (download, third) = download.step(DownloadEvent::DirsCreated);
    assert_eq!(third, DownloadAction::Finish);
    assert_eq!(download.phase, DownloadPhase::Installed);
}

#[test]
fn forced_download_fetches_whatever_is_there() {
    let (download, first) = prusa_release().download("/data", true);
    assert_eq!(first, DownloadAction::CreateDirs);
    assert_eq!(download.phase, DownloadPhase::CreatingDirs);
    let (_, second) = download.step(DownloadEvent::DirsCreated);
    assert_eq!(second, DownloadAction::QueryRelease);
    assert!(is_network(second));
    for exists in [true, false] {
        let (download, _) = prusa_release().download("/data", true);
        let (download, action) = download.step(DownloadEvent::Existence(exists));
        assert_eq!(action, DownloadAction::Finish);
        let err = download.outcome().unwrap().unwrap_err();
        assert_eq!(err.kind, ErrorKind::DownloadError);
        assert_eq!(err.message, "Unexpected event");
    }
}

#[test]
fn missing_binary_is_fetched_and_installed() {
    let (download, action) = prusa_release().download("/data", false);
    assert_eq!(action, DownloadAction::CheckInstalled);
    let (download, action) = download.step(DownloadEvent::Existence(false));
    assert_eq!(action, DownloadAction::CreateDirs);
    let (download, action) = download.step(DownloadEvent::DirsCreated);
    assert_eq!(action, DownloadAction::QueryRelease);
    let (download, action) = download.step(DownloadEvent::Assets(assets()));
    assert_eq!(action, DownloadAction::RequestAsset);
    assert_eq!(download.asset_url.as_deref(), Some("https://example.org/linux"));
    let (download, action) =
        download.step(DownloadEvent::ResponseStarted { content_length: None, now: 5 });
    assert_eq!(action, DownloadAction::ReadChunk);
    assert_eq!(download.content_length, 0);
    assert_eq!(download.last_logged_at, 5);
    let (download, action) = download.step(DownloadEvent::Chunk { len: 1024, now: 6 });
    assert_eq!(action, DownloadAction::WriteChunk { report: None });
    assert_eq!(download.byte_count, 1024);
    let (download, action) = download.step(DownloadEvent::EndOfBody);
    assert_eq!(action, DownloadAction::SetExecutable);
    assert!(download.outcome().is_none());
    let (download, action) = download.step(DownloadEvent::PermissionsSet);
    assert_eq!(action, DownloadAction::Rename);
    assert!(download.outcome().is_none());
    let (download, action) = download.step(DownloadEvent::Renamed);
    assert_eq!(action, DownloadAction::Finish);
    assert_eq!(download.phase, DownloadPhase::Installed);
    assert_eq!(download.outcome().unwrap().unwrap(), download.bin_path);
    assert_ne!(download.bin_path, download.download_path);
    assert_eq!(EXECUTABLE_MODE, 0o755);
}

#[test]
fn release_without_fitting_asset_fails() {
    let (download, _) = prusa_release().download("/data", true);
    let (download, _) = download.step(DownloadEvent::DirsCreated);
    let unfit = vec![GithubAsset {
        name: "PrusaSlicer-2.5.0-macos.dmg".to_owned(),
        browser_download_url: "https://example.org/mac".to_owned(),
    }];
    let (download, action) = download.step(DownloadEvent::Assets(unfit));
    assert_eq!(action, DownloadAction::Finish);
    assert_eq!(download.phase, DownloadPhase::Failed);
    let err = download.outcome().unwrap().unwrap_err();
    assert_eq!(err.kind, ErrorKind::AssetNotFound);
    assert_eq!(
        err.message,
        "Binary not found in Github release assets for prusa3d/PrusaSlicer version version_2.5.0"
    );
}

#[test]
fn failed_action_ends_the_download() {
    let (download, _) = prusa_release().download("/data", true);
    let (download, action) = download.step(DownloadEvent::Failed("permission denied".to_owned()));
    assert_eq!(action, DownloadAction::Finish);
    let err = download.outcome().unwrap().unwrap_err();
    assert_eq!(err.kind, ErrorKind::DownloadError);
    assert_eq!(err.message, "permission denied");
    let (download, action) = download.step(DownloadEvent::DirsCreated);
    assert_eq!(action, DownloadAction::Finish);
    assert_eq!(download.outcome().unwrap().unwrap_err().message, "permission denied");

    let (download, action) = receiving().step(DownloadEvent::Failed("connection reset".to_owned()));
    assert_eq!(action, DownloadAction::Finish);
    assert_eq!(download.phase, DownloadPhase::Failed);
}

#[test]
fn events_out_of_turn_end_the_download() {
    let (download, action) = receiving().step(DownloadEvent::Renamed);
    assert_eq!(action, DownloadAction::Finish);
    assert_eq!(download.outcome().unwrap().unwrap_err().message, "Unexpected event");
    let (download, _) = prusa_release().download("/data", false);
    let (download, action) = download.step(DownloadEvent::PermissionsSet);
    assert_eq!(action, DownloadAction::Finish);
    assert_eq!(download.phase, DownloadPhase::Failed);
    let (download, action) = receiving().step(DownloadEvent::PermissionsSet);
    assert_eq!(action, DownloadAction::Finish);
    assert_eq!(download.phase, DownloadPhase::Failed);
}

#[test]
fn progress_is_reported_at_most_once_per_second() {
    let download = receiving();
    assert_eq!(REPORT_INTERVAL_MS, 1000);
    assert_eq!(BYTES_PER_MEGABYTE, 1_000_000);
    let (download, action) = download.step(DownloadEvent::Chunk { len: 1_500_000, now: 10_500 });
    assert_eq!(action, DownloadAction::WriteChunk { report: None });
    let (download, action) = download.step(DownloadEvent::Chunk { len: 1_000_000, now: 11_000 });
    assert_eq!(action, DownloadAction::WriteChunk { report: None });
    assert_eq!(download.last_logged_at, 10_000);
    let (download, action) = download.step(DownloadEvent::Chunk { len: 600_000, now: 11_001 });
    assert_eq!(
        action,
        DownloadAction::WriteChunk {
            report: Some(ProgressReport { megabytes_done: 3, megabytes_total: 5 })
        }
    );
    assert_eq!(download.byte_count, 3_100_000);
    assert_eq!(download.last_logged_at, 11_001);
    let (download, action) = download.step(DownloadEvent::Chunk { len: 1, now: 12_001 });
    assert_eq!(action, DownloadAction::WriteChunk { report: None });
    let (_, action) = download.step(DownloadEvent::Chunk { len: 1, now: 9_000 });
    assert_eq!(action, DownloadAction::WriteChunk { report: None });
}

#[test]
fn byte_count_saturates() {
    let download = receiving();
    let (download, _) = download.step(DownloadEvent::Chunk { len: u64::MAX - 1, now: 10_000 });
    assert_eq!(download.byte_count, u64::MAX - 1);
    let (download, _) = download.step(DownloadEvent::Chunk { len: 5, now: 10_000 });
    assert_eq!(download.byte_count, u64::MAX);
    let (_, action) = download.step(DownloadEvent::Chunk { len: 0, now: u64::MAX });
    assert_eq!(
        action,
        DownloadAction::WriteChunk {
            report: Some(ProgressReport { megabytes_done: u64::MAX / 1_000_000, megabytes_total: 5 })
        }
    );
}

#[test]
fn github_release_download_through_release() {
    let release = Release::Github(prusa_release());
    let (download, action) = release.download("/data", false).unwrap();
    assert_eq!(action, DownloadAction::CheckInstalled);
    assert_eq!(download.release.tag, "version_2.5.0");
    let (_, action) = release.download("/data", true).unwrap();
    assert_eq!(action, DownloadAction::CreateDirs);
}
