use slicing_server::engine::belt_engine;
use slicing_server::engine::slic3r;
use slicing_server::engine::{
    engines, find_engine, find_release, install, install_latest, install_release, print_engines,
    AxisScale, EnginesQuery, Install, InvertRotation,
};
use slicing_server::error::{AppError, Error, ErrorKind};
use slicing_server::execution_context::{progress_item, ExecutionContext, Output, PERCENT_DONE};
use slicing_server::release::github_release::DownloadAction;
use slicing_server::release::{
    AssetFilter, GithubRelease, GithubReleaseConfig, LocalRelease, LocalReleaseConfig, Release,
    ReleaseStrategy,
};

fn slic3r_release() -> GithubRelease {
    GithubRelease {
        config: GithubReleaseConfig {
            repo: "slic3r/Slic3r".to_owned(),
            asset_filter: AssetFilter {
                infix: "-x86_64".to_owned(),
                suffix: ".AppImage".to_owned(),
            },
        },
        tag: "1.3.0".to_owned(),
    }
}

fn belt_release() -> LocalRelease {
    LocalRelease {
        config: LocalReleaseConfig {
            release_url: "https://github.com/Autodrop3d/BeltEngine".to_owned(),
            bin_path: "/opt/belt/beltengine".to_owned(),
        },
    }
}

#[test]
fn catalog_lists_engines_in_order_of_registration() {
    let catalog = engines(None);
    let ids: Vec<&str> = catalog.iter().map(|engine| engine.id.as_str()).collect();
    assert_eq!(ids, vec!["belt_engine", "slic3r", "prusa_slicer", "super_slicer"]);
    let names: Vec<&str> = catalog.iter().map(|engine| engine.name.as_str()).collect();
    assert_eq!(names, vec!["Belt Engine", "Slic3r", "Prusa Slicer", "Super Slicer"]);
    let listed = EnginesQuery.engines(&catalog);
    assert_eq!(listed.len(), 4);
    for (listed, engine) in listed.iter().zip(catalog.iter()) {
        assert_eq!(listed.id, engine.id);
    }
}

#[test]
fn belt_engine_entry() {
    let engine = belt_engine::engine(None);
    assert_eq!(engine.id, "belt_engine");
    assert_eq!(engine.transform_mat4, AxisScale { x: 1, y: -1, z: 1 });
    assert!(!engine.allows_positioning);
    assert_eq!(engine.invert_rotation, InvertRotation { x: false, y: false, z: true });
    assert_eq!(engine.accepted_file_formats, vec![".stl", ".obj"]);
    assert!(engine.release_url.is_none());
    assert_eq!(engine.home_page, "https://github.com/Autodrop3d/BeltEngine");
    match engine.release_config {
        ReleaseStrategy::Local(config) => {
            assert_eq!(config.bin_path, "beltengine");
            assert_eq!(config.release_url, belt_engine::BELT_ENGINE_URL);
        }
        ReleaseStrategy::Github(_) => panic!("a local strategy was expected"),
    }
    match belt_engine::engine(Some("/usr/bin/belt".to_owned())).release_config {
        ReleaseStrategy::Local(config) => assert_eq!(config.bin_path, "/usr/bin/belt"),
        ReleaseStrategy::Github(_) => panic!("a local strategy was expected"),
    }
}

#[test]
fn slic3r_family_entries() {
    let family = slic3r::engines();
    assert_eq!(family.len(), 3);
    let expected = [
        ("slic3r", "slic3r/Slic3r", "-x86_64"),
        ("prusa_slicer", "prusa3d/PrusaSlicer", "-x64-GTK3"),
        ("super_slicer", "supermerill/SuperSlicer", "-ubuntu_18.04-"),
    ];
    for (engine, (id, repo, infix)) in family.iter().zip(expected) {
        assert_eq!(engine.id, id);
        assert_eq!(engine.transform_mat4, AxisScale { x: 1, y: 1, z: 1 });
        assert!(engine.allows_positioning);
        assert_eq!(engine.invert_rotation, InvertRotation::default());
        assert_eq!(engine.accepted_file_formats, vec![".stl", ".obj", ".amf", ".3mf"]);
        assert_eq!(engine.home_page, format!("https://github.com/{}", repo));
        assert_eq!(
            engine.release_url.as_deref(),
            Some(format!("https://github.com/{}/releases", repo).as_str())
        );
        match &engine.release_config {
            ReleaseStrategy::Github(config) => {
                assert_eq!(config.repo, repo);
                assert_eq!(config.asset_filter.infix, infix);
                assert_eq!(config.asset_filter.suffix, ".AppImage");
            }
            ReleaseStrategy::Local(_) => panic!("a GitHub strategy was expected"),
        }
    }
}

#[test]
fn transform_matrices() {
    assert_eq!(
        belt_engine::engine(None).transform_mat4(),
        vec![vec![1, 0, 0, 0], vec![0, -1, 0, 0], vec![0, 0, 1, 0], vec![0, 0, 0, 1]]
    );
    assert_eq!(
        AxisScale { x: 2, y: 3, z: -4 }.rows(),
        vec![vec![2, 0, 0, 0], vec![0, 3, 0, 0], vec![0, 0, -4, 0], vec![0, 0, 0, 1]]
    );
}

#[test]
fn find_release_tries_every_engine() {
    let catalog = engines(Some("/opt/belt".to_owned()));
    match find_release(&catalog, "https://github.com/prusa3d/PrusaSlicer/releases/tag/version_2.5.0")
        .unwrap()
    {
        Release::Github(release) => {
            assert_eq!(release.config.repo, "prusa3d/PrusaSlicer");
            assert_eq!(release.tag, "version_2.5.0");
        }
        Release::Local(_) => panic!("a GitHub release was expected"),
    }
    match find_release(&catalog, "https://github.com/Autodrop3d/BeltEngine").unwrap() {
        Release::Local(release) => assert_eq!(release.config.bin_path, "/opt/belt"),
        Release::Github(_) => panic!("a local release was expected"),
    }
}

#[test]
fn find_release_fails_where_no_engine_matches() {
    let catalog = engines(None);
    for locator in ["", "https://example.org/\"quoted\"", "https://github.com/slic3r/Slic3r/releases"] {
        let err = find_release(&catalog, locator).unwrap_err();
        assert_eq!(err.kind, ErrorKind::EngineNotFound);
        assert_eq!(err.message, format!("Engine not found for release url: {:?}", locator));
    }
    let err = find_release(&Vec::new(), "https://github.com/Autodrop3d/BeltEngine").unwrap_err();
    assert_eq!(err.kind, ErrorKind::EngineNotFound);
}

#[test]
fn first_matching_engine_wins() {
    let mut catalog = engines(Some("/first".to_owned()));
    catalog.push(belt_engine::engine(Some("/second".to_owned())));
    match find_release(&catalog, "https://github.com/Autodrop3d/BeltEngine").unwrap() {
        Release::Local(release) => assert_eq!(release.config.bin_path, "/first"),
        Release::Github(_) => panic!("a local release was expected"),
    }
    let found = find_engine(&catalog, "belt_engine").unwrap();
    match &found.release_config {
        ReleaseStrategy::Local(config) => assert_eq!(config.bin_path, "/first"),
        ReleaseStrategy::Github(_) => panic!("a local strategy was expected"),
    }
    assert!(find_engine(&catalog, "cura").is_none());
    assert!(find_engine(&catalog, "").is_none());
}

#[test]
fn print_engines_lists_the_ids() {
    assert_eq!(
        print_engines(&engines(None)),
        "Available Slicing Engines:\n\n  - belt_engine\n  - slic3r\n  - prusa_slicer\n  - super_slicer"
    );
    assert_eq!(print_engines(&Vec::new()), "Available Slicing Engines:\n\n");
    assert_eq!(
        print_engines(&vec![belt_engine::engine(None)]),
        "Available Slicing Engines:\n\n  - belt_engine"
    );
}

#[test]
fn slic3r_command() {
    let ctx = ExecutionContext {
        release: slic3r_release(),
        src_path: "/tmp/job/model.stl".to_owned(),
        config_path: "/tmp/job/profile.ini".to_owned(),
        gcode_path: "/tmp/job/model.stl.gcode".to_owned(),
    };
    let command = slic3r::generate_gcode(&ctx, "/data", true).unwrap();
    assert_eq!(command.program, "su");
    assert_eq!(
        command.args,
        vec![
            "-",
            "slicing-worker",
            "-c",
            "/data/engines/slic3r-slic3r/slic3r-slic3r-1.3.0.AppImage",
            "--load",
            "/tmp/job/profile.ini",
            "--output",
            "/tmp/job/model.stl.gcode",
            "--slice",
            "/tmp/job/model.stl",
        ]
    );
    let err = slic3r::generate_gcode(&ctx, "/data", false).unwrap_err();
    assert_eq!(err.kind, ErrorKind::NotInstalled);
    assert_eq!(err.message, "slic3r/Slic3r 1.3.0 is not installed");
}

#[test]
fn belt_engine_command() {
    let ctx = ExecutionContext {
        release: belt_release(),
        src_path: "m.stl".to_owned(),
        config_path: "p.ini".to_owned(),
        gcode_path: "m.stl.gcode".to_owned(),
    };
    let command = belt_engine::generate_gcode(&ctx, true).unwrap();
    assert_eq!(command.program, "su");
    assert_eq!(
        command.args,
        vec![
            "-",
            "slicing-worker",
            "-c",
            "/opt/belt/beltengine",
            "-c",
            "p.ini",
            "-o",
            "m.stl.gcode",
            "m.stl",
        ]
    );
    let err = belt_engine::generate_gcode(&ctx, false).unwrap_err();
    assert_eq!(err.kind, ErrorKind::NotInstalled);
    assert_eq!(err.message, "Engine must be manually installed");
}

#[test]
fn release_generates_the_command_of_its_engine() {
    let command = Release::Github(slic3r_release())
        .generate_gcode("s".to_owned(), "c".to_owned(), "g".to_owned(), "/d", true)
        .unwrap();
    assert_eq!(command.args[4], "--load");
    assert_eq!(command.args.len(), 10);
    let command = Release::Local(belt_release())
        .generate_gcode("s".to_owned(), "c".to_owned(), "g".to_owned(), "/d", true)
        .unwrap();
    assert_eq!(command.args[3], "/opt/belt/beltengine");
    assert_eq!(command.args.len(), 9);
    let err = Release::Local(belt_release())
        .generate_gcode("s".to_owned(), "c".to_owned(), "g".to_owned(), "/d", false)
        .unwrap_err();
    assert_eq!(err.message, "Engine must be manually installed");
}

#[test]
fn progress_items_of_an_ended_engine() {
    assert_eq!(PERCENT_DONE, 10_000);
    let done = progress_item(Output::Exited { success: true, stderr: "notes".to_owned() });
    assert_eq!(done.unwrap(), PERCENT_DONE);
    let failed = progress_item(Output::Exited { success: false, stderr: "boom".to_owned() });
    let err = failed.unwrap_err();
    assert_eq!(err.kind, ErrorKind::SubprocessError);
    assert_eq!(err.message, "boom");
    let err = progress_item(Output::SpawnFailed).unwrap_err();
    assert_eq!(err.kind, ErrorKind::SubprocessError);
    assert_eq!(err.message, "Slicer error");
}

#[test]
fn progress_stream_carries_one_item() {
    let items = Release::progress_stream(Ok(Output::Exited {
        success: true,
        stderr: String::new(),
    }));
    assert_eq!(items.len(), 1);
    assert_eq!(*items[0].as_ref().unwrap(), 10_000);
    let items = Release::progress_stream(Err(Error::local_not_installed()));
    assert_eq!(items.len(), 1);
    assert_eq!(items[0].as_ref().unwrap_err().message, "Engine must be manually installed");
    let items = Release::progress_stream(Ok(Output::SpawnFailed));
    assert_eq!(items.len(), 1);
    assert_eq!(items[0].as_ref().unwrap_err().message, "Slicer error");
}

#[test]
fn install_refuses_unknown_engines() {
    let err = install(&engines(None), "cura", None, "/data", false).unwrap_err();
    assert_eq!(err.kind, ErrorKind::EngineNotFound);
    assert_eq!(err.message, "Unknown engine: cura");
}

#[test]
fn install_refuses_local_releases() {
    for force in [false, true] {
        let err = install(&engines(None), "belt_engine", None, "/data", force).unwrap_err();
        assert_eq!(err.kind, ErrorKind::ManualInstallRequired);
        assert_eq!(err.message, "belt_engine must be manually installed");
        let err = install(
            &engines(None),
            "belt_engine",
            Some("https://github.com/Autodrop3d/BeltEngine"),
            "/data",
            force,
        )
        .unwrap_err();
        assert_eq!(err.kind, ErrorKind::ManualInstallRequired);
    }
    let err = install_release("belt_engine", Release::Local(belt_release()), "/data", true)
        .unwrap_err();
    assert_eq!(err.message, "belt_engine must be manually installed");
}

#[test]
fn install_of_a_named_release_begins_its_download() {
    let catalog = engines(None);
    match install(
        &catalog,
        "slic3r",
        Some("https://github.com/slic3r/Slic3r/releases/tag/1.3.0"),
        "/data",
        false,
    )
    .unwrap()
    {
        Install::Download(download, action) => {
            assert_eq!(action, DownloadAction::CheckInstalled);
            assert_eq!(
                download.bin_path,
                "/data/engines/slic3r-slic3r/slic3r-slic3r-1.3.0.AppImage"
            );
        }
        Install::QueryLatest(_) => panic!("a download was expected"),
    }
    match install(
        &catalog,
        "slic3r",
        Some("https://github.com/slic3r/Slic3r/releases/tag/1.3.0"),
        "/data",
        true,
    )
    .unwrap()
    {
        Install::Download(_, action) => assert_eq!(action, DownloadAction::CreateDirs),
        Install::QueryLatest(_) => panic!("a download was expected"),
    }
    let err = install(
        &catalog,
        "slic3r",
        Some("https://github.com/prusa3d/PrusaSlicer/releases/tag/version_2.5.0"),
        "/data",
        false,
    )
    .unwrap_err();
    assert_eq!(err.kind, ErrorKind::ReleaseParseError);
}

#[test]
fn install_without_url_asks_for_the_latest_release() {
    match install(&engines(None), "super_slicer", None, "/data", false).unwrap() {
        Install::QueryLatest(request) => assert_eq!(
            request.url,
            "https://api.github.com/repos/supermerill/SuperSlicer/releases/latest"
        ),
        Install::Download(_, _) => panic!("a query was expected"),
    }
    let (_, action) =
        install_release("slic3r", Release::Github(slic3r_release()), "/data", false).unwrap();
    assert_eq!(action, DownloadAction::CheckInstalled);
}

#[test]
fn install_goes_on_with_the_latest_release() {
    let catalog = engines(None);
    let (download, action) = install_latest(
        &catalog,
        "super_slicer",
        Some("https://github.com/supermerill/SuperSlicer/releases/tag/2.4.58.5"),
        "/data",
        false,
    )
    .unwrap();
    assert_eq!(action, DownloadAction::CheckInstalled);
    assert_eq!(
        download.bin_path,
        "/data/engines/supermerill-superslicer/supermerill-superslicer-2.4.58.5.AppImage"
    );
    let (_, action) = install_latest(
        &catalog,
        "super_slicer",
        Some("https://github.com/supermerill/SuperSlicer/releases/tag/2.4.58.5"),
        "/data",
        true,
    )
    .unwrap();
    assert_eq!(action, DownloadAction::CreateDirs);

    let err = install_latest(&catalog, "super_slicer", None, "/data", false).unwrap_err();
    assert_eq!(err.kind, ErrorKind::DownloadError);
    assert_eq!(err.message, "Missing html_url in JSON");
    let err = install_latest(
        &catalog,
        "super_slicer",
        Some("https://github.com/slic3r/Slic3r/releases/tag/1.3.0"),
        "/data",
        false,
    )
    .unwrap_err();
    assert_eq!(err.kind, ErrorKind::ReleaseParseError);
    assert_eq!(
        err.message,
        "Invalid Github release URL: https://github.com/slic3r/Slic3r/releases/tag/1.3.0"
    );
    let err = install_latest(&catalog, "cura", None, "/data", false).unwrap_err();
    assert_eq!(err.kind, ErrorKind::EngineNotFound);
    assert_eq!(err.message, "Unknown engine: cura");
    let err = install_latest(&catalog, "belt_engine", None, "/data", true).unwrap_err();
    assert_eq!(err.kind, ErrorKind::ManualInstallRequired);
    assert_eq!(err.message, "belt_engine must be manually installed");
}

#[test]
fn app_error_response() {
    let (status, body) = AppError::from(Error::job_unknown()).into_response();
    assert_eq!(status, 500);
    assert_eq!(body, "Something went wrong: Job not found");
    let copy = Error::subprocess("boom".to_owned()).duplicate();
    assert_eq!(copy.kind, ErrorKind::SubprocessError);
    assert_eq!(copy.message, "boom");
}
