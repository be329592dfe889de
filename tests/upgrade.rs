use core::cmp::Ordering;
use deno_upgrade::download::{DownloadStep, Downloader, FetchOutcome};
use deno_upgrade::error::{Defect, UpgradeError};
use deno_upgrade::locate::{archive_name, compose_url_to_exec};
use deno_upgrade::plan::{install_plan, plan_upgrade, FsOp, FsPath, Step};
use deno_upgrade::resolve::{resolve_latest, resolve_requested, Resolution};
use deno_upgrade::tag::{find_version, version_in_match};
use deno_upgrade::unpack::{
    check_staging, check_unpacked, exe_file_name, file_extension, plan_unpack, unpack_method,
    UnpackMethod,
};
use deno_upgrade::verify_exe::{check_version_output, expected_version_line};
use deno_upgrade::version::{parse_version, Ident, Version};

fn v(s: &str) -> Version {
    parse_version(s).unwrap()
}

fn install_text(r: &Resolution) -> Option<String> {
    match r {
        Resolution::AlreadyCurrent => None,
        Resolution::Install(v) => Some(v.to_text()),
    }
}

#[test]
fn test_find_version() {
    let url = "<html><body>You are being <a href=\"https://github.com/denoland/deno/releases/tag/v0.36.0\">redirected</a>.</body></html>";
    assert_eq!(find_version(url).unwrap(), "0.36.0".to_string());
}

#[test]
fn find_version_missing_tag() {
    assert_eq!(find_version("<html>no tag here</html>"), Err(UpgradeError::NotFound));
    assert_eq!(find_version(""), Err(UpgradeError::NotFound));
}

#[test]
fn find_version_skips_markup() {
    // the `v` of `div` starts no tag reference
    assert_eq!(find_version("<div>/tag/v1.2.3\"").unwrap(), "1.2.3");
    assert_eq!(find_version("vx v2.0.0\" v3.0.0\"").unwrap(), "2.0.0");
    assert_eq!(find_version("/tag/v1.0.0+build.5\">").unwrap(), "1.0.0+build.5");
}

#[test]
fn find_version_needs_a_token() {
    assert_eq!(find_version("v\""), Err(UpgradeError::NotFound));
    assert_eq!(find_version("va\"b\""), Err(UpgradeError::NotFound));
    assert_eq!(find_version("v1.2?\""), Err(UpgradeError::NotFound));
    assert_eq!(find_version("v1.2.3 \""), Err(UpgradeError::NotFound));
}

#[test]
fn version_in_match_strips_ends() {
    assert_eq!(version_in_match("v1.0.0\""), "1.0.0");
    assert_eq!(version_in_match("v\""), "");
}

#[test]
fn parse_and_render_versions() {
    assert_eq!(v("1.2.3").to_text(), "1.2.3");
    assert_eq!(v("0.36.0").to_text(), "0.36.0");
    assert_eq!(v("1.0.0-alpha.1+build.7").to_text(), "1.0.0-alpha.1+build.7");
    assert_eq!(v(" 10.20.30 ").to_text(), "10.20.30");
    let x = v("1.0.0-rc.2");
    assert_eq!(x.major, 1);
    assert_eq!(x.pre.len(), 2);
    assert!(matches!(&x.pre[1], Ident::Numeric(2)));
    assert!(parse_version("1.2").is_none());
    assert!(parse_version("v1.2.3").is_none());
    assert!(parse_version("").is_none());
}

#[test]
fn precedence_follows_semver() {
    assert_eq!(v("1.0.0").precedence_cmp(&v("2.0.0")), Ordering::Less);
    assert_eq!(v("2.1.0").precedence_cmp(&v("2.0.9")), Ordering::Greater);
    assert_eq!(v("1.0.0-alpha").precedence_cmp(&v("1.0.0")), Ordering::Less);
    assert_eq!(v("1.0.0-alpha.1").precedence_cmp(&v("1.0.0-alpha.beta")), Ordering::Less);
    assert_eq!(v("1.0.0-alpha").precedence_cmp(&v("1.0.0-alpha.1")), Ordering::Less);
    assert_eq!(v("1.0.0-beta.11").precedence_cmp(&v("1.0.0-beta.2")), Ordering::Greater);
    assert_eq!(v("1.0.0+a").precedence_cmp(&v("1.0.0+b")), Ordering::Equal);
}

#[test]
fn compose_url_exact() {
    let u = compose_url_to_exec(&v("1.2.3"), "x86_64-unknown-linux-gnu").unwrap();
    assert_eq!(
        u,
        "https://github.com/denoland/deno/releases/download/v1.2.3/deno-x86_64-unknown-linux-gnu.zip"
    );
    assert_eq!(archive_name("x86_64-pc-windows-msvc"), "deno-x86_64-pc-windows-msvc.zip");
}

#[test]
fn compose_url_is_deterministic() {
    let a = compose_url_to_exec(&v("0.36.0"), "aarch64-apple-darwin");
    let b = compose_url_to_exec(&v("0.36.0"), "aarch64-apple-darwin");
    assert_eq!(a, b);
    assert!(a.is_ok());
}

#[test]
fn compose_url_is_normalized_by_parser() {
    let u = compose_url_to_exec(&v("1.0.0"), "my target").unwrap();
    assert_eq!(u, "https://github.com/denoland/deno/releases/download/v1.0.0/deno-my%20target.zip");
}

fn run_downloader(start: &str, outcomes: Vec<FetchOutcome>) -> (DownloadStep, u64, Vec<String>) {
    let mut d = Downloader::new(start.to_string());
    let mut seen = Vec::new();
    let mut outs = outcomes.into_iter();
    loop {
        seen.push(d.begin_fetch());
        let step = d.on_outcome(outs.next().unwrap());
        match step {
            DownloadStep::Fetch(_) => continue,
            other => return (other, d.fetches, seen),
        }
    }
}

#[test]
fn redirect_chain_is_followed() {
    let outs = vec![
        FetchOutcome::Redirect("https://b.example/1".to_string()),
        FetchOutcome::Redirect("https://c.example/2".to_string()),
        FetchOutcome::Success(vec![1, 2, 3]),
    ];
    let (step, fetches, seen) = run_downloader("https://a.example/0", outs);
    assert!(matches!(step, DownloadStep::Done(ref b) if b == &vec![1u8, 2, 3]));
    assert_eq!(fetches, 3);
    assert_eq!(seen, vec!["https://a.example/0", "https://b.example/1", "https://c.example/2"]);
}

#[test]
fn no_redirect_single_fetch() {
    let (step, fetches, _) = run_downloader("https://a.example/0", vec![FetchOutcome::Success(vec![])]);
    assert!(matches!(step, DownloadStep::Done(ref b) if b.is_empty()));
    assert_eq!(fetches, 1);
}

#[test]
fn not_modified_is_defect() {
    let (step, fetches, _) = run_downloader("https://a.example/0", vec![FetchOutcome::NotModified]);
    assert!(matches!(step, DownloadStep::Defect));
    assert_eq!(fetches, 1);
}

#[test]
fn failed_fetch_aborts_without_retry() {
    let outs = vec![
        FetchOutcome::Redirect("https://b.example/1".to_string()),
        FetchOutcome::Failed,
    ];
    let (step, fetches, _) = run_downloader("https://a.example/0", outs);
    assert!(matches!(step, DownloadStep::Abort));
    assert_eq!(fetches, 2);
}

#[test]
fn find_version_prerelease_tag() {
    let page = "<a href=\"https://github.com/denoland/deno/releases/tag/v1.0.0-rc.1\">";
    assert_eq!(find_version(page).unwrap(), "1.0.0-rc.1".to_string());
    assert_eq!(
        find_version("<html><body>no release</body></html>"),
        Err(UpgradeError::NotFound)
    );
}

#[test]
fn archive_dispatch() {
    assert_eq!(unpack_method("deno-x86_64-unknown-linux-gnu.zip", false), Some(UnpackMethod::Unzip));
    assert_eq!(unpack_method("deno-x86_64-pc-windows-msvc.zip", true), Some(UnpackMethod::PowerShellZip));
    assert_eq!(unpack_method("deno.gz", false), Some(UnpackMethod::Gunzip));
    assert_eq!(unpack_method("deno.gz", true), Some(UnpackMethod::Gunzip));
    assert_eq!(unpack_method("deno.tar", false), None);
    assert_eq!(unpack_method(".zip", false), None);
    assert_eq!(unpack_method("deno", false), None);
    assert_eq!(plan_unpack("deno.7z", false), Err(Defect::UnsupportedArchive));
    assert_eq!(plan_unpack("a.b.zip", false), Ok(UnpackMethod::Unzip));
}

#[test]
fn extensions_like_path() {
    assert_eq!(file_extension("a.tar.gz"), Some("gz".to_string()));
    assert_eq!(file_extension("name."), Some("".to_string()));
    assert_eq!(file_extension(".hidden"), None);
    assert_eq!(file_extension("plain"), None);
    assert_eq!(file_extension(".."), None);
}

#[test]
fn staging_and_unpack_checks() {
    assert_eq!(exe_file_name(true), "deno.exe");
    assert_eq!(exe_file_name(false), "deno");
    assert_eq!(check_staging(false), Ok(()));
    assert_eq!(check_staging(true), Err(Defect::StagingNotEmpty));
    assert_eq!(check_unpacked(true, true), Ok(()));
    assert_eq!(check_unpacked(false, true), Err(Defect::UnpackFailed));
    assert_eq!(check_unpacked(true, false), Err(Defect::ExecutableMissing));
}

#[test]
fn version_check_accepts_exact_report() {
    let target = v("1.2.3");
    assert_eq!(expected_version_line(&target), "deno 1.2.3");
    assert_eq!(check_version_output(true, "deno 1.2.3\n", &target), Ok(()));
    assert_eq!(check_version_output(true, "  deno 1.2.3  ", &target), Ok(()));
}

#[test]
fn version_check_rejects_other_version() {
    let target = v("1.2.3");
    assert_eq!(check_version_output(true, "deno 1.2.4\n", &target), Err(Defect::VersionMismatch));
    assert_eq!(check_version_output(true, "", &target), Err(Defect::VersionMismatch));
    assert_eq!(check_version_output(false, "deno 1.2.3", &target), Err(Defect::VersionQueryFailed));
}

#[test]
fn requested_current_without_force_is_noop() {
    let current = v("1.2.3");
    let r = resolve_requested(&current, "1.2.3", false).unwrap();
    assert!(matches!(r, Resolution::AlreadyCurrent));
    assert!(plan_upgrade(&r, false, false, false).is_empty());
    let r = resolve_requested(&current, "1.2.3+other", false).unwrap();
    assert!(matches!(r, Resolution::AlreadyCurrent));
}

#[test]
fn requested_current_with_force_reinstalls() {
    let current = v("1.2.3");
    let r = resolve_requested(&current, "1.2.3", true).unwrap();
    assert_eq!(install_text(&r), Some("1.2.3".to_string()));
    let steps = plan_upgrade(&r, false, false, false);
    assert_eq!(
        steps,
        vec![
            Step::Download,
            Step::Unpack,
            Step::CopyPermissions,
            Step::CheckVersion,
            Step::Install(FsOp::Remove(FsPath::OldExe)),
            Step::Install(FsOp::RenameOrCopy(FsPath::NewExe, FsPath::OldExe)),
        ]
    );
}

#[test]
fn requested_other_version_installs() {
    let current = v("1.2.3");
    let r = resolve_requested(&current, "1.0.0", false).unwrap();
    assert_eq!(install_text(&r), Some("1.0.0".to_string()));
    assert!(matches!(resolve_requested(&current, "nope", false), Err(UpgradeError::InvalidVersion)));
}

#[test]
fn latest_resolution() {
    let page = "<a href=\"https://github.com/denoland/deno/releases/tag/v1.3.0\">x</a>";
    let r = resolve_latest(&v("1.2.3"), page, false).unwrap();
    assert_eq!(install_text(&r), Some("1.3.0".to_string()));
    let r = resolve_latest(&v("1.3.0"), page, false).unwrap();
    assert!(matches!(r, Resolution::AlreadyCurrent));
    let r = resolve_latest(&v("1.4.0"), page, false).unwrap();
    assert!(matches!(r, Resolution::AlreadyCurrent));
    let r = resolve_latest(&v("1.4.0"), page, true).unwrap();
    assert_eq!(install_text(&r), Some("1.3.0".to_string()));
    assert!(matches!(resolve_latest(&v("1.0.0"), "none", false), Err(UpgradeError::NotFound)));
    assert!(matches!(
        resolve_latest(&v("1.0.0"), "<a href=\"/tag/vlatest\">", false),
        Err(UpgradeError::NotFound)
    ));
    assert!(matches!(
        resolve_latest(&v("1.0.0"), "<a href=\"/tag/v1.2\">", false),
        Err(UpgradeError::InvalidLatest)
    ));
}

#[test]
fn dry_run_plan_leaves_old_executable() {
    let r = resolve_requested(&v("1.0.0"), "2.0.0", false).unwrap();
    for windows in [false, true] {
        for has_output in [false, true] {
            let steps = plan_upgrade(&r, true, has_output, windows);
            assert_eq!(
                steps,
                vec![Step::Download, Step::Unpack, Step::CopyPermissions, Step::CheckVersion]
            );
        }
    }
}

#[test]
fn install_plans_by_platform() {
    assert_eq!(install_plan(true, true), vec![FsOp::RenameOrCopy(FsPath::NewExe, FsPath::Output)]);
    assert_eq!(
        install_plan(false, true),
        vec![
            FsOp::Rename(FsPath::OldExe, FsPath::AsideExe),
            FsOp::RenameOrCopy(FsPath::NewExe, FsPath::OldExe)
        ]
    );
    assert_eq!(
        install_plan(false, false),
        vec![FsOp::Remove(FsPath::OldExe), FsOp::RenameOrCopy(FsPath::NewExe, FsPath::OldExe)]
    );
}
