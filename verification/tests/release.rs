use karakup::error::ErrorKind;
use karakup::platform::{Architecture, OsFamily, PlatformInfo};
use karakup::release::{
    get_latest_version, release_tag, resolve, select_asset, strip_tag_prefix, version_label,
    AssetDescriptor, RegistryError, RegistryReply, ReleaseDescriptor, VersionSelector,
};

fn asset(name: &str, url: &str, size: u64) -> AssetDescriptor {
    AssetDescriptor { name: name.to_string(), download_url: url.to_string(), size_bytes: size }
}

fn release(tag: &str, assets: Vec<AssetDescriptor>) -> ReleaseDescriptor {
    ReleaseDescriptor { tag: tag.to_string(), assets }
}

fn linux_x86() -> PlatformInfo {
    PlatformInfo { os: OsFamily::Linux, arch: Architecture::X86_64 }
}

#[test]
fn tag_puts_the_prefix_before_the_version() {
    assert_eq!(release_tag("1.2.3"), "karak-cli-v1.2.3");
    assert_eq!(release_tag(""), "karak-cli-v");
}

#[test]
fn stripping_removes_the_prefix_once() {
    assert_eq!(strip_tag_prefix("karak-cli-v2.0.0"), "2.0.0");
    assert_eq!(strip_tag_prefix("karak-cli-vkarak-cli-v1"), "karak-cli-v1");
    assert_eq!(strip_tag_prefix("karak-cli-v"), "");
}

#[test]
fn tag_without_the_prefix_is_kept_whole() {
    assert_eq!(strip_tag_prefix("v2.0.0"), "v2.0.0");
    assert_eq!(strip_tag_prefix("karak-cli-"), "karak-cli-");
    assert_eq!(strip_tag_prefix(""), "");
}

#[test]
fn tag_and_version_round_trip() {
    for version in ["1.2.3", "0.0.1", "weird", "", "ünïcode"] {
        assert_eq!(strip_tag_prefix(&release_tag(version)), version);
    }
}

#[test]
fn selector_from_optional_argument() {
    assert_eq!(VersionSelector::from_option(None), VersionSelector::Latest);
    assert_eq!(
        VersionSelector::from_option(Some("1.0.0".to_string())),
        VersionSelector::Explicit("1.0.0".to_string())
    );
}

#[test]
fn resolve_hands_a_found_release_on_unchanged() {
    let found = release(
        "karak-cli-v1.2.3",
        vec![asset("a", "https://example.test/a", 1), asset("b", "https://example.test/b", 2)],
    );
    let selector = VersionSelector::Explicit("1.2.3".to_string());
    assert_eq!(resolve(&selector, RegistryReply::Found(found.clone())), Ok(found.clone()));
    assert_eq!(resolve(&VersionSelector::Latest, RegistryReply::Found(found.clone())), Ok(found));
}

#[test]
fn resolve_reports_a_missing_version() {
    let selector = VersionSelector::Explicit("9.9.9".to_string());
    let failure = resolve(&selector, RegistryReply::NotFound).unwrap_err();
    assert_eq!(failure.kind, ErrorKind::VersionNotFound);
    assert_eq!(failure.detail, "9.9.9");
    assert_eq!(failure.message(), "Version 9.9.9 not found");
}

#[test]
fn resolve_reports_a_missing_latest_release() {
    let failure = resolve(&VersionSelector::Latest, RegistryReply::NotFound).unwrap_err();
    assert_eq!(failure.kind, ErrorKind::VersionNotFound);
    assert_eq!(failure.detail, "latest");
}

#[test]
fn resolve_reports_an_unreachable_registry() {
    let selector = VersionSelector::Explicit("1.0.0".to_string());
    let reply = RegistryReply::Unreachable("connection refused".to_string());
    let failure = resolve(&selector, reply).unwrap_err();
    assert_eq!(failure.kind, ErrorKind::RegistryUnreachable);
    assert_eq!(failure.detail, "connection refused");
}

#[test]
fn selection_takes_the_asset_with_the_platform_name() {
    let wanted = asset("karak-cli-x86_64-unknown-linux-gnu.tar.xz", "https://example.test/l", 10);
    let found = release(
        "karak-cli-v1.0.0",
        vec![
            asset("karak-cli-x86_64-apple-darwin.tar.xz", "https://example.test/d", 20),
            wanted.clone(),
            asset("karak-cli-aarch64-unknown-linux-gnu.tar.xz", "https://example.test/a", 30),
        ],
    );
    assert_eq!(select_asset(&found, linux_x86()), Ok(wanted));
}

#[test]
fn selection_takes_the_first_of_two_matches() {
    let first = asset("karak-cli-x86_64-unknown-linux-gnu.tar.xz", "https://example.test/1", 1);
    let second = asset("karak-cli-x86_64-unknown-linux-gnu.tar.xz", "https://example.test/2", 2);
    let found = release("karak-cli-v1.0.0", vec![first.clone(), second]);
    assert_eq!(select_asset(&found, linux_x86()), Ok(first));
}

#[test]
fn selection_names_the_file_it_missed() {
    let found = release(
        "karak-cli-v1.0.0",
        vec![asset("karak-cli-x86_64-unknown-linux-gnu.tar.gz", "https://example.test/l", 10)],
    );
    let failure = select_asset(&found, linux_x86()).unwrap_err();
    assert_eq!(failure.kind, ErrorKind::AssetNotFound);
    assert_eq!(failure.detail, "karak-cli-x86_64-unknown-linux-gnu.tar.xz");

    let empty = release("karak-cli-v1.0.0", vec![]);
    let darwin = PlatformInfo { os: OsFamily::Darwin, arch: Architecture::Aarch64 };
    let failure = select_asset(&empty, darwin).unwrap_err();
    assert_eq!(failure.kind, ErrorKind::AssetNotFound);
    assert_eq!(failure.detail, "karak-cli-aarch64-apple-darwin.tar.xz");
}

#[test]
fn selection_needs_the_exact_name() {
    let found = release(
        "karak-cli-v1.0.0",
        vec![
            asset("karak-cli-x86_64-unknown-linux-gnu.tar.xz.sha256", "https://example.test/s", 1),
            asset("KARAK-CLI-x86_64-unknown-linux-gnu.tar.xz", "https://example.test/u", 1),
        ],
    );
    assert!(select_asset(&found, linux_x86()).is_err());
}

#[test]
fn label_is_the_requested_version_or_the_tag_version() {
    let found = release("karak-cli-v2.0.0", vec![]);
    assert_eq!(version_label(&VersionSelector::Latest, &found), "2.0.0");
    let selector = VersionSelector::Explicit("1.9.0".to_string());
    assert_eq!(version_label(&selector, &found), "1.9.0");
    let odd = release("nightly", vec![]);
    assert_eq!(version_label(&VersionSelector::Latest, &odd), "nightly");
}

#[test]
fn latest_version_is_read_from_the_tag() {
    let found = release("karak-cli-v2.0.0", vec![]);
    assert_eq!(get_latest_version(RegistryReply::Found(found)), Ok("2.0.0".to_string()));
}

#[test]
fn latest_version_fails_with_the_registry() {
    let failure = get_latest_version(RegistryReply::Unreachable("dns".to_string())).unwrap_err();
    assert_eq!(failure.kind, ErrorKind::RegistryUnreachable);
    assert_eq!(failure.detail, "dns");
    let failure = get_latest_version(RegistryReply::NotFound).unwrap_err();
    assert_eq!(failure.kind, ErrorKind::VersionNotFound);
}

#[test]
fn copies_of_assets_and_selectors_are_equal() {
    let first = asset("n", "u", 7);
    assert_eq!(first.duplicate(), first);
    let selector = VersionSelector::Explicit("1.0.0".to_string());
    assert_eq!(selector.duplicate(), selector);
    assert_eq!(VersionSelector::Latest.duplicate(), VersionSelector::Latest);
}

#[test]
fn status_404_means_no_such_release() {
    let error = RegistryError { status: Some(404), message: "Not Found".to_string() };
    assert_eq!(RegistryReply::from_outcome(Err(error)), RegistryReply::NotFound);
}

#[test]
fn other_failures_mean_an_unreachable_registry() {
    for status in [None, Some(403), Some(500), Some(0), Some(200)] {
        let error = RegistryError { status, message: "rate limited".to_string() };
        assert_eq!(
            RegistryReply::from_outcome(Err(error)),
            RegistryReply::Unreachable("rate limited".to_string())
        );
    }
}

#[test]
fn successful_request_is_a_found_release() {
    let found = release("karak-cli-v1.0.0", vec![asset("a", "u", 1)]);
    assert_eq!(RegistryReply::from_outcome(Ok(found.clone())), RegistryReply::Found(found));
}
