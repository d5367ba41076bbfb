use karakup::error::{ErrorKind, Failure};

fn message(kind: ErrorKind, detail: &str) -> String {
    Failure::about(kind, detail).message()
}

#[test]
fn messages_name_the_detail() {
    assert_eq!(
        message(ErrorKind::RegistryUnreachable, "timed out"),
        "Could not reach the release registry: timed out"
    );
    assert_eq!(message(ErrorKind::VersionNotFound, "9.9.9"), "Version 9.9.9 not found");
    assert_eq!(
        message(ErrorKind::UnsupportedPlatform, "windows"),
        "Unsupported operating system: windows"
    );
    assert_eq!(
        message(ErrorKind::UnsupportedArchitecture, "mips"),
        "Unsupported architecture: mips"
    );
    assert_eq!(
        message(ErrorKind::AssetNotFound, "karak-cli-x86_64-apple-darwin.tar.xz"),
        "No matching release asset found for karak-cli-x86_64-apple-darwin.tar.xz"
    );
    assert_eq!(
        message(ErrorKind::ExtractionFailed, "tar: short read"),
        "Failed to extract archive: tar: short read"
    );
    assert_eq!(
        message(ErrorKind::RemovalFailed, "busy"),
        "Failed to remove existing binary: busy"
    );
    assert_eq!(
        message(ErrorKind::PermissionDenied, "read-only file system"),
        "Failed to write to the install directory: read-only file system"
    );
}

#[test]
fn not_installed_message_points_to_the_install_command() {
    assert_eq!(
        message(ErrorKind::NotInstalled, "/home/u/.karak/bin/karak"),
        "\nKarak CLI is not installed at /home/u/.karak/bin/karak. \n\nTo install, use: `karakup install`"
    );
}

#[test]
fn only_not_installed_is_advisory() {
    let kinds = [
        ErrorKind::RegistryUnreachable,
        ErrorKind::VersionNotFound,
        ErrorKind::UnsupportedPlatform,
        ErrorKind::UnsupportedArchitecture,
        ErrorKind::AssetNotFound,
        ErrorKind::ExtractionFailed,
        ErrorKind::NotInstalled,
        ErrorKind::RemovalFailed,
        ErrorKind::PermissionDenied,
    ];
    for kind in kinds {
        let failure = Failure::about(kind, "x");
        assert_eq!(kind.is_advisory(), kind == ErrorKind::NotInstalled);
        assert_eq!(failure.exit_code(), if kind == ErrorKind::NotInstalled { 0 } else { 1 });
    }
}

#[test]
fn copies_are_equal() {
    let failure = Failure::new(ErrorKind::ExtractionFailed, "boom".to_string());
    assert_eq!(failure.duplicate(), failure);
    assert_eq!(failure.kind, ErrorKind::ExtractionFailed);
    assert_eq!(failure.detail, "boom");
}
