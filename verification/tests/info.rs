use sysguard::errors::ErrorKind;
use sysguard::release::{os_version_from_probe, parse_os_release};
use sysguard::system::{get_home_dir, get_system_info};

#[test]
fn info_fields_never_empty_under_probe_failure() {
    let info = get_system_info(String::from("linux"), String::from("x86_64"), None);
    assert_eq!(info.os, "linux");
    assert_eq!(info.arch, "x86_64");
    assert_eq!(info.os_version, "Unknown");
    assert!(!info.os.is_empty());
    assert!(!info.arch.is_empty());
    assert!(!info.os_version.is_empty());
}

#[test]
fn blank_probe_output_falls_back_to_unknown() {
    let info = get_system_info(
        String::from("macos"),
        String::from("aarch64"),
        Some(String::from("  \t\r\n")),
    );
    assert_eq!(info.os_version, "Unknown");
}

#[test]
fn probe_output_is_trimmed() {
    assert_eq!(os_version_from_probe(Some(String::from("14.2\n"))), "14.2");
    assert_eq!(
        os_version_from_probe(Some(String::from("  Server 2022  "))),
        "Server 2022"
    );
    assert_eq!(os_version_from_probe(None), "Unknown");
}

#[test]
fn os_release_pretty_name_is_extracted() {
    let content = "NAME=\"Ubuntu\"\nPRETTY_NAME=\"Ubuntu 22.04.3 LTS\"\nID=ubuntu\n";
    assert_eq!(
        parse_os_release(content),
        Some(String::from("Ubuntu 22.04.3 LTS"))
    );
}

#[test]
fn os_release_without_pretty_name_is_none() {
    assert_eq!(parse_os_release("NAME=\"Alpine\"\nID=alpine\n"), None);
    assert_eq!(parse_os_release(""), None);
}

#[test]
fn os_release_first_pretty_name_wins() {
    let content = "PRETTY_NAME=First\nPRETTY_NAME=Second\n";
    assert_eq!(parse_os_release(content), Some(String::from("First")));
}

#[test]
fn os_release_last_line_without_newline() {
    let content = "ID=debian\nPRETTY_NAME=\"Debian GNU/Linux 12 (bookworm)\"";
    assert_eq!(
        parse_os_release(content),
        Some(String::from("Debian GNU/Linux 12 (bookworm)"))
    );
}

#[test]
fn home_dir_passes_the_value_through() {
    let r = get_home_dir(Ok(String::from("/home/u")));
    assert_eq!(r.expect("variable was set"), "/home/u");
}

#[test]
fn missing_home_is_an_environment_error() {
    let e = get_home_dir(Err(String::from("environment variable not found")))
        .err()
        .expect("variable was unset");
    assert_eq!(e.kind, ErrorKind::EnvironmentError);
    assert_eq!(
        e.message,
        "Failed to get home directory: environment variable not found"
    );
}
