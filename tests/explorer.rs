use wiztree_diff_gui::{exit_status_error, explorer_launch, Error, Platform};

#[test]
fn windows_selects_the_path() {
    let l = explorer_launch(Platform::Windows, "C:\\data\\a.csv").unwrap();
    assert_eq!(l.program, "explorer.exe");
    assert_eq!(l.args, vec!["/select,".to_string(), "C:\\data\\a.csv".to_string()]);
}

#[test]
fn macos_and_linux_open_the_path() {
    let l = explorer_launch(Platform::MacOs, "/tmp/a").unwrap();
    assert_eq!(l.program, "open");
    assert_eq!(l.args, vec!["/tmp/a".to_string()]);
    let l = explorer_launch(Platform::Linux, "/tmp/a").unwrap();
    assert_eq!(l.program, "xdg-open");
    assert_eq!(l.args, vec!["/tmp/a".to_string()]);
}

#[test]
fn other_platform_is_refused() {
    let e = explorer_launch(Platform::Other, "/tmp/a").unwrap_err();
    assert_eq!(e, Error::Io("Unsupported platform".to_string()));
}

#[test]
fn exit_status_joins_arguments() {
    let args = vec!["/select,".to_string(), "C:\\a".to_string()];
    let e = exit_status_error(&args, Some(1));
    assert_eq!(e, Error::ExitStatus { executable: "/select, C:\\a".to_string(), status: 1 });
    assert_eq!(e.message(), "/select, C:\\a exit status: 1");
}

#[test]
fn exit_status_without_code_is_minus_one() {
    let e = exit_status_error(&vec!["/tmp/a".to_string()], None);
    assert_eq!(e, Error::ExitStatus { executable: "/tmp/a".to_string(), status: -1 });
    let e = exit_status_error(&Vec::new(), Some(3));
    assert_eq!(e, Error::ExitStatus { executable: String::new(), status: 3 });
}
