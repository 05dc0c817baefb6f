use wiztree_diff_gui::{Error, ErrorKind};

#[test]
fn no_diff_value_message() {
    assert_eq!(
        Error::NoDiffValue.message(),
        "No diff value in app state, please invoke `diff` command first"
    );
}

#[test]
fn lock_message() {
    let e = Error::Lock("poisoned lock: another task failed inside".to_string());
    assert_eq!(e.message(), "Failed to lock Mutex: poisoned lock: another task failed inside");
    assert_eq!(
        e.kind(),
        ErrorKind::Lock("Failed to lock Mutex: poisoned lock: another task failed inside".to_string())
    );
}

#[test]
fn transparent_messages() {
    assert_eq!(Error::Diff("bad csv".to_string()).kind(), ErrorKind::Diff("bad csv".to_string()));
    assert_eq!(Error::Tauri("no window".to_string()).kind(), ErrorKind::Tauri("no window".to_string()));
    assert_eq!(Error::Io("not found".to_string()).kind(), ErrorKind::Io("not found".to_string()));
}

#[test]
fn no_diff_value_kind() {
    let k = Error::NoDiffValue.kind();
    assert_eq!(
        k,
        ErrorKind::NoDiffValue(
            "No diff value in app state, please invoke `diff` command first".to_string()
        )
    );
    assert_eq!(k.message(), "No diff value in app state, please invoke `diff` command first");
}

#[test]
fn exit_status_message_positive() {
    let e = Error::ExitStatus { executable: "/select, C:\\x".to_string(), status: 1 };
    assert_eq!(e.message(), "/select, C:\\x exit status: 1");
    assert_eq!(e.kind(), ErrorKind::ExitStatus("/select, C:\\x exit status: 1".to_string()));
}

#[test]
fn exit_status_message_multi_digit_and_zero() {
    let e = Error::ExitStatus { executable: "open".to_string(), status: 1270 };
    assert_eq!(e.message(), "open exit status: 1270");
    let e = Error::ExitStatus { executable: "open".to_string(), status: 0 };
    assert_eq!(e.message(), "open exit status: 0");
}

#[test]
fn exit_status_message_negative_and_extremes() {
    let e = Error::ExitStatus { executable: "xdg-open".to_string(), status: -1 };
    assert_eq!(e.message(), "xdg-open exit status: -1");
    let e = Error::ExitStatus { executable: "a".to_string(), status: i32::MIN };
    assert_eq!(e.message(), format!("a exit status: {}", i32::MIN));
    let e = Error::ExitStatus { executable: "a".to_string(), status: i32::MAX };
    assert_eq!(e.message(), format!("a exit status: {}", i32::MAX));
}
