use nsworkspace::{NSWorkspace, NativeCall, NativeString, WorkspaceError};

fn reply(text: &str) -> Option<Vec<u8>> {
    Some(text.as_bytes().to_vec())
}

fn object(members: Vec<(&str, serde_json::Value)>) -> serde_json::Value {
    let mut m = serde_json::Map::new();
    for (k, v) in members {
        m.insert(k.to_string(), v);
    }
    serde_json::Value::Object(m)
}

fn text(s: &str) -> serde_json::Value {
    serde_json::Value::String(s.to_string())
}

#[test]
fn native_string_is_terminated() {
    let n = NativeString::new("com.apple.Safari").unwrap();
    assert_eq!(n.as_str(), "com.apple.Safari");
    assert_eq!(n.as_bytes_with_nul(), b"com.apple.Safari\0");
}

#[test]
fn native_string_of_empty_text() {
    let n = NativeString::new("").unwrap();
    assert_eq!(n.as_bytes_with_nul(), b"\0");
}

#[test]
fn native_string_keeps_multibyte_text() {
    let n = NativeString::new("caf\u{e9}").unwrap();
    assert_eq!(n.as_bytes_with_nul(), b"caf\xc3\xa9\0");
}

#[test]
fn native_string_rejects_terminator() {
    assert!(NativeString::new("a\0b").is_none());
    assert!(NativeString::new("\0").is_none());
    assert!(NativeString::new("end\0").is_none());
}

#[test]
fn terminator_rejected_by_every_operation() {
    let ws = NSWorkspace::new();
    assert_eq!(ws.open_file("/tmp/a\0b").err(), Some(WorkspaceError::InvalidFilePath));
    assert_eq!(ws.open_url("https://x\0").err(), Some(WorkspaceError::InvalidUrl));
    assert_eq!(
        ws.launch_application("com.\0apple").err(),
        Some(WorkspaceError::InvalidBundleIdentifier)
    );
    assert_eq!(
        ws.get_application_path("\0").err(),
        Some(WorkspaceError::InvalidBundleIdentifier)
    );
    assert_eq!(
        ws.hide_application("a\0").err(),
        Some(WorkspaceError::InvalidBundleIdentifier)
    );
    assert_eq!(
        ws.unhide_application("a\0").err(),
        Some(WorkspaceError::InvalidBundleIdentifier)
    );
}

#[test]
fn valid_arguments_describe_the_call() {
    let ws = NSWorkspace::new();
    match ws.open_file("/Users/Shared/test.txt") {
        Ok(NativeCall::OpenFile(n)) => assert_eq!(n.as_str(), "/Users/Shared/test.txt"),
        _ => panic!("expected an open-file call"),
    }
    match ws.open_url("https://www.rust-lang.org") {
        Ok(NativeCall::OpenUrl(n)) => assert_eq!(n.as_str(), "https://www.rust-lang.org"),
        _ => panic!("expected an open-url call"),
    }
    match ws.launch_application("com.apple.Safari") {
        Ok(NativeCall::LaunchApplication(n)) => assert_eq!(n.as_str(), "com.apple.Safari"),
        _ => panic!("expected a launch call"),
    }
    match ws.get_application_path("com.apple.finder") {
        Ok(NativeCall::GetApplicationPath(n)) => assert_eq!(n.as_str(), "com.apple.finder"),
        _ => panic!("expected a path lookup"),
    }
    match ws.hide_application("com.apple.Safari") {
        Ok(NativeCall::HideApplication(n)) => assert_eq!(n.as_str(), "com.apple.Safari"),
        _ => panic!("expected a hide call"),
    }
    match ws.unhide_application("com.apple.Safari") {
        Ok(NativeCall::UnhideApplication(n)) => assert_eq!(n.as_str(), "com.apple.Safari"),
        _ => panic!("expected an unhide call"),
    }
    assert!(matches!(ws.get_running_applications(), NativeCall::GetRunningApplications));
    assert!(matches!(ws.get_frontmost_application(), NativeCall::GetFrontmostApplication));
}

#[test]
fn null_path_is_absent() {
    let ws = NSWorkspace::new();
    assert_eq!(ws.decode_application_path(None), None);
}

#[test]
fn path_is_decoded() {
    let ws = NSWorkspace::new();
    assert_eq!(
        ws.decode_application_path(reply("/System/Library/CoreServices/Finder.app")),
        Some("/System/Library/CoreServices/Finder.app".to_string())
    );
}

#[test]
fn ill_formed_path_bytes_are_replaced() {
    let ws = NSWorkspace::new();
    assert_eq!(
        ws.decode_application_path(Some(vec![b'/', 0xff, b'a'])),
        Some("/\u{fffd}a".to_string())
    );
}

#[test]
fn running_applications_null_reply() {
    let ws = NSWorkspace::new();
    assert_eq!(
        ws.decode_running_applications(None).err(),
        Some(WorkspaceError::NoRunningApplications)
    );
}

#[test]
fn running_applications_malformed_reply() {
    let ws = NSWorkspace::new();
    let r = ws.decode_running_applications(reply("[{\"bundleIdentifier\": "));
    assert_eq!(r.err(), Some(WorkspaceError::MalformedRunningApplications));
    let r = ws.decode_running_applications(reply(""));
    assert_eq!(r.err(), Some(WorkspaceError::MalformedRunningApplications));
}

#[test]
fn running_applications_empty_array() {
    let ws = NSWorkspace::new();
    let apps = ws.decode_running_applications(reply("[]")).unwrap();
    assert!(apps.is_empty());
}

#[test]
fn running_applications_not_an_array() {
    let ws = NSWorkspace::new();
    let r = ws.decode_running_applications(reply("{\"bundleIdentifier\": \"a\"}"));
    assert_eq!(r.err(), Some(WorkspaceError::RunningApplicationsNotAnArray));
}

#[test]
fn running_applications_skip_incomplete_entries() {
    let ws = NSWorkspace::new();
    let json = "[\
        {\"bundleIdentifier\": \"com.apple.finder\", \"localizedName\": \"Finder\", \"executableURL\": \"/F\"},\
        {\"bundleIdentifier\": \"com.x\", \"localizedName\": \"X\"},\
        {\"localizedName\": \"Y\", \"executableURL\": \"/Y\"},\
        {\"bundleIdentifier\": \"com.z\", \"localizedName\": 3, \"executableURL\": \"/Z\"},\
        7,\
        {\"bundleIdentifier\": \"com.apple.Safari\", \"localizedName\": \"Safari\", \"executableURL\": \"/S\", \"extra\": 1}\
    ]";
    let apps = ws.decode_running_applications(reply(json)).unwrap();
    assert_eq!(apps.len(), 2);
    assert_eq!(apps[0].bundle_identifier, "com.apple.finder");
    assert_eq!(apps[0].localized_name, "Finder");
    assert_eq!(apps[0].executable_path, "/F");
    assert_eq!(apps[1].bundle_identifier, "com.apple.Safari");
    assert_eq!(apps[1].localized_name, "Safari");
    assert_eq!(apps[1].executable_path, "/S");
}

#[test]
fn running_applications_from_built_value() {
    let complete = object(vec![
        ("bundleIdentifier", text("com.a")),
        ("localizedName", text("A")),
        ("executableURL", text("/A")),
    ]);
    let missing_path = object(vec![("bundleIdentifier", text("com.b")), ("localizedName", text("B"))]);
    let v = serde_json::Value::Array(vec![missing_path, complete]);
    let apps = nsworkspace::running_applications_from_json(&v).unwrap();
    assert_eq!(apps.len(), 1);
    assert_eq!(apps[0].bundle_identifier, "com.a");
    assert_eq!(apps[0].localized_name, "A");
    assert_eq!(apps[0].executable_path, "/A");
    let r = nsworkspace::running_applications_from_json(&serde_json::Value::Null);
    assert_eq!(r.err(), Some(WorkspaceError::RunningApplicationsNotAnArray));
}

#[test]
fn frontmost_null_reply_is_absent() {
    let ws = NSWorkspace::new();
    assert!(ws.decode_frontmost_application(None).unwrap().is_none());
}

#[test]
fn frontmost_malformed_reply() {
    let ws = NSWorkspace::new();
    let r = ws.decode_frontmost_application(reply("{\"localizedName\": "));
    assert_eq!(r.err(), Some(WorkspaceError::MalformedFrontmostApplication));
}

#[test]
fn frontmost_full_record() {
    let ws = NSWorkspace::new();
    let json = "{\"bundleIdentifier\": \"com.apple.Terminal\", \"localizedName\": \"Terminal\", \
        \"executableURL\": \"/T\", \"processIdentifier\": 412, \"launchDate\": \"2024-01-02 03:04:05\"}";
    let app = ws.decode_frontmost_application(reply(json)).unwrap().unwrap();
    assert_eq!(app.bundle_identifier, "com.apple.Terminal");
    assert_eq!(app.localized_name, "Terminal");
    assert_eq!(app.executable_path, "/T");
    assert_eq!(app.process_id, 412);
    assert_eq!(app.launch_date, "2024-01-02 03:04:05");
}

#[test]
fn frontmost_missing_members_default() {
    let ws = NSWorkspace::new();
    let app = ws.decode_frontmost_application(reply("{\"localizedName\": \"Notes\"}")).unwrap().unwrap();
    assert_eq!(app.bundle_identifier, "");
    assert_eq!(app.localized_name, "Notes");
    assert_eq!(app.executable_path, "");
    assert_eq!(app.process_id, 0);
    assert_eq!(app.launch_date, "");
}

#[test]
fn frontmost_non_object_defaults() {
    let ws = NSWorkspace::new();
    let app = ws.decode_frontmost_application(reply("[1, 2]")).unwrap().unwrap();
    assert_eq!(app.bundle_identifier, "");
    assert_eq!(app.process_id, 0);
}

#[test]
fn frontmost_wrong_member_types_default() {
    let ws = NSWorkspace::new();
    let json = "{\"bundleIdentifier\": 5, \"processIdentifier\": -3, \"launchDate\": null}";
    let app = ws.decode_frontmost_application(reply(json)).unwrap().unwrap();
    assert_eq!(app.bundle_identifier, "");
    assert_eq!(app.process_id, 0);
    assert_eq!(app.launch_date, "");
    let app = ws
        .decode_frontmost_application(reply("{\"processIdentifier\": 1.5}"))
        .unwrap()
        .unwrap();
    assert_eq!(app.process_id, 0);
}

#[test]
fn frontmost_process_id_keeps_low_bits() {
    let ws = NSWorkspace::new();
    let app = ws
        .decode_frontmost_application(reply("{\"processIdentifier\": 4294967301}"))
        .unwrap()
        .unwrap();
    assert_eq!(app.process_id, 5);
}

#[test]
fn frontmost_from_built_value() {
    let v = object(vec![("processIdentifier", serde_json::Value::from(77u64)), ("launchDate", text("now"))]);
    let app = nsworkspace::frontmost_application_from_json(&v);
    assert_eq!(app.process_id, 77);
    assert_eq!(app.launch_date, "now");
    assert_eq!(app.bundle_identifier, "");
}

#[test]
fn error_messages() {
    assert_eq!(
        WorkspaceError::InvalidFilePath.message(),
        "Invalid file path containing null bytes"
    );
    assert_eq!(WorkspaceError::InvalidUrl.message(), "Invalid URL containing null bytes");
    assert_eq!(
        WorkspaceError::InvalidBundleIdentifier.message(),
        "Invalid bundle identifier containing null bytes"
    );
    assert_eq!(
        WorkspaceError::NoRunningApplications.message(),
        "Failed to get running applications"
    );
    assert_eq!(
        WorkspaceError::MalformedRunningApplications.message(),
        "Failed to parse running applications JSON"
    );
    assert_eq!(
        WorkspaceError::RunningApplicationsNotAnArray.message(),
        "Invalid JSON structure for running applications"
    );
    assert_eq!(
        WorkspaceError::MalformedFrontmostApplication.message(),
        "Failed to parse frontmost application JSON"
    );
}

#[test]
fn path_stops_at_first_zero_byte() {
    let ws = NSWorkspace::new();
    assert_eq!(
        ws.decode_application_path(Some(b"/Applications/A.app\0/tail\0".to_vec())),
        Some("/Applications/A.app".to_string())
    );
    assert_eq!(ws.decode_application_path(Some(vec![0, b'x'])), Some(String::new()));
    assert_eq!(ws.decode_application_path(Some(Vec::new())), Some(String::new()));
}

#[test]
fn bytes_before_terminator_cuts() {
    assert_eq!(nsworkspace::native::bytes_before_terminator(b"ab\0cd"), b"ab".to_vec());
    assert_eq!(nsworkspace::native::bytes_before_terminator(b"abc"), b"abc".to_vec());
    assert_eq!(nsworkspace::native::bytes_before_terminator(b""), Vec::<u8>::new());
}
