use vstd::prelude::*;

use crate::error::WorkspaceError;
use crate::json::{
    parse_value, parsed_json, str_member, u64_member, value_as_array, value_as_str,
    value_as_u64, value_get, json_view, JsonModel,
};
use crate::native::{
    before_terminator, bytes_before_terminator, has_terminator, lossy_utf8, text_of_bytes,
    NativeString,
};

verus! {

/// A running application as the operating system reports it.
#[derive(Debug, Clone)]
pub struct RunningApp {
    pub bundle_identifier: String,
    pub localized_name: String,
    pub executable_path: String,
}

pub struct RunningAppView {
    pub bundle_identifier: Seq<char>,
    pub localized_name: Seq<char>,
    pub executable_path: Seq<char>,
}

impl View for RunningApp {
    type V = RunningAppView;

    open spec fn view(&self) -> RunningAppView {
        RunningAppView {
            bundle_identifier: self.bundle_identifier@,
            localized_name: self.localized_name@,
            executable_path: self.executable_path@,
        }
    }
}

/// The application that holds input focus.
#[derive(Debug, Clone)]
pub struct FrontmostApp {
    pub bundle_identifier: String,
    pub localized_name: String,
    pub executable_path: String,
    pub process_id: u32,
    pub launch_date: String,
}

pub struct FrontmostAppView {
    pub bundle_identifier: Seq<char>,
    pub localized_name: Seq<char>,
    pub executable_path: Seq<char>,
    pub process_id: u32,
    pub launch_date: Seq<char>,
}

impl View for FrontmostApp {
    type V = FrontmostAppView;

    open spec fn view(&self) -> FrontmostAppView {
        FrontmostAppView {
            bundle_identifier: self.bundle_identifier@,
            localized_name: self.localized_name@,
            executable_path: self.executable_path@,
            process_id: self.process_id,
            launch_date: self.launch_date@,
        }
    }
}

/// The record a running-applications entry stands for: `None` unless it has
/// all three string members.
pub open spec fn running_app_of(j: JsonModel) -> Option<RunningAppView> {
    match (
        str_member(j, "bundleIdentifier"@),
        str_member(j, "localizedName"@),
        str_member(j, "executableURL"@),
    ) {
        (Some(b), Some(n), Some(p)) => Some(
            RunningAppView { bundle_identifier: b, localized_name: n, executable_path: p },
        ),
        _ => None,
    }
}

/// The records of the entries that have all three members, in order.
pub open spec fn running_apps_of(items: Seq<JsonModel>) -> Seq<RunningAppView>
    decreases items.len(),
{
    if items.len() == 0 {
        Seq::empty()
    } else {
        let kept = running_apps_of(items.drop_last());
        match running_app_of(items.last()) {
            Some(a) => kept.push(a),
            None => kept,
        }
    }
}

/// A string member, or the empty string where it is missing.
pub open spec fn str_or_empty(j: JsonModel, key: Seq<char>) -> Seq<char> {
    match str_member(j, key) {
        Some(s) => s,
        None => Seq::empty(),
    }
}

/// The frontmost-application record a document stands for, missing members
/// taken as empty or zero. The process identifier keeps the low 32 bits.
pub open spec fn frontmost_app_of(j: JsonModel) -> FrontmostAppView {
    FrontmostAppView {
        bundle_identifier: str_or_empty(j, "bundleIdentifier"@),
        localized_name: str_or_empty(j, "localizedName"@),
        executable_path: str_or_empty(j, "executableURL"@),
        process_id: match u64_member(j, "processIdentifier"@) {
            Some(n) => (n % 0x1_0000_0000) as u32,
            None => 0,
        },
        launch_date: str_or_empty(j, "launchDate"@),
    }
}

/// The text of the string member `key` of `v`, or the empty string.
fn string_member(v: &serde_json::Value, key: &str) -> (r: String)
    ensures
        r@ == str_or_empty(json_view(*v), key@),
{
    match value_get(v, key) {
        Some(m) => match value_as_str(m) {
            Some(s) => s.to_owned(),
            None => String::new(),
        },
        None => String::new(),
    }
}

/// Reads one running-applications entry; `None` unless all three members are strings.
fn running_app_from_json(v: &serde_json::Value) -> (r: Option<RunningApp>)
    ensures
        match running_app_of(json_view(*v)) {
            Some(a) => r matches Some(x) && x@ == a,
            None => r is None,
        },
{
    let b = match value_get(v, "bundleIdentifier") {
        Some(m) => match value_as_str(m) {
            Some(s) => s,
            None => return None,
        },
        None => return None,
    };
    let n = match value_get(v, "localizedName") {
        Some(m) => match value_as_str(m) {
            Some(s) => s,
            None => return None,
        },
        None => return None,
    };
    let p = match value_get(v, "executableURL") {
        Some(m) => match value_as_str(m) {
            Some(s) => s,
            None => return None,
        },
        None => return None,
    };
    Some(
        RunningApp {
            bundle_identifier: b.to_owned(),
            localized_name: n.to_owned(),
            executable_path: p.to_owned(),
        },
    )
}

/// Reads the running applications out of a parsed reply: the records of the
/// array entries that have all three members, in order; an error where the
/// document is not an array.
pub fn running_applications_from_json(v: &serde_json::Value) -> (r: Result<
    Vec<RunningApp>,
    WorkspaceError,
>)
    ensures
        match json_view(*v) {
            JsonModel::Array(items) => r matches Ok(apps) && apps@.map_values(
                |a: RunningApp| a@,
            ) == running_apps_of(items),
            _ => r == Err::<Vec<RunningApp>, WorkspaceError>(
                WorkspaceError::RunningApplicationsNotAnArray,
            ),
        },
{
    let entries = match value_as_array(v) {
        Some(a) => a,
        None => return Err(WorkspaceError::RunningApplicationsNotAnArray),
    };
    let ghost items = match json_view(*v) {
        JsonModel::Array(items) => items,
        _ => Seq::empty(),
    };
    let mut apps: Vec<RunningApp> = Vec::new();
    let mut i: usize = 0;
    while i < entries.len()
        invariant
            entries@.len() == items.len(),
            forall|k: int| 0 <= k < items.len() ==> json_view(#[trigger] entries@[k]) == items[k],
            i <= items.len(),
            apps@.map_values(|a: RunningApp| a@) == running_apps_of(items.take(i as int)),
        decreases entries@.len() - i,
    {
        let ghost before = apps@;
        assert(items.take(i + 1).drop_last() =~= items.take(i as int));
        assert(json_view(entries@[i as int]) == items[i as int]);
        match running_app_from_json(&entries[i]) {
            Some(a) => {
                apps.push(a);
                assert(apps@.map_values(|a: RunningApp| a@) =~= before.map_values(
                    |a: RunningApp| a@,
                ).push(a@));
            },
            None => {},
        }
        i = i + 1;
    }
    assert(items.take(i as int) =~= items);
    Ok(apps)
}

/// Reads the frontmost application out of a parsed reply; missing members
/// are taken as empty or zero.
pub fn frontmost_application_from_json(v: &serde_json::Value) -> (r: FrontmostApp)
    ensures
        r@ == frontmost_app_of(json_view(*v)),
{
    let process_id: u32 = match value_get(v, "processIdentifier") {
        Some(m) => match value_as_u64(m) {
            Some(n) => (n % 0x1_0000_0000) as u32,
            None => 0,
        },
        None => 0,
    };
    FrontmostApp {
        bundle_identifier: string_member(v, "bundleIdentifier"),
        localized_name: string_member(v, "localizedName"),
        executable_path: string_member(v, "executableURL"),
        process_id,
        launch_date: string_member(v, "launchDate"),
    }
}

/// A call to make on the native workspace service, with its checked argument.
pub enum NativeCall {
    OpenFile(NativeString),
    OpenUrl(NativeString),
    LaunchApplication(NativeString),
    GetApplicationPath(NativeString),
    GetRunningApplications,
    HideApplication(NativeString),
    UnhideApplication(NativeString),
    GetFrontmostApplication,
}

/// Entry point to the workspace operations.
///
/// Each operation is in two steps. A method named after the operation checks
/// the caller's arguments and describes the native call to make; nothing
/// reaches the native side unless it returns `Ok`. Where the native call hands
/// back a string, a `decode_` method turns the copied bytes (`None` for a null
/// pointer) into the operation's result. Operations that return a boolean
/// report the native boolean as it is.
pub struct NSWorkspace;

/// The checked argument of an operation, or `err` where it holds a terminator byte.
fn checked(arg: &str, err: WorkspaceError) -> (r: Result<NativeString, WorkspaceError>)
    ensures
        has_terminator(arg@) ==> r == Err::<NativeString, WorkspaceError>(err),
        !has_terminator(arg@) ==> (r matches Ok(n) && n@ == arg@),
{
    match NativeString::new(arg) {
        Some(n) => Ok(n),
        None => Err(err),
    }
}

impl NSWorkspace {
    pub fn new() -> (r: NSWorkspace)
        ensures
            r == NSWorkspace,
    {
        NSWorkspace
    }

    /// Opens a file with its default application.
    pub fn open_file(&self, file_path: &str) -> (r: Result<NativeCall, WorkspaceError>)
        ensures
            has_terminator(file_path@) ==> r == Err::<NativeCall, WorkspaceError>(
                WorkspaceError::InvalidFilePath,
            ),
            !has_terminator(file_path@) ==> (r matches Ok(NativeCall::OpenFile(n)) && n@ == file_path@),
    {
        match checked(file_path, WorkspaceError::InvalidFilePath) {
            Ok(n) => Ok(NativeCall::OpenFile(n)),
            Err(e) => Err(e),
        }
    }

    /// Opens a URL with the default browser.
    pub fn open_url(&self, url: &str) -> (r: Result<NativeCall, WorkspaceError>)
        ensures
            has_terminator(url@) ==> r == Err::<NativeCall, WorkspaceError>(
                WorkspaceError::InvalidUrl,
            ),
            !has_terminator(url@) ==> (r matches Ok(NativeCall::OpenUrl(n)) && n@ == url@),
    {
        match checked(url, WorkspaceError::InvalidUrl) {
            Ok(n) => Ok(NativeCall::OpenUrl(n)),
            Err(e) => Err(e),
        }
    }

    /// Launches an application by bundle identifier.
    pub fn launch_application(&self, bundle_id: &str) -> (r: Result<NativeCall, WorkspaceError>)
        ensures
            has_terminator(bundle_id@) ==> r == Err::<NativeCall, WorkspaceError>(
                WorkspaceError::InvalidBundleIdentifier,
            ),
            !has_terminator(bundle_id@) ==> (r matches Ok(NativeCall::LaunchApplication(n)) && n@ == bundle_id@),
    {
        match checked(bundle_id, WorkspaceError::InvalidBundleIdentifier) {
            Ok(n) => Ok(NativeCall::LaunchApplication(n)),
            Err(e) => Err(e),
        }
    }

    /// Looks up the path of an application by bundle identifier; see
    /// `decode_application_path` for the reply.
    pub fn get_application_path(&self, bundle_id: &str) -> (r: Result<NativeCall, WorkspaceError>)
        ensures
            has_terminator(bundle_id@) ==> r == Err::<NativeCall, WorkspaceError>(
                WorkspaceError::InvalidBundleIdentifier,
            ),
            !has_terminator(bundle_id@) ==> (r matches Ok(NativeCall::GetApplicationPath(n)) && n@ == bundle_id@),
    {
        match checked(bundle_id, WorkspaceError::InvalidBundleIdentifier) {
            Ok(n) => Ok(NativeCall::GetApplicationPath(n)),
            Err(e) => Err(e),
        }
    }

    /// Hides an application by bundle identifier.
    pub fn hide_application(&self, bundle_id: &str) -> (r: Result<NativeCall, WorkspaceError>)
        ensures
            has_terminator(bundle_id@) ==> r == Err::<NativeCall, WorkspaceError>(
                WorkspaceError::InvalidBundleIdentifier,
            ),
            !has_terminator(bundle_id@) ==> (r matches Ok(NativeCall::HideApplication(n)) && n@ == bundle_id@),
    {
        match checked(bundle_id, WorkspaceError::InvalidBundleIdentifier) {
            Ok(n) => Ok(NativeCall::HideApplication(n)),
            Err(e) => Err(e),
        }
    }

    /// Unhides an application by bundle identifier.
    pub fn unhide_application(&self, bundle_id: &str) -> (r: Result<NativeCall, WorkspaceError>)
        ensures
            has_terminator(bundle_id@) ==> r == Err::<NativeCall, WorkspaceError>(
                WorkspaceError::InvalidBundleIdentifier,
            ),
            !has_terminator(bundle_id@) ==> (r matches Ok(NativeCall::UnhideApplication(n)) && n@ == bundle_id@),
    {
        match checked(bundle_id, WorkspaceError::InvalidBundleIdentifier) {
            Ok(n) => Ok(NativeCall::UnhideApplication(n)),
            Err(e) => Err(e),
        }
    }

    /// Lists the running applications; see `decode_running_applications` for the reply.
    pub fn get_running_applications(&self) -> (r: NativeCall)
        ensures
            r is GetRunningApplications,
    {
        NativeCall::GetRunningApplications
    }

    /// Looks up the frontmost application; see `decode_frontmost_application`
    /// for the reply.
    pub fn get_frontmost_application(&self) -> (r: NativeCall)
        ensures
            r is GetFrontmostApplication,
    {
        NativeCall::GetFrontmostApplication
    }

    /// The application path from the native reply: absent for a null reply,
    /// never an error. The path is the text of the bytes before the first
    /// zero byte, and holds no NUL character.
    pub fn decode_application_path(&self, reply: Option<Vec<u8>>) -> (r: Option<String>)
        ensures
            match reply {
                None => r is None,
                Some(b) => r matches Some(p) && p@ == lossy_utf8(before_terminator(b@)),
            },
            r matches Some(p) ==> !p@.contains('\0'),
    {
        match reply {
            None => None,
            Some(b) => {
                let path = bytes_before_terminator(b.as_slice());
                Some(text_of_bytes(path.as_slice()))
            },
        }
    }

    /// The running applications from the native reply.
    pub fn decode_running_applications(&self, reply: Option<Vec<u8>>) -> (r: Result<
        Vec<RunningApp>,
        WorkspaceError,
    >)
        ensures
            match reply {
                None => r == Err::<Vec<RunningApp>, WorkspaceError>(
                    WorkspaceError::NoRunningApplications,
                ),
                Some(b) => match parsed_json(lossy_utf8(b@)) {
                    None => r == Err::<Vec<RunningApp>, WorkspaceError>(
                        WorkspaceError::MalformedRunningApplications,
                    ),
                    Some(JsonModel::Array(items)) => r matches Ok(apps) && apps@.map_values(
                        |a: RunningApp| a@,
                    ) == running_apps_of(items),
                    Some(_) => r == Err::<Vec<RunningApp>, WorkspaceError>(
                        WorkspaceError::RunningApplicationsNotAnArray,
                    ),
                },
            },
    {
        let bytes = match reply {
            None => return Err(WorkspaceError::NoRunningApplications),
            Some(b) => b,
        };
        let text = text_of_bytes(bytes.as_slice());
        match parse_value(text.as_str()) {
            Ok(v) => running_applications_from_json(&v),
            Err(_) => Err(WorkspaceError::MalformedRunningApplications),
        }
    }

    /// The frontmost application from the native reply: absent for a null
    /// reply; missing members taken as empty or zero.
    pub fn decode_frontmost_application(&self, reply: Option<Vec<u8>>) -> (r: Result<
        Option<FrontmostApp>,
        WorkspaceError,
    >)
        ensures
            match reply {
                None => r == Ok::<Option<FrontmostApp>, WorkspaceError>(None),
                Some(b) => match parsed_json(lossy_utf8(b@)) {
                    None => r == Err::<Option<FrontmostApp>, WorkspaceError>(
                        WorkspaceError::MalformedFrontmostApplication,
                    ),
                    Some(j) => r matches Ok(Some(app)) && app@ == frontmost_app_of(j),
                },
            },
    {
        let bytes = match reply {
            None => return Ok(None),
            Some(b) => b,
        };
        let text = text_of_bytes(bytes.as_slice());
        match parse_value(text.as_str()) {
            Ok(v) => Ok(Some(frontmost_application_from_json(&v))),
            Err(_) => Err(WorkspaceError::MalformedFrontmostApplication),
        }
    }
}

} // verus!
