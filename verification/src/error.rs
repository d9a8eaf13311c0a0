//! Error types of the library, the service and the terminal interface, and
//! the text each of them reads as.
use vstd::prelude::*;


verus! {

/// `std::io::Error`, carried through unchanged.
#[verifier::external_type_specification]
#[verifier::external_body]
pub struct ExIoError(std::io::Error);

/// `serde_json::Error`, carried through unchanged.
#[verifier::external_type_specification]
#[verifier::external_body]
pub struct ExJsonError(serde_json::Error);

/// What `{:?}` prints for a list of strings (`Debug` of `Vec<String>`).
pub uninterp spec fn debug_list_text(items: Seq<Seq<char>>) -> Seq<char>;

/// `Debug` of `Vec<String>` (std). Claimed: the text depends on the
/// characters of the items alone; what it is, is left to `debug_list_text`.
#[verifier::external_body]
fn debug_list(items: &Vec<String>) -> (r: String)
    ensures
        r@ == debug_list_text(crate::text::views(items@)),
{
    format!("{:?}", items)
}

/// `Display` of `std::io::Error` (std). Nothing is claimed of the text.
#[verifier::external_body]
fn io_error_text(e: &std::io::Error) -> String {
    format!("{}", e)
}

/// `Display` of `serde_json::Error`. Nothing is claimed of the text.
#[verifier::external_body]
fn json_error_text(e: &serde_json::Error) -> String {
    format!("{}", e)
}

pub(crate) fn prefixed(prefix: &str, rest: &str) -> (r: String)
    ensures
        r@ == prefix@ + rest@,
{
    let mut s = String::from_str(prefix);
    s.append(rest);
    s
}

/// What kind of I/O failure an error was, as far as the messages tell
/// kinds apart (`std::io::ErrorKind`, read where the error is caught).
#[derive(Debug, Clone, Copy, PartialEq, Eq, Structural)]
pub enum IoKind {
    PermissionDenied,
    Other,
}

/// Errors of configuration handling and file-based IPC. An I/O error
/// carries, beside the error itself, its kind.
#[derive(Debug)]
pub enum SpinCtrlError {
    Io(std::io::Error, IoKind),
    Json(serde_json::Error),
    ConfigValidation(Vec<String>),
    PermissionDenied(String),
    ServiceComm(String),
    Hardware(String),
    InvalidValue(String),
    FileNotFound(String),
    DirectoryCreation(String),
}

pub type Result<T> = std::result::Result<T, SpinCtrlError>;

/// The text of an error whose payload is a string or a list of strings;
/// `None` for the variants that carry an outside error.
pub open spec fn spin_error_text(e: SpinCtrlError) -> Option<Seq<char>> {
    match e {
        SpinCtrlError::Io(_, _) => None,
        SpinCtrlError::Json(_) => None,
        SpinCtrlError::ConfigValidation(v) => Some("Configuration validation error: "@ + debug_list_text(crate::text::views(v@))),
        SpinCtrlError::PermissionDenied(s) => Some("Permission denied: "@ + s@),
        SpinCtrlError::ServiceComm(s) => Some("Service communication error: "@ + s@),
        SpinCtrlError::Hardware(s) => Some("Hardware operation failed: "@ + s@),
        SpinCtrlError::InvalidValue(s) => Some("Invalid value: "@ + s@),
        SpinCtrlError::FileNotFound(s) => Some("File not found: "@ + s@),
        SpinCtrlError::DirectoryCreation(s) => Some("Directory creation failed: "@ + s@),
    }
}

impl SpinCtrlError {
    /// The error's message (what `Display` prints).
    pub fn to_string(&self) -> (r: String)
        ensures
            spin_error_text(*self) matches Some(t) ==> r@ == t,
            self is Io ==> "IO error: "@.is_prefix_of(r@),
            self is Json ==> "JSON parsing error: "@.is_prefix_of(r@),
    {
        match self {
            SpinCtrlError::Io(e, _) => {
                let t = io_error_text(e);
                let r = prefixed("IO error: ", t.as_str());
                assert("IO error: "@.is_prefix_of(r@)) by {
                    assert(r@.subrange(0, "IO error: "@.len() as int) =~= "IO error: "@);
                }
                r
            },
            SpinCtrlError::Json(e) => {
                let t = json_error_text(e);
                let r = prefixed("JSON parsing error: ", t.as_str());
                assert("JSON parsing error: "@.is_prefix_of(r@)) by {
                    assert(r@.subrange(0, "JSON parsing error: "@.len() as int) =~= "JSON parsing error: "@);
                }
                r
            },
            SpinCtrlError::ConfigValidation(v) => {
                let t = debug_list(v);
                prefixed("Configuration validation error: ", t.as_str())
            },
            SpinCtrlError::PermissionDenied(s) => prefixed("Permission denied: ", s.as_str()),
            SpinCtrlError::ServiceComm(s) => prefixed("Service communication error: ", s.as_str()),
            SpinCtrlError::Hardware(s) => prefixed("Hardware operation failed: ", s.as_str()),
            SpinCtrlError::InvalidValue(s) => prefixed("Invalid value: ", s.as_str()),
            SpinCtrlError::FileNotFound(s) => prefixed("File not found: ", s.as_str()),
            SpinCtrlError::DirectoryCreation(s) => prefixed("Directory creation failed: ", s.as_str()),
        }
    }
}

impl From<serde_json::Error> for SpinCtrlError {
    fn from(e: serde_json::Error) -> (r: Self)
        ensures
            r == SpinCtrlError::Json(e),
    {
        SpinCtrlError::Json(e)
    }
}

impl vstd::std_specs::convert::FromSpecImpl<serde_json::Error> for SpinCtrlError {
    open spec fn obeys_from_spec() -> bool {
        true
    }

    open spec fn from_spec(e: serde_json::Error) -> Self {
        SpinCtrlError::Json(e)
    }
}

/// Errors of the service.
#[derive(Debug)]
pub enum ServiceError {
    Io(std::io::Error),
    Shared(SpinCtrlError),
    Json(serde_json::Error),
    Hardware(String),
    Config(String),
}

pub type ServiceResult<T> = std::result::Result<T, ServiceError>;

impl ServiceError {
    /// The error's message (what `Display` prints).
    pub fn to_string(&self) -> (r: String)
        ensures
            self matches ServiceError::Hardware(s) ==> r@ == "Hardware operation failed: "@ + s@,
            self matches ServiceError::Config(s) ==> r@ == "Configuration error: "@ + s@,
            self matches ServiceError::Shared(e) ==> (spin_error_text(*e) matches Some(t) ==> r@ == "Shared library error: "@ + t),
            self is Io ==> "IO error: "@.is_prefix_of(r@),
            self is Json ==> "JSON error: "@.is_prefix_of(r@),
    {
        match self {
            ServiceError::Io(e) => {
                let t = io_error_text(e);
                let r = prefixed("IO error: ", t.as_str());
                assert("IO error: "@.is_prefix_of(r@)) by {
                    assert(r@.subrange(0, "IO error: "@.len() as int) =~= "IO error: "@);
                }
                r
            },
            ServiceError::Shared(e) => {
                let t = e.to_string();
                prefixed("Shared library error: ", t.as_str())
            },
            ServiceError::Json(e) => {
                let t = json_error_text(e);
                let r = prefixed("JSON error: ", t.as_str());
                assert("JSON error: "@.is_prefix_of(r@)) by {
                    assert(r@.subrange(0, "JSON error: "@.len() as int) =~= "JSON error: "@);
                }
                r
            },
            ServiceError::Hardware(s) => prefixed("Hardware operation failed: ", s.as_str()),
            ServiceError::Config(s) => prefixed("Configuration error: ", s.as_str()),
        }
    }
}

impl From<std::io::Error> for ServiceError {
    fn from(e: std::io::Error) -> (r: Self)
        ensures
            r == ServiceError::Io(e),
    {
        ServiceError::Io(e)
    }
}

impl vstd::std_specs::convert::FromSpecImpl<std::io::Error> for ServiceError {
    open spec fn obeys_from_spec() -> bool {
        true
    }

    open spec fn from_spec(e: std::io::Error) -> Self {
        ServiceError::Io(e)
    }
}

impl From<serde_json::Error> for ServiceError {
    fn from(e: serde_json::Error) -> (r: Self)
        ensures
            r == ServiceError::Json(e),
    {
        ServiceError::Json(e)
    }
}

impl vstd::std_specs::convert::FromSpecImpl<serde_json::Error> for ServiceError {
    open spec fn obeys_from_spec() -> bool {
        true
    }

    open spec fn from_spec(e: serde_json::Error) -> Self {
        ServiceError::Json(e)
    }
}

impl From<SpinCtrlError> for ServiceError {
    fn from(e: SpinCtrlError) -> (r: Self)
        ensures
            r == ServiceError::Shared(e),
    {
        ServiceError::Shared(e)
    }
}

impl vstd::std_specs::convert::FromSpecImpl<SpinCtrlError> for ServiceError {
    open spec fn obeys_from_spec() -> bool {
        true
    }

    open spec fn from_spec(e: SpinCtrlError) -> Self {
        ServiceError::Shared(e)
    }
}

/// Errors of the terminal interface.
#[derive(Debug)]
pub enum TuiError {
    Io(std::io::Error),
    Shared(SpinCtrlError),
}

impl TuiError {
    /// The error's message (what `Display` prints).
    pub fn to_string(&self) -> (r: String)
        ensures
            self matches TuiError::Shared(e) ==> (spin_error_text(*e) matches Some(t) ==> r@ == "Shared library error: "@ + t),
            self is Io ==> "IO error: "@.is_prefix_of(r@),
    {
        match self {
            TuiError::Io(e) => {
                let t = io_error_text(e);
                let r = prefixed("IO error: ", t.as_str());
                assert("IO error: "@.is_prefix_of(r@)) by {
                    assert(r@.subrange(0, "IO error: "@.len() as int) =~= "IO error: "@);
                }
                r
            },
            TuiError::Shared(e) => {
                let t = e.to_string();
                prefixed("Shared library error: ", t.as_str())
            },
        }
    }
}

impl From<std::io::Error> for TuiError {
    fn from(e: std::io::Error) -> (r: Self)
        ensures
            r == TuiError::Io(e),
    {
        TuiError::Io(e)
    }
}

impl vstd::std_specs::convert::FromSpecImpl<std::io::Error> for TuiError {
    open spec fn obeys_from_spec() -> bool {
        true
    }

    open spec fn from_spec(e: std::io::Error) -> Self {
        TuiError::Io(e)
    }
}

impl From<SpinCtrlError> for TuiError {
    fn from(e: SpinCtrlError) -> (r: Self)
        ensures
            r == TuiError::Shared(e),
    {
        TuiError::Shared(e)
    }
}

impl vstd::std_specs::convert::FromSpecImpl<SpinCtrlError> for TuiError {
    open spec fn obeys_from_spec() -> bool {
        true
    }

    open spec fn from_spec(e: SpinCtrlError) -> Self {
        TuiError::Shared(e)
    }
}

/// The guidance shown for permission problems.
pub open spec fn group_guidance() -> Seq<char> {
    "Add yourself to the 'spinctrl' group and re-login: sudo usermod -a -G spinctrl $USER"@
}

/// The user-facing message of an error, where it does not rest on the text
/// of an outside error: permission problems carry the group guidance.
pub open spec fn explanation(e: SpinCtrlError) -> Option<Seq<char>> {
    match e {
        SpinCtrlError::PermissionDenied(path) => Some("Permission denied accessing "@ + path@ + ". "@ + group_guidance()),
        SpinCtrlError::Io(_, IoKind::PermissionDenied) => Some("Permission denied (EACCES). "@ + group_guidance()),
        SpinCtrlError::Io(_, IoKind::Other) => None,
        SpinCtrlError::Json(_) => None,
        _ => spin_error_text(e),
    }
}

/// Translate an error into a user-facing message: permission errors get
/// guidance about joining the `spinctrl` group; every other error reads as
/// its message.
pub fn explain_error(e: &SpinCtrlError) -> (r: String)
    ensures
        e matches SpinCtrlError::PermissionDenied(path) ==> r@ == "Permission denied accessing "@ + path@ + ". "@ + group_guidance(),
        !(e is PermissionDenied) && !(e is Io) && !(e is Json) ==> (spin_error_text(*e) matches Some(t) && r@ == t),
        e is Json ==> "JSON parsing error: "@.is_prefix_of(r@),
        e matches SpinCtrlError::Io(_, IoKind::PermissionDenied) ==> r@ == "Permission denied (EACCES). "@ + group_guidance(),
        e matches SpinCtrlError::Io(_, IoKind::Other) ==> "IO error: "@.is_prefix_of(r@),
        explanation(*e) matches Some(t) ==> r@ == t,
{
    match e {
        SpinCtrlError::PermissionDenied(path) => {
            let mut s = prefixed("Permission denied accessing ", path.as_str());
            s.append(". ");
            s.append("Add yourself to the 'spinctrl' group and re-login: sudo usermod -a -G spinctrl $USER");
            s
        },
        SpinCtrlError::Io(_, IoKind::PermissionDenied) => {
            prefixed("Permission denied (EACCES). ", "Add yourself to the 'spinctrl' group and re-login: sudo usermod -a -G spinctrl $USER")
        },
        SpinCtrlError::Io(_, IoKind::Other) => e.to_string(),
        _ => e.to_string(),
    }
}

} // verus!
