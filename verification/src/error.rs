//! Error taxonomy of texture registration and texture operations.
use vstd::prelude::*;

use crate::text::append_str;
use jni::errors::Error as JniError;

verus! {

/// Declares `JniError` to Verus; values of it are carried, not read.
#[verifier::external_type_specification]
#[verifier::external_body]
pub struct ExJniError(JniError);

pub type Result<T> = std::result::Result<T, Error>;

/// Distinguishes registration failure modes for clearer error handling.
#[derive(Copy, Clone, Debug, PartialEq, Eq, Structural)]
pub enum RegistrationFailureMode {
    /// Called from wrong thread (not Platform Thread)
    InvalidThread,
    /// Engine handle is invalid or engine was already destroyed
    InvalidHandle,
    /// Native registration failed (e.g., registerTexture: returned error)
    NativeRegistrationFailed,
    /// Duplicate registration attempt (platform-specific)
    DuplicateRegistration,
}

/// The kinds of failure that the engine context distinguishes.
#[derive(Copy, Clone, Debug, PartialEq, Eq, Structural)]
pub enum EngineContextErrorKind {
    /// The engine context was used from a thread other than the platform thread.
    InvalidThread,
    /// The engine handle does not name a live engine.
    InvalidHandle,
    /// Any other engine-context failure.
    Other,
}

/// An engine-context failure: its kind and its rendered description.
#[derive(Clone, Debug)]
pub struct EngineContextError {
    pub kind: EngineContextErrorKind,
    pub description: String,
}

#[derive(Debug)]
pub enum Error {
    /// Engine for this handle does not exist.
    EngineContextError(EngineContextError),

    /// Texture registration failed with specific failure mode.
    TextureRegistrationFailed { mode: RegistrationFailureMode, detail: Option<String> },

    /// Texture operation failed (e.g., mark_frame_available on destroyed texture)
    TextureOperationFailed { detail: Option<String> },

    /// A JNI call failed.
    JNIError(JniError),
}

/// The detail text that `Error::invalid_thread` attaches.
pub open spec fn invalid_thread_detail() -> Seq<char> {
    "Texture registration must happen on Platform Thread"@
}

/// The detail text that `Error::invalid_handle` attaches.
pub open spec fn invalid_handle_detail() -> Seq<char> {
    "Engine handle is invalid or engine was destroyed"@
}

/// The detail text that `Error::duplicate_registration` attaches.
pub open spec fn duplicate_registration_detail() -> Seq<char> {
    "Duplicate texture registration for same source"@
}

/// The view of an optional detail string.
pub open spec fn detail_view(detail: Option<String>) -> Option<Seq<char>> {
    match detail {
        Some(d) => Some(d@),
        None => None,
    }
}

/// `Some(mode)` exactly for registration failures.
pub open spec fn failure_mode_of(e: Error) -> Option<RegistrationFailureMode> {
    match e {
        Error::TextureRegistrationFailed { mode, .. } => Some(mode),
        _ => None,
    }
}

/// True when `e` is a registration failure of `mode` whose detail is `detail`.
pub open spec fn is_registration_failure(
    e: Error,
    mode: RegistrationFailureMode,
    detail: Option<Seq<char>>,
) -> bool {
    &&& e matches Error::TextureRegistrationFailed { mode: m, detail: d }
    &&& m == mode
    &&& detail_view(d) == detail
}

/// The name of a failure mode as `{:?}` renders it.
pub open spec fn mode_name(mode: RegistrationFailureMode) -> Seq<char> {
    match mode {
        RegistrationFailureMode::InvalidThread => "InvalidThread"@,
        RegistrationFailureMode::InvalidHandle => "InvalidHandle"@,
        RegistrationFailureMode::NativeRegistrationFailed => "NativeRegistrationFailed"@,
        RegistrationFailureMode::DuplicateRegistration => "DuplicateRegistration"@,
    }
}

/// The text appended for an optional detail: ` (detail)` or nothing.
pub open spec fn detail_suffix(detail: Option<String>) -> Seq<char> {
    match detail {
        Some(d) => " ("@ + d@ + ")"@,
        None => Seq::empty(),
    }
}

/// The message of an error, for every variant but `JNIError`, whose text
/// comes from the JNI crate.
pub open spec fn error_message(e: Error) -> Seq<char> {
    match e {
        Error::EngineContextError(c) => c.description@,
        Error::TextureRegistrationFailed { mode, detail } =>
            "texture registration failed: "@ + mode_name(mode) + detail_suffix(detail),
        Error::TextureOperationFailed { detail } =>
            "texture operation failed"@ + detail_suffix(detail),
        Error::JNIError(_) => Seq::empty(),
    }
}

fn string_from(text: &str) -> (s: String)
    ensures
        s@ == text@,
{
    String::from_str(text)
}

fn mode_text(mode: RegistrationFailureMode) -> (s: &'static str)
    ensures
        s@ == mode_name(mode),
{
    match mode {
        RegistrationFailureMode::InvalidThread => "InvalidThread",
        RegistrationFailureMode::InvalidHandle => "InvalidHandle",
        RegistrationFailureMode::NativeRegistrationFailed => "NativeRegistrationFailed",
        RegistrationFailureMode::DuplicateRegistration => "DuplicateRegistration",
    }
}

fn append_detail(out: &mut String, detail: &Option<String>)
    ensures
        final(out)@ == old(out)@ + detail_suffix(*detail),
{
    match detail {
        Some(d) => {
            append_str(out, " (");
            append_str(out, d.as_str());
            append_str(out, ")");
            assert(old(out)@ + " ("@ + d@ + ")"@ =~= old(out)@ + (" ("@ + d@ + ")"@));
        },
        None => {
            assert(old(out)@ + Seq::<char>::empty() =~= old(out)@);
        },
    }
}

/// The rendered text of a JNI error (`Display` of `JniError`).
#[verifier::external_body]
fn jni_error_text(err: &JniError) -> String {
    err.to_string()
}

impl Error {
    /// Helper to create InvalidThread error
    pub fn invalid_thread() -> (e: Self)
        ensures
            is_registration_failure(
                e,
                RegistrationFailureMode::InvalidThread,
                Some(invalid_thread_detail()),
            ),
    {
        Error::TextureRegistrationFailed {
            mode: RegistrationFailureMode::InvalidThread,
            detail: Some(string_from("Texture registration must happen on Platform Thread")),
        }
    }

    /// Helper to create InvalidHandle error
    pub fn invalid_handle() -> (e: Self)
        ensures
            is_registration_failure(
                e,
                RegistrationFailureMode::InvalidHandle,
                Some(invalid_handle_detail()),
            ),
    {
        Error::TextureRegistrationFailed {
            mode: RegistrationFailureMode::InvalidHandle,
            detail: Some(string_from("Engine handle is invalid or engine was destroyed")),
        }
    }

    /// Helper to create NativeRegistrationFailed error
    pub fn native_registration_failed(detail: Option<String>) -> (e: Self)
        ensures
            e == (Error::TextureRegistrationFailed {
                mode: RegistrationFailureMode::NativeRegistrationFailed,
                detail,
            }),
    {
        Error::TextureRegistrationFailed {
            mode: RegistrationFailureMode::NativeRegistrationFailed,
            detail,
        }
    }

    /// Helper to create DuplicateRegistration error
    pub fn duplicate_registration() -> (e: Self)
        ensures
            is_registration_failure(
                e,
                RegistrationFailureMode::DuplicateRegistration,
                Some(duplicate_registration_detail()),
            ),
    {
        Error::TextureRegistrationFailed {
            mode: RegistrationFailureMode::DuplicateRegistration,
            detail: Some(string_from("Duplicate texture registration for same source")),
        }
    }

    /// Helper to create TextureOperationFailed error
    pub fn texture_operation_failed(detail: String) -> (e: Self)
        ensures
            e == (Error::TextureOperationFailed { detail: Some(detail) }),
    {
        Error::TextureOperationFailed { detail: Some(detail) }
    }

    /// Returns the failure mode if this is a TextureRegistrationFailed error
    pub fn registration_failure_mode(&self) -> (m: Option<RegistrationFailureMode>)
        ensures
            m == failure_mode_of(*self),
    {
        match self {
            Error::TextureRegistrationFailed { mode, .. } => Some(*mode),
            _ => None,
        }
    }

    /// The error's message (what `Display` renders).
    pub fn to_string(&self) -> (s: String)
        ensures
            !(self is JNIError) ==> s@ == error_message(*self),
    {
        match self {
            Error::EngineContextError(c) => c.description.clone(),
            Error::TextureRegistrationFailed { mode, detail } => {
                let mut s = string_from("texture registration failed: ");
                append_str(&mut s, mode_text(*mode));
                append_detail(&mut s, detail);
                s
            },
            Error::TextureOperationFailed { detail } => {
                let mut s = string_from("texture operation failed");
                append_detail(&mut s, detail);
                s
            },
            Error::JNIError(e) => jni_error_text(e),
        }
    }
}

/// A registration failure reports its own mode, and no other error
/// reports one: what callers branch on without matching message text.
pub proof fn law_failure_mode_identifies_registration_failures(
    e: Error,
    mode: RegistrationFailureMode,
    detail: Option<Seq<char>>,
)
    ensures
        is_registration_failure(e, mode, detail) ==> failure_mode_of(e) == Some(mode),
        !(e is TextureRegistrationFailed) ==> failure_mode_of(e) == None::<RegistrationFailureMode>,
{
}

/// Maps an engine-context failure to a texture error.
pub fn from_engine_context(err: EngineContextError) -> (e: Error)
    ensures
        match err.kind {
            EngineContextErrorKind::InvalidThread => is_registration_failure(
                e,
                RegistrationFailureMode::InvalidThread,
                Some(invalid_thread_detail()),
            ),
            EngineContextErrorKind::InvalidHandle => is_registration_failure(
                e,
                RegistrationFailureMode::InvalidHandle,
                Some(invalid_handle_detail()),
            ),
            EngineContextErrorKind::Other => e == Error::EngineContextError(err),
        },
{
    match err.kind {
        EngineContextErrorKind::InvalidThread => Error::invalid_thread(),
        EngineContextErrorKind::InvalidHandle => Error::invalid_handle(),
        EngineContextErrorKind::Other => Error::EngineContextError(err),
    }
}

impl From<JniError> for Error {
    fn from(err: JniError) -> (e: Self) {
        Error::JNIError(err)
    }
}

impl vstd::std_specs::convert::FromSpecImpl<JniError> for Error {
    open spec fn obeys_from_spec() -> bool {
        true
    }

    open spec fn from_spec(v: JniError) -> Self {
        Error::JNIError(v)
    }
}

} // verus!
