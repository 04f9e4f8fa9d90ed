use vstd::prelude::*;
use crate::text::{append_str, push_char};

verus! {

/// The error every command reports. It carries a kind, which the frontend
/// branches on, and a message for display.
#[derive(Debug, Clone, PartialEq, Eq)]
pub enum AppError {
    Db(String),
    Io(String),
    Serde(String),
    Network(String),
    NotFound(String),
    Other(String),
}

pub type AppResult<T> = Result<T, AppError>;

impl AppError {
    /// The kind tag of each variant.
    pub open spec fn kind_spec(&self) -> Seq<char> {
        match self {
            AppError::Db(_) => "db"@,
            AppError::Io(_) => "io"@,
            AppError::Serde(_) => "serde"@,
            AppError::Network(_) => "network"@,
            AppError::NotFound(_) => "not_found"@,
            AppError::Other(_) => "other"@,
        }
    }

    /// The message every variant carries.
    pub open spec fn message_spec(&self) -> Seq<char> {
        match self {
            AppError::Db(m) => m@,
            AppError::Io(m) => m@,
            AppError::Serde(m) => m@,
            AppError::Network(m) => m@,
            AppError::NotFound(m) => m@,
            AppError::Other(m) => m@,
        }
    }

    /// The text shown for the error: `[kind] message`.
    pub open spec fn display_spec(&self) -> Seq<char> {
        seq!['['] + self.kind_spec() + seq![']', ' '] + self.message_spec()
    }

    pub fn kind(&self) -> (k: &'static str)
        ensures
            k@ == self.kind_spec(),
    {
        match self {
            AppError::Db(_) => "db",
            AppError::Io(_) => "io",
            AppError::Serde(_) => "serde",
            AppError::Network(_) => "network",
            AppError::NotFound(_) => "not_found",
            AppError::Other(_) => "other",
        }
    }

    pub fn message(&self) -> (m: &str)
        ensures
            m@ == self.message_spec(),
    {
        match self {
            AppError::Db(m) => m.as_str(),
            AppError::Io(m) => m.as_str(),
            AppError::Serde(m) => m.as_str(),
            AppError::Network(m) => m.as_str(),
            AppError::NotFound(m) => m.as_str(),
            AppError::Other(m) => m.as_str(),
        }
    }

    /// The display text `[kind] message`.
    pub fn display_text(&self) -> (s: String)
        ensures
            s@ == self.display_spec(),
    {
        let mut s = String::new();
        push_char(&mut s, '[');
        append_str(&mut s, self.kind());
        push_char(&mut s, ']');
        push_char(&mut s, ' ');
        append_str(&mut s, self.message());
        s
    }
}

impl From<String> for AppError {
    /// A message on its own is an error of the `other` kind.
    fn from(msg: String) -> (e: AppError) {
        AppError::Other(msg)
    }
}

impl vstd::std_specs::convert::FromSpecImpl<String> for AppError {
    open spec fn obeys_from_spec() -> bool {
        true
    }

    open spec fn from_spec(msg: String) -> AppError {
        AppError::Other(msg)
    }
}

impl From<&str> for AppError {
    /// A message on its own is an error of the `other` kind.
    fn from(msg: &str) -> (e: AppError) {
        AppError::Other(msg.to_string())
    }
}

impl vstd::std_specs::convert::FromSpecImpl<&str> for AppError {
    /// Verus tells two `String`s apart by more than their text, so the error
    /// made from a text cannot be named as one value; what it holds is
    /// tested, and `law_message_converts_to_other` states it for `String`.
    open spec fn obeys_from_spec() -> bool {
        false
    }

    open spec fn from_spec(msg: &str) -> AppError {
        AppError::Other(choose|s: String| s@ == msg@)
    }
}

/// A bare message converts to an error of the `other` kind that keeps the
/// message, shown as `[other] message`.
pub proof fn law_message_converts_to_other(msg: String)
    ensures
        <AppError as vstd::std_specs::convert::FromSpec<String>>::from_spec(msg) == AppError::Other(
            msg,
        ),
        AppError::Other(msg).kind_spec() == "other"@,
        AppError::Other(msg).message_spec() == msg@,
        AppError::Other(msg).display_spec() == "[other] "@ + msg@,
{
    reveal_strlit("other");
    reveal_strlit("[other] ");
    assert(AppError::Other(msg).display_spec() =~= "[other] "@ + msg@);
}

} // verus!
