//! The failures the library tells apart.

use vstd::prelude::*;
use vstd::string::StringExecFns;

verus! {

/// Why a tool call's arguments do not fit the tool's schema.
#[derive(Debug, PartialEq, Eq)]
pub enum DecodeFailure {
    /// The payload is not a JSON document.
    InvalidJson,
    /// The payload is a JSON document, but not an object.
    NotAnObject,
    /// The named property is required and the object lacks it.
    MissingProperty(String),
    /// The named property's value is not of the declared type.
    WrongType(String),
}

/// The mathematical value of a [`DecodeFailure`].
pub enum DecodeFailureView {
    InvalidJson,
    NotAnObject,
    MissingProperty(Seq<char>),
    WrongType(Seq<char>),
}

impl View for DecodeFailure {
    type V = DecodeFailureView;

    open spec fn view(&self) -> DecodeFailureView {
        match self {
            DecodeFailure::InvalidJson => DecodeFailureView::InvalidJson,
            DecodeFailure::NotAnObject => DecodeFailureView::NotAnObject,
            DecodeFailure::MissingProperty(name) => DecodeFailureView::MissingProperty(name@),
            DecodeFailure::WrongType(name) => DecodeFailureView::WrongType(name@),
        }
    }
}

/// Why a requested tool call gave no output.
#[derive(Debug, PartialEq, Eq)]
pub enum ToolError {
    /// The arguments do not fit the schema the tool declared.
    ArgumentDecodeError(DecodeFailure),
    /// The tool's own computation failed; the text is its cause.
    ToolCallError(String),
    /// No tool is registered under the requested name.
    ToolNotFound(String),
}

/// The mathematical value of a [`ToolError`].
pub enum ToolErrorView {
    ArgumentDecodeError(DecodeFailureView),
    ToolCallError(Seq<char>),
    ToolNotFound(Seq<char>),
}

impl View for ToolError {
    type V = ToolErrorView;

    open spec fn view(&self) -> ToolErrorView {
        match self {
            ToolError::ArgumentDecodeError(why) => ToolErrorView::ArgumentDecodeError(why@),
            ToolError::ToolCallError(cause) => ToolErrorView::ToolCallError(cause@),
            ToolError::ToolNotFound(name) => ToolErrorView::ToolNotFound(name@),
        }
    }
}

/// The text that tells the model of a decode failure.
pub open spec fn describe_decode_failure(why: DecodeFailureView) -> Seq<char> {
    match why {
        DecodeFailureView::InvalidJson => "ArgumentDecodeError: the arguments are not valid JSON"@,
        DecodeFailureView::NotAnObject => "ArgumentDecodeError: the arguments are not a JSON object"@,
        DecodeFailureView::MissingProperty(name) => "ArgumentDecodeError: missing required property "@
            + name,
        DecodeFailureView::WrongType(name) => "ArgumentDecodeError: wrong type for property "@
            + name,
    }
}

/// The text that tells the model of a failed tool call.
pub open spec fn describe_tool_error(error: ToolErrorView) -> Seq<char> {
    match error {
        ToolErrorView::ArgumentDecodeError(why) => describe_decode_failure(why),
        ToolErrorView::ToolCallError(cause) => "ToolCallError: "@ + cause,
        ToolErrorView::ToolNotFound(name) => "ToolNotFound: "@ + name,
    }
}

impl DecodeFailure {
    /// The text that tells the model of this failure.
    pub fn describe(&self) -> (out: String)
        ensures
            out@ == describe_decode_failure(self@),
    {
        match self {
            DecodeFailure::InvalidJson => String::from_str(
                "ArgumentDecodeError: the arguments are not valid JSON",
            ),
            DecodeFailure::NotAnObject => String::from_str(
                "ArgumentDecodeError: the arguments are not a JSON object",
            ),
            DecodeFailure::MissingProperty(name) => String::from_str(
                "ArgumentDecodeError: missing required property ",
            ).concat(name.as_str()),
            DecodeFailure::WrongType(name) => String::from_str(
                "ArgumentDecodeError: wrong type for property ",
            ).concat(name.as_str()),
        }
    }
}

impl ToolError {
    /// The text that tells the model of this failure.
    pub fn describe(&self) -> (out: String)
        ensures
            out@ == describe_tool_error(self@),
    {
        match self {
            ToolError::ArgumentDecodeError(why) => why.describe(),
            ToolError::ToolCallError(cause) => String::from_str("ToolCallError: ").concat(
                cause.as_str(),
            ),
            ToolError::ToolNotFound(name) => String::from_str("ToolNotFound: ").concat(
                name.as_str(),
            ),
        }
    }
}

/// How the model transport failed.
#[derive(Clone, Copy, Debug, PartialEq, Eq, Structural)]
pub enum TransportErrorKind {
    /// The model could not be reached.
    Network,
    /// The credential was refused.
    Authentication,
    /// The quota is spent.
    RateLimit,
    /// Any other failure of the transport.
    Other,
}

/// A failure of the model transport. It ends the agent's run.
#[derive(Debug, PartialEq, Eq)]
pub struct TransportError {
    pub kind: TransportErrorKind,
    /// The underlying cause, as text.
    pub detail: String,
}

/// The mathematical value of a [`TransportError`].
pub struct TransportErrorView {
    pub kind: TransportErrorKind,
    pub detail: Seq<char>,
}

impl View for TransportError {
    type V = TransportErrorView;

    open spec fn view(&self) -> TransportErrorView {
        TransportErrorView { kind: self.kind, detail: self.detail@ }
    }
}

impl Clone for TransportError {
    fn clone(&self) -> (out: TransportError)
        ensures
            out@ == self@,
    {
        TransportError { kind: self.kind, detail: self.detail.clone() }
    }
}

} // verus!
