//! What can go wrong in an operation of the store, and how it is worded.
//!
//! That a file or a directory is absent is no error: reading and listing
//! answer it with an empty result.

use crate::codec::{describe_fault, fault_text, DecodeFault};
use crate::status::{status_text, HttpStatus};
use crate::text::{decimal, join, occurs_at, occurs_in};
use vstd::prelude::*;

verus! {

/// The payload that a base64 text was to carry.
#[derive(Clone, Copy, Debug, PartialEq, Eq, Structural)]
pub enum Payload {
    /// The audio of a voice.
    Wav,
    /// The image of a personality.
    Image,
}

/// A failed operation.
#[derive(Clone, Debug, PartialEq, Eq)]
pub enum AssetError {
    /// The request was not answered: what the transport said.
    NetworkFailed(String),
    /// The server answered with a status that is no success.
    HttpStatus(HttpStatus),
    /// The body of the response did not arrive in full: what the transport
    /// said.
    BodyFailed(String),
    /// A payload was no standard base64.
    DecodeFailed(Payload, DecodeFault),
    /// The file system refused to create, write, read or list: what it said.
    IoFailed(String),
}

/// An `AssetError` with its texts as sequences of characters.
pub enum AssetErrorView {
    NetworkFailed(Seq<char>),
    HttpStatus(HttpStatus),
    BodyFailed(Seq<char>),
    DecodeFailed(Payload, DecodeFault),
    IoFailed(Seq<char>),
}

impl View for AssetError {
    type V = AssetErrorView;

    open spec fn view(&self) -> AssetErrorView {
        match *self {
            AssetError::NetworkFailed(detail) => AssetErrorView::NetworkFailed(detail@),
            AssetError::HttpStatus(status) => AssetErrorView::HttpStatus(status),
            AssetError::BodyFailed(detail) => AssetErrorView::BodyFailed(detail@),
            AssetError::DecodeFailed(payload, fault) => AssetErrorView::DecodeFailed(
                payload,
                fault,
            ),
            AssetError::IoFailed(detail) => AssetErrorView::IoFailed(detail@),
        }
    }
}

/// The one line that reports `error` to a caller.
pub open spec fn message_text(error: AssetErrorView) -> Seq<char> {
    match error {
        AssetErrorView::NetworkFailed(detail) => "Failed to download: "@ + detail,
        AssetErrorView::HttpStatus(status) => "Failed to download: HTTP "@ + status_text(
            status.code(),
        ),
        AssetErrorView::BodyFailed(detail) => "Failed to read response: "@ + detail,
        AssetErrorView::DecodeFailed(Payload::Wav, fault) => "Failed to decode base64 wav: "@
            + fault_text(fault),
        AssetErrorView::DecodeFailed(Payload::Image, fault) => "Failed to decode base64 image: "@
            + fault_text(fault),
        AssetErrorView::IoFailed(detail) => detail,
    }
}

impl AssetError {
    /// The one line that reports this error to a caller.
    pub fn message(&self) -> (line: String)
        ensures
            line@ == message_text(self@),
    {
        match self {
            AssetError::NetworkFailed(detail) => join("Failed to download: ", detail.as_str()),
            AssetError::HttpStatus(status) => {
                let shown = status.describe();
                join("Failed to download: HTTP ", shown.as_str())
            },
            AssetError::BodyFailed(detail) => join("Failed to read response: ", detail.as_str()),
            AssetError::DecodeFailed(Payload::Wav, fault) => {
                let shown = describe_fault(*fault);
                join("Failed to decode base64 wav: ", shown.as_str())
            },
            AssetError::DecodeFailed(Payload::Image, fault) => {
                let shown = describe_fault(*fault);
                join("Failed to decode base64 image: ", shown.as_str())
            },
            AssetError::IoFailed(detail) => detail.clone(),
        }
    }
}

/// The line that reports a status that is no success holds the code of that
/// status, in decimal.
pub proof fn lemma_status_message_holds_code(status: HttpStatus)
    ensures
        occurs_in(
            decimal(status.code() as nat),
            message_text(AssetErrorView::HttpStatus(status)),
        ),
{
    let lead = "Failed to download: HTTP "@;
    let digits = decimal(status.code() as nat);
    let line = message_text(AssetErrorView::HttpStatus(status));
    assert(line.subrange(lead.len() as int, (lead.len() + digits.len()) as int) =~= digits);
    assert(occurs_at(digits, line, lead.len() as int));
}

} // verus!
