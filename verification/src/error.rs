//! The errors that end a connection.

use vstd::prelude::*;
use vstd::string::StringExecFns;

verus! {

/// `std::io::Error`, taken as it is: nothing inside it is looked at.
#[verifier::external_type_specification]
#[verifier::external_body]
pub struct ExIoError(std::io::Error);

/// Why a connection could not go on.
#[derive(Debug)]
pub enum WinWayError {
    /// The transport failed.
    Io(std::io::Error),
    /// The peer broke the wire framing; the text names the violation.
    Protocol(String),
    /// The peer closed the stream.
    ConnectionClosed,
    /// A request's payload ended before its arguments did.
    InvalidMessage,
}

/// The text carried by [`WinWayError::Protocol`] when a frame header
/// announces a size below the header's own.
pub open spec fn undersized_frame_text() -> Seq<char> {
    "frame size below header size"@
}

/// The text of an operating system's error, from its `Display`. Nothing
/// is claimed of it: it depends on the platform.
#[verifier::external_body]
fn io_error_text(error: &std::io::Error) -> String {
    error.to_string()
}

/// The text that an error shows, up to the detail of an I/O error.
pub open spec fn message_of(error: WinWayError, detail: Seq<char>) -> Seq<char> {
    match error {
        WinWayError::Io(_) => "IO error: "@ + detail,
        WinWayError::Protocol(text) => "Protocol error: "@ + text@,
        WinWayError::ConnectionClosed => "Connection closed"@,
        WinWayError::InvalidMessage => "Invalid message format"@,
    }
}

/// Whether a text is what an error shows, with some detail for an I/O
/// error.
pub open spec fn is_message_of(text: Seq<char>, error: WinWayError) -> bool {
    exists|detail: Seq<char>| text == #[trigger] message_of(error, detail)
}

impl WinWayError {
    /// The text that the error shows to a reader.
    pub fn message(&self) -> (text: String)
        ensures
            is_message_of(text@, *self),
    {
        match self {
            WinWayError::Io(error) => {
                let detail = io_error_text(error);
                let text = "IO error: ".to_owned().concat(detail.as_str());
                assert(text@ == message_of(*self, detail@));
                text
            },
            WinWayError::Protocol(detail) => {
                let text = "Protocol error: ".to_owned().concat(detail.as_str());
                assert(text@ == message_of(*self, Seq::empty()));
                text
            },
            WinWayError::ConnectionClosed => {
                let text = "Connection closed".to_owned();
                assert(text@ == message_of(*self, Seq::empty()));
                text
            },
            WinWayError::InvalidMessage => {
                let text = "Invalid message format".to_owned();
                assert(text@ == message_of(*self, Seq::empty()));
                text
            },
        }
    }

    /// The error for a frame whose header announces fewer than eight bytes.
    pub fn undersized_frame() -> (e: WinWayError)
        ensures
            e is Protocol,
            e->Protocol_0@ == undersized_frame_text(),
    {
        WinWayError::Protocol("frame size below header size".to_owned())
    }
}

} // verus!
