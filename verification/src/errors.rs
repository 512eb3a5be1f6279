//! The ways in which the actors fail.

use vstd::prelude::*;
use vstd::string::*;

verus! {

/// Every failure that an actor reports. Failures of the transport carry the transport's own
/// description of what went wrong.
#[derive(Clone, Debug, PartialEq, Eq)]
pub enum PunyTunesError {
    /// No device with this UDN is in the list of discovered devices.
    UnknownDevice(String),
    /// The persisted store failed.
    Store(String),
    /// UPnP discovery failed.
    UPnP(String),
    /// The transport failed.
    Io(String),
    /// The WebSocket failed.
    WebSocket(String),
    /// The streamer closed the WebSocket.
    WebSocketConnectionClosed,
    /// No WebSocket could be opened in time.
    WebSocketTimeout,
    /// The WebSocket stopped answering.
    WebSocketClientLostConnection,
    /// The amplifier's host could not be found or reached.
    Amplifier(String),
}

/// A failure as mathematics sees it.
pub enum ErrorView {
    UnknownDevice(Seq<char>),
    Store(Seq<char>),
    UPnP(Seq<char>),
    Io(Seq<char>),
    WebSocket(Seq<char>),
    WebSocketConnectionClosed,
    WebSocketTimeout,
    WebSocketClientLostConnection,
    Amplifier(Seq<char>),
}

impl View for PunyTunesError {
    type V = ErrorView;

    open spec fn view(&self) -> ErrorView {
        match *self {
            PunyTunesError::UnknownDevice(udn) => ErrorView::UnknownDevice(udn@),
            PunyTunesError::Store(detail) => ErrorView::Store(detail@),
            PunyTunesError::UPnP(detail) => ErrorView::UPnP(detail@),
            PunyTunesError::Io(detail) => ErrorView::Io(detail@),
            PunyTunesError::WebSocket(detail) => ErrorView::WebSocket(detail@),
            PunyTunesError::WebSocketConnectionClosed => ErrorView::WebSocketConnectionClosed,
            PunyTunesError::WebSocketTimeout => ErrorView::WebSocketTimeout,
            PunyTunesError::WebSocketClientLostConnection =>
                ErrorView::WebSocketClientLostConnection,
            PunyTunesError::Amplifier(detail) => ErrorView::Amplifier(detail@),
        }
    }
}

/// What is said of a UDN that no discovered device has.
pub open spec fn unknown_device_text(udn: Seq<char>) -> Seq<char> {
    "The device with UDN '"@ + udn + "' is not in the list of discovered devices"@
}

impl PunyTunesError {
    /// What `message` returns.
    pub open spec fn message_text(self) -> Seq<char> {
        match self {
            PunyTunesError::UnknownDevice(udn) => unknown_device_text(udn@),
            PunyTunesError::Store(detail) => detail@,
            PunyTunesError::UPnP(detail) => detail@,
            PunyTunesError::Io(detail) => detail@,
            PunyTunesError::WebSocket(detail) => detail@,
            PunyTunesError::WebSocketConnectionClosed => "WebSocket connection closed by server"@,
            PunyTunesError::WebSocketTimeout => "WebSocket timeout"@,
            PunyTunesError::WebSocketClientLostConnection =>
                "WebSocket client has lost its connection to the server"@,
            PunyTunesError::Amplifier(detail) => detail@,
        }
    }

    /// The failure in words.
    pub fn message(&self) -> (text: String)
        ensures
            text@ == self.message_text(),
    {
        match self {
            PunyTunesError::UnknownDevice(udn) => String::from_str("The device with UDN '").concat(
                udn.as_str(),
            ).concat("' is not in the list of discovered devices"),
            PunyTunesError::Store(detail) => detail.clone(),
            PunyTunesError::UPnP(detail) => detail.clone(),
            PunyTunesError::Io(detail) => detail.clone(),
            PunyTunesError::WebSocket(detail) => detail.clone(),
            PunyTunesError::WebSocketConnectionClosed => String::from_str(
                "WebSocket connection closed by server",
            ),
            PunyTunesError::WebSocketTimeout => String::from_str("WebSocket timeout"),
            PunyTunesError::WebSocketClientLostConnection => String::from_str(
                "WebSocket client has lost its connection to the server",
            ),
            PunyTunesError::Amplifier(detail) => detail.clone(),
        }
    }
}

} // verus!
