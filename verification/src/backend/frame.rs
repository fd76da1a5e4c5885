//! What a connection makes of the frames that arrive on it: binary frames carry
//! messages; control and text frames do not.
use vstd::prelude::*;

verus! {

/// `tokio_tungstenite::tungstenite::Error`, an error of the websocket layer;
/// carried through unopened.
#[verifier::external_type_specification]
#[verifier::external_body]
pub struct ExWsError(tokio_tungstenite::tungstenite::Error);

/// `postcard::Error`, an error in decoding a message; carried through unopened.
#[verifier::external_type_specification]
#[verifier::external_body]
pub struct ExDecodeError(postcard::Error);

/// A websocket frame, by its kind; only binary frames keep their payload.
#[derive(Debug)]
pub enum WsFrame {
    Binary(Vec<u8>),
    Text,
    Ping,
    Pong,
    Close,
    Raw,
}

/// Why no message could be received.
#[derive(Debug)]
pub enum RecvError {
    /// The stream is closed.
    Closed,
    /// The websocket layer failed.
    UnexpectedError(tokio_tungstenite::tungstenite::Error),
    /// The partner sent a text frame or a raw frame.
    NonBinaryWs,
    /// The partner sent bytes that are no message of the expected type.
    IllegalMessage(postcard::Error),
    /// A ping or pong arrived; the connection goes on.
    AuxMessage,
}

impl RecvError {
    /// Whether the connection survives this error.
    pub open spec fn spec_nonfatal(&self) -> bool {
        self is AuxMessage
    }

    /// Whether the connection survives this error: only a ping or pong is
    /// harmless.
    pub fn is_nonfatal(&self) -> (r: bool)
        ensures
            r == self.spec_nonfatal(),
    {
        match self {
            RecvError::AuxMessage => true,
            _ => false,
        }
    }
}

/// What one read of the stream yields: the payload of a binary frame, or the
/// reason why there is no message (the stream ended, the websocket layer
/// failed, a ping or pong, a close frame, or a frame of another kind).
pub fn frame_payload(next: Option<Result<WsFrame, tokio_tungstenite::tungstenite::Error>>) -> (r: Result<Vec<u8>, RecvError>)
    ensures
        match next {
            None => r matches Err(RecvError::Closed),
            Some(Err(e)) => r == Err::<Vec<u8>, RecvError>(RecvError::UnexpectedError(e)),
            Some(Ok(WsFrame::Binary(b))) => r == Ok::<Vec<u8>, RecvError>(b),
            Some(Ok(WsFrame::Ping)) => r matches Err(RecvError::AuxMessage),
            Some(Ok(WsFrame::Pong)) => r matches Err(RecvError::AuxMessage),
            Some(Ok(WsFrame::Close)) => r matches Err(RecvError::Closed),
            Some(Ok(WsFrame::Text)) => r matches Err(RecvError::NonBinaryWs),
            Some(Ok(WsFrame::Raw)) => r matches Err(RecvError::NonBinaryWs),
        },
{
    match next {
        None => Err(RecvError::Closed),
        Some(Err(e)) => Err(RecvError::UnexpectedError(e)),
        Some(Ok(frame)) => match frame {
            WsFrame::Binary(b) => Ok(b),
            WsFrame::Ping | WsFrame::Pong => Err(RecvError::AuxMessage),
            WsFrame::Close => Err(RecvError::Closed),
            _ => Err(RecvError::NonBinaryWs),
        },
    }
}

} // verus!
