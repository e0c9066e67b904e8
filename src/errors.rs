use vstd::prelude::*;

verus! {

/// Ways in which one connection can fail.
pub enum WebSocketError {
    ParseError(String),
    SendError(String),
    Timeout,
    Closed,
}

impl WebSocketError {
    /// The human-readable text of the error.
    pub open spec fn spec_message(&self) -> Seq<char> {
        match self {
            WebSocketError::ParseError(e) => "Failed to parse message: "@ + e@,
            WebSocketError::SendError(e) => "Failed to send message: "@ + e@,
            WebSocketError::Timeout => "Connection timeout"@,
            WebSocketError::Closed => "Connection closed"@,
        }
    }

    pub fn message(&self) -> (r: String)
        ensures
            r@ == self.spec_message(),
    {
        match self {
            WebSocketError::ParseError(e) => {
                let mut out = String::from_str("Failed to parse message: ");
                out.append(e.as_str());
                out
            },
            WebSocketError::SendError(e) => {
                let mut out = String::from_str("Failed to send message: ");
                out.append(e.as_str());
                out
            },
            WebSocketError::Timeout => String::from_str("Connection timeout"),
            WebSocketError::Closed => String::from_str("Connection closed"),
        }
    }
}

} // verus!
