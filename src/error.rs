use vstd::prelude::*;

verus! {

/// Why a swap request produced no result.
#[derive(Debug, Clone, Copy, PartialEq, Eq, Structural)]
pub enum SwapError {
    /// The request body could not be read as a swap request.
    MalformedRequest,
    /// The token being sold is neither of the pool's two tokens.
    InvalidInputToken,
}

impl SwapError {
    /// The HTTP status that answers a request failing this way.
    pub open spec fn status_of(self) -> u16 {
        400
    }

    /// The plain-text body that answers a request failing this way.
    pub open spec fn message_of(self) -> Seq<char> {
        match self {
            SwapError::MalformedRequest => "Invalid request body"@,
            SwapError::InvalidInputToken => "Invalid input token"@,
        }
    }

    pub fn status_code(&self) -> (r: u16)
        ensures
            r == self.status_of(),
    {
        400
    }

    pub fn message(&self) -> (r: String)
        ensures
            r@ == self.message_of(),
    {
        match self {
            SwapError::MalformedRequest => "Invalid request body".to_owned(),
            SwapError::InvalidInputToken => "Invalid input token".to_owned(),
        }
    }
}

} // verus!
