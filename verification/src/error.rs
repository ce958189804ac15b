//! Why a funding call failed.

use vstd::prelude::*;

verus! {

/// The failures of a funding call. Each call ends in success or in exactly one
/// of these.
#[derive(Clone, Debug, PartialEq, Eq)]
pub enum Error {
    /// The faucet's address is malformed, or the request could not be sent.
    Request,
    /// The response could not be read: its body is no text, no hexadecimal
    /// text, or does not hold a sequence of signed transactions.
    Decode,
    /// The faucet answered the request to create the account with a status
    /// outside 200 to 299. The body of its response is kept as a diagnostic.
    FaucetRequest { body: String },
    /// The faucet answered the request for funds with a status outside 200 to
    /// 299, which is `code`.
    Status { code: u16 },
    /// The transaction was not confirmed.
    Confirmation,
}

/// What an error is, with text as a sequence of characters.
pub enum ErrorView {
    Request,
    Decode,
    FaucetRequest { body: Seq<char> },
    Status { code: u16 },
    Confirmation,
}

impl View for Error {
    type V = ErrorView;

    open spec fn view(&self) -> ErrorView {
        match *self {
            Error::Request => ErrorView::Request,
            Error::Decode => ErrorView::Decode,
            Error::FaucetRequest { body } => ErrorView::FaucetRequest { body: body@ },
            Error::Status { code } => ErrorView::Status { code },
            Error::Confirmation => ErrorView::Confirmation,
        }
    }
}

} // verus!
