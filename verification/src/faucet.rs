//! The faucet funding workflow.
//!
//! A funding call talks to the faucet, has the answer decoded and waits for a
//! transaction to be confirmed. None of that is done here. This module decides:
//! it says which request to send, and for each thing that can come back, what
//! to do next. The caller performs each `Action` and reports the `Event` that
//! followed, until the action is `Done`.

use crate::decimal::{append_decimal, decimal};
use crate::endpoint::{build_request_url, normalize_url, parsed_url, request_url, url_text};
use crate::error::{Error, ErrorView};
use crate::hex_text;
use crate::hex_text::{hex_decoding, hex_encoding, is_hex_text};
use crate::transaction::{Ed25519PublicKey, SignedTransaction, SignedTransactionView};
use vstd::pervasive::unreached;
use vstd::prelude::*;
use vstd::string::*;

verus! {

/// The two phases of funding an account.
#[derive(Clone, Copy, Debug, PartialEq, Eq, Structural)]
pub enum Phase {
    /// Asking the faucet to create the account, with no funds.
    CreateAccount,
    /// Asking the faucet for funds.
    Fund,
}

/// How far a phase has come.
#[derive(Clone, Copy, Debug, PartialEq, Eq, Structural)]
pub enum Stage {
    /// The request is on its way; the response is awaited.
    AwaitingResponse,
    /// The bytes of the response are with the transaction codec.
    AwaitingDecode,
    /// The first transaction of the response is awaited on the network.
    AwaitingConfirmation,
    /// The call has ended.
    Finished,
}

/// The state of one funding call.
#[derive(Clone, Copy, Debug, PartialEq, Eq)]
pub struct Funding {
    /// The phase that is under way, or that was when the call ended.
    pub phase: Phase,
    /// How far that phase has come.
    pub stage: Stage,
    /// The key of the account to fund.
    pub public_key: Ed25519PublicKey,
    /// The amount to ask for once the account is created, where the call is to
    /// go on to the second phase.
    pub fund_after: Option<u64>,
}

/// What the caller reports back.
#[derive(Clone, Debug, PartialEq, Eq)]
pub enum Event {
    /// The request could not be sent, or no response came.
    RequestFailed,
    /// The faucet responded. `body` is `None` where the body could not be read
    /// as text.
    Response { status: u16, body: Option<String> },
    /// The codec has read the bytes. `transactions` is `None` where they do not
    /// hold a sequence of signed transactions.
    Decoded { transactions: Option<Vec<SignedTransaction>> },
    /// The wait for the transaction has ended, confirmed or not.
    Waited { confirmed: bool },
}

/// What an event is.
pub enum EventView {
    RequestFailed,
    Response { status: u16, body: Option<Seq<char>> },
    Decoded { transactions: Option<Seq<SignedTransactionView>> },
    Waited { confirmed: bool },
}

impl View for Event {
    type V = EventView;

    open spec fn view(&self) -> EventView {
        match *self {
            Event::RequestFailed => EventView::RequestFailed,
            Event::Response { status, body } => EventView::Response {
                status,
                body: match body {
                    Some(body) => Some(body@),
                    None => None,
                },
            },
            Event::Decoded { transactions } => EventView::Decoded {
                transactions: match transactions {
                    Some(transactions) => Some(
                        transactions@.map_values(|txn: SignedTransaction| txn@),
                    ),
                    None => None,
                },
            },
            Event::Waited { confirmed } => EventView::Waited { confirmed },
        }
    }
}

/// What the caller is to do next.
#[derive(Debug, PartialEq, Eq)]
pub enum Action {
    /// Send a POST request with an empty body to `url`.
    Post { url: String },
    /// Read `bytes` as a sequence of signed transactions.
    Decode { bytes: Vec<u8> },
    /// Wait until `transaction` is confirmed on the network.
    Wait { transaction: SignedTransaction },
    /// Nothing more: the call has ended with `result`.
    Done { result: Result<(), Error> },
}

/// What an action is.
pub enum ActionView {
    Post { url: Seq<char> },
    Decode { bytes: Seq<u8> },
    Wait { transaction: SignedTransactionView },
    Done { result: Result<(), ErrorView> },
}

impl View for Action {
    type V = ActionView;

    open spec fn view(&self) -> ActionView {
        match *self {
            Action::Post { url } => ActionView::Post { url: url@ },
            Action::Decode { bytes } => ActionView::Decode { bytes: bytes@ },
            Action::Wait { transaction } => ActionView::Wait { transaction: transaction@ },
            Action::Done { result } => ActionView::Done {
                result: match result {
                    Ok(_) => Ok(()),
                    Err(error) => Err(error@),
                },
            },
        }
    }
}

/// Whether a response status means success: 200 to 299.
pub open spec fn is_success(status: u16) -> bool {
    200 <= status < 300
}

/// The error for a response whose status is no success: in the first phase it
/// carries the body of the response, in the second the status.
pub open spec fn refusal(phase: Phase, status: u16, body: Seq<char>) -> ErrorView {
    match phase {
        Phase::CreateAccount => ErrorView::FaucetRequest { body },
        Phase::Fund => ErrorView::Status { code: status },
    }
}

/// The query of a faucet request for `amount`, for the account with the given
/// public key.
pub open spec fn mint_query(public_key: Seq<u8>, amount: u64) -> Seq<char> {
    "pub_key="@ + hex_encoding(public_key) + "&amount="@ + decimal(amount as nat)
        + "&return_txns=true"@
}

/// The address of a faucet request: the faucet's address with the path `mint`
/// and the query for the key and the amount; `None` where the faucet's address
/// is malformed.
pub open spec fn mint_url(faucet_url: Seq<char>, public_key: Seq<u8>, amount: u64) -> Option<
    Seq<char>,
> {
    request_url(faucet_url, "mint"@, mint_query(public_key, amount))
}

/// Writes the query of a faucet request.
pub fn mint_query_text(public_key: &Ed25519PublicKey, amount: u64) -> (query: String)
    ensures
        query@ == mint_query(public_key@, amount),
{
    let bytes = public_key.to_bytes();
    let digits = hex_text::encode(bytes.as_slice());
    let mut query = String::from_str("pub_key=");
    query.append(digits.as_str());
    query.append("&amount=");
    append_decimal(&mut query, amount);
    query.append("&return_txns=true");
    query
}

/// What a faucet client is: the address of the faucet, and the address of the
/// network endpoint on which transactions are awaited, in its parsed form.
pub struct FaucetClientView {
    pub faucet_url: Seq<char>,
    pub rest_url: Seq<char>,
}

/// A client of one faucet and one network. It holds two addresses and nothing
/// that changes: any number of funding calls may use it, one after another or
/// at once.
#[derive(Clone, Debug)]
pub struct FaucetClient {
    faucet_url: String,
    rest_url: String,
}

impl View for FaucetClient {
    type V = FaucetClientView;

    closed spec fn view(&self) -> FaucetClientView {
        FaucetClientView { faucet_url: self.faucet_url@, rest_url: self.rest_url@ }
    }
}

/// The state and the action with which a call ends in `result`.
pub open spec fn finish(state: Funding, result: Result<(), ErrorView>) -> (Funding, ActionView) {
    (Funding { stage: Stage::Finished, ..state }, ActionView::Done { result })
}

/// The state and the action with which a phase begins, given the address of
/// its request: the request is sent, or the call ends with a request error
/// where there is no address.
pub open spec fn begin_with(
    phase: Phase,
    public_key: Ed25519PublicKey,
    fund_after: Option<u64>,
    url: Option<Seq<char>>,
) -> (Funding, ActionView) {
    match url {
        Some(url) => (
            Funding { phase, stage: Stage::AwaitingResponse, public_key, fund_after },
            ActionView::Post { url },
        ),
        None => (
            Funding { phase, stage: Stage::Finished, public_key, fund_after },
            ActionView::Done { result: Err(ErrorView::Request) },
        ),
    }
}

/// The state and the action with which a phase begins: the request to the
/// faucet for `amount`, or the end of the call where the faucet's address is
/// malformed.
pub open spec fn begin(
    client: FaucetClientView,
    phase: Phase,
    public_key: Ed25519PublicKey,
    amount: u64,
    fund_after: Option<u64>,
) -> (Funding, ActionView) {
    begin_with(phase, public_key, fund_after, mint_url(client.faucet_url, public_key@, amount))
}

/// Whether `event` can follow the action that led to `state`: a response or
/// the failure of the request follows a request, a decoding follows bytes
/// handed to the codec, and the end of a wait follows a wait.
pub open spec fn accepts(state: Funding, event: EventView) -> bool {
    match event {
        EventView::RequestFailed => state.stage == Stage::AwaitingResponse,
        EventView::Response { .. } => state.stage == Stage::AwaitingResponse,
        EventView::Decoded { .. } => state.stage == Stage::AwaitingDecode,
        EventView::Waited { .. } => state.stage == Stage::AwaitingConfirmation,
    }
}

impl Funding {
    /// Begins a phase whose request goes to `url`; with no address to send it
    /// to, the call ends at once.
    pub fn begin(
        phase: Phase,
        public_key: Ed25519PublicKey,
        fund_after: Option<u64>,
        url: Option<String>,
    ) -> (started: (Funding, Action))
        ensures
            (started.0, started.1@) == begin_with(
                phase,
                public_key,
                fund_after,
                match url {
                    Some(url) => Some(url@),
                    None => None,
                },
            ),
    {
        match url {
            Some(url) => (
                Funding { phase, stage: Stage::AwaitingResponse, public_key, fund_after },
                Action::Post { url },
            ),
            None => (
                Funding { phase, stage: Stage::Finished, public_key, fund_after },
                Action::Done { result: Err(Error::Request) },
            ),
        }
    }

    /// Whether `event` can follow the action that led to this state: what
    /// `advance` asks of its caller, as a test.
    pub fn accepts(&self, event: &Event) -> (accepted: bool)
        ensures
            accepted == accepts(*self, event@),
    {
        match event {
            Event::RequestFailed => self.stage == Stage::AwaitingResponse,
            Event::Response { .. } => self.stage == Stage::AwaitingResponse,
            Event::Decoded { .. } => self.stage == Stage::AwaitingDecode,
            Event::Waited { .. } => self.stage == Stage::AwaitingConfirmation,
        }
    }
}

/// The state and the action that follow `event` in `state`.
pub open spec fn next(client: FaucetClientView, state: Funding, event: EventView) -> (
    Funding,
    ActionView,
) {
    match event {
        EventView::RequestFailed => finish(state, Err(ErrorView::Request)),
        EventView::Response { status, body } => match body {
            None => finish(state, Err(ErrorView::Decode)),
            Some(body) => if !is_success(status) {
                finish(state, Err(refusal(state.phase, status, body)))
            } else if is_hex_text(body) {
                (
                    Funding { stage: Stage::AwaitingDecode, ..state },
                    ActionView::Decode { bytes: hex_decoding(body) },
                )
            } else {
                finish(state, Err(ErrorView::Decode))
            },
        },
        EventView::Decoded { transactions } => match transactions {
            None => finish(state, Err(ErrorView::Decode)),
            Some(transactions) => if transactions.len() == 0 {
                finish(state, Err(ErrorView::Decode))
            } else {
                (
                    Funding { stage: Stage::AwaitingConfirmation, ..state },
                    ActionView::Wait { transaction: transactions[0] },
                )
            },
        },
        EventView::Waited { confirmed } => if !confirmed {
            finish(state, Err(ErrorView::Confirmation))
        } else {
            match (state.phase, state.fund_after) {
                (Phase::CreateAccount, Some(amount)) => begin(
                    client,
                    Phase::Fund,
                    state.public_key,
                    amount,
                    None,
                ),
                _ => finish(state, Ok(())),
            }
        },
    }
}

impl FaucetClient {
    /// A client of the faucet at `faucet_url`, for the network whose endpoint
    /// is at `rest_url`. The endpoint's address has to be well-formed; the
    /// faucet's is looked at when a request is built.
    pub fn new(faucet_url: String, rest_url: String) -> (client: FaucetClient)
        requires
            parsed_url(rest_url@) is Some,
        ensures
            client@ == (FaucetClientView {
                faucet_url: faucet_url@,
                rest_url: url_text(parsed_url(rest_url@)->0),
            }),
    {
        match normalize_url(rest_url.as_str()) {
            Some(rest_url) => FaucetClient { faucet_url, rest_url },
            None => unreached(),
        }
    }

    /// As `new`, for any text: `None` where `rest_url` is no address.
    pub fn try_new(faucet_url: String, rest_url: String) -> (client: Option<FaucetClient>)
        ensures
            match client {
                Some(client) => parsed_url(rest_url@) is Some && client@ == (FaucetClientView {
                    faucet_url: faucet_url@,
                    rest_url: url_text(parsed_url(rest_url@)->0),
                }),
                None => parsed_url(rest_url@) is None,
            },
    {
        if normalize_url(rest_url.as_str()).is_some() {
            Some(FaucetClient::new(faucet_url, rest_url))
        } else {
            None
        }
    }

    /// The address of the faucet, as it was given.
    pub fn faucet_url(&self) -> (url: &str)
        ensures
            url@ == self@.faucet_url,
    {
        self.faucet_url.as_str()
    }

    /// The address of the network endpoint, in its parsed form.
    pub fn rest_url(&self) -> (url: &str)
        ensures
            url@ == self@.rest_url,
    {
        self.rest_url.as_str()
    }

    /// Begins a phase: builds the request for `amount`.
    fn begin_phase(
        &self,
        phase: Phase,
        public_key: Ed25519PublicKey,
        amount: u64,
        fund_after: Option<u64>,
    ) -> (started: (Funding, Action))
        ensures
            (started.0, started.1@) == begin(self@, phase, public_key, amount, fund_after),
    {
        let query = mint_query_text(&public_key, amount);
        let url = build_request_url(self.faucet_url.as_str(), "mint", query.as_str());
        Funding::begin(phase, public_key, fund_after, url)
    }

    /// Begins a call that creates the account of `public_key`: the first
    /// phase alone, which asks the faucet for the amount 0.
    pub fn create_account(&self, public_key: Ed25519PublicKey) -> (started: (Funding, Action))
        ensures
            (started.0, started.1@) == begin(self@, Phase::CreateAccount, public_key, 0, None),
    {
        self.begin_phase(Phase::CreateAccount, public_key, 0, None)
    }

    /// Begins a call that funds the account of `public_key` with `amount`: the
    /// second phase alone.
    pub fn fund(&self, public_key: Ed25519PublicKey, amount: u64) -> (started: (Funding, Action))
        ensures
            (started.0, started.1@) == begin(self@, Phase::Fund, public_key, amount, None),
    {
        self.begin_phase(Phase::Fund, public_key, amount, None)
    }

    /// Begins a call that creates the account of `public_key` and then funds
    /// it with `amount`: the first phase, and after its transaction is
    /// confirmed, the second.
    pub fn mint(&self, public_key: Ed25519PublicKey, amount: u64) -> (started: (Funding, Action))
        ensures
            (started.0, started.1@) == begin(
                self@,
                Phase::CreateAccount,
                public_key,
                0,
                Some(amount),
            ),
    {
        self.begin_phase(Phase::CreateAccount, public_key, 0, Some(amount))
    }

    /// Takes the call one step on: given what came back, says what to do
    /// next. The event has to be one that follows the action last returned.
    pub fn advance(&self, state: Funding, event: Event) -> (step: (Funding, Action))
        requires
            accepts(state, event@),
        ensures
            (step.0, step.1@) == next(self@, state, event@),
    {
        match event {
            Event::RequestFailed => ended(state, Err(Error::Request)),
            Event::Response { status, body } => match body {
                None => ended(state, Err(Error::Decode)),
                Some(body) => {
                    if !(200 <= status && status < 300) {
                        match state.phase {
                            Phase::CreateAccount => ended(
                                state,
                                Err(Error::FaucetRequest { body }),
                            ),
                            Phase::Fund => ended(state, Err(Error::Status { code: status })),
                        }
                    } else {
                        match hex_text::decode(body.as_str()) {
                            Ok(bytes) => (
                                Funding { stage: Stage::AwaitingDecode, ..state },
                                Action::Decode { bytes },
                            ),
                            Err(_) => ended(state, Err(Error::Decode)),
                        }
                    }
                },
            },
            Event::Decoded { transactions } => match transactions {
                None => ended(state, Err(Error::Decode)),
                Some(transactions) => {
                    let mut transactions = transactions;
                    if transactions.len() == 0 {
                        ended(state, Err(Error::Decode))
                    } else {
                        let first = transactions.remove(0);
                        (
                            Funding { stage: Stage::AwaitingConfirmation, ..state },
                            Action::Wait { transaction: first },
                        )
                    }
                },
            },
            Event::Waited { confirmed } => {
                if !confirmed {
                    ended(state, Err(Error::Confirmation))
                } else {
                    match (state.phase, state.fund_after) {
                        (Phase::CreateAccount, Some(amount)) => self.begin_phase(
                            Phase::Fund,
                            state.public_key,
                            amount,
                            None,
                        ),
                        _ => ended(state, Ok(())),
                    }
                }
            },
        }
    }
}

/// Ends the call with `result`.
fn ended(state: Funding, result: Result<(), Error>) -> (step: (Funding, Action))
    ensures
        (step.0, step.1@) == finish(
            state,
            match result {
                Ok(_) => Ok(()),
                Err(error) => Err(error@),
            },
        ),
{
    (Funding { stage: Stage::Finished, ..state }, Action::Done { result })
}

/// A response whose status is no success ends the call with an error,
/// whatever its body holds: nothing is handed to the codec and nothing is
/// awaited. Where the body is text, the error carries the body in the first
/// phase and the status in the second.
pub proof fn lemma_failed_status_is_an_error(
    client: FaucetClientView,
    state: Funding,
    status: u16,
    body: Option<Seq<char>>,
)
    requires
        !is_success(status),
    ensures
        next(client, state, EventView::Response { status, body }).0.stage == Stage::Finished,
        next(client, state, EventView::Response { status, body }).1 matches ActionView::Done {
            result: Err(_),
        },
        body matches Some(text) ==> next(client, state, EventView::Response { status, body }).1
            == (ActionView::Done { result: Err(refusal(state.phase, status, text)) }),
{
}

/// A successful response whose body is no hexadecimal text ends the call with
/// a decode error, and so do bytes that the codec could not read and a
/// sequence that holds no transaction: in none of these cases is a transaction
/// awaited.
pub proof fn lemma_malformed_response_is_a_decode_error(
    client: FaucetClientView,
    state: Funding,
    status: u16,
    body: Option<Seq<char>>,
)
    requires
        is_success(status),
        body matches Some(text) ==> !is_hex_text(text),
    ensures
        next(client, state, EventView::Response { status, body }) == finish(
            state,
            Err(ErrorView::Decode),
        ),
        next(client, state, EventView::Decoded { transactions: None }) == finish(
            state,
            Err(ErrorView::Decode),
        ),
        next(client, state, EventView::Decoded { transactions: Some(Seq::empty()) }) == finish(
            state,
            Err(ErrorView::Decode),
        ),
{
}

/// Bytes go to the codec only from a successful response whose body is
/// hexadecimal text.
pub proof fn lemma_decode_follows_success(
    client: FaucetClientView,
    state: Funding,
    event: EventView,
)
    requires
        (next(client, state, event).1 is Decode),
    ensures
        (event matches EventView::Response { status, body: Some(text) } && is_success(status)
            && is_hex_text(text)),
{
}

/// A transaction is awaited only after the codec read a sequence that holds
/// at least one, and it is the first of that sequence.
pub proof fn lemma_wait_follows_decoding(
    client: FaucetClientView,
    state: Funding,
    event: EventView,
)
    requires
        (next(client, state, event).1 is Wait),
    ensures
        (event matches EventView::Decoded { transactions: Some(decoded) } && decoded.len() > 0
            && next(client, state, event).1 == (ActionView::Wait { transaction: decoded[0] })),
{
}

/// A request is sent in the middle of a call only after the account's
/// creation was confirmed, in a call that is to go on to fund the account, and
/// it is the request for those funds. No failure of the first phase leads to
/// the request of the second.
pub proof fn lemma_request_follows_confirmation(
    client: FaucetClientView,
    state: Funding,
    event: EventView,
)
    requires
        (next(client, state, event).1 is Post),
    ensures
        event == (EventView::Waited { confirmed: true }),
        state.phase == Phase::CreateAccount,
        (state.fund_after matches Some(amount) && next(client, state, event) == begin(
            client,
            Phase::Fund,
            state.public_key,
            amount,
            None,
        )),
{
}

/// A call of one phase succeeds exactly when the response is a success whose
/// body is hexadecimal text, the codec read a sequence that holds at least one
/// transaction, and the wait for the first of them was confirmed.
pub proof fn lemma_phase_succeeds_exactly_when(
    client: FaucetClientView,
    state: Funding,
    status: u16,
    body: Option<Seq<char>>,
    transactions: Option<Seq<SignedTransactionView>>,
    confirmed: bool,
)
    requires
        state.fund_after is None,
    ensures
        ({
            let responded = next(client, state, EventView::Response { status, body });
            let decoded = next(client, responded.0, EventView::Decoded { transactions });
            let waited = next(client, decoded.0, EventView::Waited { confirmed });
            let succeeded = responded.1 is Decode && decoded.1 is Wait && waited.1
                == (ActionView::Done { result: Ok(()) });
            let answered = body is Some && is_success(status) && is_hex_text(body->0);
            let read = transactions is Some && transactions->0.len() > 0;
            succeeded <==> (answered && read && confirmed)
        }),
{
}

/// A call succeeds only when a wait has ended in a confirmation.
pub proof fn lemma_success_follows_confirmation(
    client: FaucetClientView,
    state: Funding,
    event: EventView,
)
    requires
        next(client, state, event).1 == (ActionView::Done { result: Ok(()) }),
    ensures
        event == (EventView::Waited { confirmed: true }),
{
}

/// Once a call has ended, nothing can follow: the action `Done` leaves the
/// call finished, and a finished call accepts no event.
pub proof fn lemma_done_is_final(client: FaucetClientView, state: Funding, event: EventView)
    ensures
        (next(client, state, event).1 is Done) ==> (next(client, state, event).0.stage
            == Stage::Finished),
        state.stage == Stage::Finished ==> !accepts(state, event),
{
}

/// The action says where the call stands: a request leaves it awaiting the
/// response, bytes for the codec leave it awaiting the decoding, a wait leaves
/// it awaiting the confirmation, and `Done` leaves it finished. So the caller
/// who performs the action has an event that the call accepts.
pub proof fn lemma_stage_follows_action(client: FaucetClientView, state: Funding, event: EventView)
    ensures
        (next(client, state, event).1 is Post) <==> (next(client, state, event).0.stage
            == Stage::AwaitingResponse),
        (next(client, state, event).1 is Decode) <==> (next(client, state, event).0.stage
            == Stage::AwaitingDecode),
        (next(client, state, event).1 is Wait) <==> (next(client, state, event).0.stage
            == Stage::AwaitingConfirmation),
        (next(client, state, event).1 is Done) <==> (next(client, state, event).0.stage
            == Stage::Finished),
{
}

/// The number of events that a call in `state` can still take: three for each
/// phase that is still to run in full, fewer for the phase under way.
pub open spec fn steps_left(state: Funding) -> nat {
    let in_phase: nat = match state.stage {
        Stage::AwaitingResponse => 3,
        Stage::AwaitingDecode => 2,
        Stage::AwaitingConfirmation => 1,
        Stage::Finished => 0,
    };
    if state.stage != Stage::Finished && state.phase == Phase::CreateAccount
        && state.fund_after is Some {
        in_phase + 3
    } else {
        in_phase
    }
}

/// Every call ends: each event that a call accepts leaves it with fewer steps
/// to take, and a call begins with at most six.
pub proof fn lemma_every_step_brings_the_end_nearer(
    client: FaucetClientView,
    state: Funding,
    event: EventView,
)
    requires
        accepts(state, event),
    ensures
        steps_left(next(client, state, event).0) < steps_left(state),
        steps_left(state) <= 6,
{
}

/// In one phase at most one transaction is awaited: what follows a wait is the
/// end of the call or the request of the next phase.
pub proof fn lemma_one_wait_in_a_phase(client: FaucetClientView, state: Funding, event: EventView)
    requires
        state.stage == Stage::AwaitingConfirmation,
        accepts(state, event),
    ensures
        (next(client, state, event).1 is Done) || (next(client, state, event).1 is Post),
        (next(client, state, event).1 is Post) ==> (next(client, state, event).0.phase
            == Phase::Fund && state.phase == Phase::CreateAccount),
{
}

/// A call that creates and funds is the call that creates, followed by the
/// call that funds. It begins with the request of `create_account`. As long as
/// the account's creation is not confirmed, it answers every event with the
/// action of the call that only creates. When the creation is confirmed, it
/// goes on exactly as `fund` begins.
pub proof fn lemma_mint_is_create_account_then_fund(
    client: FaucetClientView,
    state: Funding,
    amount: u64,
    event: EventView,
)
    requires
        state.phase == Phase::CreateAccount,
    ensures
        begin(client, Phase::CreateAccount, state.public_key, 0, Some(amount)).1 == begin(
            client,
            Phase::CreateAccount,
            state.public_key,
            0,
            None,
        ).1,
        event != (EventView::Waited { confirmed: true }) ==> next(
            client,
            Funding { fund_after: Some(amount), ..state },
            event,
        ).1 == next(client, Funding { fund_after: None, ..state }, event).1,
        next(
            client,
            Funding { fund_after: Some(amount), ..state },
            EventView::Waited { confirmed: true },
        ) == begin(client, Phase::Fund, state.public_key, amount, None),
{
}

} // verus!
