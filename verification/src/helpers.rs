//! Building a raw transaction whose expiration is counted from the moment of
//! the call, and signing it through a pluggable signer.

use crate::clock::unix_time_secs;
use crate::transaction::{
    AccountAddress, ChainId, Ed25519PublicKey, Ed25519Signature, RawTransaction,
    RawTransactionView, SignedTransaction, SignedTransactionView, TransactionPayload,
};
use vstd::prelude::*;

verus! {

/// The absolute expiration of a transaction built at time `now_secs` that is
/// to stay valid for `duration_secs`: their sum. A sum before the epoch, which
/// an expiration cannot hold, gives the epoch itself: the earliest time there
/// is, so that such a transaction has expired when it is built. The sum of two
/// signed 64-bit numbers never lies above what an expiration can hold.
pub open spec fn expiration_at(now_secs: i64, duration_secs: i64) -> u64 {
    if now_secs + duration_secs < 0 {
        0
    } else {
        (now_secs + duration_secs) as u64
    }
}

/// The raw transaction that is built at time `now_secs` from the given fields.
pub open spec fn unsigned_txn_at(
    now_secs: i64,
    payload: Seq<u8>,
    sender_address: Seq<u8>,
    sender_sequence_number: u64,
    max_gas_amount: u64,
    gas_unit_price: u64,
    gas_currency_code: Seq<char>,
    txn_expiration_duration_secs: i64,
    chain_id: u8,
) -> RawTransactionView {
    RawTransactionView {
        sender: sender_address,
        sequence_number: sender_sequence_number,
        payload,
        max_gas_amount,
        gas_unit_price,
        gas_currency_code,
        expiration_timestamp_secs: expiration_at(now_secs, txn_expiration_duration_secs),
        chain_id,
    }
}

/// Computes `expiration_at` with machine integers.
fn expiration_secs(now_secs: i64, duration_secs: i64) -> (secs: u64)
    ensures
        secs == expiration_at(now_secs, duration_secs),
{
    let sum: i128 = now_secs as i128 + duration_secs as i128;
    if sum < 0 {
        0
    } else {
        sum as u64
    }
}

/// Builds the raw transaction as of the time `now_secs`, in seconds since the
/// Unix epoch. Every field is the caller's, except the expiration, which is
/// `now_secs + txn_expiration_duration_secs`, or the epoch where that sum lies
/// before it.
pub fn create_unsigned_txn_at(
    now_secs: i64,
    payload: TransactionPayload,
    sender_address: AccountAddress,
    sender_sequence_number: u64,
    max_gas_amount: u64,
    gas_unit_price: u64,
    gas_currency_code: String,
    txn_expiration_duration_secs: i64,
    chain_id: ChainId,
) -> (txn: RawTransaction)
    ensures
        txn@ == unsigned_txn_at(
            now_secs,
            payload@,
            sender_address@,
            sender_sequence_number,
            max_gas_amount,
            gas_unit_price,
            gas_currency_code@,
            txn_expiration_duration_secs,
            chain_id@,
        ),
{
    RawTransaction::new(
        sender_address,
        sender_sequence_number,
        payload,
        max_gas_amount,
        gas_unit_price,
        gas_currency_code,
        expiration_secs(now_secs, txn_expiration_duration_secs),
        chain_id,
    )
}

/// Builds a raw transaction that expires `txn_expiration_duration_secs` after
/// the moment of this call. The clock is read once, during the call; what it
/// showed is the `now_secs` of the contract.
pub fn create_unsigned_txn(
    payload: TransactionPayload,
    sender_address: AccountAddress,
    sender_sequence_number: u64,
    max_gas_amount: u64,
    gas_unit_price: u64,
    gas_currency_code: String,
    txn_expiration_duration_secs: i64,
    chain_id: ChainId,
) -> (txn: RawTransaction)
    ensures
        exists|now_secs: i64|
            txn@ == #[trigger] unsigned_txn_at(
                now_secs,
                payload@,
                sender_address@,
                sender_sequence_number,
                max_gas_amount,
                gas_unit_price,
                gas_currency_code@,
                txn_expiration_duration_secs,
                chain_id@,
            ),
{
    let now_secs: i64 = unix_time_secs();
    create_unsigned_txn_at(
        now_secs,
        payload,
        sender_address,
        sender_sequence_number,
        max_gas_amount,
        gas_unit_price,
        gas_currency_code,
        txn_expiration_duration_secs,
        chain_id,
    )
}

/// Whenever the sum of the time of the call and the duration does not lie
/// before the epoch, the expiration of the transaction built at that time is
/// that sum: less the duration, it is the time of the call.
pub proof fn lemma_expiration_is_now_plus_duration(now_secs: i64, duration_secs: i64)
    requires
        0 <= now_secs + duration_secs,
    ensures
        expiration_at(now_secs, duration_secs) == now_secs + duration_secs,
        expiration_at(now_secs, duration_secs) - duration_secs == now_secs,
{
}

/// An expiration never lies later than the time of the call plus the
/// duration, unless that sum lies before the epoch; then it is the epoch. So
/// with a clock at or after the epoch, a duration that is not positive never
/// gives an expiration after the call.
pub proof fn lemma_expiration_is_never_late(now_secs: i64, duration_secs: i64)
    ensures
        now_secs + duration_secs < 0 ==> expiration_at(now_secs, duration_secs) == 0,
        0 <= now_secs && duration_secs <= 0 ==> expiration_at(now_secs, duration_secs)
            <= now_secs,
{
}

/// Why a signer could not sign.
#[derive(Clone, Debug, PartialEq, Eq)]
pub struct SigningError {
    reason: String,
}

impl View for SigningError {
    type V = Seq<char>;

    closed spec fn view(&self) -> Seq<char> {
        self.reason@
    }
}

impl SigningError {
    /// A signing failure with the given reason.
    pub fn new(reason: String) -> (error: SigningError)
        ensures
            error@ == reason@,
    {
        SigningError { reason }
    }

    /// The reason of the failure.
    pub fn reason(&self) -> (reason: &str)
        ensures
            reason@ == self@,
    {
        self.reason.as_str()
    }
}

/// Whoever can turn a raw transaction into a signed one.
///
/// Every signer owes one thing: the signed transaction it hands back holds
/// the raw transaction it was given, field for field. Whether it succeeds is
/// its own affair.
pub trait TransactionSigner {
    fn sign_txn(&self, raw_txn: RawTransaction) -> (signed: Result<SignedTransaction, SigningError>)
        ensures
            signed matches Ok(txn) ==> txn@.raw_txn == raw_txn@,
    ;
}

/// A private key: whatever computes a signature over a raw transaction.
pub trait SigningKey {
    fn sign(&self, message: &RawTransaction) -> Ed25519Signature;
}

/// A private key together with the public key that belongs to it.
pub struct KeyPair<S> {
    pub private_key: S,
    pub public_key: Ed25519PublicKey,
}

impl<S: SigningKey> TransactionSigner for KeyPair<S> {
    /// Signs with the private key and binds the raw transaction, untouched, to
    /// the pair's public key and to the signature that the key computed. This
    /// signer never fails.
    fn sign_txn(&self, raw_txn: RawTransaction) -> (signed: Result<SignedTransaction, SigningError>)
        ensures
            signed is Ok,
            exists|signature: Ed25519Signature|
                {
                    &&& #[trigger] call_ensures(S::sign, (&self.private_key, &raw_txn), signature)
                    &&& signed->Ok_0@ == (SignedTransactionView {
                        raw_txn: raw_txn@,
                        public_key: self.public_key@,
                        signature: signature@,
                    })
                },
    {
        let signature = self.private_key.sign(&raw_txn);
        Ok(SignedTransaction::new(raw_txn, self.public_key, signature))
    }
}

/// Builds a raw transaction that expires `txn_expiration_duration_secs` after
/// the moment of this call, and has `signer` sign it.
///
/// The result is what the signer returned for that raw transaction; a signed
/// transaction holds it unchanged.
pub fn create_user_txn<T: TransactionSigner + ?Sized>(
    signer: &T,
    payload: TransactionPayload,
    sender_address: AccountAddress,
    sender_sequence_number: u64,
    max_gas_amount: u64,
    gas_unit_price: u64,
    gas_currency_code: String,
    txn_expiration_duration_secs: i64,
    chain_id: ChainId,
) -> (signed: Result<SignedTransaction, SigningError>)
    ensures
        exists|now_secs: i64, raw_txn: RawTransaction|
            {
                &&& raw_txn@ == #[trigger] unsigned_txn_at(
                    now_secs,
                    payload@,
                    sender_address@,
                    sender_sequence_number,
                    max_gas_amount,
                    gas_unit_price,
                    gas_currency_code@,
                    txn_expiration_duration_secs,
                    chain_id@,
                )
                &&& #[trigger] call_ensures(T::sign_txn, (signer, raw_txn), signed)
                &&& signed matches Ok(txn) ==> txn@.raw_txn == raw_txn@
            },
{
    let now_secs: i64 = unix_time_secs();
    create_user_txn_at(
        signer,
        now_secs,
        payload,
        sender_address,
        sender_sequence_number,
        max_gas_amount,
        gas_unit_price,
        gas_currency_code,
        txn_expiration_duration_secs,
        chain_id,
    )
}

/// Builds the raw transaction as of the time `now_secs` and has `signer` sign
/// it.
pub fn create_user_txn_at<T: TransactionSigner + ?Sized>(
    signer: &T,
    now_secs: i64,
    payload: TransactionPayload,
    sender_address: AccountAddress,
    sender_sequence_number: u64,
    max_gas_amount: u64,
    gas_unit_price: u64,
    gas_currency_code: String,
    txn_expiration_duration_secs: i64,
    chain_id: ChainId,
) -> (signed: Result<SignedTransaction, SigningError>)
    ensures
        exists|raw_txn: RawTransaction|
            {
                &&& raw_txn@ == unsigned_txn_at(
                    now_secs,
                    payload@,
                    sender_address@,
                    sender_sequence_number,
                    max_gas_amount,
                    gas_unit_price,
                    gas_currency_code@,
                    txn_expiration_duration_secs,
                    chain_id@,
                )
                &&& #[trigger] call_ensures(T::sign_txn, (signer, raw_txn), signed)
            },
        signed matches Ok(txn) ==> txn@.raw_txn == unsigned_txn_at(
            now_secs,
            payload@,
            sender_address@,
            sender_sequence_number,
            max_gas_amount,
            gas_unit_price,
            gas_currency_code@,
            txn_expiration_duration_secs,
            chain_id@,
        ),
{
    let raw_txn = create_unsigned_txn_at(
        now_secs,
        payload,
        sender_address,
        sender_sequence_number,
        max_gas_amount,
        gas_unit_price,
        gas_currency_code,
        txn_expiration_duration_secs,
        chain_id,
    );
    signer.sign_txn(raw_txn)
}

/// Signing does not touch the transaction. Whatever a signer returned for a
/// raw transaction, a codec that writes raw transactions writes for the one
/// inside the signed transaction the very bytes that it writes for the one
/// that went to the signer.
pub proof fn lemma_signing_keeps_the_encoding<T: TransactionSigner + ?Sized>(
    signer: &T,
    raw_txn: RawTransaction,
    signed: SignedTransaction,
    encode: spec_fn(RawTransactionView) -> Seq<u8>,
)
    requires
        call_ensures(T::sign_txn, (signer, raw_txn), Ok::<SignedTransaction, SigningError>(signed)),
    ensures
        signed@.raw_txn == raw_txn@,
        encode(signed@.raw_txn) == encode(raw_txn@),
{
}

} // verus!
