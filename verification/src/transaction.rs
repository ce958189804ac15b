//! The transaction envelope: raw transactions, keys, signatures and signed
//! transactions, each with the mathematical view that contracts speak of.

use vstd::prelude::*;

verus! {

/// The address of an account on the network.
#[derive(Clone, Copy, Debug, PartialEq, Eq)]
pub struct AccountAddress {
    bytes: [u8; 32],
}

impl View for AccountAddress {
    type V = Seq<u8>;

    closed spec fn view(&self) -> Seq<u8> {
        self.bytes@
    }
}

impl AccountAddress {
    /// An address made of the given bytes.
    pub fn new(bytes: [u8; 32]) -> (address: AccountAddress)
        ensures
            address@ == bytes@,
    {
        AccountAddress { bytes }
    }

    /// The bytes of the address.
    pub fn to_bytes(&self) -> (bytes: [u8; 32])
        ensures
            bytes@ == self@,
    {
        self.bytes
    }
}

/// The network a transaction is valid for.
#[derive(Clone, Copy, Debug, PartialEq, Eq)]
pub struct ChainId {
    id: u8,
}

impl View for ChainId {
    type V = u8;

    closed spec fn view(&self) -> u8 {
        self.id
    }
}

impl ChainId {
    /// The chain with the given identifier.
    pub fn new(id: u8) -> (chain: ChainId)
        ensures
            chain@ == id,
    {
        ChainId { id }
    }

    /// The identifier of the chain.
    pub fn id(&self) -> (id: u8)
        ensures
            id == self@,
    {
        self.id
    }
}

/// What a transaction asks the network to do. The library never looks inside:
/// it carries the encoded operation from the caller to the signer.
#[derive(Clone, Debug, PartialEq, Eq)]
pub struct TransactionPayload {
    bytes: Vec<u8>,
}

impl View for TransactionPayload {
    type V = Seq<u8>;

    closed spec fn view(&self) -> Seq<u8> {
        self.bytes@
    }
}

impl TransactionPayload {
    /// A payload holding the given encoded operation.
    pub fn new(bytes: Vec<u8>) -> (payload: TransactionPayload)
        ensures
            payload@ == bytes@,
    {
        TransactionPayload { bytes }
    }

    /// The encoded operation.
    pub fn as_bytes(&self) -> (bytes: &Vec<u8>)
        ensures
            bytes@ == self@,
    {
        &self.bytes
    }

    /// The encoded operation, by value.
    pub fn into_bytes(self) -> (bytes: Vec<u8>)
        ensures
            bytes@ == self@,
    {
        self.bytes
    }
}

/// What a raw transaction is: the value of each of its fields.
pub struct RawTransactionView {
    pub sender: Seq<u8>,
    pub sequence_number: u64,
    pub payload: Seq<u8>,
    pub max_gas_amount: u64,
    pub gas_unit_price: u64,
    pub gas_currency_code: Seq<char>,
    pub expiration_timestamp_secs: u64,
    pub chain_id: u8,
}

/// An unsigned transaction envelope.
#[derive(Clone, Debug, PartialEq, Eq)]
pub struct RawTransaction {
    sender: AccountAddress,
    sequence_number: u64,
    payload: TransactionPayload,
    max_gas_amount: u64,
    gas_unit_price: u64,
    gas_currency_code: String,
    expiration_timestamp_secs: u64,
    chain_id: ChainId,
}

impl View for RawTransaction {
    type V = RawTransactionView;

    closed spec fn view(&self) -> RawTransactionView {
        RawTransactionView {
            sender: self.sender@,
            sequence_number: self.sequence_number,
            payload: self.payload@,
            max_gas_amount: self.max_gas_amount,
            gas_unit_price: self.gas_unit_price,
            gas_currency_code: self.gas_currency_code@,
            expiration_timestamp_secs: self.expiration_timestamp_secs,
            chain_id: self.chain_id@,
        }
    }
}

impl RawTransaction {
    /// A raw transaction with exactly the given fields. The expiration is an
    /// absolute time, in seconds since the Unix epoch.
    pub fn new(
        sender: AccountAddress,
        sequence_number: u64,
        payload: TransactionPayload,
        max_gas_amount: u64,
        gas_unit_price: u64,
        gas_currency_code: String,
        expiration_timestamp_secs: u64,
        chain_id: ChainId,
    ) -> (txn: RawTransaction)
        ensures
            txn@ == (RawTransactionView {
                sender: sender@,
                sequence_number,
                payload: payload@,
                max_gas_amount,
                gas_unit_price,
                gas_currency_code: gas_currency_code@,
                expiration_timestamp_secs,
                chain_id: chain_id@,
            }),
    {
        RawTransaction {
            sender,
            sequence_number,
            payload,
            max_gas_amount,
            gas_unit_price,
            gas_currency_code,
            expiration_timestamp_secs,
            chain_id,
        }
    }

    /// The address of the sending account.
    pub fn sender(&self) -> (sender: AccountAddress)
        ensures
            sender@ == self@.sender,
    {
        self.sender
    }

    /// The sequence number of the transaction in its sender's account.
    pub fn sequence_number(&self) -> (n: u64)
        ensures
            n == self@.sequence_number,
    {
        self.sequence_number
    }

    /// The operation the transaction asks for.
    pub fn payload(&self) -> (payload: &TransactionPayload)
        ensures
            payload@ == self@.payload,
    {
        &self.payload
    }

    /// The most gas units the transaction may use.
    pub fn max_gas_amount(&self) -> (n: u64)
        ensures
            n == self@.max_gas_amount,
    {
        self.max_gas_amount
    }

    /// The price offered for one unit of gas.
    pub fn gas_unit_price(&self) -> (n: u64)
        ensures
            n == self@.gas_unit_price,
    {
        self.gas_unit_price
    }

    /// The currency in which gas is paid.
    pub fn gas_currency_code(&self) -> (code: &str)
        ensures
            code@ == self@.gas_currency_code,
    {
        self.gas_currency_code.as_str()
    }

    /// The time after which the transaction is no longer valid, in seconds
    /// since the Unix epoch.
    pub fn expiration_timestamp_secs(&self) -> (secs: u64)
        ensures
            secs == self@.expiration_timestamp_secs,
    {
        self.expiration_timestamp_secs
    }

    /// The chain the transaction is valid for.
    pub fn chain_id(&self) -> (chain: ChainId)
        ensures
            chain@ == self@.chain_id,
    {
        self.chain_id
    }
}

/// The public half of an Ed25519 key pair.
#[derive(Clone, Copy, Debug, PartialEq, Eq)]
pub struct Ed25519PublicKey {
    bytes: [u8; 32],
}

impl View for Ed25519PublicKey {
    type V = Seq<u8>;

    closed spec fn view(&self) -> Seq<u8> {
        self.bytes@
    }
}

impl Ed25519PublicKey {
    /// The public key with the given bytes.
    pub fn new(bytes: [u8; 32]) -> (key: Ed25519PublicKey)
        ensures
            key@ == bytes@,
    {
        Ed25519PublicKey { bytes }
    }

    /// The bytes of the key.
    pub fn to_bytes(&self) -> (bytes: [u8; 32])
        ensures
            bytes@ == self@,
    {
        self.bytes
    }
}

/// An Ed25519 signature.
#[derive(Clone, Copy, Debug, PartialEq, Eq)]
pub struct Ed25519Signature {
    bytes: [u8; 64],
}

impl View for Ed25519Signature {
    type V = Seq<u8>;

    closed spec fn view(&self) -> Seq<u8> {
        self.bytes@
    }
}

impl Ed25519Signature {
    /// The signature with the given bytes.
    pub fn new(bytes: [u8; 64]) -> (signature: Ed25519Signature)
        ensures
            signature@ == bytes@,
    {
        Ed25519Signature { bytes }
    }

    /// The bytes of the signature.
    pub fn to_bytes(&self) -> (bytes: [u8; 64])
        ensures
            bytes@ == self@,
    {
        self.bytes
    }
}

/// What a signed transaction is: a raw transaction, the key of the signer and
/// the signature over the raw transaction.
pub struct SignedTransactionView {
    pub raw_txn: RawTransactionView,
    pub public_key: Seq<u8>,
    pub signature: Seq<u8>,
}

/// A raw transaction bound to a public key and a signature. Its fields are set
/// once, by `new`, and can only be read afterwards.
#[derive(Clone, Debug, PartialEq, Eq)]
pub struct SignedTransaction {
    raw_txn: RawTransaction,
    public_key: Ed25519PublicKey,
    signature: Ed25519Signature,
}

impl View for SignedTransaction {
    type V = SignedTransactionView;

    closed spec fn view(&self) -> SignedTransactionView {
        SignedTransactionView {
            raw_txn: self.raw_txn@,
            public_key: self.public_key@,
            signature: self.signature@,
        }
    }
}

impl SignedTransaction {
    /// Binds the raw transaction to the key and the signature, unchanged.
    pub fn new(
        raw_txn: RawTransaction,
        public_key: Ed25519PublicKey,
        signature: Ed25519Signature,
    ) -> (txn: SignedTransaction)
        ensures
            txn@ == (SignedTransactionView {
                raw_txn: raw_txn@,
                public_key: public_key@,
                signature: signature@,
            }),
    {
        SignedTransaction { raw_txn, public_key, signature }
    }

    /// The raw transaction that was signed.
    pub fn raw_txn(&self) -> (raw_txn: &RawTransaction)
        ensures
            raw_txn@ == self@.raw_txn,
    {
        &self.raw_txn
    }

    /// The raw transaction that was signed, by value.
    pub fn into_raw_transaction(self) -> (raw_txn: RawTransaction)
        ensures
            raw_txn@ == self@.raw_txn,
    {
        self.raw_txn
    }

    /// The public key of the signer.
    pub fn public_key(&self) -> (key: Ed25519PublicKey)
        ensures
            key@ == self@.public_key,
    {
        self.public_key
    }

    /// The signature over the raw transaction.
    pub fn signature(&self) -> (signature: Ed25519Signature)
        ensures
            signature@ == self@.signature,
    {
        self.signature
    }
}

} // verus!
