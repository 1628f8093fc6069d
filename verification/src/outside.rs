//! What the library takes on trust from the `bitcoin` and `monero` crates:
//! the types it carries through and the calls it makes on them. Nothing in
//! this file is proved; each contract repeats what the crate's source shows.
use vstd::prelude::*;

verus! {

/// `bitcoin::Txid`: the 32-byte hash that names a transaction.
#[verifier::external_type_specification]
#[verifier::external_body]
pub struct ExTxid(bitcoin::Txid);

/// `bitcoin::Transaction`: a decoded transaction.
#[verifier::external_type_specification]
#[verifier::external_body]
pub struct ExTransaction(bitcoin::Transaction);

/// `bitcoin::Address`: a payload and the network it is meant for.
#[verifier::external_type_specification]
#[verifier::external_body]
pub struct ExAddress(bitcoin::Address);

/// `bitcoin::secp256k1::SecretKey`: a secret key of the arbitrating chain.
#[verifier::external_type_specification]
#[verifier::external_body]
pub struct ExSecretKey(bitcoin::secp256k1::SecretKey);

/// `monero::PublicKey`: a public key of the accordant chain.
#[verifier::external_type_specification]
#[verifier::external_body]
pub struct ExXmrPublicKey(monero::PublicKey);

/// `monero::PrivateKey`: a private key of the accordant chain.
#[verifier::external_type_specification]
#[verifier::external_body]
pub struct ExXmrPrivateKey(monero::PrivateKey);

/// `monero::Address`: an address of the accordant chain.
#[verifier::external_type_specification]
#[verifier::external_body]
pub struct ExXmrAddress(monero::Address);

/// The 32 bytes of a transaction id, in the order the `bitcoin` crate keeps
/// them in memory.
pub uninterp spec fn txid_bytes(txid: bitcoin::Txid) -> Seq<u8>;

/// The consensus encoding of a transaction, as `bitcoin::consensus::serialize`
/// writes it.
pub uninterp spec fn consensus_encoding(tx: bitcoin::Transaction) -> Seq<u8>;

/// The transaction that `Transaction::consensus_decode` reads from the front
/// of `bytes`, or `None` where it reports an error.
pub uninterp spec fn consensus_decoding(bytes: Seq<u8>) -> Option<bitcoin::Transaction>;

/// Copies the bytes of a `bitcoin::Txid` out with the slice method `to_vec`,
/// reached through the id's `Deref` to a byte slice over its hash. The
/// contract names the bytes and gives their number, which the hash type
/// fixes at 32.
#[verifier::external_body]
pub(crate) fn txid_to_vec(txid: &bitcoin::Txid) -> (bytes: Vec<u8>)
    ensures
        bytes@ == txid_bytes(*txid),
        bytes@.len() == 32,
{
    txid.to_vec()
}

/// Calls `bitcoin::consensus::serialize` on a transaction. It writes into a
/// vector in memory and cannot fail; the contract names the bytes it returns.
#[verifier::external_body]
pub(crate) fn serialize_tx(tx: &bitcoin::Transaction) -> (bytes: Vec<u8>)
    ensures
        bytes@ == consensus_encoding(*tx),
{
    bitcoin::consensus::serialize(tx)
}

/// Calls `bitcoin::Transaction::consensus_decode` on a cursor over a copy of
/// the bytes and keeps the transaction, dropping the error. Bytes behind the
/// transaction are not an error. The contract names the outcome.
#[verifier::external_body]
pub(crate) fn decode_tx(bytes: &Vec<u8>) -> (tx: Option<bitcoin::Transaction>)
    ensures
        tx == consensus_decoding(bytes@),
{
    let cursor = std::io::Cursor::new(bytes.clone());
    match <bitcoin::Transaction as bitcoin::consensus::Decodable>::consensus_decode(cursor) {
        Ok(tx) => Some(tx),
        Err(_) => None,
    }
}

/// Calls `Clone::clone` on a `bitcoin::Address`, which the crate derives: the
/// copy has the same payload and network.
#[verifier::external_body]
pub(crate) fn clone_address(address: &bitcoin::Address) -> (copy: bitcoin::Address)
    ensures
        copy == *address,
{
    address.clone()
}

} // verus!
