//! The log decoder.
//!
//! A raw log carries a vector of 32-byte indexed topics and a data blob.
//! The first topic is the keccak-256 hash of the event's canonical
//! signature; the decoder matches it against the four precomputed
//! signature hashes of the token contract and reads the event's fields
//! from the remaining topics (an address is the last 20 bytes of its
//! topic word) and from the data blob (a 32-byte big-endian value).
//!
//! An unknown first topic is not an error: the log is dropped. A malformed
//! payload for a matched signature is a decode error surfaced to the
//! caller. The decoder is pure: its result is pinned to `spec_decode` of
//! the log alone.

use vstd::prelude::*;

use crate::error::CoreError;
use crate::primitives::{be_val, Address, U256};
use crate::subscriber::model::{Event, EventV, RawLog};

verus! {

/// The keccak-256 digest of the UTF-8 bytes of a string. The digest is a
/// function of the string alone, the same in every process.
pub uninterp spec fn keccak_of(s: Seq<char>) -> Seq<u8>;

/// Relies on `alloy::primitives::keccak256` for the keccak-256 digest of
/// the string's UTF-8 bytes: 32 bytes, determined by the input alone.
#[verifier::external_body]
fn keccak256_str(s: &str) -> (r: Vec<u8>)
    ensures
        r@ == keccak_of(s@),
        r@.len() == 32,
{
    alloy::primitives::keccak256(s.as_bytes()).to_vec()
}

/// The signature hash of `Approval(address,address,uint256)`.
pub open spec fn approval_sig_hash() -> Seq<u8> {
    keccak_of("Approval(address,address,uint256)"@)
}

/// The signature hash of `Transfer(address,address,uint256)`.
pub open spec fn transfer_sig_hash() -> Seq<u8> {
    keccak_of("Transfer(address,address,uint256)"@)
}

/// The signature hash of `Deposit(address,uint256)`.
pub open spec fn deposit_sig_hash() -> Seq<u8> {
    keccak_of("Deposit(address,uint256)"@)
}

/// The signature hash of `Withdrawal(address,uint256)`.
pub open spec fn withdrawal_sig_hash() -> Seq<u8> {
    keccak_of("Withdrawal(address,uint256)"@)
}

/// The signature hash of `Approval(address,address,uint256)`, as bytes.
pub fn approval_signature_hash() -> (r: Vec<u8>)
    ensures
        r@ == approval_sig_hash(),
        r@.len() == 32,
{
    keccak256_str("Approval(address,address,uint256)")
}

/// The signature hash of `Transfer(address,address,uint256)`, as bytes.
pub fn transfer_signature_hash() -> (r: Vec<u8>)
    ensures
        r@ == transfer_sig_hash(),
        r@.len() == 32,
{
    keccak256_str("Transfer(address,address,uint256)")
}

/// The signature hash of `Deposit(address,uint256)`, as bytes.
pub fn deposit_signature_hash() -> (r: Vec<u8>)
    ensures
        r@ == deposit_sig_hash(),
        r@.len() == 32,
{
    keccak256_str("Deposit(address,uint256)")
}

/// The signature hash of `Withdrawal(address,uint256)`, as bytes.
pub fn withdrawal_signature_hash() -> (r: Vec<u8>)
    ensures
        r@ == withdrawal_sig_hash(),
        r@.len() == 32,
{
    keccak256_str("Withdrawal(address,uint256)")
}

/// What decoding a raw log comes to.
pub enum LogDecode {
    /// The first topic matched a signature and the payload fit: this is
    /// the decoded event.
    Event(EventV),
    /// No first topic, or one that matches no signature of the contract:
    /// the log is dropped.
    Unknown,
    /// The first topic matched a signature but the payload does not fit
    /// its shape.
    Malformed,
}

/// Whether the topic vector and data blob fit an event with two indexed
/// address parameters.
pub open spec fn fits_two_address_event(topics: Seq<Seq<u8>>, data: Seq<u8>) -> bool {
    topics.len() == 3 && topics[1].len() == 32 && topics[2].len() == 32 && data.len() == 32
}

/// Whether the topic vector and data blob fit an event with one indexed
/// address parameter.
pub open spec fn fits_one_address_event(topics: Seq<Seq<u8>>, data: Seq<u8>) -> bool {
    topics.len() == 2 && topics[1].len() == 32 && data.len() == 32
}

/// The decoding of a raw log: match the first topic against the four
/// signature hashes, then read the fields.
pub open spec fn spec_decode(topics: Seq<Seq<u8>>, data: Seq<u8>) -> LogDecode {
    if topics.len() == 0 {
        LogDecode::Unknown
    } else if topics[0] == approval_sig_hash() {
        if fits_two_address_event(topics, data) {
            LogDecode::Event(EventV::Approval {
                from: topics[1].subrange(12, 32),
                to: topics[2].subrange(12, 32),
                value: be_val(data),
            })
        } else {
            LogDecode::Malformed
        }
    } else if topics[0] == transfer_sig_hash() {
        if fits_two_address_event(topics, data) {
            LogDecode::Event(EventV::Transfer {
                from: topics[1].subrange(12, 32),
                to: topics[2].subrange(12, 32),
                value: be_val(data),
            })
        } else {
            LogDecode::Malformed
        }
    } else if topics[0] == deposit_sig_hash() {
        if fits_one_address_event(topics, data) {
            LogDecode::Event(EventV::Deposit {
                to: topics[1].subrange(12, 32),
                value: be_val(data),
            })
        } else {
            LogDecode::Malformed
        }
    } else if topics[0] == withdrawal_sig_hash() {
        if fits_one_address_event(topics, data) {
            LogDecode::Event(EventV::Withdrawal {
                from: topics[1].subrange(12, 32),
                value: be_val(data),
            })
        } else {
            LogDecode::Malformed
        }
    } else {
        LogDecode::Unknown
    }
}

/// Byte-for-byte equality of two byte vectors.
fn bytes_eq(a: &Vec<u8>, b: &Vec<u8>) -> (r: bool)
    ensures
        r <==> a@ == b@,
{
    let n: usize = a.len();
    if n != b.len() {
        proof {
            assert(a@.len() != b@.len());
        }
        return false;
    }
    let mut i: usize = 0;
    while i < n
        invariant
            n == a@.len(),
            n == b@.len(),
            i <= n,
            forall|k: int| 0 <= k < i ==> a@[k] == b@[k],
        decreases n - i,
    {
        if a[i] != b[i] {
            return false;
        }
        i = i + 1;
    }
    proof {
        assert(a@ =~= b@);
    }
    true
}

/// Decode a raw log into a typed event.
///
/// Returns the event when the first topic matches a signature and the
/// payload fits; `None` when the log matches no signature of the contract
/// and is to be dropped with a warning; a decode error when a matched
/// log's payload does not fit.
pub fn decode_log(log: &RawLog) -> (r: Result<Option<Event>, CoreError>)
    ensures
        match r {
            Ok(Some(e)) => spec_decode(log.topics.deep_view(), log.data@) == LogDecode::Event(e@),
            Ok(None) => spec_decode(log.topics.deep_view(), log.data@) is Unknown,
            Err(err) => spec_decode(log.topics.deep_view(), log.data@) is Malformed
                && err is DecodeError,
        },
{
    let topics = &log.topics;
    let data = &log.data;
    let ghost tv = topics.deep_view();
    proof {
        assert(tv.len() == topics@.len());
        assert(forall|i: int| 0 <= i < topics@.len() ==> tv[i] =~= (#[trigger] topics@[i])@);
    }
    if topics.len() == 0 {
        return Ok(None);
    }
    let topic0 = &topics[0];
    let approval = keccak256_str("Approval(address,address,uint256)");
    let transfer = keccak256_str("Transfer(address,address,uint256)");
    let deposit = keccak256_str("Deposit(address,uint256)");
    let withdrawal = keccak256_str("Withdrawal(address,uint256)");

    if bytes_eq(topic0, &approval) {
        if topics.len() == 3 && topics[1].len() == 32 && topics[2].len() == 32 && data.len() == 32 {
            let from = Address::from_word(&topics[1]);
            let to = Address::from_word(&topics[2]);
            let value = U256::from_be_bytes(data);
            Ok(Some(Event::Approval { from, to, value }))
        } else {
            Err(CoreError::DecodeError(
                "log payload does not fit the matched event signature".to_owned(),
            ))
        }
    } else if bytes_eq(topic0, &transfer) {
        if topics.len() == 3 && topics[1].len() == 32 && topics[2].len() == 32 && data.len() == 32 {
            let from = Address::from_word(&topics[1]);
            let to = Address::from_word(&topics[2]);
            let value = U256::from_be_bytes(data);
            Ok(Some(Event::Transfer { from, to, value }))
        } else {
            Err(CoreError::DecodeError(
                "log payload does not fit the matched event signature".to_owned(),
            ))
        }
    } else if bytes_eq(topic0, &deposit) {
        if topics.len() == 2 && topics[1].len() == 32 && data.len() == 32 {
            let to = Address::from_word(&topics[1]);
            let value = U256::from_be_bytes(data);
            Ok(Some(Event::Deposit { to, value }))
        } else {
            Err(CoreError::DecodeError(
                "log payload does not fit the matched event signature".to_owned(),
            ))
        }
    } else if bytes_eq(topic0, &withdrawal) {
        if topics.len() == 2 && topics[1].len() == 32 && data.len() == 32 {
            let from = Address::from_word(&topics[1]);
            let value = U256::from_be_bytes(data);
            Ok(Some(Event::Withdrawal { from, value }))
        } else {
            Err(CoreError::DecodeError(
                "log payload does not fit the matched event signature".to_owned(),
            ))
        }
    } else {
        Ok(None)
    }
}

/// The decoder is pure: what a log decodes to is a function of its topics
/// and data alone, so equal inputs yield equal outputs. The one outside
/// computation it rests on, the keccak-256 digest, is itself a function of
/// its argument alone.
pub proof fn lemma_decoder_pure(
    topics1: Seq<Seq<u8>>,
    data1: Seq<u8>,
    topics2: Seq<Seq<u8>>,
    data2: Seq<u8>,
)
    requires
        topics1 == topics2,
        data1 == data2,
    ensures
        spec_decode(topics1, data1) == spec_decode(topics2, data2),
{
}

} // verus!
