//! The fixed envelope codec for contract entry points.
//!
//! Before the sandboxed engine runs a contract, the block environment and
//! the message info are serialized into byte envelopes.  The byte layout is
//! fixed and self-describing: integers are little-endian, variable-length
//! fields carry a four-byte length prefix, so nothing depends on implicit
//! terminators.  A field too long for its length prefix is a serialization
//! failure, reported as a typed error and never retried.

use vstd::prelude::*;

use vstd::bytes::{u128_to_le_bytes, u32_to_le_bytes, u64_to_le_bytes};
use vstd::bytes::{spec_u128_to_le_bytes, spec_u32_to_le_bytes, spec_u64_to_le_bytes};
use vstd::string::StrSliceExecFns;
use vstd::string::StringSliceAdditionalSpecFns;
use vstd::utf8::encode_utf8;

use crate::error::DispatchError;

verus! {

/// Block-level environment handed to the contract entry point.
pub struct BlockEnv {
    pub height: u64,
    pub time: u64,
    pub chain_id: String,
}

/// One denomination of transferred value.
pub struct Coin {
    pub denom: String,
    pub amount: u128,
}

/// Message-level info handed to the contract entry point: who sent the
/// message and what value rides along with it.
pub struct MessageInfo {
    pub sender: String,
    pub funds: Vec<Coin>,
}

impl MessageInfo {
    /// Whether this message carries value that must be transferred before
    /// the call context is resolved.
    pub open spec fn spec_carries_value(self) -> bool {
        self.funds@.len() > 0
    }

    /// Whether this message carries value.
    pub fn carries_value(&self) -> (r: bool)
        ensures
            r == self.spec_carries_value(),
    {
        self.funds.len() > 0
    }
}

/// A variable-length field: four little-endian length bytes, then the data.
pub open spec fn spec_prefixed(b: Seq<u8>) -> Seq<u8> {
    spec_u32_to_le_bytes(b.len() as u32) + b
}

/// Whether a character string fits behind a four-byte length prefix.
pub open spec fn spec_str_encodable(s: Seq<char>) -> bool {
    encode_utf8(s).len() <= u32::MAX
}

/// Byte layout of the block environment envelope.
pub open spec fn spec_env_bytes(env: BlockEnv) -> Seq<u8> {
    spec_u64_to_le_bytes(env.height) + spec_u64_to_le_bytes(env.time) + spec_prefixed(
        encode_utf8(env.chain_id@),
    )
}

/// Whether the block environment can be serialized at all.
pub open spec fn spec_env_encodable(env: BlockEnv) -> bool {
    spec_str_encodable(env.chain_id@)
}

/// Byte layout of one coin.
pub open spec fn spec_coin_bytes(c: Coin) -> Seq<u8> {
    spec_prefixed(encode_utf8(c.denom@)) + spec_u128_to_le_bytes(c.amount)
}

/// Byte layout of a coin list, in order.
pub open spec fn spec_funds_bytes(funds: Seq<Coin>) -> Seq<u8>
    decreases funds.len(),
{
    if funds.len() == 0 {
        Seq::empty()
    } else {
        spec_funds_bytes(funds.drop_last()) + spec_coin_bytes(funds.last())
    }
}

/// Byte layout of the message info envelope.
pub open spec fn spec_info_bytes(info: MessageInfo) -> Seq<u8> {
    spec_prefixed(encode_utf8(info.sender@)) + spec_u32_to_le_bytes(
        info.funds@.len() as u32,
    ) + spec_funds_bytes(info.funds@)
}

/// Whether the message info can be serialized at all.
pub open spec fn spec_info_encodable(info: MessageInfo) -> bool {
    &&& spec_str_encodable(info.sender@)
    &&& info.funds@.len() <= u32::MAX
    &&& forall|i: int| 0 <= i < info.funds@.len() ==> spec_str_encodable(#[trigger] info.funds@[i].denom@)
}

/// Message of the serialization failure.
pub open spec fn spec_serialization_message() -> Seq<char> {
    "envelope field exceeds the length-prefix limit"@
}

fn serialization_error() -> (r: DispatchError)
    ensures
        ({
            &&& r matches DispatchError::Serialization { message }
            &&& message@ == spec_serialization_message()
        }),
{
    DispatchError::Serialization {
        message: String::from_str("envelope field exceeds the length-prefix limit"),
    }
}

/// Appends a length-prefixed string field, or fails when the string's UTF-8
/// form does not fit behind the prefix.
fn push_prefixed_str(out: &mut Vec<u8>, s: &String) -> (r: bool)
    ensures
        r == spec_str_encodable(s@),
        r ==> final(out)@ == old(out)@ + spec_prefixed(encode_utf8(s@)),
        !r ==> final(out)@ == old(out)@,
{
    let mut bytes = s.as_str().as_bytes_vec();
    if bytes.len() as u64 > u32::MAX as u64 {
        return false;
    }
    let mut prefix = u32_to_le_bytes(bytes.len() as u32);
    out.append(&mut prefix);
    out.append(&mut bytes);
    true
}

/// Serializes the block environment envelope.
pub fn encode_env(env: &BlockEnv) -> (r: Result<Vec<u8>, DispatchError>)
    ensures
        spec_env_encodable(*env) ==> (r matches Ok(v) && v@ == spec_env_bytes(*env)),
        !spec_env_encodable(*env) ==> ({
            &&& r matches Err(e)
            &&& e matches DispatchError::Serialization { message }
            &&& message@ == spec_serialization_message()
        }),
{
    let mut out = u64_to_le_bytes(env.height);
    let mut time_bytes = u64_to_le_bytes(env.time);
    out.append(&mut time_bytes);
    if !push_prefixed_str(&mut out, &env.chain_id) {
        return Err(serialization_error());
    }
    proof {
        assert(out@ =~= spec_env_bytes(*env));
    }
    Ok(out)
}

/// Serializes the message info envelope.
pub fn encode_info(info: &MessageInfo) -> (r: Result<Vec<u8>, DispatchError>)
    ensures
        spec_info_encodable(*info) ==> (r matches Ok(v) && v@ == spec_info_bytes(*info)),
        !spec_info_encodable(*info) ==> ({
            &&& r matches Err(e)
            &&& e matches DispatchError::Serialization { message }
            &&& message@ == spec_serialization_message()
        }),
{
    let mut out: Vec<u8> = Vec::new();
    if !push_prefixed_str(&mut out, &info.sender) {
        return Err(serialization_error());
    }
    let n = info.funds.len();
    if n as u64 > u32::MAX as u64 {
        return Err(serialization_error());
    }
    let mut count = u32_to_le_bytes(n as u32);
    out.append(&mut count);
    let ghost header: Seq<u8> = out@;
    let mut i: usize = 0;
    while i < n
        invariant
            0 <= i <= n,
            n == info.funds@.len(),
            out@ == header + spec_funds_bytes(info.funds@.take(i as int)),
            forall|j: int| 0 <= j < i ==> spec_str_encodable(#[trigger] info.funds@[j].denom@),
        decreases n - i,
    {
        let coin = &info.funds[i];
        if !push_prefixed_str(&mut out, &coin.denom) {
            return Err(serialization_error());
        }
        let mut amount_bytes = u128_to_le_bytes(coin.amount);
        out.append(&mut amount_bytes);
        proof {
            let taken = info.funds@.take(i as int + 1);
            assert(taken.drop_last() =~= info.funds@.take(i as int));
            assert(taken.last() == info.funds@[i as int]);
            assert(out@ =~= header + spec_funds_bytes(taken));
        }
        i = i + 1;
    }
    proof {
        assert(info.funds@.take(n as int) =~= info.funds@);
        assert(out@ =~= spec_info_bytes(*info));
    }
    Ok(out)
}

} // verus!
