//! The supported message kinds and their decoders.
//!
//! Each decoder turns one record's `value` payload into a strongly typed
//! message, failing exactly when a required field is missing or mistyped.
//! Unknown extra fields are ignored. An optional coin field may be absent
//! or null; a present coin must carry `denom` and `amount` text fields.

use vstd::prelude::*;

use crate::CosmosError;
use crate::fmt::{Coin, CoinV};
use crate::value::{JsonVal, field_of, get_field, get_text_field, has_text_field, text_field};

verus! {

// ---- coins ------------------------------------------------------------

/// Whether `v` is a well-formed coin object.
pub open spec fn wf_coin_obj(v: JsonVal) -> bool {
    has_text_field(v, "denom"@) && has_text_field(v, "amount"@)
}

/// The coin carried by a well-formed coin object.
pub open spec fn coin_v(v: JsonVal) -> CoinV {
    CoinV { denom: text_field(v, "denom"@), amount: text_field(v, "amount"@) }
}

fn decode_coin(v: &JsonVal) -> (r: Result<Coin, CosmosError>)
    ensures
        (r is Ok) == wf_coin_obj(*v),
        r matches Ok(c) ==> c@ == coin_v(*v),
        r matches Err(e) ==> e is DecodeMsgError,
{
    let denom = match get_text_field(v, "denom") {
        Some(s) => s.clone(),
        None => {
            return Err(CosmosError::DecodeMsgError("denom".to_owned()));
        },
    };
    let amount = match get_text_field(v, "amount") {
        Some(s) => s.clone(),
        None => {
            return Err(CosmosError::DecodeMsgError("amount".to_owned()));
        },
    };
    Ok(Coin { denom, amount })
}

/// Whether every element of `l` is a well-formed coin object.
pub open spec fn wf_coin_list(l: Seq<JsonVal>) -> bool {
    forall|i: int| 0 <= i < l.len() ==> wf_coin_obj(#[trigger] l[i])
}

/// The coins carried by a list of well-formed coin objects.
pub open spec fn coin_vs(l: Seq<JsonVal>) -> Seq<CoinV> {
    l.map_values(|j: JsonVal| coin_v(j))
}

fn decode_coin_list(l: &Vec<JsonVal>) -> (r: Result<Vec<Coin>, CosmosError>)
    ensures
        (r is Ok) == wf_coin_list(l@),
        r matches Ok(cs) ==> cs@.map_values(|c: Coin| c@) == coin_vs(l@),
        r matches Err(e) ==> e is DecodeMsgError,
{
    let mut out: Vec<Coin> = Vec::new();
    let mut i: usize = 0;
    while i < l.len()
        invariant
            0 <= i <= l@.len(),
            out@.len() == i,
            forall|j: int| 0 <= j < i ==> wf_coin_obj(#[trigger] l@[j]),
            forall|j: int| 0 <= j < i ==> (#[trigger] out@[j])@ == coin_v(l@[j]),
        decreases l@.len() - i,
    {
        match decode_coin(&l[i]) {
            Ok(c) => {
                out.push(c);
            },
            Err(e) => {
                proof {
                    assert(!wf_coin_obj(l@[i as int]));
                }
                return Err(e);
            },
        }
        i += 1;
    }
    proof {
        assert forall|j: int| 0 <= j < l@.len() implies out@.map_values(|c: Coin| c@)[j]
            == coin_vs(l@)[j] by {
            assert(out@[j]@ == coin_v(l@[j]));
        }
        assert(out@.map_values(|c: Coin| c@) =~= coin_vs(l@));
    }
    Ok(out)
}

// ---- field helpers ----------------------------------------------------

fn get_req_text(v: &JsonVal, key: &str) -> (r: Result<String, CosmosError>)
    ensures
        (r is Ok) == has_text_field(*v, key@),
        r matches Ok(s) ==> s@ == text_field(*v, key@),
        r matches Err(e) ==> e is DecodeMsgError,
{
    match get_text_field(v, key) {
        Some(s) => Ok(s.clone()),
        None => Err(CosmosError::DecodeMsgError(key.to_owned())),
    }
}

/// Whether field `key` of `v`, if present at all, is null or a
/// well-formed coin object.
pub open spec fn wf_opt_coin(v: JsonVal, key: Seq<char>) -> bool {
    match field_of(v, key) {
        None => true,
        Some(f) => f is Null || wf_coin_obj(f),
    }
}

/// The coin held by the optional coin field `key` of `v`, if present and
/// not null.
pub open spec fn opt_coin_v(v: JsonVal, key: Seq<char>) -> Option<CoinV> {
    match field_of(v, key) {
        Some(f) => if f is Null {
            None
        } else {
            Some(coin_v(f))
        },
        None => None,
    }
}

fn get_opt_coin(v: &JsonVal, key: &str) -> (r: Result<Option<Coin>, CosmosError>)
    ensures
        (r is Ok) == wf_opt_coin(*v, key@),
        r matches Ok(oc) ==> match oc {
            Some(c) => opt_coin_v(*v, key@) == Some(c@),
            None => opt_coin_v(*v, key@) is None,
        },
        r matches Err(e) ==> e is DecodeMsgError,
{
    match get_field(v, key) {
        None => Ok(None),
        Some(f) => match f {
            JsonVal::Null => Ok(None),
            _ => match decode_coin(f) {
                Ok(c) => Ok(Some(c)),
                Err(e) => Err(e),
            },
        },
    }
}

/// Whether `v` is an object whose field `key` holds an unsigned integer.
pub open spec fn has_uint_field(v: JsonVal, key: Seq<char>) -> bool {
    field_of(v, key) matches Some(JsonVal::Uint(_))
}

/// The integer in field `key` of `v` (zero when there is none).
pub open spec fn uint_field(v: JsonVal, key: Seq<char>) -> u64 {
    match field_of(v, key) {
        Some(JsonVal::Uint(n)) => n,
        _ => 0,
    }
}

fn get_req_uint(v: &JsonVal, key: &str) -> (r: Result<u64, CosmosError>)
    ensures
        (r is Ok) == has_uint_field(*v, key@),
        r matches Ok(n) ==> n == uint_field(*v, key@),
        r matches Err(e) ==> e is DecodeMsgError,
{
    match get_field(v, key) {
        Some(JsonVal::Uint(n)) => Ok(*n),
        _ => Err(CosmosError::DecodeMsgError(key.to_owned())),
    }
}

// ---- message kinds ----------------------------------------------------

/// A bank transfer of one or more coins.
#[derive(Debug)]
pub struct MsgSend {
    pub from_address: String,
    pub to_address: String,
    pub amount: Vec<Coin>,
}

/// A delegation of an optional coin to a validator.
#[derive(Debug)]
pub struct MsgDelegate {
    pub delegator_address: String,
    pub validator_address: String,
    pub amount: Option<Coin>,
}

/// An undelegation of an optional coin from a validator.
#[derive(Debug)]
pub struct MsgUndelegate {
    pub delegator_address: String,
    pub validator_address: String,
    pub amount: Option<Coin>,
}

/// A move of a delegation from one validator to another.
#[derive(Debug)]
pub struct MsgBeginRedelegate {
    pub delegator_address: String,
    pub validator_src_address: String,
    pub validator_dst_address: String,
    pub amount: Option<Coin>,
}

/// A withdrawal of accumulated staking rewards (the amount is unknown at
/// signing time, so the message carries none).
#[derive(Debug)]
pub struct MsgWithdrawDelegatorReward {
    pub delegator_address: String,
    pub validator_address: String,
}

/// An inter-chain (IBC) transfer of an optional token.
#[derive(Debug)]
pub struct MsgTransfer {
    pub sender: String,
    pub receiver: String,
    pub token: Option<Coin>,
}

/// A governance vote on a proposal.
#[derive(Debug)]
pub struct MsgVote {
    pub voter: String,
    pub proposal_id: u64,
    pub option: u64,
}

/// An off-chain signing request: an encoded payload and its signer.
#[derive(Debug)]
pub struct MsgSignData {
    pub data: String,
    pub signer: String,
}

// ---- per-kind well-formedness and decoders ----------------------------

pub open spec fn wf_send(v: JsonVal) -> bool {
    &&& has_text_field(v, "from_address"@)
    &&& has_text_field(v, "to_address"@)
    &&& (field_of(v, "amount"@) matches Some(JsonVal::List(l)) && wf_coin_list(l@))
}

/// The coin objects in the `amount` list of `v` (empty when it has none).
pub open spec fn amount_list(v: JsonVal) -> Seq<JsonVal> {
    match field_of(v, "amount"@) {
        Some(JsonVal::List(l)) => l@,
        _ => Seq::empty(),
    }
}

pub fn decode_send(v: &JsonVal) -> (r: Result<MsgSend, CosmosError>)
    ensures
        (r is Ok) == wf_send(*v),
        r matches Ok(m) ==> {
            &&& m.from_address@ == text_field(*v, "from_address"@)
            &&& m.to_address@ == text_field(*v, "to_address"@)
            &&& m.amount@.map_values(|c: Coin| c@) == coin_vs(amount_list(*v))
        },
        r matches Err(e) ==> e is DecodeMsgError,
{
    let from_address = match get_req_text(v, "from_address") {
        Ok(s) => s,
        Err(e) => {
            return Err(e);
        },
    };
    let to_address = match get_req_text(v, "to_address") {
        Ok(s) => s,
        Err(e) => {
            return Err(e);
        },
    };
    let amount = match get_field(v, "amount") {
        Some(JsonVal::List(l)) => match decode_coin_list(l) {
            Ok(cs) => cs,
            Err(e) => {
                return Err(e);
            },
        },
        _ => {
            return Err(CosmosError::DecodeMsgError("amount".to_owned()));
        },
    };
    Ok(MsgSend { from_address, to_address, amount })
}

pub open spec fn wf_delegate(v: JsonVal) -> bool {
    &&& has_text_field(v, "delegator_address"@)
    &&& has_text_field(v, "validator_address"@)
    &&& wf_opt_coin(v, "amount"@)
}

/// Whether an optional decoded coin matches the optional coin field
/// `key` of `v`.
pub open spec fn opt_coin_matches(oc: Option<Coin>, v: JsonVal, key: Seq<char>) -> bool {
    match oc {
        Some(c) => opt_coin_v(v, key) == Some(c@),
        None => opt_coin_v(v, key) is None,
    }
}

pub fn decode_delegate(v: &JsonVal) -> (r: Result<MsgDelegate, CosmosError>)
    ensures
        (r is Ok) == wf_delegate(*v),
        r matches Ok(m) ==> {
            &&& m.delegator_address@ == text_field(*v, "delegator_address"@)
            &&& m.validator_address@ == text_field(*v, "validator_address"@)
            &&& opt_coin_matches(m.amount, *v, "amount"@)
        },
        r matches Err(e) ==> e is DecodeMsgError,
{
    let delegator_address = match get_req_text(v, "delegator_address") {
        Ok(s) => s,
        Err(e) => {
            return Err(e);
        },
    };
    let validator_address = match get_req_text(v, "validator_address") {
        Ok(s) => s,
        Err(e) => {
            return Err(e);
        },
    };
    let amount = match get_opt_coin(v, "amount") {
        Ok(oc) => oc,
        Err(e) => {
            return Err(e);
        },
    };
    Ok(MsgDelegate { delegator_address, validator_address, amount })
}

pub open spec fn wf_undelegate(v: JsonVal) -> bool {
    wf_delegate(v)
}

pub fn decode_undelegate(v: &JsonVal) -> (r: Result<MsgUndelegate, CosmosError>)
    ensures
        (r is Ok) == wf_undelegate(*v),
        r matches Ok(m) ==> {
            &&& m.delegator_address@ == text_field(*v, "delegator_address"@)
            &&& m.validator_address@ == text_field(*v, "validator_address"@)
            &&& opt_coin_matches(m.amount, *v, "amount"@)
        },
        r matches Err(e) ==> e is DecodeMsgError,
{
    match decode_delegate(v) {
        Ok(m) => Ok(
            MsgUndelegate {
                delegator_address: m.delegator_address,
                validator_address: m.validator_address,
                amount: m.amount,
            },
        ),
        Err(e) => Err(e),
    }
}

pub open spec fn wf_redelegate(v: JsonVal) -> bool {
    &&& has_text_field(v, "delegator_address"@)
    &&& has_text_field(v, "validator_src_address"@)
    &&& has_text_field(v, "validator_dst_address"@)
    &&& wf_opt_coin(v, "amount"@)
}

pub fn decode_redelegate(v: &JsonVal) -> (r: Result<MsgBeginRedelegate, CosmosError>)
    ensures
        (r is Ok) == wf_redelegate(*v),
        r matches Ok(m) ==> {
            &&& m.delegator_address@ == text_field(*v, "delegator_address"@)
            &&& m.validator_src_address@ == text_field(*v, "validator_src_address"@)
            &&& m.validator_dst_address@ == text_field(*v, "validator_dst_address"@)
            &&& opt_coin_matches(m.amount, *v, "amount"@)
        },
        r matches Err(e) ==> e is DecodeMsgError,
{
    let delegator_address = match get_req_text(v, "delegator_address") {
        Ok(s) => s,
        Err(e) => {
            return Err(e);
        },
    };
    let validator_src_address = match get_req_text(v, "validator_src_address") {
        Ok(s) => s,
        Err(e) => {
            return Err(e);
        },
    };
    let validator_dst_address = match get_req_text(v, "validator_dst_address") {
        Ok(s) => s,
        Err(e) => {
            return Err(e);
        },
    };
    let amount = match get_opt_coin(v, "amount") {
        Ok(oc) => oc,
        Err(e) => {
            return Err(e);
        },
    };
    Ok(
        MsgBeginRedelegate {
            delegator_address,
            validator_src_address,
            validator_dst_address,
            amount,
        },
    )
}

pub open spec fn wf_withdraw_reward(v: JsonVal) -> bool {
    &&& has_text_field(v, "delegator_address"@)
    &&& has_text_field(v, "validator_address"@)
}

pub fn decode_withdraw_reward(v: &JsonVal) -> (r: Result<MsgWithdrawDelegatorReward, CosmosError>)
    ensures
        (r is Ok) == wf_withdraw_reward(*v),
        r matches Ok(m) ==> {
            &&& m.delegator_address@ == text_field(*v, "delegator_address"@)
            &&& m.validator_address@ == text_field(*v, "validator_address"@)
        },
        r matches Err(e) ==> e is DecodeMsgError,
{
    let delegator_address = match get_req_text(v, "delegator_address") {
        Ok(s) => s,
        Err(e) => {
            return Err(e);
        },
    };
    let validator_address = match get_req_text(v, "validator_address") {
        Ok(s) => s,
        Err(e) => {
            return Err(e);
        },
    };
    Ok(MsgWithdrawDelegatorReward { delegator_address, validator_address })
}

pub open spec fn wf_transfer(v: JsonVal) -> bool {
    &&& has_text_field(v, "sender"@)
    &&& has_text_field(v, "receiver"@)
    &&& wf_opt_coin(v, "token"@)
}

pub fn decode_transfer(v: &JsonVal) -> (r: Result<MsgTransfer, CosmosError>)
    ensures
        (r is Ok) == wf_transfer(*v),
        r matches Ok(m) ==> {
            &&& m.sender@ == text_field(*v, "sender"@)
            &&& m.receiver@ == text_field(*v, "receiver"@)
            &&& opt_coin_matches(m.token, *v, "token"@)
        },
        r matches Err(e) ==> e is DecodeMsgError,
{
    let sender = match get_req_text(v, "sender") {
        Ok(s) => s,
        Err(e) => {
            return Err(e);
        },
    };
    let receiver = match get_req_text(v, "receiver") {
        Ok(s) => s,
        Err(e) => {
            return Err(e);
        },
    };
    let token = match get_opt_coin(v, "token") {
        Ok(oc) => oc,
        Err(e) => {
            return Err(e);
        },
    };
    Ok(MsgTransfer { sender, receiver, token })
}

pub open spec fn wf_vote(v: JsonVal) -> bool {
    &&& has_text_field(v, "voter"@)
    &&& has_uint_field(v, "proposal_id"@)
    &&& has_uint_field(v, "option"@)
}

pub fn decode_vote(v: &JsonVal) -> (r: Result<MsgVote, CosmosError>)
    ensures
        (r is Ok) == wf_vote(*v),
        r matches Ok(m) ==> {
            &&& m.voter@ == text_field(*v, "voter"@)
            &&& m.proposal_id == uint_field(*v, "proposal_id"@)
            &&& m.option == uint_field(*v, "option"@)
        },
        r matches Err(e) ==> e is DecodeMsgError,
{
    let voter = match get_req_text(v, "voter") {
        Ok(s) => s,
        Err(e) => {
            return Err(e);
        },
    };
    let proposal_id = match get_req_uint(v, "proposal_id") {
        Ok(n) => n,
        Err(e) => {
            return Err(e);
        },
    };
    let option = match get_req_uint(v, "option") {
        Ok(n) => n,
        Err(e) => {
            return Err(e);
        },
    };
    Ok(MsgVote { voter, proposal_id, option })
}

pub open spec fn wf_sign_data(v: JsonVal) -> bool {
    &&& has_text_field(v, "data"@)
    &&& has_text_field(v, "signer"@)
}

pub fn decode_sign_data(v: &JsonVal) -> (r: Result<MsgSignData, CosmosError>)
    ensures
        (r is Ok) == wf_sign_data(*v),
        r matches Ok(m) ==> {
            &&& m.data@ == text_field(*v, "data"@)
            &&& m.signer@ == text_field(*v, "signer"@)
        },
        r matches Err(e) ==> e is DecodeMsgError,
{
    let data = match get_req_text(v, "data") {
        Ok(s) => s,
        Err(e) => {
            return Err(e);
        },
    };
    let signer = match get_req_text(v, "signer") {
        Ok(s) => s,
        Err(e) => {
            return Err(e);
        },
    };
    Ok(MsgSignData { data, signer })
}

} // verus!
