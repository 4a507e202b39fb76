//! The per-message display records and the overview aggregator.
//!
//! Each raw record's `type` tag is normalized (the segment after the last
//! `/` or `.`) and looked up in a closed alias table; the matching decoder
//! and builder turn its `value` payload into one display record. Records
//! of an unrecognized kind are skipped by design; a malformed payload of a
//! recognized kind aborts the whole overview, so that a partial summary is
//! never presented for signing.

use vstd::prelude::*;

use crate::CosmosError;
use crate::chain::{get_chain_id_by_address, get_network_by_chain_id, spec_chain_id, spec_network};
use crate::fmt::{Coin, CoinV, dec_str, fmt_coin, fmt_coins, format_amount, format_single_coin,
u64_to_dec, str_eq};
use crate::msgs::{MsgBeginRedelegate, MsgDelegate, MsgSend, MsgSignData, MsgTransfer,
MsgUndelegate, MsgVote, MsgWithdrawDelegatorReward, amount_list, coin_vs, decode_delegate,
decode_redelegate, decode_send, decode_sign_data, decode_transfer, decode_undelegate,
decode_vote, decode_withdraw_reward, opt_coin_v, uint_field, wf_delegate, wf_redelegate,
wf_send, wf_sign_data, wf_transfer, wf_undelegate, wf_vote, wf_withdraw_reward};
use crate::textdec::{decode_sign_message, spec_sign_message};
use crate::value::{JsonVal, field_of, get_field, get_text_field, has_text_field, text_field};

verus! {

// ---- type-tag detection -----------------------------------------------

/// The supported message kinds, plus the explicit unrecognized arm.
#[derive(Debug, Clone, Copy, PartialEq, Eq, Structural)]
pub enum MsgKind {
    Send,
    Delegate,
    Undelegate,
    Redelegate,
    WithdrawReward,
    Transfer,
    Vote,
    SignData,
    Unrecognized,
}

pub open spec fn is_tag_sep(c: char) -> bool {
    c == '/' || c == '.'
}

/// The characters of `s` after its last `/` or `.` (all of `s` when it
/// has neither): the bare message name of a type tag.
pub open spec fn last_segment(s: Seq<char>) -> Seq<char>
    decreases s.len(),
{
    if s.len() == 0 {
        s
    } else if is_tag_sep(s.last()) {
        Seq::empty()
    } else {
        last_segment(s.drop_last()) + seq![s.last()]
    }
}

/// Extracts the bare message name of a type tag.
pub fn last_segment_exec(s: &str) -> (r: String)
    ensures
        r@ == last_segment(s@),
{
    let n = s.unicode_len();
    let mut start: usize = 0;
    let mut i: usize = 0;
    while i < n
        invariant
            n == s@.len(),
            0 <= start <= i <= n,
            last_segment(s@.take(i as int)) =~= s@.subrange(start as int, i as int),
        decreases n - i,
    {
        let c = s.get_char(i);
        proof {
            assert(s@.take(i as int + 1).drop_last() =~= s@.take(i as int));
            assert(s@.take(i as int + 1).last() == s@[i as int]);
        }
        if c == '/' || c == '.' {
            start = i + 1;
            proof {
                assert(last_segment(s@.take(i as int + 1)) =~= s@.subrange(
                    i as int + 1,
                    i as int + 1,
                ));
            }
        } else {
            proof {
                assert(last_segment(s@.take(i as int + 1)) =~= s@.subrange(
                    start as int,
                    i as int,
                ) + seq![s@[i as int]]);
                assert(s@.subrange(start as int, i as int) + seq![s@[i as int]] =~= s@.subrange(
                    start as int,
                    i as int + 1,
                ));
            }
        }
        i += 1;
    }
    proof {
        assert(s@.take(n as int) =~= s@);
    }
    s.substring_char(start, n).to_owned()
}

/// The message kind named by a bare message name; the two historical
/// spellings of the reward-withdrawal message map to the same kind.
pub open spec fn spec_kind_of(name: Seq<char>) -> MsgKind {
    if name == "MsgSend"@ {
        MsgKind::Send
    } else if name == "MsgDelegate"@ {
        MsgKind::Delegate
    } else if name == "MsgUndelegate"@ {
        MsgKind::Undelegate
    } else if name == "MsgBeginRedelegate"@ {
        MsgKind::Redelegate
    } else if name == "MsgWithdrawDelegatorReward"@ || name == "MsgWithdrawDelegationReward"@ {
        MsgKind::WithdrawReward
    } else if name == "MsgTransfer"@ {
        MsgKind::Transfer
    } else if name == "MsgVote"@ {
        MsgKind::Vote
    } else if name == "MsgSignData"@ {
        MsgKind::SignData
    } else {
        MsgKind::Unrecognized
    }
}

/// Looks a bare message name up in the alias table.
pub fn kind_of_name(name: &str) -> (k: MsgKind)
    ensures
        k == spec_kind_of(name@),
{
    if str_eq(name, "MsgSend") {
        MsgKind::Send
    } else if str_eq(name, "MsgDelegate") {
        MsgKind::Delegate
    } else if str_eq(name, "MsgUndelegate") {
        MsgKind::Undelegate
    } else if str_eq(name, "MsgBeginRedelegate") {
        MsgKind::Redelegate
    } else if str_eq(name, "MsgWithdrawDelegatorReward") || str_eq(
        name,
        "MsgWithdrawDelegationReward",
    ) {
        MsgKind::WithdrawReward
    } else if str_eq(name, "MsgTransfer") {
        MsgKind::Transfer
    } else if str_eq(name, "MsgVote") {
        MsgKind::Vote
    } else if str_eq(name, "MsgSignData") {
        MsgKind::SignData
    } else {
        MsgKind::Unrecognized
    }
}

/// The kind of a raw record: by its `type` tag, unrecognized when the tag
/// is absent or not text.
pub open spec fn record_kind(v: JsonVal) -> MsgKind {
    if has_text_field(v, "type"@) {
        spec_kind_of(last_segment(text_field(v, "type"@)))
    } else {
        MsgKind::Unrecognized
    }
}

/// The `value` payload of a raw record (null when it has none).
pub open spec fn record_value(v: JsonVal) -> JsonVal {
    match field_of(v, "value"@) {
        Some(w) => w,
        None => JsonVal::Null,
    }
}

/// Inspects a raw record's `type` tag and routes it to a message kind.
pub fn detect_record_kind(rec: &JsonVal) -> (k: MsgKind)
    ensures
        k == record_kind(*rec),
{
    match get_text_field(rec, "type") {
        Some(tag) => {
            let name = last_segment_exec(tag.as_str());
            kind_of_name(name.as_str())
        },
        None => MsgKind::Unrecognized,
    }
}

// ---- display records ---------------------------------------------------

/// The display text of an optional coin: its rendering when present, the
/// empty string when absent (the field is then omitted from display).
pub open spec fn opt_coin_str(oc: Option<CoinV>) -> Seq<char> {
    match oc {
        Some(c) => fmt_coin(c),
        None => Seq::empty(),
    }
}

fn format_opt_coin(oc: &Option<Coin>) -> (r: String)
    ensures
        r@ == opt_coin_str(match *oc {
            Some(c) => Some(c@),
            None => None,
        }),
{
    match oc {
        Some(c) => format_single_coin(c),
        None => String::new(),
    }
}

/// Display record of a bank transfer.
#[derive(Debug, Clone)]
pub struct OverviewSend {
    pub method: String,
    pub value: String,
    pub from: String,
    pub to: String,
}

#[verifier::ext_equal]
pub ghost struct OverviewSendV {
    pub method: Seq<char>,
    pub value: Seq<char>,
    pub from: Seq<char>,
    pub to: Seq<char>,
}

impl View for OverviewSend {
    type V = OverviewSendV;

    open spec fn view(&self) -> OverviewSendV {
        OverviewSendV { method: self.method@, value: self.value@, from: self.from@, to: self.to@ }
    }
}

impl OverviewSend {
    /// Renders a bank transfer: Value is the whole coin list.
    pub fn from_msg(m: MsgSend) -> (r: Self)
        ensures
            r@ == (OverviewSendV {
                method: "Send"@,
                value: fmt_coins(m.amount@.map_values(|c: Coin| c@)),
                from: m.from_address@,
                to: m.to_address@,
            }),
    {
        let value = format_amount(&m.amount);
        OverviewSend { method: "Send".to_owned(), value, from: m.from_address, to: m.to_address }
    }
}

/// Display record of a delegation.
#[derive(Debug, Clone)]
pub struct OverviewDelegate {
    pub method: String,
    pub value: String,
    pub from: String,
    pub to: String,
}

#[verifier::ext_equal]
pub ghost struct OverviewDelegateV {
    pub method: Seq<char>,
    pub value: Seq<char>,
    pub from: Seq<char>,
    pub to: Seq<char>,
}

impl View for OverviewDelegate {
    type V = OverviewDelegateV;

    open spec fn view(&self) -> OverviewDelegateV {
        OverviewDelegateV {
            method: self.method@,
            value: self.value@,
            from: self.from@,
            to: self.to@,
        }
    }
}

impl OverviewDelegate {
    /// Renders a delegation: Value stays empty (and is omitted from
    /// display) when the message carries no amount.
    pub fn from_msg(m: MsgDelegate) -> (r: Self)
        ensures
            r@ == (OverviewDelegateV {
                method: "Delegate"@,
                value: opt_coin_str(match m.amount {
                    Some(c) => Some(c@),
                    None => None,
                }),
                from: m.delegator_address@,
                to: m.validator_address@,
            }),
    {
        let value = format_opt_coin(&m.amount);
        OverviewDelegate {
            method: "Delegate".to_owned(),
            value,
            from: m.delegator_address,
            to: m.validator_address,
        }
    }
}

/// Display record of an undelegation.
#[derive(Debug, Clone)]
pub struct OverviewUndelegate {
    pub method: String,
    pub value: String,
    pub to: String,
    pub validator: String,
}

#[verifier::ext_equal]
pub ghost struct OverviewUndelegateV {
    pub method: Seq<char>,
    pub value: Seq<char>,
    pub to: Seq<char>,
    pub validator: Seq<char>,
}

impl View for OverviewUndelegate {
    type V = OverviewUndelegateV;

    open spec fn view(&self) -> OverviewUndelegateV {
        OverviewUndelegateV {
            method: self.method@,
            value: self.value@,
            to: self.to@,
            validator: self.validator@,
        }
    }
}

impl OverviewUndelegate {
    /// Renders an undelegation: the coins return To the delegator, from
    /// the named Validator.
    pub fn from_msg(m: MsgUndelegate) -> (r: Self)
        ensures
            r@ == (OverviewUndelegateV {
                method: "Undelegate"@,
                value: opt_coin_str(match m.amount {
                    Some(c) => Some(c@),
                    None => None,
                }),
                to: m.delegator_address@,
                validator: m.validator_address@,
            }),
    {
        let value = format_opt_coin(&m.amount);
        OverviewUndelegate {
            method: "Undelegate".to_owned(),
            value,
            to: m.delegator_address,
            validator: m.validator_address,
        }
    }
}

/// Display record of a redelegation.
#[derive(Debug, Clone)]
pub struct OverviewRedelegate {
    pub method: String,
    pub value: String,
    pub to: String,
    pub new_validator: String,
}

#[verifier::ext_equal]
pub ghost struct OverviewRedelegateV {
    pub method: Seq<char>,
    pub value: Seq<char>,
    pub to: Seq<char>,
    pub new_validator: Seq<char>,
}

impl View for OverviewRedelegate {
    type V = OverviewRedelegateV;

    open spec fn view(&self) -> OverviewRedelegateV {
        OverviewRedelegateV {
            method: self.method@,
            value: self.value@,
            to: self.to@,
            new_validator: self.new_validator@,
        }
    }
}

impl OverviewRedelegate {
    /// Renders a redelegation: the destination validator is surfaced as
    /// "New Validator", distinct from the "Validator" of an undelegation.
    pub fn from_msg(m: MsgBeginRedelegate) -> (r: Self)
        ensures
            r@ == (OverviewRedelegateV {
                method: "Re-delegate"@,
                value: opt_coin_str(match m.amount {
                    Some(c) => Some(c@),
                    None => None,
                }),
                to: m.delegator_address@,
                new_validator: m.validator_dst_address@,
            }),
    {
        let value = format_opt_coin(&m.amount);
        OverviewRedelegate {
            method: "Re-delegate".to_owned(),
            value,
            to: m.delegator_address,
            new_validator: m.validator_dst_address,
        }
    }
}

/// Display record of a reward withdrawal; it never shows a Value, since
/// the chain computes the reward amount only at execution time.
#[derive(Debug, Clone)]
pub struct OverviewWithdrawReward {
    pub method: String,
    pub to: String,
    pub validator: String,
}

#[verifier::ext_equal]
pub ghost struct OverviewWithdrawRewardV {
    pub method: Seq<char>,
    pub to: Seq<char>,
    pub validator: Seq<char>,
}

impl View for OverviewWithdrawReward {
    type V = OverviewWithdrawRewardV;

    open spec fn view(&self) -> OverviewWithdrawRewardV {
        OverviewWithdrawRewardV {
            method: self.method@,
            to: self.to@,
            validator: self.validator@,
        }
    }
}

impl OverviewWithdrawReward {
    /// Renders a reward withdrawal.
    pub fn from_msg(m: MsgWithdrawDelegatorReward) -> (r: Self)
        ensures
            r@ == (OverviewWithdrawRewardV {
                method: "Withdraw Reward"@,
                to: m.delegator_address@,
                validator: m.validator_address@,
            }),
    {
        OverviewWithdrawReward {
            method: "Withdraw Reward".to_owned(),
            to: m.delegator_address,
            validator: m.validator_address,
        }
    }
}

/// Display record of an inter-chain transfer.
#[derive(Debug, Clone)]
pub struct OverviewTransfer {
    pub method: String,
    pub value: String,
    pub from: String,
    pub to: String,
}

#[verifier::ext_equal]
pub ghost struct OverviewTransferV {
    pub method: Seq<char>,
    pub value: Seq<char>,
    pub from: Seq<char>,
    pub to: Seq<char>,
}

impl View for OverviewTransfer {
    type V = OverviewTransferV;

    open spec fn view(&self) -> OverviewTransferV {
        OverviewTransferV {
            method: self.method@,
            value: self.value@,
            from: self.from@,
            to: self.to@,
        }
    }
}

impl OverviewTransfer {
    /// Renders an inter-chain transfer of its optional token.
    pub fn from_msg(m: MsgTransfer) -> (r: Self)
        ensures
            r@ == (OverviewTransferV {
                method: "IBC Transfer"@,
                value: opt_coin_str(match m.token {
                    Some(c) => Some(c@),
                    None => None,
                }),
                from: m.sender@,
                to: m.receiver@,
            }),
    {
        let value = format_opt_coin(&m.token);
        OverviewTransfer {
            method: "IBC Transfer".to_owned(),
            value,
            from: m.sender,
            to: m.receiver,
        }
    }
}

/// The display label of a vote option code; codes outside the table
/// render as the empty string rather than failing.
pub open spec fn vote_label(option: u64) -> Seq<char> {
    if option == 0 {
        "UNSPECIFIED"@
    } else if option == 1 {
        "YES"@
    } else if option == 2 {
        "ABSTAIN"@
    } else if option == 3 {
        "NO"@
    } else if option == 4 {
        "NO_WITH_VETO"@
    } else {
        Seq::empty()
    }
}

/// Looks a vote option code up in the fixed label table.
pub fn vote_label_exec(option: u64) -> (r: String)
    ensures
        r@ == vote_label(option),
{
    if option == 0 {
        "UNSPECIFIED".to_owned()
    } else if option == 1 {
        "YES".to_owned()
    } else if option == 2 {
        "ABSTAIN".to_owned()
    } else if option == 3 {
        "NO".to_owned()
    } else if option == 4 {
        "NO_WITH_VETO".to_owned()
    } else {
        String::new()
    }
}

/// Display record of a governance vote.
#[derive(Debug, Clone)]
pub struct OverviewVote {
    pub method: String,
    pub voter: String,
    pub proposal: String,
    pub voted: String,
}

#[verifier::ext_equal]
pub ghost struct OverviewVoteV {
    pub method: Seq<char>,
    pub voter: Seq<char>,
    pub proposal: Seq<char>,
    pub voted: Seq<char>,
}

impl View for OverviewVote {
    type V = OverviewVoteV;

    open spec fn view(&self) -> OverviewVoteV {
        OverviewVoteV {
            method: self.method@,
            voter: self.voter@,
            proposal: self.proposal@,
            voted: self.voted@,
        }
    }
}

impl OverviewVote {
    /// Renders a vote: the proposal as `#<id>`, the option through the
    /// fixed label table.
    pub fn from_msg(m: MsgVote) -> (r: Self)
        ensures
            r@ == (OverviewVoteV {
                method: "Vote"@,
                voter: m.voter@,
                proposal: "#"@ + dec_str(m.proposal_id as nat),
                voted: vote_label(m.option),
            }),
    {
        let mut proposal = "#".to_owned();
        let id = u64_to_dec(m.proposal_id);
        proposal.append(id.as_str());
        OverviewVote {
            method: "Vote".to_owned(),
            voter: m.voter,
            proposal,
            voted: vote_label_exec(m.option),
        }
    }
}

/// Display record of an off-chain signing request.
#[derive(Debug, Clone)]
pub struct OverviewMessage {
    pub method: String,
    pub network: String,
    pub signer: String,
    pub message: String,
    pub chain_id: String,
}

#[verifier::ext_equal]
pub ghost struct OverviewMessageV {
    pub method: Seq<char>,
    pub network: Seq<char>,
    pub signer: Seq<char>,
    pub message: Seq<char>,
    pub chain_id: Seq<char>,
}

impl View for OverviewMessage {
    type V = OverviewMessageV;

    open spec fn view(&self) -> OverviewMessageV {
        OverviewMessageV {
            method: self.method@,
            network: self.network@,
            signer: self.signer@,
            message: self.message@,
            chain_id: self.chain_id@,
        }
    }
}

/// The network name shown for a chain identifier: its registry entry, or
/// the fixed default when the registry has none.
pub open spec fn network_or_default(chain_id: Seq<char>) -> Seq<char> {
    match spec_network(chain_id) {
        Some(n) => n,
        None => "Cosmos Hub"@,
    }
}

impl OverviewMessage {
    /// Renders an off-chain signing request: the payload is decoded for
    /// display with a safe fallback to the raw encoded string, and the
    /// chain context is resolved from the signer address.
    pub fn from_msg(m: MsgSignData) -> (r: Self)
        ensures
            r@ == (OverviewMessageV {
                method: "Message"@,
                network: network_or_default(spec_chain_id(m.signer@)),
                signer: m.signer@,
                message: spec_sign_message(m.data@),
                chain_id: spec_chain_id(m.signer@),
            }),
    {
        let message = decode_sign_message(&m.data);
        let chain_id = get_chain_id_by_address(m.signer.as_str());
        let network = match get_network_by_chain_id(chain_id.as_str()) {
            Some(n) => n,
            None => "Cosmos Hub".to_owned(),
        };
        OverviewMessage { method: "Message".to_owned(), network, signer: m.signer, message, chain_id }
    }
}

// ---- the tagged union of display records --------------------------------

/// One message's display record, tagged by kind.
#[derive(Debug, Clone)]
pub enum MsgOverview {
    Send(OverviewSend),
    Delegate(OverviewDelegate),
    Undelegate(OverviewUndelegate),
    Redelegate(OverviewRedelegate),
    WithdrawReward(OverviewWithdrawReward),
    Transfer(OverviewTransfer),
    Vote(OverviewVote),
    Message(OverviewMessage),
}

#[verifier::ext_equal]
pub ghost enum MsgOverviewV {
    Send(OverviewSendV),
    Delegate(OverviewDelegateV),
    Undelegate(OverviewUndelegateV),
    Redelegate(OverviewRedelegateV),
    WithdrawReward(OverviewWithdrawRewardV),
    Transfer(OverviewTransferV),
    Vote(OverviewVoteV),
    Message(OverviewMessageV),
}

impl View for MsgOverview {
    type V = MsgOverviewV;

    open spec fn view(&self) -> MsgOverviewV {
        match self {
            MsgOverview::Send(o) => MsgOverviewV::Send(o@),
            MsgOverview::Delegate(o) => MsgOverviewV::Delegate(o@),
            MsgOverview::Undelegate(o) => MsgOverviewV::Undelegate(o@),
            MsgOverview::Redelegate(o) => MsgOverviewV::Redelegate(o@),
            MsgOverview::WithdrawReward(o) => MsgOverviewV::WithdrawReward(o@),
            MsgOverview::Transfer(o) => MsgOverviewV::Transfer(o@),
            MsgOverview::Vote(o) => MsgOverviewV::Vote(o@),
            MsgOverview::Message(o) => MsgOverviewV::Message(o@),
        }
    }
}

// ---- record-level model -------------------------------------------------

/// Whether payload `v` is well-formed for kind `k`.
pub open spec fn wf_for_kind(k: MsgKind, v: JsonVal) -> bool {
    match k {
        MsgKind::Send => wf_send(v),
        MsgKind::Delegate => wf_delegate(v),
        MsgKind::Undelegate => wf_undelegate(v),
        MsgKind::Redelegate => wf_redelegate(v),
        MsgKind::WithdrawReward => wf_withdraw_reward(v),
        MsgKind::Transfer => wf_transfer(v),
        MsgKind::Vote => wf_vote(v),
        MsgKind::SignData => wf_sign_data(v),
        MsgKind::Unrecognized => false,
    }
}

/// A record of a recognized kind with a well-formed payload: it yields a
/// display record.
pub open spec fn record_shown(v: JsonVal) -> bool {
    record_kind(v) != MsgKind::Unrecognized && wf_for_kind(record_kind(v), record_value(v))
}

/// A record of a recognized kind with a malformed payload: it aborts the
/// whole overview.
pub open spec fn record_fails(v: JsonVal) -> bool {
    record_kind(v) != MsgKind::Unrecognized && !wf_for_kind(record_kind(v), record_value(v))
}

pub open spec fn send_view(p: JsonVal) -> OverviewSendV {
    OverviewSendV {
        method: "Send"@,
        value: fmt_coins(coin_vs(amount_list(p))),
        from: text_field(p, "from_address"@),
        to: text_field(p, "to_address"@),
    }
}

pub open spec fn delegate_view(p: JsonVal) -> OverviewDelegateV {
    OverviewDelegateV {
        method: "Delegate"@,
        value: opt_coin_str(opt_coin_v(p, "amount"@)),
        from: text_field(p, "delegator_address"@),
        to: text_field(p, "validator_address"@),
    }
}

pub open spec fn undelegate_view(p: JsonVal) -> OverviewUndelegateV {
    OverviewUndelegateV {
        method: "Undelegate"@,
        value: opt_coin_str(opt_coin_v(p, "amount"@)),
        to: text_field(p, "delegator_address"@),
        validator: text_field(p, "validator_address"@),
    }
}

pub open spec fn redelegate_view(p: JsonVal) -> OverviewRedelegateV {
    OverviewRedelegateV {
        method: "Re-delegate"@,
        value: opt_coin_str(opt_coin_v(p, "amount"@)),
        to: text_field(p, "delegator_address"@),
        new_validator: text_field(p, "validator_dst_address"@),
    }
}

pub open spec fn withdraw_reward_view(p: JsonVal) -> OverviewWithdrawRewardV {
    OverviewWithdrawRewardV {
        method: "Withdraw Reward"@,
        to: text_field(p, "delegator_address"@),
        validator: text_field(p, "validator_address"@),
    }
}

pub open spec fn transfer_view(p: JsonVal) -> OverviewTransferV {
    OverviewTransferV {
        method: "IBC Transfer"@,
        value: opt_coin_str(opt_coin_v(p, "token"@)),
        from: text_field(p, "sender"@),
        to: text_field(p, "receiver"@),
    }
}

pub open spec fn vote_view(p: JsonVal) -> OverviewVoteV {
    OverviewVoteV {
        method: "Vote"@,
        voter: text_field(p, "voter"@),
        proposal: "#"@ + dec_str(uint_field(p, "proposal_id"@) as nat),
        voted: vote_label(uint_field(p, "option"@)),
    }
}

pub open spec fn message_view(p: JsonVal) -> OverviewMessageV {
    OverviewMessageV {
        method: "Message"@,
        network: network_or_default(spec_chain_id(text_field(p, "signer"@))),
        signer: text_field(p, "signer"@),
        message: spec_sign_message(text_field(p, "data"@)),
        chain_id: spec_chain_id(text_field(p, "signer"@)),
    }
}

/// The display record that a shown record yields.
pub open spec fn overview_v_of(v: JsonVal) -> MsgOverviewV
    recommends
        record_shown(v),
{
    let p = record_value(v);
    match record_kind(v) {
        MsgKind::Send => MsgOverviewV::Send(send_view(p)),
        MsgKind::Delegate => MsgOverviewV::Delegate(delegate_view(p)),
        MsgKind::Undelegate => MsgOverviewV::Undelegate(undelegate_view(p)),
        MsgKind::Redelegate => MsgOverviewV::Redelegate(redelegate_view(p)),
        MsgKind::WithdrawReward => MsgOverviewV::WithdrawReward(withdraw_reward_view(p)),
        MsgKind::Transfer => MsgOverviewV::Transfer(transfer_view(p)),
        MsgKind::Vote => MsgOverviewV::Vote(vote_view(p)),
        MsgKind::SignData => MsgOverviewV::Message(message_view(p)),
        MsgKind::Unrecognized => arbitrary(),
    }
}

/// Decodes and renders one raw record: a display record for a shown one,
/// nothing for an unrecognized one, an error for a malformed one.
pub fn overview_of_record(rec: &JsonVal) -> (r: Result<Option<MsgOverview>, CosmosError>)
    ensures
        (r is Err) == record_fails(*rec),
        r matches Ok(o) ==> ((o is Some) == record_shown(*rec)),
        r matches Ok(Some(m)) ==> m@ == overview_v_of(*rec),
        r matches Err(e) ==> e is DecodeMsgError,
{
    let kind = detect_record_kind(rec);
    if kind == MsgKind::Unrecognized {
        return Ok(None);
    }
    let null_payload = JsonVal::Null;
    let payload = match get_field(rec, "value") {
        Some(w) => w,
        None => &null_payload,
    };
    proof {
        assert(*payload == record_value(*rec));
    }
    match kind {
        MsgKind::Send => match decode_send(payload) {
            Ok(m) => {
                let o = OverviewSend::from_msg(m);
                proof {
                    assert(o@ =~= send_view(record_value(*rec)));
                }
                Ok(Some(MsgOverview::Send(o)))
            },
            Err(e) => Err(e),
        },
        MsgKind::Delegate => match decode_delegate(payload) {
            Ok(m) => {
                let o = OverviewDelegate::from_msg(m);
                proof {
                    assert(o@ =~= delegate_view(record_value(*rec)));
                }
                Ok(Some(MsgOverview::Delegate(o)))
            },
            Err(e) => Err(e),
        },
        MsgKind::Undelegate => match decode_undelegate(payload) {
            Ok(m) => {
                let o = OverviewUndelegate::from_msg(m);
                proof {
                    assert(o@ =~= undelegate_view(record_value(*rec)));
                }
                Ok(Some(MsgOverview::Undelegate(o)))
            },
            Err(e) => Err(e),
        },
        MsgKind::Redelegate => match decode_redelegate(payload) {
            Ok(m) => {
                let o = OverviewRedelegate::from_msg(m);
                proof {
                    assert(o@ =~= redelegate_view(record_value(*rec)));
                }
                Ok(Some(MsgOverview::Redelegate(o)))
            },
            Err(e) => Err(e),
        },
        MsgKind::WithdrawReward => match decode_withdraw_reward(payload) {
            Ok(m) => {
                let o = OverviewWithdrawReward::from_msg(m);
                proof {
                    assert(o@ =~= withdraw_reward_view(record_value(*rec)));
                }
                Ok(Some(MsgOverview::WithdrawReward(o)))
            },
            Err(e) => Err(e),
        },
        MsgKind::Transfer => match decode_transfer(payload) {
            Ok(m) => {
                let o = OverviewTransfer::from_msg(m);
                proof {
                    assert(o@ =~= transfer_view(record_value(*rec)));
                }
                Ok(Some(MsgOverview::Transfer(o)))
            },
            Err(e) => Err(e),
        },
        MsgKind::Vote => match decode_vote(payload) {
            Ok(m) => {
                let o = OverviewVote::from_msg(m);
                proof {
                    assert(o@ =~= vote_view(record_value(*rec)));
                }
                Ok(Some(MsgOverview::Vote(o)))
            },
            Err(e) => Err(e),
        },
        MsgKind::SignData => match decode_sign_data(payload) {
            Ok(m) => {
                let o = OverviewMessage::from_msg(m);
                proof {
                    assert(o@ =~= message_view(record_value(*rec)));
                }
                Ok(Some(MsgOverview::Message(o)))
            },
            Err(e) => Err(e),
        },
        MsgKind::Unrecognized => Ok(None),
    }
}

// ---- the aggregator ------------------------------------------------------

/// The message list of the top-level payload, when it is a list.
pub open spec fn msg_list(v: JsonVal) -> Option<Seq<JsonVal>> {
    match v {
        JsonVal::List(l) => Some(l@),
        _ => None,
    }
}

/// The display records of the shown records of `s`, in input order.
pub open spec fn outcomes(s: Seq<JsonVal>) -> Seq<MsgOverviewV>
    decreases s.len(),
{
    if s.len() == 0 {
        Seq::empty()
    } else {
        outcomes(s.drop_last()) + if record_shown(s.last()) {
            seq![overview_v_of(s.last())]
        } else {
            Seq::empty()
        }
    }
}

/// Whether some record of `s` is recognized but malformed.
pub open spec fn any_fails(s: Seq<JsonVal>) -> bool {
    exists|i: int| 0 <= i < s.len() && record_fails(#[trigger] s[i])
}

proof fn lemma_outcomes_step(s: Seq<JsonVal>, i: int)
    requires
        0 <= i < s.len(),
    ensures
        outcomes(s.take(i + 1)) == outcomes(s.take(i)) + if record_shown(s[i]) {
            seq![overview_v_of(s[i])]
        } else {
            Seq::<MsgOverviewV>::empty()
        },
{
    assert(s.take(i + 1).drop_last() =~= s.take(i));
    assert(s.take(i + 1).last() == s[i]);
}

/// How the transaction is presented as a whole.
#[derive(Debug, Clone, Copy, PartialEq, Eq, Structural)]
pub enum CosmosTxDisplayType {
    Send,
    Delegate,
    Undelegate,
    Redelegate,
    WithdrawReward,
    Transfer,
    Vote,
    Message,
    Multiple,
    Unknown,
}

/// Transaction-wide display context.
#[derive(Debug, Clone)]
pub struct CommonOverview {
    pub network: String,
}

/// The complete overview of one transaction: its display type, the shared
/// chain context, and one display record per shown message, in order.
#[derive(Debug, Clone)]
pub struct CosmosTxOverview {
    pub display_type: CosmosTxDisplayType,
    pub common: CommonOverview,
    pub kind: Vec<MsgOverview>,
}

impl CosmosTxOverview {
    /// Builds the ordered display records of a raw message list.
    ///
    /// Fails when the payload is not a list, or when any recognized
    /// record is malformed; unrecognized records are skipped by design,
    /// so the output can hold fewer entries than the input.
    pub fn from_value(msgs: &JsonVal) -> (r: Result<Vec<MsgOverview>, CosmosError>)
        ensures
            (r is Ok) == (msg_list(*msgs) matches Some(s) && !any_fails(s)),
            r matches Ok(out) ==> (msg_list(*msgs) matches Some(s) && out@.map_values(
                |m: MsgOverview| m@,
            ) == outcomes(s)),
            r matches Err(e) ==> ((e is ParseTxError) == (msg_list(*msgs) is None)),
            r is Err ==> (msg_list(*msgs) matches Some(s) ==> exists|i: int|
                0 <= i < s.len() && record_fails(#[trigger] s[i]) && !any_fails(s.take(i))),
    {
        let list = match msgs {
            JsonVal::List(l) => l,
            _ => {
                return Err(CosmosError::ParseTxError("empty msg".to_owned()));
            },
        };
        let mut kind: Vec<MsgOverview> = Vec::new();
        let mut i: usize = 0;
        proof {
            assert(list@.take(0) =~= Seq::<JsonVal>::empty());
        }
        while i < list.len()
            invariant
                msg_list(*msgs) == Some(list@),
                0 <= i <= list@.len(),
                kind@.map_values(|m: MsgOverview| m@) == outcomes(list@.take(i as int)),
                !any_fails(list@.take(i as int)),
            decreases list@.len() - i,
        {
            let ghost prev = kind@;
            match overview_of_record(&list[i]) {
                Ok(Some(m)) => {
                    kind.push(m);
                },
                Ok(None) => {},
                Err(e) => {
                    proof {
                        assert(record_fails(list@[i as int]));
                        assert(any_fails(list@));
                    }
                    return Err(e);
                },
            }
            proof {
                lemma_outcomes_step(list@, i as int);
                assert(kind@.map_values(|m: MsgOverview| m@) =~= outcomes(
                    list@.take(i as int + 1),
                ));
                assert forall|j: int| 0 <= j < i as int + 1 implies !record_fails(
                    #[trigger] list@.take(i as int + 1)[j],
                ) by {
                    assert(list@.take(i as int + 1)[j] == list@[j]);
                    if j < i as int {
                        assert(list@.take(i as int)[j] == list@[j]);
                        assert(!record_fails(list@.take(i as int)[j]));
                    }
                }
            }
            i += 1;
        }
        proof {
            assert(list@.take(list@.len() as int) =~= list@);
        }
        Ok(kind)
    }
}

// ---- the rendered field mapping ------------------------------------------

impl OverviewSendV {
    /// The fixed field set of a bank-transfer record.
    pub open spec fn spec_fields(self) -> Seq<(Seq<char>, Seq<char>)> {
        seq![
            ("Method"@, self.method),
            ("Value"@, self.value),
            ("From"@, self.from),
            ("To"@, self.to),
        ]
    }
}

impl OverviewDelegateV {
    /// The fixed field set of a delegation record; Value is omitted
    /// entirely when empty, never shown as an empty string.
    pub open spec fn spec_fields(self) -> Seq<(Seq<char>, Seq<char>)> {
        if self.value.len() == 0 {
            seq![("Method"@, self.method), ("From"@, self.from), ("To"@, self.to)]
        } else {
            seq![
                ("Method"@, self.method),
                ("Value"@, self.value),
                ("From"@, self.from),
                ("To"@, self.to),
            ]
        }
    }
}

impl OverviewUndelegateV {
    /// The fixed field set of an undelegation record; Value is omitted
    /// entirely when empty.
    pub open spec fn spec_fields(self) -> Seq<(Seq<char>, Seq<char>)> {
        if self.value.len() == 0 {
            seq![("Method"@, self.method), ("To"@, self.to), ("Validator"@, self.validator)]
        } else {
            seq![
                ("Method"@, self.method),
                ("Value"@, self.value),
                ("To"@, self.to),
                ("Validator"@, self.validator),
            ]
        }
    }
}

impl OverviewRedelegateV {
    /// The fixed field set of a redelegation record; Value is omitted
    /// entirely when empty.
    pub open spec fn spec_fields(self) -> Seq<(Seq<char>, Seq<char>)> {
        if self.value.len() == 0 {
            seq![
                ("Method"@, self.method),
                ("To"@, self.to),
                ("New Validator"@, self.new_validator),
            ]
        } else {
            seq![
                ("Method"@, self.method),
                ("Value"@, self.value),
                ("To"@, self.to),
                ("New Validator"@, self.new_validator),
            ]
        }
    }
}

impl OverviewWithdrawRewardV {
    /// The fixed field set of a reward-withdrawal record: never a Value.
    pub open spec fn spec_fields(self) -> Seq<(Seq<char>, Seq<char>)> {
        seq![("Method"@, self.method), ("To"@, self.to), ("Validator"@, self.validator)]
    }
}

impl OverviewTransferV {
    /// The fixed field set of an inter-chain transfer record; Value is
    /// omitted entirely when empty.
    pub open spec fn spec_fields(self) -> Seq<(Seq<char>, Seq<char>)> {
        if self.value.len() == 0 {
            seq![("Method"@, self.method), ("From"@, self.from), ("To"@, self.to)]
        } else {
            seq![
                ("Method"@, self.method),
                ("Value"@, self.value),
                ("From"@, self.from),
                ("To"@, self.to),
            ]
        }
    }
}

impl OverviewVoteV {
    /// The fixed field set of a vote record.
    pub open spec fn spec_fields(self) -> Seq<(Seq<char>, Seq<char>)> {
        seq![
            ("Method"@, self.method),
            ("Voter"@, self.voter),
            ("Proposal"@, self.proposal),
            ("Voted"@, self.voted),
        ]
    }
}

impl OverviewMessageV {
    /// The fixed field set of an off-chain signing record.
    pub open spec fn spec_fields(self) -> Seq<(Seq<char>, Seq<char>)> {
        seq![
            ("Method"@, self.method),
            ("Network"@, self.network),
            ("Signer"@, self.signer),
            ("Message"@, self.message),
            ("Chain ID"@, self.chain_id),
        ]
    }
}

impl MsgOverviewV {
    /// The ordered label-to-text mapping that the record displays as.
    pub open spec fn spec_fields(self) -> Seq<(Seq<char>, Seq<char>)> {
        match self {
            MsgOverviewV::Send(o) => o.spec_fields(),
            MsgOverviewV::Delegate(o) => o.spec_fields(),
            MsgOverviewV::Undelegate(o) => o.spec_fields(),
            MsgOverviewV::Redelegate(o) => o.spec_fields(),
            MsgOverviewV::WithdrawReward(o) => o.spec_fields(),
            MsgOverviewV::Transfer(o) => o.spec_fields(),
            MsgOverviewV::Vote(o) => o.spec_fields(),
            MsgOverviewV::Message(o) => o.spec_fields(),
        }
    }
}

/// The views of an ordered field list.
pub open spec fn field_views(r: Seq<(String, String)>) -> Seq<(Seq<char>, Seq<char>)> {
    r.map_values(|p: (String, String)| (p.0@, p.1@))
}

impl OverviewSend {
    /// The ordered display fields of this record.
    pub fn fields(&self) -> (r: Vec<(String, String)>)
        ensures
            field_views(r@) == self@.spec_fields(),
    {
        let mut r: Vec<(String, String)> = Vec::new();
        r.push(("Method".to_owned(), self.method.clone()));
        r.push(("Value".to_owned(), self.value.clone()));
        r.push(("From".to_owned(), self.from.clone()));
        r.push(("To".to_owned(), self.to.clone()));
        proof {
            assert(field_views(r@) =~= self@.spec_fields());
        }
        r
    }
}

impl OverviewDelegate {
    /// The ordered display fields of this record; an empty Value is
    /// omitted, not shown empty.
    pub fn fields(&self) -> (r: Vec<(String, String)>)
        ensures
            field_views(r@) == self@.spec_fields(),
    {
        let mut r: Vec<(String, String)> = Vec::new();
        r.push(("Method".to_owned(), self.method.clone()));
        if !self.value.as_str().is_empty() {
            r.push(("Value".to_owned(), self.value.clone()));
        }
        r.push(("From".to_owned(), self.from.clone()));
        r.push(("To".to_owned(), self.to.clone()));
        proof {
            assert(field_views(r@) =~= self@.spec_fields());
        }
        r
    }
}

impl OverviewUndelegate {
    /// The ordered display fields of this record; an empty Value is
    /// omitted, not shown empty.
    pub fn fields(&self) -> (r: Vec<(String, String)>)
        ensures
            field_views(r@) == self@.spec_fields(),
    {
        let mut r: Vec<(String, String)> = Vec::new();
        r.push(("Method".to_owned(), self.method.clone()));
        if !self.value.as_str().is_empty() {
            r.push(("Value".to_owned(), self.value.clone()));
        }
        r.push(("To".to_owned(), self.to.clone()));
        r.push(("Validator".to_owned(), self.validator.clone()));
        proof {
            assert(field_views(r@) =~= self@.spec_fields());
        }
        r
    }
}

impl OverviewRedelegate {
    /// The ordered display fields of this record; an empty Value is
    /// omitted, not shown empty.
    pub fn fields(&self) -> (r: Vec<(String, String)>)
        ensures
            field_views(r@) == self@.spec_fields(),
    {
        let mut r: Vec<(String, String)> = Vec::new();
        r.push(("Method".to_owned(), self.method.clone()));
        if !self.value.as_str().is_empty() {
            r.push(("Value".to_owned(), self.value.clone()));
        }
        r.push(("To".to_owned(), self.to.clone()));
        r.push(("New Validator".to_owned(), self.new_validator.clone()));
        proof {
            assert(field_views(r@) =~= self@.spec_fields());
        }
        r
    }
}

impl OverviewWithdrawReward {
    /// The ordered display fields of this record.
    pub fn fields(&self) -> (r: Vec<(String, String)>)
        ensures
            field_views(r@) == self@.spec_fields(),
    {
        let mut r: Vec<(String, String)> = Vec::new();
        r.push(("Method".to_owned(), self.method.clone()));
        r.push(("To".to_owned(), self.to.clone()));
        r.push(("Validator".to_owned(), self.validator.clone()));
        proof {
            assert(field_views(r@) =~= self@.spec_fields());
        }
        r
    }
}

impl OverviewTransfer {
    /// The ordered display fields of this record; an empty Value is
    /// omitted, not shown empty.
    pub fn fields(&self) -> (r: Vec<(String, String)>)
        ensures
            field_views(r@) == self@.spec_fields(),
    {
        let mut r: Vec<(String, String)> = Vec::new();
        r.push(("Method".to_owned(), self.method.clone()));
        if !self.value.as_str().is_empty() {
            r.push(("Value".to_owned(), self.value.clone()));
        }
        r.push(("From".to_owned(), self.from.clone()));
        r.push(("To".to_owned(), self.to.clone()));
        proof {
            assert(field_views(r@) =~= self@.spec_fields());
        }
        r
    }
}

impl OverviewVote {
    /// The ordered display fields of this record.
    pub fn fields(&self) -> (r: Vec<(String, String)>)
        ensures
            field_views(r@) == self@.spec_fields(),
    {
        let mut r: Vec<(String, String)> = Vec::new();
        r.push(("Method".to_owned(), self.method.clone()));
        r.push(("Voter".to_owned(), self.voter.clone()));
        r.push(("Proposal".to_owned(), self.proposal.clone()));
        r.push(("Voted".to_owned(), self.voted.clone()));
        proof {
            assert(field_views(r@) =~= self@.spec_fields());
        }
        r
    }
}

impl OverviewMessage {
    /// The ordered display fields of this record.
    pub fn fields(&self) -> (r: Vec<(String, String)>)
        ensures
            field_views(r@) == self@.spec_fields(),
    {
        let mut r: Vec<(String, String)> = Vec::new();
        r.push(("Method".to_owned(), self.method.clone()));
        r.push(("Network".to_owned(), self.network.clone()));
        r.push(("Signer".to_owned(), self.signer.clone()));
        r.push(("Message".to_owned(), self.message.clone()));
        r.push(("Chain ID".to_owned(), self.chain_id.clone()));
        proof {
            assert(field_views(r@) =~= self@.spec_fields());
        }
        r
    }
}

impl MsgOverview {
    /// The ordered display fields of this record.
    pub fn fields(&self) -> (r: Vec<(String, String)>)
        ensures
            field_views(r@) == self@.spec_fields(),
    {
        match self {
            MsgOverview::Send(o) => o.fields(),
            MsgOverview::Delegate(o) => o.fields(),
            MsgOverview::Undelegate(o) => o.fields(),
            MsgOverview::Redelegate(o) => o.fields(),
            MsgOverview::WithdrawReward(o) => o.fields(),
            MsgOverview::Transfer(o) => o.fields(),
            MsgOverview::Vote(o) => o.fields(),
            MsgOverview::Message(o) => o.fields(),
        }
    }
}

/// A display record that omits its Value field when empty never shows an
/// empty Value entry: whenever "Value" appears among its field labels,
/// the text beside it is nonempty.
pub proof fn lemma_no_empty_value_entry(o: MsgOverviewV)
    requires
        o is Delegate || o is Undelegate || o is Redelegate || o is Transfer,
    ensures
        forall|j: int| 0 <= j < o.spec_fields().len() ==> ((#[trigger] o.spec_fields()[j]).0
            == "Value"@ ==> o.spec_fields()[j].1.len() > 0),
{
    reveal_strlit("Method");
    reveal_strlit("Value");
    reveal_strlit("From");
    reveal_strlit("To");
    reveal_strlit("Validator");
    reveal_strlit("New Validator");
    let fs = o.spec_fields();
    assert forall|j: int|
        0 <= j < fs.len() && (#[trigger] fs[j]).0 == "Value"@ implies fs[j].1.len() > 0 by {
        assert("Method"@.len() == 6);
        assert("Value"@.len() == 5);
        assert("From"@.len() == 4);
        assert("To"@.len() == 2);
        assert("Validator"@.len() == 9);
        assert("New Validator"@.len() == 13);
        match o {
            MsgOverviewV::Delegate(d) => {
                if d.value.len() == 0 {
                    assert(fs[j].0 == "Method"@ || fs[j].0 == "From"@ || fs[j].0 == "To"@);
                } else {
                    if fs[j].0 == "Value"@ {
                        assert(j == 1);
                    }
                }
            },
            MsgOverviewV::Undelegate(d) => {
                if d.value.len() == 0 {
                    assert(fs[j].0 == "Method"@ || fs[j].0 == "To"@ || fs[j].0 == "Validator"@);
                } else {
                    if fs[j].0 == "Value"@ {
                        assert(j == 1);
                    }
                }
            },
            MsgOverviewV::Redelegate(d) => {
                if d.value.len() == 0 {
                    assert(fs[j].0 == "Method"@ || fs[j].0 == "To"@ || fs[j].0
                        == "New Validator"@);
                } else {
                    if fs[j].0 == "Value"@ {
                        assert(j == 1);
                    }
                }
            },
            MsgOverviewV::Transfer(d) => {
                if d.value.len() == 0 {
                    assert(fs[j].0 == "Method"@ || fs[j].0 == "From"@ || fs[j].0 == "To"@);
                } else {
                    if fs[j].0 == "Value"@ {
                        assert(j == 1);
                    }
                }
            },
            _ => {},
        }
    }
}

/// The number of records of `s` that yield a display record.
pub open spec fn shown_count(s: Seq<JsonVal>) -> nat
    decreases s.len(),
{
    if s.len() == 0 {
        0
    } else {
        shown_count(s.drop_last()) + if record_shown(s.last()) {
            1nat
        } else {
            0nat
        }
    }
}

/// The overview holds exactly one display record per shown input record:
/// skipped (unrecognized) records, wherever they are interleaved, and
/// only they, contribute nothing.
pub proof fn lemma_overview_count(s: Seq<JsonVal>)
    ensures
        outcomes(s).len() == shown_count(s),
    decreases s.len(),
{
    if s.len() > 0 {
        lemma_overview_count(s.drop_last());
    }
}

/// Order preservation: for a list whose every record is recognized and
/// well-formed, the overview has exactly one display record per input
/// record, and the record at each position renders the input at that
/// position.
pub proof fn lemma_overview_order(s: Seq<JsonVal>)
    requires
        forall|i: int| 0 <= i < s.len() ==> record_shown(#[trigger] s[i]),
    ensures
        outcomes(s).len() == s.len(),
        forall|i: int| 0 <= i < s.len() ==> outcomes(s)[i] == overview_v_of(#[trigger] s[i]),
    decreases s.len(),
{
    if s.len() > 0 {
        let head = s.drop_last();
        assert(forall|i: int| 0 <= i < head.len() ==> head[i] == s[i]);
        lemma_overview_order(head);
        assert(record_shown(s.last()));
        assert forall|i: int| 0 <= i < s.len() implies outcomes(s)[i] == overview_v_of(
            #[trigger] s[i],
        ) by {
            if i < s.len() - 1 {
                assert(outcomes(s)[i] == outcomes(head)[i]);
            } else {
                assert(outcomes(s)[i] == overview_v_of(s.last()));
            }
        }
    }
}

} // verus!
