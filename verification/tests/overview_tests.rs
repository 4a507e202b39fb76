use cosmos_overview::msgs::{MsgSignData, MsgVote};
use cosmos_overview::overview::{
    overview_of_record, CosmosTxOverview, MsgOverview, OverviewMessage, OverviewVote,
};
use cosmos_overview::value::JsonVal;
use cosmos_overview::CosmosError;

fn text(s: &str) -> JsonVal {
    JsonVal::Text(s.to_string())
}

fn coin(denom: &str, amount: &str) -> JsonVal {
    JsonVal::Object(vec![
        ("denom".to_string(), text(denom)),
        ("amount".to_string(), text(amount)),
    ])
}

fn record(type_tag: &str, value: JsonVal) -> JsonVal {
    JsonVal::Object(vec![
        ("type".to_string(), text(type_tag)),
        ("value".to_string(), value),
    ])
}

fn send_value(from: &str, to: &str, coins: Vec<JsonVal>) -> JsonVal {
    JsonVal::Object(vec![
        ("from_address".to_string(), text(from)),
        ("to_address".to_string(), text(to)),
        ("amount".to_string(), JsonVal::List(coins)),
    ])
}

fn fields_of(m: &MsgOverview) -> Vec<(String, String)> {
    m.fields()
}

#[test]
fn end_to_end_send_single_atom() {
    let msgs = JsonVal::List(vec![record(
        "cosmos-sdk/MsgSend",
        send_value("cosmos1a", "cosmos1b", vec![coin("uatom", "1000000")]),
    )]);
    let out = CosmosTxOverview::from_value(&msgs).unwrap();
    assert_eq!(out.len(), 1);
    let fields = fields_of(&out[0]);
    assert_eq!(
        fields,
        vec![
            ("Method".to_string(), "Send".to_string()),
            ("Value".to_string(), "1 ATOM".to_string()),
            ("From".to_string(), "cosmos1a".to_string()),
            ("To".to_string(), "cosmos1b".to_string()),
        ]
    );
}

#[test]
fn send_combines_two_amounts() {
    let msgs = JsonVal::List(vec![record(
        "cosmos-sdk/MsgSend",
        send_value(
            "cosmos1a",
            "cosmos1b",
            vec![coin("uatom", "100"), coin("uosmo", "5")],
        ),
    )]);
    let out = CosmosTxOverview::from_value(&msgs).unwrap();
    let fields = fields_of(&out[0]);
    assert_eq!(fields[1].0, "Value");
    assert_eq!(fields[1].1, "0.0001 ATOM, 5 uosmo");
}

#[test]
fn send_missing_from_address_fails_whole_batch() {
    let good = record(
        "cosmos-sdk/MsgSend",
        send_value("cosmos1a", "cosmos1b", vec![coin("uatom", "7")]),
    );
    let bad = record(
        "cosmos-sdk/MsgSend",
        JsonVal::Object(vec![
            ("to_address".to_string(), text("cosmos1b")),
            ("amount".to_string(), JsonVal::List(vec![])),
        ]),
    );
    let msgs = JsonVal::List(vec![good, bad]);
    match CosmosTxOverview::from_value(&msgs) {
        Err(CosmosError::DecodeMsgError(_)) => {}
        other => panic!("expected a decode error, got {:?}", other),
    }
}

#[test]
fn top_level_not_a_list_is_parse_error() {
    let msgs = text("not a list");
    match CosmosTxOverview::from_value(&msgs) {
        Err(CosmosError::ParseTxError(_)) => {}
        other => panic!("expected a parse error, got {:?}", other),
    }
}

#[test]
fn unrecognized_kind_is_skipped_and_order_kept() {
    let msgs = JsonVal::List(vec![
        record(
            "cosmos-sdk/MsgSend",
            send_value("cosmos1a", "cosmos1b", vec![coin("uatom", "7")]),
        ),
        record("cosmos-sdk/MsgSubmitProposal", JsonVal::Object(vec![])),
        record(
            "cosmos-sdk/MsgVote",
            JsonVal::Object(vec![
                ("voter".to_string(), text("cosmos1v")),
                ("proposal_id".to_string(), JsonVal::Uint(42)),
                ("option".to_string(), JsonVal::Uint(1)),
            ]),
        ),
    ]);
    let out = CosmosTxOverview::from_value(&msgs).unwrap();
    assert_eq!(out.len(), 2);
    assert!(matches!(out[0], MsgOverview::Send(_)));
    assert!(matches!(out[1], MsgOverview::Vote(_)));
}

#[test]
fn record_without_type_tag_is_skipped() {
    let msgs = JsonVal::List(vec![JsonVal::Object(vec![(
        "value".to_string(),
        JsonVal::Object(vec![]),
    )])]);
    let out = CosmosTxOverview::from_value(&msgs).unwrap();
    assert_eq!(out.len(), 0);
}

#[test]
fn vote_option_two_renders_abstain() {
    let ov = OverviewVote::from_msg(MsgVote {
        voter: "cosmos1v".to_string(),
        proposal_id: 9,
        option: 2,
    });
    assert_eq!(ov.voted, "ABSTAIN");
    assert_eq!(ov.proposal, "#9");
    assert_eq!(ov.method, "Vote");
}

#[test]
fn vote_option_out_of_range_renders_empty() {
    let ov = OverviewVote::from_msg(MsgVote {
        voter: "cosmos1v".to_string(),
        proposal_id: 12345,
        option: 5,
    });
    assert_eq!(ov.voted, "");
    assert_eq!(ov.proposal, "#12345");
}

#[test]
fn vote_option_all_table_entries() {
    let labels = ["UNSPECIFIED", "YES", "ABSTAIN", "NO", "NO_WITH_VETO"];
    for (code, label) in labels.iter().enumerate() {
        let ov = OverviewVote::from_msg(MsgVote {
            voter: "v".to_string(),
            proposal_id: 1,
            option: code as u64,
        });
        assert_eq!(&ov.voted, label);
    }
}

#[test]
fn sign_data_valid_encoding_shows_text() {
    let ov = OverviewMessage::from_msg(MsgSignData {
        data: "aGVsbG8=".to_string(),
        signer: "cosmos1signer".to_string(),
    });
    assert_eq!(ov.message, "hello");
    assert_eq!(ov.method, "Message");
    assert_eq!(ov.chain_id, "cosmoshub-4");
    assert_eq!(ov.network, "Cosmos Hub");
    assert_eq!(ov.signer, "cosmos1signer");
}

#[test]
fn sign_data_invalid_encoding_shows_original() {
    let ov = OverviewMessage::from_msg(MsgSignData {
        data: "!!!not encoded!!!".to_string(),
        signer: "cosmos1signer".to_string(),
    });
    assert_eq!(ov.message, "!!!not encoded!!!");
}

#[test]
fn sign_data_invalid_utf8_shows_original() {
    // "//4=" decodes to the bytes [0xff, 0xfe], which are not UTF-8.
    let ov = OverviewMessage::from_msg(MsgSignData {
        data: "//4=".to_string(),
        signer: "cosmos1signer".to_string(),
    });
    assert_eq!(ov.message, "//4=");
}

#[test]
fn sign_data_cjk_text_shows_original_encoding() {
    // "5L2g5aW9" is the encoding of a two-ideograph CJK greeting.
    let ov = OverviewMessage::from_msg(MsgSignData {
        data: "5L2g5aW9".to_string(),
        signer: "cosmos1signer".to_string(),
    });
    assert_eq!(ov.message, "5L2g5aW9");
}

#[test]
fn sign_data_resolves_network_from_signer_prefix() {
    let ov = OverviewMessage::from_msg(MsgSignData {
        data: "aGVsbG8=".to_string(),
        signer: "osmo1signer".to_string(),
    });
    assert_eq!(ov.chain_id, "osmosis-1");
    assert_eq!(ov.network, "Osmosis");
}

#[test]
fn delegate_without_amount_omits_value_field() {
    let msgs = JsonVal::List(vec![record(
        "cosmos-sdk/MsgDelegate",
        JsonVal::Object(vec![
            ("delegator_address".to_string(), text("cosmos1d")),
            ("validator_address".to_string(), text("cosmosvaloper1v")),
        ]),
    )]);
    let out = CosmosTxOverview::from_value(&msgs).unwrap();
    let fields = fields_of(&out[0]);
    assert_eq!(
        fields,
        vec![
            ("Method".to_string(), "Delegate".to_string()),
            ("From".to_string(), "cosmos1d".to_string()),
            ("To".to_string(), "cosmosvaloper1v".to_string()),
        ]
    );
}

#[test]
fn delegate_with_amount_shows_value_field() {
    let msgs = JsonVal::List(vec![record(
        "cosmos-sdk/MsgDelegate",
        JsonVal::Object(vec![
            ("delegator_address".to_string(), text("cosmos1d")),
            ("validator_address".to_string(), text("cosmosvaloper1v")),
            ("amount".to_string(), coin("uatom", "2500000")),
        ]),
    )]);
    let out = CosmosTxOverview::from_value(&msgs).unwrap();
    let fields = fields_of(&out[0]);
    assert_eq!(fields[1], ("Value".to_string(), "2.5 ATOM".to_string()));
}

#[test]
fn undelegate_names_validator() {
    let msgs = JsonVal::List(vec![record(
        "cosmos-sdk/MsgUndelegate",
        JsonVal::Object(vec![
            ("delegator_address".to_string(), text("cosmos1d")),
            ("validator_address".to_string(), text("cosmosvaloper1v")),
            ("amount".to_string(), coin("ujuno", "12")),
        ]),
    )]);
    let out = CosmosTxOverview::from_value(&msgs).unwrap();
    let fields = fields_of(&out[0]);
    assert_eq!(
        fields,
        vec![
            ("Method".to_string(), "Undelegate".to_string()),
            ("Value".to_string(), "12 ujuno".to_string()),
            ("To".to_string(), "cosmos1d".to_string()),
            ("Validator".to_string(), "cosmosvaloper1v".to_string()),
        ]
    );
}

#[test]
fn redelegate_names_new_validator() {
    let msgs = JsonVal::List(vec![record(
        "cosmos-sdk/MsgBeginRedelegate",
        JsonVal::Object(vec![
            ("delegator_address".to_string(), text("cosmos1d")),
            ("validator_src_address".to_string(), text("cosmosvaloper1old")),
            ("validator_dst_address".to_string(), text("cosmosvaloper1new")),
            ("amount".to_string(), coin("uatom", "1")),
        ]),
    )]);
    let out = CosmosTxOverview::from_value(&msgs).unwrap();
    let fields = fields_of(&out[0]);
    assert_eq!(fields[0], ("Method".to_string(), "Re-delegate".to_string()));
    assert_eq!(fields[1], ("Value".to_string(), "0.000001 ATOM".to_string()));
    assert_eq!(fields[2], ("To".to_string(), "cosmos1d".to_string()));
    assert_eq!(
        fields[3],
        ("New Validator".to_string(), "cosmosvaloper1new".to_string())
    );
}

#[test]
fn withdraw_reward_has_no_value_field_and_both_spellings_work() {
    for tag in [
        "cosmos-sdk/MsgWithdrawDelegatorReward",
        "cosmos-sdk/MsgWithdrawDelegationReward",
    ] {
        let msgs = JsonVal::List(vec![record(
            tag,
            JsonVal::Object(vec![
                ("delegator_address".to_string(), text("cosmos1d")),
                ("validator_address".to_string(), text("cosmosvaloper1v")),
            ]),
        )]);
        let out = CosmosTxOverview::from_value(&msgs).unwrap();
        let fields = fields_of(&out[0]);
        assert_eq!(
            fields,
            vec![
                ("Method".to_string(), "Withdraw Reward".to_string()),
                ("To".to_string(), "cosmos1d".to_string()),
                ("Validator".to_string(), "cosmosvaloper1v".to_string()),
            ]
        );
    }
}

#[test]
fn ibc_transfer_renders_token_and_parties() {
    let msgs = JsonVal::List(vec![record(
        "/ibc.applications.transfer.v1.MsgTransfer",
        JsonVal::Object(vec![
            ("sender".to_string(), text("cosmos1s")),
            ("receiver".to_string(), text("osmo1r")),
            ("token".to_string(), coin("uatom", "1500000")),
        ]),
    )]);
    let out = CosmosTxOverview::from_value(&msgs).unwrap();
    let fields = fields_of(&out[0]);
    assert_eq!(
        fields,
        vec![
            ("Method".to_string(), "IBC Transfer".to_string()),
            ("Value".to_string(), "1.5 ATOM".to_string()),
            ("From".to_string(), "cosmos1s".to_string()),
            ("To".to_string(), "osmo1r".to_string()),
        ]
    );
}

#[test]
fn ibc_transfer_without_token_omits_value() {
    let msgs = JsonVal::List(vec![record(
        "cosmos-sdk/MsgTransfer",
        JsonVal::Object(vec![
            ("sender".to_string(), text("cosmos1s")),
            ("receiver".to_string(), text("osmo1r")),
        ]),
    )]);
    let out = CosmosTxOverview::from_value(&msgs).unwrap();
    let fields = fields_of(&out[0]);
    assert_eq!(fields.len(), 3);
    assert!(fields.iter().all(|f| f.0 != "Value"));
}

#[test]
fn vote_with_mistyped_proposal_id_fails() {
    let msgs = JsonVal::List(vec![record(
        "cosmos-sdk/MsgVote",
        JsonVal::Object(vec![
            ("voter".to_string(), text("cosmos1v")),
            ("proposal_id".to_string(), text("42")),
            ("option".to_string(), JsonVal::Uint(1)),
        ]),
    )]);
    assert!(matches!(
        CosmosTxOverview::from_value(&msgs),
        Err(CosmosError::DecodeMsgError(_))
    ));
}

#[test]
fn delegate_with_mistyped_amount_fails() {
    let msgs = JsonVal::List(vec![record(
        "cosmos-sdk/MsgDelegate",
        JsonVal::Object(vec![
            ("delegator_address".to_string(), text("cosmos1d")),
            ("validator_address".to_string(), text("cosmosvaloper1v")),
            ("amount".to_string(), text("1 uatom")),
        ]),
    )]);
    assert!(matches!(
        CosmosTxOverview::from_value(&msgs),
        Err(CosmosError::DecodeMsgError(_))
    ));
}

#[test]
fn delegate_with_null_amount_is_treated_as_absent() {
    let msgs = JsonVal::List(vec![record(
        "cosmos-sdk/MsgDelegate",
        JsonVal::Object(vec![
            ("delegator_address".to_string(), text("cosmos1d")),
            ("validator_address".to_string(), text("cosmosvaloper1v")),
            ("amount".to_string(), JsonVal::Null),
        ]),
    )]);
    let out = CosmosTxOverview::from_value(&msgs).unwrap();
    let fields = fields_of(&out[0]);
    assert_eq!(fields.len(), 3);
    assert!(fields.iter().all(|f| f.0 != "Value"));
}

#[test]
fn empty_message_list_gives_empty_overview() {
    let msgs = JsonVal::List(vec![]);
    let out = CosmosTxOverview::from_value(&msgs).unwrap();
    assert_eq!(out.len(), 0);
}

#[test]
fn single_record_dispatch_outcomes() {
    let shown = record(
        "cosmos-sdk/MsgSend",
        send_value("cosmos1a", "cosmos1b", vec![]),
    );
    assert!(matches!(overview_of_record(&shown), Ok(Some(_))));

    let skipped = record("cosmos-sdk/MsgExec", JsonVal::Object(vec![]));
    assert!(matches!(overview_of_record(&skipped), Ok(None)));

    let failing = record("cosmos-sdk/MsgVote", JsonVal::Object(vec![]));
    assert!(matches!(
        overview_of_record(&failing),
        Err(CosmosError::DecodeMsgError(_))
    ));
}
