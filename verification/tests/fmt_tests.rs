use cosmos_overview::chain::{get_chain_id_by_address, get_network_by_chain_id};
use cosmos_overview::fmt::{format_amount, format_single_coin, u64_to_dec, Coin};
use cosmos_overview::textdec::{decode_sign_message, is_cjk};

fn coin(denom: &str, amount: &str) -> Coin {
    Coin {
        denom: denom.to_string(),
        amount: amount.to_string(),
    }
}

#[test]
fn decimal_rendering_is_exact() {
    assert_eq!(u64_to_dec(0), "0");
    assert_eq!(u64_to_dec(7), "7");
    assert_eq!(u64_to_dec(10), "10");
    assert_eq!(u64_to_dec(1234567890), "1234567890");
    assert_eq!(u64_to_dec(u64::MAX), "18446744073709551615");
}

#[test]
fn base_denom_scales_to_whole_atom() {
    assert_eq!(format_single_coin(&coin("uatom", "1000000")), "1 ATOM");
    assert_eq!(format_single_coin(&coin("uatom", "1500000")), "1.5 ATOM");
    assert_eq!(format_single_coin(&coin("uatom", "100")), "0.0001 ATOM");
    assert_eq!(format_single_coin(&coin("uatom", "123456789")), "123.456789 ATOM");
    assert_eq!(format_single_coin(&coin("uatom", "1")), "0.000001 ATOM");
}

#[test]
fn other_denoms_pass_through_verbatim() {
    assert_eq!(format_single_coin(&coin("uosmo", "5")), "5 uosmo");
    assert_eq!(format_single_coin(&coin("ujuno", "1000000")), "1000000 ujuno");
}

#[test]
fn non_numeric_base_denom_amount_passes_through() {
    assert_eq!(format_single_coin(&coin("uatom", "12x4")), "12x4 uatom");
    assert_eq!(format_single_coin(&coin("uatom", "")), " uatom");
}

#[test]
fn base_denom_amounts_beyond_machine_integers_still_scale() {
    assert_eq!(
        format_single_coin(&coin("uatom", "123456789012345678000000")),
        "123456789012345678 ATOM"
    );
    assert_eq!(
        format_single_coin(&coin("uatom", "123456789012345678900001")),
        "123456789012345678.900001 ATOM"
    );
}

#[test]
fn amount_list_joins_with_comma() {
    let coins = vec![coin("uatom", "100"), coin("uosmo", "5"), coin("ujuno", "9")];
    assert_eq!(format_amount(&coins), "0.0001 ATOM, 5 uosmo, 9 ujuno");
    assert_eq!(format_amount(&vec![]), "");
}

#[test]
fn chain_id_lookup_defaults_to_cosmos_hub() {
    assert_eq!(get_chain_id_by_address("cosmos1abc"), "cosmoshub-4");
    assert_eq!(get_chain_id_by_address("osmo1abc"), "osmosis-1");
    assert_eq!(get_chain_id_by_address("juno1abc"), "juno-1");
    assert_eq!(get_chain_id_by_address("unknownprefix1abc"), "cosmoshub-4");
    assert_eq!(get_chain_id_by_address(""), "cosmoshub-4");
}

#[test]
fn network_lookup_is_partial() {
    assert_eq!(
        get_network_by_chain_id("osmosis-1"),
        Some("Osmosis".to_string())
    );
    assert_eq!(get_network_by_chain_id("no-such-chain"), None);
}

#[test]
fn sign_payload_decodes_or_falls_back() {
    assert_eq!(decode_sign_message(&"aGVsbG8=".to_string()), "hello");
    assert_eq!(decode_sign_message(&"".to_string()), "");
    assert_eq!(
        decode_sign_message(&"%%%".to_string()),
        "%%%"
    );
}

#[test]
fn cjk_detection() {
    assert!(is_cjk("\u{4f60}\u{597d}"));
    assert!(is_cjk("mixed \u{30ab}\u{30bf} text"));
    assert!(!is_cjk("hello"));
    assert!(!is_cjk(""));
}
