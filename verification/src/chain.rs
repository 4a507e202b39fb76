//! Resolving a signer address to a chain identifier and a network name.
//!
//! Both lookups are in-memory tables. The address lookup is total: an
//! unknown address prefix falls back to the Cosmos Hub chain identifier,
//! so that overview construction never fails on an unknown signer.

use vstd::prelude::*;

use crate::fmt::str_eq;

verus! {

/// The characters of `s` before its first `'1'` (all of `s` when it has
/// none): the human-readable prefix of a bech32 address.
pub open spec fn bech_prefix(s: Seq<char>) -> Seq<char>
    decreases s.len(),
{
    if s.len() == 0 {
        s
    } else if s[0] == '1' {
        Seq::empty()
    } else {
        seq![s[0]] + bech_prefix(s.drop_first())
    }
}

proof fn lemma_bech_prefix_take(s: Seq<char>, i: int)
    requires
        0 <= i <= s.len(),
        forall|j: int| 0 <= j < i ==> s[j] != '1',
    ensures
        bech_prefix(s) == s.take(i) + bech_prefix(s.skip(i)),
    decreases i,
{
    if i == 0 {
        assert(s.skip(0) =~= s);
        assert(s.take(0) + bech_prefix(s) =~= bech_prefix(s));
    } else {
        lemma_bech_prefix_take(s, i - 1);
        let tail = s.skip(i - 1);
        assert(tail[0] == s[i - 1]);
        assert(tail.drop_first() =~= s.skip(i));
        assert(bech_prefix(tail) == seq![s[i - 1]] + bech_prefix(s.skip(i)));
        assert(s.take(i - 1) + (seq![s[i - 1]] + bech_prefix(s.skip(i))) =~= s.take(i)
            + bech_prefix(s.skip(i)));
    }
}

/// Extracts the bech32 human-readable prefix of an address.
pub fn address_prefix(addr: &str) -> (r: String)
    ensures
        r@ == bech_prefix(addr@),
{
    let n = addr.unicode_len();
    let mut i: usize = 0;
    while i < n && addr.get_char(i) != '1'
        invariant
            n == addr@.len(),
            0 <= i <= n,
            forall|j: int| 0 <= j < i ==> addr@[j] != '1',
        decreases n - i,
    {
        i += 1;
    }
    proof {
        lemma_bech_prefix_take(addr@, i as int);
        if i < n {
            assert(addr@.skip(i as int)[0] == addr@[i as int]);
            assert(bech_prefix(addr@.skip(i as int)) =~= Seq::<char>::empty());
        } else {
            assert(addr@.skip(i as int).len() == 0);
        }
        assert(bech_prefix(addr@) =~= addr@.take(i as int));
    }
    addr.substring_char(0, i).to_owned()
}

/// The chain identifier for a signer address, by its bech32 prefix;
/// unknown prefixes fall back to the Cosmos Hub.
pub open spec fn spec_chain_id(addr: Seq<char>) -> Seq<char> {
    let p = bech_prefix(addr);
    if p == "osmo"@ {
        "osmosis-1"@
    } else if p == "juno"@ {
        "juno-1"@
    } else if p == "secret"@ {
        "secret-4"@
    } else if p == "evmos"@ {
        "evmos_9001-2"@
    } else {
        "cosmoshub-4"@
    }
}

/// Resolves a signer address to its chain identifier (total: defaults to
/// the Cosmos Hub).
pub fn get_chain_id_by_address(addr: &str) -> (r: String)
    ensures
        r@ == spec_chain_id(addr@),
{
    let p = address_prefix(addr);
    if str_eq(p.as_str(), "osmo") {
        "osmosis-1".to_owned()
    } else if str_eq(p.as_str(), "juno") {
        "juno-1".to_owned()
    } else if str_eq(p.as_str(), "secret") {
        "secret-4".to_owned()
    } else if str_eq(p.as_str(), "evmos") {
        "evmos_9001-2".to_owned()
    } else {
        "cosmoshub-4".to_owned()
    }
}

/// The human network name registered for a chain identifier, if any.
pub open spec fn spec_network(chain_id: Seq<char>) -> Option<Seq<char>> {
    if chain_id == "cosmoshub-4"@ {
        Some("Cosmos Hub"@)
    } else if chain_id == "osmosis-1"@ {
        Some("Osmosis"@)
    } else if chain_id == "juno-1"@ {
        Some("Juno"@)
    } else if chain_id == "secret-4"@ {
        Some("Secret Network"@)
    } else if chain_id == "evmos_9001-2"@ {
        Some("Evmos"@)
    } else {
        None
    }
}

/// Looks a chain identifier up in the network-name registry.
pub fn get_network_by_chain_id(chain_id: &str) -> (r: Option<String>)
    ensures
        match r {
            Some(n) => spec_network(chain_id@) == Some(n@),
            None => spec_network(chain_id@) is None,
        },
{
    if str_eq(chain_id, "cosmoshub-4") {
        Some("Cosmos Hub".to_owned())
    } else if str_eq(chain_id, "osmosis-1") {
        Some("Osmosis".to_owned())
    } else if str_eq(chain_id, "juno-1") {
        Some("Juno".to_owned())
    } else if str_eq(chain_id, "secret-4") {
        Some("Secret Network".to_owned())
    } else if str_eq(chain_id, "evmos_9001-2") {
        Some("Evmos".to_owned())
    } else {
        None
    }
}

} // verus!
