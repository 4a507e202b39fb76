//! Rendering of coin amounts into display strings.
//!
//! A coin is a (denomination, quantity) pair; the quantity is a decimal
//! digit string as it appears on chain. The chain's base denomination
//! `uatom` is scaled to whole `ATOM` (six decimal places); every other
//! denomination is passed through verbatim as `<amount> <denom>`.

use vstd::prelude::*;

verus! {

/// One (denomination, quantity) pair of a message's amount list.
#[derive(Debug, Clone)]
pub struct Coin {
    pub denom: String,
    pub amount: String,
}

/// Mathematical model of a coin: its two strings as character sequences.
#[verifier::ext_equal]
pub ghost struct CoinV {
    pub denom: Seq<char>,
    pub amount: Seq<char>,
}

impl View for Coin {
    type V = CoinV;

    open spec fn view(&self) -> CoinV {
        CoinV { denom: self.denom@, amount: self.amount@ }
    }
}

/// Compares two strings character by character.
pub fn str_eq(a: &str, b: &str) -> (r: bool)
    ensures
        r == (a@ == b@),
{
    let n = a.unicode_len();
    if n != b.unicode_len() {
        return false;
    }
    let mut i: usize = 0;
    while i < n
        invariant
            n == a@.len(),
            n == b@.len(),
            0 <= i <= n,
            forall|j: int| 0 <= j < i ==> a@[j] == b@[j],
        decreases n - i,
    {
        if a.get_char(i) != b.get_char(i) {
            return false;
        }
        i += 1;
    }
    proof {
        assert(a@ =~= b@);
    }
    true
}

pub open spec fn is_digit(c: char) -> bool {
    48 <= c as u32 && c as u32 <= 57
}

pub open spec fn all_digits(s: Seq<char>) -> bool {
    forall|i: int| 0 <= i < s.len() ==> is_digit(#[trigger] s[i])
}

/// Tests whether every character of `s` is a decimal digit.
pub fn check_all_digits(s: &str) -> (r: bool)
    ensures
        r == all_digits(s@),
{
    let n = s.unicode_len();
    let mut i: usize = 0;
    while i < n
        invariant
            n == s@.len(),
            0 <= i <= n,
            forall|j: int| 0 <= j < i ==> is_digit(#[trigger] s@[j]),
        decreases n - i,
    {
        let c = s.get_char(i);
        let u = c as u32;
        if u < 48 || u > 57 {
            return false;
        }
        i += 1;
    }
    true
}

/// The one-character string for the decimal digit `d`.
pub open spec fn digit_lit(d: nat) -> Seq<char> {
    if d == 0 {
        "0"@
    } else if d == 1 {
        "1"@
    } else if d == 2 {
        "2"@
    } else if d == 3 {
        "3"@
    } else if d == 4 {
        "4"@
    } else if d == 5 {
        "5"@
    } else if d == 6 {
        "6"@
    } else if d == 7 {
        "7"@
    } else if d == 8 {
        "8"@
    } else {
        "9"@
    }
}

/// The decimal rendering of `n`, most significant digit first.
pub open spec fn dec_str(n: nat) -> Seq<char>
    decreases n,
{
    if n < 10 {
        digit_lit(n)
    } else {
        dec_str(n / 10) + digit_lit(n % 10)
    }
}

fn digit_str(d: u64) -> (r: &'static str)
    requires
        d < 10,
    ensures
        r@ == digit_lit(d as nat),
{
    if d == 0 {
        "0"
    } else if d == 1 {
        "1"
    } else if d == 2 {
        "2"
    } else if d == 3 {
        "3"
    } else if d == 4 {
        "4"
    } else if d == 5 {
        "5"
    } else if d == 6 {
        "6"
    } else if d == 7 {
        "7"
    } else if d == 8 {
        "8"
    } else {
        "9"
    }
}

/// Renders `n` in decimal.
pub fn u64_to_dec(n: u64) -> (r: String)
    ensures
        r@ == dec_str(n as nat),
    decreases n,
{
    if n < 10 {
        digit_str(n).to_owned()
    } else {
        let mut s = u64_to_dec(n / 10);
        s.append(digit_str(n % 10));
        s
    }
}

/// `s` with its trailing `'0'` characters removed.
pub open spec fn strip_trailing_zeros(s: Seq<char>) -> Seq<char>
    decreases s.len(),
{
    if s.len() == 0 {
        s
    } else if s.last() == '0' {
        strip_trailing_zeros(s.drop_last())
    } else {
        s
    }
}

proof fn lemma_strip_prefix(s: Seq<char>, end: int)
    requires
        0 <= end <= s.len(),
        forall|j: int| end <= j < s.len() ==> s[j] == '0',
    ensures
        strip_trailing_zeros(s) == strip_trailing_zeros(s.take(end)),
    decreases s.len() - end,
{
    if end < s.len() {
        assert(s.last() == '0');
        assert(s.drop_last() =~= s.take(s.len() - 1));
        lemma_strip_prefix(s.take(s.len() - 1), end);
        assert(s.take(s.len() - 1).take(end) =~= s.take(end));
    } else {
        assert(s.take(end) =~= s);
    }
}

fn strip_zeros(s: &str) -> (r: String)
    ensures
        r@ == strip_trailing_zeros(s@),
{
    let n = s.unicode_len();
    let mut end: usize = n;
    while end > 0 && s.get_char(end - 1) == '0'
        invariant
            n == s@.len(),
            0 <= end <= n,
            forall|j: int| end <= j < n ==> s@[j] == '0',
        decreases end,
    {
        end -= 1;
    }
    proof {
        lemma_strip_prefix(s@, end as int);
        if end > 0 {
            assert(s@.take(end as int).last() != '0');
        }
        assert(strip_trailing_zeros(s@.take(end as int)) == s@.take(end as int));
    }
    s.substring_char(0, end).to_owned()
}

/// A run of `n` `'0'` characters.
pub open spec fn zero_chars(n: nat) -> Seq<char> {
    Seq::new(n, |i: int| '0')
}

/// The digit string `d`, read as an integer number of millionths, rendered
/// as a plain decimal: six digits are shifted behind the point and the
/// fractional part loses its trailing zeros (dropped entirely when zero).
pub open spec fn scaled_millionths(d: Seq<char>) -> Seq<char> {
    let ip = if d.len() > 6 {
        d.take(d.len() - 6)
    } else {
        "0"@
    };
    let fraw = if d.len() >= 6 {
        d.skip(d.len() - 6)
    } else {
        zero_chars((6 - d.len()) as nat) + d
    };
    let f = strip_trailing_zeros(fraw);
    if f.len() == 0 {
        ip
    } else {
        ip + "."@ + f
    }
}

fn scale_millionths(s: &str) -> (r: String)
    requires
        s@.len() > 0,
    ensures
        r@ == scaled_millionths(s@),
{
    let n = s.unicode_len();
    let mut ip: String;
    let fraw: String;
    if n > 6 {
        ip = s.substring_char(0, n - 6).to_owned();
        fraw = s.substring_char(n - 6, n).to_owned();
        proof {
            assert(s@.subrange(0, n - 6) =~= s@.take(n as int - 6));
            assert(s@.subrange(n - 6, n as int) =~= s@.skip(n as int - 6));
        }
    } else {
        ip = "0".to_owned();
        let mut pad = String::new();
        let mut k: usize = 0;
        while k < 6 - n
            invariant
                n <= 6,
                0 <= k <= 6 - n,
                pad@ =~= zero_chars(k as nat),
            decreases 6 - n - k,
        {
            pad.append("0");
            proof {
                reveal_strlit("0");
                assert(pad@ =~= zero_chars((k + 1) as nat));
            }
            k += 1;
        }
        pad.append(s);
        proof {
            if n == 6 {
                assert(pad@ =~= s@.skip(n as int - 6));
            }
        }
        fraw = pad;
    }
    let f = strip_zeros(fraw.as_str());
    if f.as_str().unicode_len() == 0 {
        ip
    } else {
        ip.append(".");
        ip.append(f.as_str());
        ip
    }
}

/// The display form of one coin: the base denomination `uatom` is scaled
/// to `ATOM`; any other coin is passed through as `<amount> <denom>`.
pub open spec fn fmt_coin(c: CoinV) -> Seq<char> {
    if c.denom == "uatom"@ && c.amount.len() > 0 && all_digits(c.amount) {
        scaled_millionths(c.amount) + " ATOM"@
    } else {
        c.amount + " "@ + c.denom
    }
}

/// Renders one coin for display.
pub fn format_single_coin(c: &Coin) -> (r: String)
    ensures
        r@ == fmt_coin(c@),
{
    if str_eq(c.denom.as_str(), "uatom") && c.amount.as_str().unicode_len() > 0
        && check_all_digits(c.amount.as_str()) {
        let mut s = scale_millionths(c.amount.as_str());
        s.append(" ATOM");
        s
    } else {
        let mut s = c.amount.clone();
        s.append(" ");
        s.append(c.denom.as_str());
        s
    }
}

/// The display form of a coin list: the coins' display forms joined by
/// `", "`, in order; empty input renders as the empty string.
pub open spec fn fmt_coins(s: Seq<CoinV>) -> Seq<char>
    decreases s.len(),
{
    if s.len() == 0 {
        Seq::empty()
    } else if s.len() == 1 {
        fmt_coin(s[0])
    } else {
        fmt_coins(s.drop_last()) + ", "@ + fmt_coin(s.last())
    }
}

proof fn lemma_fmt_coins_step(s: Seq<CoinV>, i: int)
    requires
        0 <= i < s.len(),
    ensures
        fmt_coins(s.take(i + 1)) == if i == 0 {
            fmt_coin(s[0])
        } else {
            fmt_coins(s.take(i)) + ", "@ + fmt_coin(s[i])
        },
{
    assert(s.take(i + 1).drop_last() =~= s.take(i));
    assert(s.take(i + 1).last() == s[i]);
    assert(s.take(i + 1)[0] == s[0]);
}

/// Renders a whole amount list for display.
pub fn format_amount(coins: &Vec<Coin>) -> (r: String)
    ensures
        r@ == fmt_coins(coins@.map_values(|c: Coin| c@)),
{
    let ghost cs = coins@.map_values(|c: Coin| c@);
    let mut r = String::new();
    let mut i: usize = 0;
    while i < coins.len()
        invariant
            cs == coins@.map_values(|c: Coin| c@),
            cs.len() == coins@.len(),
            0 <= i <= coins@.len(),
            r@ == fmt_coins(cs.take(i as int)),
        decreases coins@.len() - i,
    {
        if i > 0 {
            r.append(", ");
        }
        let piece = format_single_coin(&coins[i]);
        r.append(piece.as_str());
        proof {
            lemma_fmt_coins_step(cs, i as int);
            assert(cs[i as int] == coins@[i as int]@);
        }
        i += 1;
    }
    proof {
        assert(cs.take(coins@.len() as int) =~= cs);
    }
    r
}

} // verus!
