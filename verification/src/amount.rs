//! Monetary amounts. All arithmetic in this crate is performed on the
//! exact integer satoshi representation; this module derives the
//! fractional display form (whole coins, a dot, and the fractional
//! satoshis with trailing zeros trimmed), for presentation only.

use vstd::prelude::*;

use vstd::string::StringExecFns;

verus! {

/// Satoshis per display unit (one coin).
pub const SATS_PER_COIN: u64 = 100_000_000;

/// The character for one decimal digit.
pub open spec fn digit_char(d: int) -> char {
    if d == 0 {
        '0'
    } else if d == 1 {
        '1'
    } else if d == 2 {
        '2'
    } else if d == 3 {
        '3'
    } else if d == 4 {
        '4'
    } else if d == 5 {
        '5'
    } else if d == 6 {
        '6'
    } else if d == 7 {
        '7'
    } else if d == 8 {
        '8'
    } else {
        '9'
    }
}

/// The decimal digits of `n`, most significant first, without leading
/// zeros (a single zero for `n == 0`).
pub open spec fn dec_digits(n: nat) -> Seq<char>
    decreases n,
{
    if n < 10 {
        seq![digit_char(n as int)]
    } else {
        dec_digits(n / 10).push(digit_char((n % 10) as int))
    }
}

/// The last `width` decimal digits of `n`, zero-padded on the left.
pub open spec fn dec_digits_padded(n: nat, width: nat) -> Seq<char>
    decreases width,
{
    if width == 0 {
        Seq::empty()
    } else {
        dec_digits_padded(n / 10, (width - 1) as nat).push(digit_char((n % 10) as int))
    }
}

/// `s` with every trailing `'0'` removed.
pub open spec fn trim_trailing_zeros(s: Seq<char>) -> Seq<char>
    decreases s.len(),
{
    if s.len() > 0 && s.last() == '0' {
        trim_trailing_zeros(s.drop_last())
    } else {
        s
    }
}

/// The display form of an amount of satoshis: the whole coins in decimal,
/// and — only where the amount is no whole number of coins — a dot and the
/// eight-digit fractional part with its trailing zeros trimmed.
pub open spec fn coin_display(sats: nat) -> Seq<char> {
    let whole = sats / (SATS_PER_COIN as nat);
    let frac = sats % (SATS_PER_COIN as nat);
    if frac == 0 {
        dec_digits(whole)
    } else {
        dec_digits(whole) + seq!['.'] + trim_trailing_zeros(dec_digits_padded(frac, 8))
    }
}

/// Powers of ten.
pub open spec fn pow10(e: nat) -> nat
    decreases e,
{
    if e == 0 {
        1
    } else {
        10 * pow10((e - 1) as nat)
    }
}

/// One decimal digit as a string slice.
fn digit_str(d: u64) -> (r: &'static str)
    requires
        d < 10,
    ensures
        r@ == seq![digit_char(d as int)],
{
    proof {
        reveal_strlit("0");
        reveal_strlit("1");
        reveal_strlit("2");
        reveal_strlit("3");
        reveal_strlit("4");
        reveal_strlit("5");
        reveal_strlit("6");
        reveal_strlit("7");
        reveal_strlit("8");
        reveal_strlit("9");
    }
    let r = match d {
        0 => "0",
        1 => "1",
        2 => "2",
        3 => "3",
        4 => "4",
        5 => "5",
        6 => "6",
        7 => "7",
        8 => "8",
        _ => "9",
    };
    proof {
        assert(r@ =~= seq![digit_char(d as int)]);
    }
    r
}

/// The decimal form of `n`, without leading zeros.
pub fn u64_digits(n: u64) -> (r: String)
    ensures
        r@ == dec_digits(n as nat),
    decreases n,
{
    if n < 10 {
        digit_str(n).to_owned()
    } else {
        let mut s = u64_digits(n / 10);
        s.append(digit_str(n % 10));
        proof {
            assert(s@ =~= dec_digits(n as nat));
        }
        s
    }
}

/// The last `width` decimal digits of `n`, zero-padded on the left.
fn u64_digits_padded(n: u64, width: u64) -> (r: String)
    ensures
        r@ == dec_digits_padded(n as nat, width as nat),
    decreases width,
{
    if width == 0 {
        String::new()
    } else {
        let mut s = u64_digits_padded(n / 10, width - 1);
        s.append(digit_str(n % 10));
        proof {
            assert(s@ =~= dec_digits_padded(n as nat, width as nat));
        }
        s
    }
}

/// Trimming is unfolded one trailing zero at a time.
proof fn lemma_trim_step(n: nat, width: nat)
    requires
        width >= 1,
        n % 10 == 0,
    ensures
        trim_trailing_zeros(dec_digits_padded(n, width)) == trim_trailing_zeros(
            dec_digits_padded(n / 10, (width - 1) as nat),
        ),
{
    assert(dec_digits_padded(n, width).last() == '0');
    assert(dec_digits_padded(n, width).drop_last() =~= dec_digits_padded(
        n / 10,
        (width - 1) as nat,
    ));
}

/// A padded digit string whose last digit is nonzero trims to itself.
proof fn lemma_trim_noop(n: nat, width: nat)
    requires
        width >= 1,
        n % 10 != 0,
    ensures
        trim_trailing_zeros(dec_digits_padded(n, width)) == dec_digits_padded(n, width),
{
    assert(dec_digits_padded(n, width).last() == digit_char((n % 10) as int));
    assert(digit_char((n % 10) as int) != '0');
}

/// The display form of an amount of satoshis, as a string: whole coins,
/// and for a fractional amount a dot and the fractional digits with
/// trailing zeros trimmed. `coin_display` is the exact specification.
pub fn coin_display_string(sats: u64) -> (r: String)
    ensures
        r@ == coin_display(sats as nat),
{
    let whole = sats / SATS_PER_COIN;
    let frac = sats % SATS_PER_COIN;
    let mut s = u64_digits(whole);
    if frac > 0 {
        proof {
            reveal_strlit(".");
        }
        s.append(".");
        let mut f: u64 = frac;
        let mut w: u64 = 8;
        proof {
            assert(pow10(8) == 100_000_000) by {
                reveal_with_fuel(pow10, 9);
            }
        }
        while f % 10 == 0
            invariant
                1 <= f,
                1 <= w <= 8,
                f < pow10(w as nat),
                trim_trailing_zeros(dec_digits_padded(frac as nat, 8)) == trim_trailing_zeros(
                    dec_digits_padded(f as nat, w as nat),
                ),
            decreases f,
        {
            proof {
                lemma_trim_step(f as nat, w as nat);
                assert(f / 10 < pow10((w - 1) as nat));
            }
            f = f / 10;
            w = w - 1;
        }
        proof {
            lemma_trim_noop(f as nat, w as nat);
        }
        let tail = u64_digits_padded(f, w);
        s.append(tail.as_str());
        proof {
            assert("."@ =~= seq!['.']);
            assert(s@ =~= coin_display(sats as nat));
        }
    }
    s
}

} // verus!
