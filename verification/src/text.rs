//! The texts that receipts carry: amounts in decimal and addresses in
//! base 58.

use vstd::prelude::*;
use anchor_lang::prelude::Pubkey;
use crate::address::Address;

verus! {

/// The character for a decimal digit.
pub open spec fn digit_char(d: nat) -> char {
    if d == 0 {
        '0'
    } else if d == 1 {
        '1'
    } else if d == 2 {
        '2'
    } else if d == 3 {
        '3'
    } else if d == 4 {
        '4'
    } else if d == 5 {
        '5'
    } else if d == 6 {
        '6'
    } else if d == 7 {
        '7'
    } else if d == 8 {
        '8'
    } else {
        '9'
    }
}

/// A number in decimal, without sign or leading zeros.
pub open spec fn decimal_text(n: nat) -> Seq<char>
    decreases n,
{
    if n < 10 {
        seq![digit_char(n)]
    } else {
        decimal_text(n / 10).push(digit_char(n % 10))
    }
}

fn digit_str(d: u64) -> (r: &'static str)
    requires
        d < 10,
    ensures
        r@ == seq![digit_char(d as nat)],
{
    proof {
        reveal_strlit("0");
        reveal_strlit("1");
        reveal_strlit("2");
        reveal_strlit("3");
        reveal_strlit("4");
        reveal_strlit("5");
        reveal_strlit("6");
        reveal_strlit("7");
        reveal_strlit("8");
        reveal_strlit("9");
    }
    if d == 0 {
        "0"
    } else if d == 1 {
        "1"
    } else if d == 2 {
        "2"
    } else if d == 3 {
        "3"
    } else if d == 4 {
        "4"
    } else if d == 5 {
        "5"
    } else if d == 6 {
        "6"
    } else if d == 7 {
        "7"
    } else if d == 8 {
        "8"
    } else {
        "9"
    }
}

/// Writes `n` in decimal.
pub fn decimal(n: u64) -> (r: String)
    ensures
        r@ == decimal_text(n as nat),
{
    let mut rest: u64 = n / 10;
    let mut out: String = String::from_str(digit_str(n % 10));
    while rest > 0
        invariant
            rest == 0 ==> out@ == decimal_text(n as nat),
            rest > 0 ==> decimal_text(n as nat) == decimal_text(rest as nat) + out@,
        decreases rest,
    {
        let digit: &'static str = digit_str(rest % 10);
        out = String::from_str(digit).concat(out.as_str());
        rest = rest / 10;
    }
    out
}

/// The base 58 text of a 32-byte address, as `Pubkey` displays it.
pub uninterp spec fn base58_text(bytes: Seq<u8>) -> Seq<char>;

/// Calls `Display` of `solana_pubkey::Pubkey` (`anchor_lang::prelude::Pubkey`)
/// on the key made of the address's bytes. The result is that key's text in
/// base 58; it depends on the bytes alone. Nothing else is claimed of it.
#[verifier::external_body]
fn pubkey_text(address: &Address) -> (r: String)
    ensures
        r@ == base58_text(address@),
{
    Pubkey::new_from_array(address.bytes).to_string()
}

/// `prefix` followed by `n` in decimal.
pub fn with_decimal(prefix: &str, n: u64) -> (r: String)
    ensures
        r@ == prefix@ + decimal_text(n as nat),
{
    let digits: String = decimal(n);
    String::from_str(prefix).concat(digits.as_str())
}

/// `prefix` followed by `address` in base 58.
pub fn with_address(prefix: &str, address: &Address) -> (r: String)
    ensures
        r@ == prefix@ + base58_text(address@),
{
    let text: String = pubkey_text(address);
    String::from_str(prefix).concat(text.as_str())
}

} // verus!
