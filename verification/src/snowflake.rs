//! Identifiers of the chat platform and how they are written as text.

use serenity::model::id::ChannelId;
use vstd::prelude::*;

verus! {

/// The character that writes one decimal digit.
pub open spec fn digit_char(d: nat) -> char {
    if d == 0 {
        '0'
    } else if d == 1 {
        '1'
    } else if d == 2 {
        '2'
    } else if d == 3 {
        '3'
    } else if d == 4 {
        '4'
    } else if d == 5 {
        '5'
    } else if d == 6 {
        '6'
    } else if d == 7 {
        '7'
    } else if d == 8 {
        '8'
    } else {
        '9'
    }
}

/// A number in decimal: no sign, no leading zero, `"0"` for zero.
pub open spec fn decimal_text(n: nat) -> Seq<char>
    decreases n,
{
    if n < 10 {
        seq![digit_char(n)]
    } else {
        decimal_text(n / 10).push(digit_char(n % 10))
    }
}

/// A number's text is never empty.
proof fn decimal_text_has_a_digit(n: nat)
    ensures
        decimal_text(n).len() >= 1,
    decreases n,
{
    if n >= 10 {
        decimal_text_has_a_digit(n / 10);
    }
}

/// Two numbers that are written alike are the same number: an entry of the
/// configuration names one channel at most.
pub proof fn decimal_text_tells_numbers_apart(a: nat, b: nat)
    requires
        decimal_text(a) == decimal_text(b),
    ensures
        a == b,
    decreases a,
{
    if a >= 10 && b >= 10 {
        assert(decimal_text(a / 10) == decimal_text(a).drop_last());
        assert(decimal_text(b / 10) == decimal_text(b).drop_last());
        assert(digit_char(a % 10) == decimal_text(a).last());
        assert(digit_char(b % 10) == decimal_text(b).last());
        decimal_text_tells_numbers_apart(a / 10, b / 10);
        assert(a % 10 == b % 10);
    } else if a < 10 && b < 10 {
        assert(digit_char(a) == decimal_text(a)[0]);
        assert(digit_char(b) == decimal_text(b)[0]);
    } else if a < 10 {
        decimal_text_has_a_digit(b / 10);
        assert(decimal_text(b).len() >= 2);
    } else {
        decimal_text_has_a_digit(a / 10);
        assert(decimal_text(a).len() >= 2);
    }
}

/// The text of a channel identifier, as serenity's `Display` for `ChannelId`
/// writes it.
///
/// Trusted: serenity forwards to the `Display` of the non-zero `u64` inside the
/// identifier, which std documents as the number in decimal. `ChannelId::new`
/// panics on zero, so zero is left out.
#[verifier::external_body]
pub(crate) fn channel_id_text(id: u64) -> (text: String)
    requires
        id != 0,
    ensures
        text@ == decimal_text(id as nat),
{
    ChannelId::new(id).to_string()
}

} // verus!
