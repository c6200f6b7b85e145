//! Text that travels in headers: decimal numbers and header values.

use vstd::prelude::*;

verus! {

/// The decimal digit for `d`.
pub open spec fn digit_char(d: nat) -> char {
    if d == 0 {
        '0'
    } else if d == 1 {
        '1'
    } else if d == 2 {
        '2'
    } else if d == 3 {
        '3'
    } else if d == 4 {
        '4'
    } else if d == 5 {
        '5'
    } else if d == 6 {
        '6'
    } else if d == 7 {
        '7'
    } else if d == 8 {
        '8'
    } else {
        '9'
    }
}

/// The decimal notation of `n`, without leading zeros.
pub open spec fn decimal_chars(n: nat) -> Seq<char>
    decreases n,
{
    if n < 10 {
        seq![digit_char(n)]
    } else {
        decimal_chars(n / 10).push(digit_char(n % 10))
    }
}

/// Whether a character is a decimal digit.
pub open spec fn is_digit(c: char) -> bool {
    '0' <= c && c <= '9'
}

/// The number that a text of decimal digits denotes, read from left to
/// right.
pub open spec fn decimal_value(text: Seq<char>) -> nat
    decreases text.len(),
{
    if text.len() == 0 {
        0
    } else {
        decimal_value(text.drop_last()) * 10 + ((text.last() as u32) - 48) as nat
    }
}

/// Whether a text is the usual way of writing a number in decimal: one or
/// more digits, with no leading zero unless the number is zero itself.
pub open spec fn canonical_decimal(text: Seq<char>) -> bool {
    &&& text.len() > 0
    &&& forall|i: int| 0 <= i < text.len() ==> is_digit(#[trigger] text[i])
    &&& (text.len() > 1 ==> text[0] != '0')
}

/// `decimal_chars(n)` is the decimal notation of `n`: it is made of digits
/// with no leading zero, and reading its digits back gives `n`.
pub proof fn decimal_reads_back(n: nat)
    ensures
        canonical_decimal(decimal_chars(n)),
        decimal_value(decimal_chars(n)) == n,
        n >= 10 ==> decimal_chars(n).len() > 1,
    decreases n,
{
    if n < 10 {
        let s = decimal_chars(n);
        assert(s == seq![digit_char(n)]);
        assert(s.drop_last() =~= Seq::<char>::empty());
        assert(is_digit(s[0]));
        assert(((digit_char(n) as u32) - 48) as nat == n);
        assert(decimal_value(s.drop_last()) == 0);
        assert(s.last() == digit_char(n));
        assert(decimal_value(s) == decimal_value(s.drop_last()) * 10 + ((s.last() as u32) - 48) as nat);
    } else {
        decimal_reads_back(n / 10);
        let p = decimal_chars(n / 10);
        let s = decimal_chars(n);
        assert(s.drop_last() =~= p);
        assert(s.last() == digit_char(n % 10));
        assert(((digit_char(n % 10) as u32) - 48) as nat == n % 10);
        assert(decimal_value(s) == decimal_value(p) * 10 + n % 10);
        assert((n / 10) * 10 + n % 10 == n);
        assert(s[0] == p[0]);
        assert forall|i: int| 0 <= i < s.len() implies is_digit(#[trigger] s[i]) by {
            if i < p.len() {
                assert(s[i] == p[i]);
            }
        }
        if n / 10 < 10 {
            assert(p == seq![digit_char(n / 10)]);
            assert(p[0] != '0');
        } else {
            assert(p.len() > 1);
        }
    }
}

/// Two numbers have the same decimal notation only if they are equal.
pub proof fn decimal_notation_distinct(m: nat, n: nat)
    requires
        decimal_chars(m) == decimal_chars(n),
    ensures
        m == n,
{
    decimal_reads_back(m);
    decimal_reads_back(n);
}

fn digit_text(d: u64) -> (s: &'static str)
    requires
        d < 10,
    ensures
        s@ == seq![digit_char(d as nat)],
{
    if d == 0 {
        proof { reveal_strlit("0"); }
        "0"
    } else if d == 1 {
        proof { reveal_strlit("1"); }
        "1"
    } else if d == 2 {
        proof { reveal_strlit("2"); }
        "2"
    } else if d == 3 {
        proof { reveal_strlit("3"); }
        "3"
    } else if d == 4 {
        proof { reveal_strlit("4"); }
        "4"
    } else if d == 5 {
        proof { reveal_strlit("5"); }
        "5"
    } else if d == 6 {
        proof { reveal_strlit("6"); }
        "6"
    } else if d == 7 {
        proof { reveal_strlit("7"); }
        "7"
    } else if d == 8 {
        proof { reveal_strlit("8"); }
        "8"
    } else {
        proof { reveal_strlit("9"); }
        "9"
    }
}

/// Writes `n` in decimal.
pub fn decimal_text(n: u64) -> (s: String)
    ensures
        s@ == decimal_chars(n as nat),
        canonical_decimal(s@),
        decimal_value(s@) == n,
    decreases n,
{
    proof {
        decimal_reads_back(n as nat);
    }
    if n < 10 {
        digit_text(n).to_owned()
    } else {
        let mut s = decimal_text(n / 10);
        s.append(digit_text(n % 10));
        s
    }
}

/// A byte that may stand in a header value read as text: a visible ASCII
/// character or a tab.
pub open spec fn visible_header_byte(b: u8) -> bool {
    (32 <= b && b < 127) || b == 9
}

/// Whether every byte of `raw` may stand in a header value read as text.
pub open spec fn visible_header_text(raw: Seq<u8>) -> bool {
    forall|i: int| 0 <= i < raw.len() ==> visible_header_byte(#[trigger] raw[i])
}

/// The characters of ASCII bytes.
pub open spec fn ascii_chars(raw: Seq<u8>) -> Seq<char> {
    raw.map_values(|b: u8| b as char)
}

/// Calls `http::HeaderValue::from_bytes` and then `HeaderValue::to_str`.
/// Claimed, as the `http` source shows (`from_bytes` accepts bytes that are
/// a tab or at least 32 and not 127; `to_str` accepts a tab and bytes from
/// 32 to 126): there is text exactly when every byte is a tab or a visible
/// ASCII character, and then the text is those bytes read as characters.
#[verifier::external_body]
fn header_value_text(raw: &[u8]) -> (text: Option<String>)
    ensures
        text is Some <==> visible_header_text(raw@),
        text matches Some(t) ==> t@ == ascii_chars(raw@),
{
    http::HeaderValue::from_bytes(raw).ok().and_then(|v| v.to_str().ok().map(|s| s.to_owned()))
}

/// The text of a request header, given the raw bytes of its value when the
/// request carries it; `None` when it is absent or is not visible ASCII.
pub fn get_header(raw: Option<&[u8]>) -> (text: Option<String>)
    ensures
        match raw {
            None => text is None,
            Some(b) => if visible_header_text(b@) {
                text matches Some(t) && t@ == ascii_chars(b@)
            } else {
                text is None
            },
        },
{
    match raw {
        Some(b) => header_value_text(b),
        None => None,
    }
}

} // verus!
