//! Verified construction of the strings the bot shows: decimal rendering,
//! the listening presence line, the completion prompt and reply, and the
//! latency line.

use vstd::prelude::*;
use vstd::string::*;

verus! {

/// The decimal digit character for `d`.
pub open spec fn digit_char(d: nat) -> char {
    if d == 0 {
        '0'
    } else if d == 1 {
        '1'
    } else if d == 2 {
        '2'
    } else if d == 3 {
        '3'
    } else if d == 4 {
        '4'
    } else if d == 5 {
        '5'
    } else if d == 6 {
        '6'
    } else if d == 7 {
        '7'
    } else if d == 8 {
        '8'
    } else {
        '9'
    }
}

/// Decimal digit sequence of `n`, most significant first, without leading
/// zeros (a single `'0'` for zero).
pub open spec fn dec_digits(n: nat) -> Seq<char>
    decreases n,
{
    if n < 10 {
        seq![digit_char(n)]
    } else {
        dec_digits(n / 10).push(digit_char(n % 10))
    }
}

/// Signed decimal rendering: a minus sign and the digits of the magnitude.
pub open spec fn dec_int(n: int) -> Seq<char> {
    if n < 0 {
        seq!['-'] + dec_digits((-n) as nat)
    } else {
        dec_digits(n as nat)
    }
}

/// One-character string holding a decimal digit.
fn digit_str(d: u64) -> (r: &'static str)
    requires
        d < 10,
    ensures
        r@ == seq![digit_char(d as nat)],
{
    proof {
        reveal_strlit("0");
        reveal_strlit("1");
        reveal_strlit("2");
        reveal_strlit("3");
        reveal_strlit("4");
        reveal_strlit("5");
        reveal_strlit("6");
        reveal_strlit("7");
        reveal_strlit("8");
        reveal_strlit("9");
    }
    let r: &'static str = if d == 0 {
        "0"
    } else if d == 1 {
        "1"
    } else if d == 2 {
        "2"
    } else if d == 3 {
        "3"
    } else if d == 4 {
        "4"
    } else if d == 5 {
        "5"
    } else if d == 6 {
        "6"
    } else if d == 7 {
        "7"
    } else if d == 8 {
        "8"
    } else {
        "9"
    };
    proof {
        assert(r@ =~= seq![digit_char(d as nat)]);
    }
    r
}

/// Renders `n` in decimal.
pub fn u64_to_dec(n: u64) -> (r: String)
    ensures
        r@ == dec_digits(n as nat),
    decreases n,
{
    if n < 10 {
        String::from_str(digit_str(n))
    } else {
        proof {
            assert(n / 10 < n) by (nonlinear_arith)
                requires
                    n >= 10,
            ;
        }
        let mut s = u64_to_dec(n / 10);
        s.append(digit_str(n % 10));
        proof {
            assert(s@ =~= dec_digits(n as nat));
        }
        s
    }
}

/// Renders `n` in decimal, with a leading minus sign where negative.
pub fn i64_to_dec(n: i64) -> (r: String)
    ensures
        r@ == dec_int(n as int),
{
    if n >= 0 {
        u64_to_dec(n as u64)
    } else {
        proof {
            reveal_strlit("-");
        }
        let magnitude: u64 = (-(n as i128)) as u64;
        let mut s = String::from_str("-");
        let digits = u64_to_dec(magnitude);
        s.append(digits.as_str());
        proof {
            assert("-"@ =~= seq!['-']);
            assert(s@ =~= dec_int(n as int));
        }
        s
    }
}

/// Lowercase image of a character sequence, as the standard library's
/// locale-independent case folding computes it.
pub uninterp spec fn lower_of(s: Seq<char>) -> Seq<char>;

/// Relies on str::to_lowercase: the Unicode "Lowercase" mapping applied to
/// each character. The result depends on the characters alone, and an
/// empty string stays empty.
#[verifier::external_body]
fn lowercase(s: &str) -> (r: String)
    ensures
        r@ == lower_of(s@),
        s@.len() == 0 ==> r@.len() == 0,
{
    s.to_lowercase()
}

/// The presence text for a playing track: the artist's name, a separator,
/// the track's name.
pub fn listening_line(artist: &str, track: &str) -> (r: String)
    ensures
        r@ == artist@ + ": "@ + track@,
{
    let mut s = String::from_str(artist);
    s.append(": ");
    s.append(track);
    proof {
        assert(s@ =~= artist@ + ": "@ + track@);
    }
    s
}

/// The fixed conversational preamble put before the user's message in a
/// completion prompt.
pub open spec fn prompt_preamble() -> Seq<char> {
    "The following is a conversation with an AI assistant. The assistant is helpful, creative, clever and mean."@
}

/// The completion prompt: the preamble, a space, then the user's message.
pub fn prompt_line(message: &str) -> (r: String)
    ensures
        r@ == prompt_preamble() + " "@ + message@,
{
    let mut s = String::from_str(
        "The following is a conversation with an AI assistant. The assistant is helpful, creative, clever and mean.",
    );
    s.append(" ");
    s.append(message);
    proof {
        assert(s@ =~= prompt_preamble() + " "@ + message@);
    }
    s
}

/// The completion reply as shown in chat: the model's text in lower case,
/// then the request-to-reply delay in milliseconds.
pub fn reply_line(text: &str, delay_ms: i64) -> (r: String)
    ensures
        r@ == lower_of(text@) + " `"@ + dec_int(delay_ms as int) + "ms delay`"@,
{
    let mut s = lowercase(text);
    s.append(" `");
    let delay = i64_to_dec(delay_ms);
    s.append(delay.as_str());
    s.append("ms delay`");
    proof {
        assert(s@ =~= lower_of(text@) + " `"@ + dec_int(delay_ms as int) + "ms delay`"@);
    }
    s
}

/// The reply of the latency command.
pub fn latency_line(delay_ms: i64) -> (r: String)
    ensures
        r@ == "`the latency is "@ + dec_int(delay_ms as int) + "ms`"@,
{
    let mut s = String::from_str("`the latency is ");
    let delay = i64_to_dec(delay_ms);
    s.append(delay.as_str());
    s.append("ms`");
    proof {
        assert(s@ =~= "`the latency is "@ + dec_int(delay_ms as int) + "ms`"@);
    }
    s
}

} // verus!
