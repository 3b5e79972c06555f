//! Text form of EDID blocks, as the daemons publish them: standard base64 (the RFC 4648
//! alphabet, with `=` padding).

use base64::Engine;
use vstd::prelude::*;

verus! {

/// The base64 digit of a six-bit value: `A`–`Z`, `a`–`z`, `0`–`9`, `+`, `/`.
pub open spec fn base64_digit(v: int) -> char {
    if v < 26 {
        (65 + v) as char
    } else if v < 52 {
        (97 + (v - 26)) as char
    } else if v < 62 {
        (48 + (v - 52)) as char
    } else if v == 62 {
        '+'
    } else {
        '/'
    }
}

/// Standard padded base64: every three bytes become four digits, and a last group of
/// one or two bytes becomes two or three digits padded with `=` to four.
pub open spec fn base64_standard(bytes: Seq<u8>) -> Seq<char>
    decreases bytes.len(),
{
    let b0 = bytes[0] as int;
    let b1 = bytes[1] as int;
    let b2 = bytes[2] as int;
    if bytes.len() == 0 {
        Seq::empty()
    } else if bytes.len() == 1 {
        seq![base64_digit(b0 / 4), base64_digit((b0 % 4) * 16), '=', '=']
    } else if bytes.len() == 2 {
        seq![
            base64_digit(b0 / 4),
            base64_digit((b0 % 4) * 16 + b1 / 16),
            base64_digit((b1 % 16) * 4),
            '=',
        ]
    } else {
        seq![
            base64_digit(b0 / 4),
            base64_digit((b0 % 4) * 16 + b1 / 16),
            base64_digit((b1 % 16) * 4 + b2 / 64),
            base64_digit(b2 % 64),
        ] + base64_standard(bytes.subrange(3, bytes.len() as int))
    }
}

/// Encodes an EDID block with `base64::engine::general_purpose::STANDARD.encode`,
/// the standard alphabet with padding.  Claimed: the text is the standard padded
/// base64 of the bytes.
#[verifier::external_body]
pub(crate) fn encode_edid(bytes: &[u8; 128]) -> (text: String)
    ensures
        text@ == base64_standard(bytes@),
{
    base64::engine::general_purpose::STANDARD.encode(bytes)
}

/// The six-bit value of a standard base64 digit, and -1 for any other character.
pub open spec fn base64_value(c: char) -> int {
    let n = c as int;
    if 65 <= n <= 90 {
        n - 65
    } else if 97 <= n <= 122 {
        n - 71
    } else if 48 <= n <= 57 {
        n + 4
    } else if c == '+' {
        62
    } else if c == '/' {
        63
    } else {
        -1
    }
}

/// Standard padded base64 decoding: each group of four characters gives three bytes,
/// or two when it ends in one `=`, or one when it ends in two.
pub open spec fn base64_decode(text: Seq<char>) -> Seq<u8>
    decreases text.len(),
{
    if text.len() < 4 {
        Seq::empty()
    } else {
        let a = base64_value(text[0]);
        let b = base64_value(text[1]);
        let c = base64_value(text[2]);
        let d = base64_value(text[3]);
        let group = if text[2] == '=' {
            seq![(a * 4 + b / 16) as u8]
        } else if text[3] == '=' {
            seq![(a * 4 + b / 16) as u8, ((b % 16) * 16 + c / 4) as u8]
        } else {
            seq![(a * 4 + b / 16) as u8, ((b % 16) * 16 + c / 4) as u8, ((c % 4) * 64 + d) as u8]
        };
        group + base64_decode(text.subrange(4, text.len() as int))
    }
}

proof fn lemma_digit_value(v: int)
    requires
        0 <= v < 64,
    ensures
        base64_value(base64_digit(v)) == v,
        base64_digit(v) != '=',
{
}

/// Base64 text is the RFC 4648 standard form of its bytes: decoding it with the
/// standard alphabet (`+` for 62, `/` for 63, `=` padding) gives the bytes back, and
/// every three bytes, or a last shorter group, take four characters.
pub proof fn law_base64_round_trip(bytes: Seq<u8>)
    ensures
        base64_decode(base64_standard(bytes)) == bytes,
        base64_standard(bytes).len() == (bytes.len() + 2) / 3 * 4,
    decreases bytes.len(),
{
    if bytes.len() > 0 {
        let b0 = bytes[0] as int;
        let b1 = bytes[1] as int;
        let b2 = bytes[2] as int;
        let t = base64_standard(bytes);
        lemma_digit_value(b0 / 4);
        lemma_digit_value((b0 % 4) * 16);
        lemma_digit_value((b0 % 4) * 16 + b1 / 16);
        lemma_digit_value((b1 % 16) * 4);
        lemma_digit_value((b1 % 16) * 4 + b2 / 64);
        lemma_digit_value(b2 % 64);
        if bytes.len() == 1 {
            assert(t =~= seq![base64_digit(b0 / 4), base64_digit((b0 % 4) * 16), '=', '=']);
            assert(t.subrange(4, t.len() as int) =~= Seq::<char>::empty());
            assert(base64_decode(Seq::<char>::empty()) =~= Seq::<u8>::empty());
            assert((b0 / 4) * 4 + ((b0 % 4) * 16) / 16 == b0);
            assert(base64_decode(t) =~= seq![b0 as u8] + Seq::<u8>::empty());
            assert(base64_decode(t) =~= bytes);
        } else if bytes.len() == 2 {
            assert(t =~= seq![
                base64_digit(b0 / 4),
                base64_digit((b0 % 4) * 16 + b1 / 16),
                base64_digit((b1 % 16) * 4),
                '=',
            ]);
            assert(t.subrange(4, t.len() as int) =~= Seq::<char>::empty());
            assert(base64_decode(Seq::<char>::empty()) =~= Seq::<u8>::empty());
            assert(base64_decode(t) =~= seq![b0 as u8, b1 as u8] + Seq::<u8>::empty());
            assert(base64_decode(t) =~= bytes);
        } else {
            let rest = bytes.subrange(3, bytes.len() as int);
            law_base64_round_trip(rest);
            let head = seq![
                base64_digit(b0 / 4),
                base64_digit((b0 % 4) * 16 + b1 / 16),
                base64_digit((b1 % 16) * 4 + b2 / 64),
                base64_digit(b2 % 64),
            ];
            assert(t == head + base64_standard(rest));
            assert(t.subrange(4, t.len() as int) =~= base64_standard(rest));
            assert(t[0] == head[0] && t[1] == head[1] && t[2] == head[2] && t[3] == head[3]);
            assert(base64_decode(t) == seq![bytes[0], bytes[1], bytes[2]] + base64_decode(
                base64_standard(rest),
            ));
            assert(base64_decode(t) =~= bytes);
        }
    }
}

} // verus!
