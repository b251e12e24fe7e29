//! Base64, as the `base64` crate writes it.
use base64::engine::general_purpose::STANDARD;
use base64::Engine;
use vstd::prelude::*;

verus! {

/// The character of a value below 64 in the standard alphabet.
pub open spec fn base64_char(n: nat) -> char {
    if n < 26 {
        (65 + n) as char
    } else if n < 52 {
        (97 + (n - 26)) as char
    } else if n < 62 {
        (48 + (n - 52)) as char
    } else if n == 62 {
        '+'
    } else {
        '/'
    }
}

/// The standard Base64 form of some bytes: four characters of six bits for every three
/// bytes, the last of them padded with equals signs.
pub open spec fn base64_text(bytes: Seq<u8>) -> Seq<char>
    decreases bytes.len(),
{
    if bytes.len() == 0 {
        Seq::empty()
    } else {
        let a = bytes[0] as nat;
        let b = if bytes.len() > 1 {
            bytes[1] as nat
        } else {
            0
        };
        let c = if bytes.len() > 2 {
            bytes[2] as nat
        } else {
            0
        };
        let group = seq![
            base64_char(a / 4),
            base64_char(a % 4 * 16 + b / 16),
            if bytes.len() > 1 {
                base64_char(b % 16 * 4 + c / 64)
            } else {
                '='
            },
            if bytes.len() > 2 {
                base64_char(c % 64)
            } else {
                '='
            },
        ];
        if bytes.len() > 3 {
            group + base64_text(bytes.skip(3))
        } else {
            group
        }
    }
}

/// Calls `encode` of Base64's general-purpose `STANDARD` engine, whose alphabet is the
/// standard one and which pads. Its length computation cannot overflow: no slice is
/// longer than `isize::MAX`.
#[verifier::external_body]
pub(crate) fn base64_encode(bytes: &[u8]) -> (r: String)
    ensures
        r@ == base64_text(bytes@),
{
    STANDARD.encode(bytes)
}

/// The value of a character of the standard alphabet; 64 for any other.
pub open spec fn base64_value(c: char) -> nat {
    if 'A' <= c <= 'Z' {
        (c as nat - 65) as nat
    } else if 'a' <= c <= 'z' {
        (c as nat - 97 + 26) as nat
    } else if '0' <= c <= '9' {
        (c as nat - 48 + 52) as nat
    } else if c == '+' {
        62
    } else if c == '/' {
        63
    } else {
        64
    }
}

/// Reads Base64 back, as a decoder does.
pub open spec fn base64_bytes(text: Seq<char>) -> Seq<u8>
    decreases text.len(),
{
    if text.len() < 4 {
        Seq::empty()
    } else {
        let a = base64_value(text[0]);
        let b = base64_value(text[1]);
        let c = base64_value(text[2]);
        let d = base64_value(text[3]);
        if text[2] == '=' {
            seq![(a * 4 + b / 16) as u8]
        } else if text[3] == '=' {
            seq![(a * 4 + b / 16) as u8, (b % 16 * 16 + c / 4) as u8]
        } else {
            seq![
                (a * 4 + b / 16) as u8,
                (b % 16 * 16 + c / 4) as u8,
                (c % 4 * 64 + d) as u8,
            ] + base64_bytes(text.skip(4))
        }
    }
}

/// Every value below 64 reads back from its character, which is no equals sign.
proof fn lemma_value_reads_back(n: nat)
    requires
        n < 64,
    ensures
        base64_value(base64_char(n)) == n,
        base64_char(n) != '=',
{
}

/// Bytes in Base64 read back as themselves.
pub proof fn law_base64_reads_back(bytes: Seq<u8>)
    ensures
        base64_bytes(base64_text(bytes)) == bytes,
    decreases bytes.len(),
{
    let text = base64_text(bytes);
    if bytes.len() > 0 {
        let a = bytes[0] as nat;
        let b = if bytes.len() > 1 {
            bytes[1] as nat
        } else {
            0
        };
        let c = if bytes.len() > 2 {
            bytes[2] as nat
        } else {
            0
        };
        lemma_value_reads_back(a / 4);
        lemma_value_reads_back(a % 4 * 16 + b / 16);
        lemma_value_reads_back(b % 16 * 4 + c / 64);
        lemma_value_reads_back(c % 64);
        if bytes.len() > 3 {
            law_base64_reads_back(bytes.skip(3));
            assert(text.skip(4) =~= base64_text(bytes.skip(3)));
        } else {
            assert(text.skip(4) =~= Seq::empty());
            assert(base64_bytes(text.skip(4)) == Seq::<u8>::empty());
        }
        assert(a / 4 * 4 + a % 4 == a && (a % 4 * 16 + b / 16) / 16 == a % 4);
        assert((a % 4 * 16 + b / 16) % 16 * 16 + (b % 16 * 4 + c / 64) / 4 == b);
        assert((b % 16 * 4 + c / 64) % 4 * 64 + c % 64 == c);
        assert(base64_bytes(text) =~= bytes);
    }
}

} // verus!
