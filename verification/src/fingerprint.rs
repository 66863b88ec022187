//! Content fingerprints: the SHA-1 digest of a file's bytes, written as
//! lowercase hexadecimal.

use sha1::Digest;
use vstd::prelude::*;
use vstd::string::*;

verus! {

/// The SHA-1 digest of a byte sequence: what `sha1::Sha1::digest` returns for
/// it.
pub uninterp spec fn sha1_digest(content: Seq<u8>) -> Seq<u8>;

/// The lowercase hexadecimal digit for a number from 0 to 15.
pub open spec fn hex_digit(nibble: int) -> char {
    if nibble == 0 {
        '0'
    } else if nibble == 1 {
        '1'
    } else if nibble == 2 {
        '2'
    } else if nibble == 3 {
        '3'
    } else if nibble == 4 {
        '4'
    } else if nibble == 5 {
        '5'
    } else if nibble == 6 {
        '6'
    } else if nibble == 7 {
        '7'
    } else if nibble == 8 {
        '8'
    } else if nibble == 9 {
        '9'
    } else if nibble == 10 {
        'a'
    } else if nibble == 11 {
        'b'
    } else if nibble == 12 {
        'c'
    } else if nibble == 13 {
        'd'
    } else if nibble == 14 {
        'e'
    } else {
        'f'
    }
}

/// The character at `index` of the hexadecimal text of `bytes`: the high half
/// of a byte comes before its low half.
pub open spec fn hex_char_at(bytes: Seq<u8>, index: int) -> char {
    if index % 2 == 0 {
        hex_digit(bytes[index / 2] as int / 16)
    } else {
        hex_digit(bytes[index / 2] as int % 16)
    }
}

/// The bytes written as lowercase hexadecimal, two digits for each.
pub open spec fn hex_text(bytes: Seq<u8>) -> Seq<char> {
    Seq::new(2 * bytes.len(), |index: int| hex_char_at(bytes, index))
}

/// The fingerprint of a content: its SHA-1 digest in lowercase hexadecimal.
pub open spec fn fingerprint_of(content: Seq<u8>) -> Seq<char> {
    hex_text(sha1_digest(content))
}

/// Whether the character is a lowercase hexadecimal digit.
pub open spec fn is_hex_char(c: char) -> bool {
    ('0' <= c <= '9') || ('a' <= c <= 'f')
}

/// Whether the text has the form of a fingerprint: forty lowercase
/// hexadecimal digits.
pub open spec fn is_fingerprint(text: Seq<char>) -> bool {
    &&& text.len() == 40
    &&& forall|i: int| 0 <= i < text.len() ==> is_hex_char(#[trigger] text[i])
}

/// Computes the digest with `sha1::Sha1::digest`, the one-shot function of
/// the `Digest` trait. Trusted: the result is a function of the bytes alone,
/// here named `sha1_digest`, and is twenty bytes long.
#[verifier::external_body]
fn digest(content: &[u8]) -> (sum: Vec<u8>)
    ensures
        sum@ == sha1_digest(content@),
        sum@.len() == 20,
{
    sha1::Sha1::digest(content).to_vec()
}

/// The one-character text of a hexadecimal digit.
fn hex_digit_text(nibble: u8) -> (text: &'static str)
    requires
        nibble < 16,
    ensures
        text@ == seq![hex_digit(nibble as int)],
{
    proof {
        reveal_strlit("0");
        reveal_strlit("1");
        reveal_strlit("2");
        reveal_strlit("3");
        reveal_strlit("4");
        reveal_strlit("5");
        reveal_strlit("6");
        reveal_strlit("7");
        reveal_strlit("8");
        reveal_strlit("9");
        reveal_strlit("a");
        reveal_strlit("b");
        reveal_strlit("c");
        reveal_strlit("d");
        reveal_strlit("e");
        reveal_strlit("f");
    }
    let text = if nibble == 0 {
        "0"
    } else if nibble == 1 {
        "1"
    } else if nibble == 2 {
        "2"
    } else if nibble == 3 {
        "3"
    } else if nibble == 4 {
        "4"
    } else if nibble == 5 {
        "5"
    } else if nibble == 6 {
        "6"
    } else if nibble == 7 {
        "7"
    } else if nibble == 8 {
        "8"
    } else if nibble == 9 {
        "9"
    } else if nibble == 10 {
        "a"
    } else if nibble == 11 {
        "b"
    } else if nibble == 12 {
        "c"
    } else if nibble == 13 {
        "d"
    } else if nibble == 14 {
        "e"
    } else {
        "f"
    };
    assert(text@ =~= seq![hex_digit(nibble as int)]);
    text
}

/// Writes bytes as lowercase hexadecimal, two digits for each byte, the high
/// half first.
pub fn hex_encode(bytes: &[u8]) -> (text: String)
    ensures
        text@ == hex_text(bytes@),
{
    let mut text = String::new();
    let mut done: usize = 0;
    while done < bytes.len()
        invariant
            done <= bytes.len(),
            text@.len() == 2 * done,
            forall|i: int| 0 <= i < 2 * done ==> text@[i] == hex_char_at(bytes@, i),
        decreases bytes.len() - done,
    {
        let byte: u8 = bytes[done];
        let high = hex_digit_text(byte / 16);
        let low = hex_digit_text(byte % 16);
        text.append(high);
        text.append(low);
        done = done + 1;
    }
    assert(text@ =~= hex_text(bytes@));
    text
}

/// Every hexadecimal text of twenty bytes has the form of a fingerprint.
pub proof fn lemma_hex_text_is_fingerprint(bytes: Seq<u8>)
    requires
        bytes.len() == 20,
    ensures
        is_fingerprint(hex_text(bytes)),
{
    assert forall|i: int| 0 <= i < hex_text(bytes).len() implies is_hex_char(
        #[trigger] hex_text(bytes)[i],
    ) by {
        let byte = bytes[i / 2] as int;
        assert(0 <= byte / 16 < 16);
        assert(0 <= byte % 16 < 16);
    }
}

/// The fingerprint of a file's content.
///
/// It depends on the bytes alone, so reading the same file again gives the
/// same fingerprint, and it always has the form of forty lowercase
/// hexadecimal digits.
pub fn fingerprint(content: &[u8]) -> (hash: String)
    ensures
        hash@ == fingerprint_of(content@),
        is_fingerprint(hash@),
{
    let sum = digest(content);
    proof {
        lemma_hex_text_is_fingerprint(sum@);
    }
    hex_encode(sum.as_slice())
}

/// Fingerprint stability: equal contents have equal fingerprints, whenever
/// and wherever they are computed.
pub proof fn lemma_fingerprint_stable(first: Seq<u8>, second: Seq<u8>)
    requires
        first == second,
    ensures
        fingerprint_of(first) == fingerprint_of(second),
{
}

} // verus!
