//! Cover art: the size ceiling and the data URI under which a cover is
//! published.

use vstd::prelude::*;
use vstd::string::*;
use crate::snapshot::optional_text;

verus! {

/// The largest cover that is accepted, in bytes (10 MiB).
pub const MAX_ARTWORK_BYTES: usize = 10485760;

/// The sixty-four symbols of base64, in the order of their values.
pub open spec fn base64_alphabet() -> Seq<char> {
    "ABCDEFGHIJKLMNOPQRSTUVWXYZabcdefghijklmnopqrstuvwxyz0123456789+/"@
}

/// The six-bit value behind the symbol at position `k` of the encoding of
/// `bytes`, or `None` where that position holds padding. Every three bytes
/// give four symbols; a last group of one or two bytes is filled with zero
/// bits and closed with padding.
pub open spec fn base64_sextet(bytes: Seq<u8>, k: int) -> Option<int> {
    let first = 3 * (k / 4);
    let b0 = bytes[first] as int;
    let b1 = if first + 1 < bytes.len() {
        bytes[first + 1] as int
    } else {
        0
    };
    let b2 = if first + 2 < bytes.len() {
        bytes[first + 2] as int
    } else {
        0
    };
    if k % 4 == 0 {
        Some(b0 / 4)
    } else if k % 4 == 1 {
        Some((b0 % 4) * 16 + b1 / 16)
    } else if k % 4 == 2 {
        if first + 1 < bytes.len() {
            Some((b1 % 16) * 4 + b2 / 64)
        } else {
            None
        }
    } else {
        if first + 2 < bytes.len() {
            Some(b2 % 64)
        } else {
            None
        }
    }
}

/// The symbol at position `k` of the encoding of `bytes`.
pub open spec fn base64_symbol(bytes: Seq<u8>, k: int) -> char {
    match base64_sextet(bytes, k) {
        Some(v) => base64_alphabet()[v],
        None => '=',
    }
}

/// Standard base64 with padding.
pub open spec fn base64_encode(bytes: Seq<u8>) -> Seq<char> {
    Seq::new(4 * ((bytes.len() + 2) / 3), |k: int| base64_symbol(bytes, k))
}

/// The value of a base64 symbol: its place in the alphabet.
pub open spec fn base64_value(symbol: char) -> int {
    base64_alphabet().index_of(symbol)
}

/// The byte at position `i` of what a base64 text stands for. Every four
/// symbols give three bytes.
pub open spec fn base64_decoded_byte(text: Seq<char>, i: int) -> int {
    let first = 4 * (i / 3);
    let v0 = base64_value(text[first]);
    let v1 = base64_value(text[first + 1]);
    let v2 = base64_value(text[first + 2]);
    let v3 = base64_value(text[first + 3]);
    if i % 3 == 0 {
        v0 * 4 + v1 / 16
    } else if i % 3 == 1 {
        (v1 % 16) * 16 + v2 / 4
    } else {
        (v2 % 4) * 64 + v3
    }
}

/// No symbol stands at two places of the alphabet.
pub proof fn lemma_base64_alphabet_is_distinct()
    ensures
        base64_alphabet().len() == 64,
        forall|v: int| 0 <= v < 64 ==> base64_value(#[trigger] base64_alphabet()[v]) == v,
        forall|v: int| 0 <= v < 64 ==> #[trigger] base64_alphabet()[v] != '=',
{
    reveal_strlit("ABCDEFGHIJKLMNOPQRSTUVWXYZabcdefghijklmnopqrstuvwxyz0123456789+/");
    let a = base64_alphabet();
    assert forall|v: int| 0 <= v < 64 implies base64_value(#[trigger] a[v]) == v by {
        let w = a.index_of(a[v]);
        assert(0 <= w < a.len() && a[w] == a[v]);
    }
}

/// The encoding is as long as its groups of four, holds padding in its last
/// two places at most, and loses nothing: every byte can be read back from
/// its group.
pub proof fn lemma_base64_loses_nothing(bytes: Seq<u8>)
    ensures
        base64_encode(bytes).len() == 4 * ((bytes.len() + 2) / 3),
        forall|k: int|
            0 <= k < base64_encode(bytes).len() - 2 ==> #[trigger] base64_encode(bytes)[k] != '=',
        forall|i: int|
            0 <= i < bytes.len() ==> base64_decoded_byte(base64_encode(bytes), i)
                == #[trigger] bytes[i],
{
    lemma_base64_alphabet_is_distinct();
    let text = base64_encode(bytes);
    assert forall|k: int| 0 <= k < text.len() - 2 implies #[trigger] text[k] != '=' by {
        let v = base64_sextet(bytes, k);
        assert(v is Some);
        assert(0 <= v->0 < 64);
    }
    assert forall|i: int| 0 <= i < bytes.len() implies base64_decoded_byte(text, i)
        == #[trigger] bytes[i] by {
        let g = i / 3;
        let first = 4 * g;
        assert(first / 4 == g && (first + 1) / 4 == g && (first + 2) / 4 == g && (first + 3) / 4
            == g);
        assert(first + 3 < text.len());
        let s0 = base64_sextet(bytes, first);
        let s1 = base64_sextet(bytes, first + 1);
        let s2 = base64_sextet(bytes, first + 2);
        let s3 = base64_sextet(bytes, first + 3);
        assert(s0 is Some && 0 <= s0->0 < 64);
        assert(s1 is Some && 0 <= s1->0 < 64);
        assert(base64_value(text[first]) == s0->0);
        assert(base64_value(text[first + 1]) == s1->0);
        if i % 3 >= 1 {
            assert(s2 is Some && 0 <= s2->0 < 64);
            assert(base64_value(text[first + 2]) == s2->0);
        }
        if i % 3 == 2 {
            assert(s3 is Some && 0 <= s3->0 < 64);
            assert(base64_value(text[first + 3]) == s3->0);
        }
    }
}

/// What every published cover starts with.
pub open spec fn data_uri_prefix() -> Seq<char> {
    "data:image/png;base64,"@
}

/// The data URI of a cover.
pub open spec fn artwork_data_uri(payload: Seq<u8>) -> Seq<char> {
    data_uri_prefix() + base64_encode(payload)
}

/// The artwork field of a snapshot: the data URI of the cover if there is one
/// and it is within the ceiling, nothing otherwise.
pub open spec fn artwork_uri_of(payload: Option<Seq<u8>>) -> Option<Seq<char>> {
    match payload {
        Some(p) => if p.len() <= MAX_ARTWORK_BYTES {
            Some(artwork_data_uri(p))
        } else {
            None
        },
        None => None,
    }
}

fn push_symbol(text: &mut String, value: u8)
    requires
        value < 64,
    ensures
        final(text)@ == old(text)@.push(base64_alphabet()[value as int]),
{
    let alphabet = "ABCDEFGHIJKLMNOPQRSTUVWXYZabcdefghijklmnopqrstuvwxyz0123456789+/";
    proof {
        reveal_strlit("ABCDEFGHIJKLMNOPQRSTUVWXYZabcdefghijklmnopqrstuvwxyz0123456789+/");
    }
    let at: usize = value as usize;
    let symbol = alphabet.substring_ascii(at, at + 1);
    assert(symbol@ =~= seq![base64_alphabet()[value as int]]);
    text.append(symbol);
    assert(text@ =~= old(text)@.push(base64_alphabet()[value as int]));
}

fn push_padding(text: &mut String)
    ensures
        final(text)@ == old(text)@.push('='),
{
    proof {
        reveal_strlit("=");
    }
    text.append("=");
    assert(text@ =~= old(text)@.push('='));
}

/// Encodes `bytes` in standard base64 with padding.
pub fn base64(bytes: &[u8]) -> (text: String)
    ensures
        text@ == base64_encode(bytes@),
{
    let mut text = String::new();
    let n: usize = bytes.len();
    let mut i: usize = 0;
    while n - i >= 3
        invariant
            n == bytes@.len(),
            i <= n,
            i % 3 == 0,
            text@.len() == 4 * (i / 3),
            forall|k: int| 0 <= k < text@.len() ==> text@[k] == base64_symbol(bytes@, k),
        decreases n - i,
    {
        let b0: u8 = bytes[i];
        let b1: u8 = bytes[i + 1];
        let b2: u8 = bytes[i + 2];
        let ghost before = text@;
        push_symbol(&mut text, b0 / 4);
        push_symbol(&mut text, (b0 % 4) * 16 + b1 / 16);
        push_symbol(&mut text, (b1 % 16) * 4 + b2 / 64);
        push_symbol(&mut text, b2 % 64);
        proof {
            let base = before.len() as int;
            assert(base == 4 * (i as int / 3));
            assert(base / 4 == i as int / 3);
            assert((base + 1) / 4 == i as int / 3);
            assert((base + 2) / 4 == i as int / 3);
            assert((base + 3) / 4 == i as int / 3);
            assert(3 * (i as int / 3) == i);
            assert forall|k: int| 0 <= k < text@.len() implies text@[k] == base64_symbol(
                bytes@,
                k,
            ) by {
                if k < base {
                    assert(text@[k] == before[k]);
                }
            }
        }
        i = i + 3;
    }
    let ghost before = text@;
    if n - i == 1 {
        let b0: u8 = bytes[i];
        push_symbol(&mut text, b0 / 4);
        push_symbol(&mut text, (b0 % 4) * 16);
        push_padding(&mut text);
        push_padding(&mut text);
    } else if n - i == 2 {
        let b0: u8 = bytes[i];
        let b1: u8 = bytes[i + 1];
        push_symbol(&mut text, b0 / 4);
        push_symbol(&mut text, (b0 % 4) * 16 + b1 / 16);
        push_symbol(&mut text, (b1 % 16) * 4);
        push_padding(&mut text);
    }
    proof {
        let base = before.len() as int;
        assert(base == 4 * (i as int / 3));
        assert(3 * (i as int / 3) == i);
        if n - i > 0 {
            assert(base / 4 == i as int / 3);
            assert((base + 1) / 4 == i as int / 3);
            assert((base + 2) / 4 == i as int / 3);
            assert((base + 3) / 4 == i as int / 3);
        }
        assert(text@.len() == 4 * ((n + 2) / 3));
        assert forall|k: int| 0 <= k < text@.len() implies text@[k] == base64_symbol(
            bytes@,
            k,
        ) by {
            if k < base {
                assert(text@[k] == before[k]);
            }
        }
        assert(text@ =~= base64_encode(bytes@));
    }
    text
}

/// The data URI under which a cover is published, or nothing when the cover is
/// larger than [`MAX_ARTWORK_BYTES`].
pub fn encode_artwork(payload: &[u8]) -> (uri: Option<String>)
    ensures
        optional_text(uri) == artwork_uri_of(Some(payload@)),
{
    if payload.len() > MAX_ARTWORK_BYTES {
        None
    } else {
        let encoded = base64(payload);
        let uri = String::from_str("data:image/png;base64,").concat(encoded.as_str());
        Some(uri)
    }
}

} // verus!
