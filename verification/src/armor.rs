//! ASCII armor of a binary signature: the radix-64 text of the body between
//! the two armor lines, closed by the radix-64 text of its CRC-24.

use crate::crc24::{checksum_octets, crc24, crc24_checksum, octets24};
use crate::octets::extend;
use crate::radix64::{
    binary_to_radix64, lemma_decode_encode, lemma_encode_len, lemma_encode_no_line_feed,
    radix64_decode, radix64_encode, radix64_to_binary, PAD,
};
use vstd::prelude::*;
use vstd::slice::slice_subrange;

verus! {

/// The line feed.
pub const LF: u8 = 10;

/// `-----BEGIN PGP SIGNATURE-----`, a line feed and the blank line that ends
/// the armor headers.
pub open spec fn armor_head() -> Seq<u8> {
    seq![
        45u8, 45, 45, 45, 45, 66, 69, 71, 73, 78, 32, 80, 71, 80, 32, 83, 73, 71, 78, 65, 84, 85,
        82, 69, 45, 45, 45, 45, 45, 10, 10,
    ]
}

/// A line feed, `-----END PGP SIGNATURE-----` and a line feed.
pub open spec fn armor_tail() -> Seq<u8> {
    seq![
        10u8, 45, 45, 45, 45, 45, 69, 78, 68, 32, 80, 71, 80, 32, 83, 73, 71, 78, 65, 84, 85, 82,
        69, 45, 45, 45, 45, 45, 10,
    ]
}

/// The checksum line of `body`: a line feed, `=` and the four symbols of its
/// CRC-24.
pub open spec fn armor_checksum(body: Seq<u8>) -> Seq<u8> {
    seq![LF, PAD] + radix64_encode(octets24(crc24(body)))
}

/// The armored text of the binary `body`.
pub open spec fn armor(body: Seq<u8>) -> Seq<u8> {
    armor_head() + radix64_encode(body) + armor_checksum(body) + armor_tail()
}

/// Where the first line feed of `text` stands; the length of `text` if it
/// holds none.
pub open spec fn first_line_feed(text: Seq<u8>) -> int
    decreases text.len(),
{
    if text.len() == 0 || text[0] == LF {
        0
    } else {
        1 + first_line_feed(text.skip(1))
    }
}

/// The binary body that the armored `text` carries. `None` unless `text` is
/// the armor head, one line of radix-64, a checksum line that agrees with
/// the body, and the armor tail, with nothing before, between or after.
pub open spec fn dearmor(text: Seq<u8>) -> Option<Seq<u8>> {
    let head = armor_head();
    let tail = armor_tail();
    if text.len() < head.len() || text.take(head.len() as int) != head {
        None
    } else {
        let rest = text.skip(head.len() as int);
        let n = first_line_feed(rest);
        if rest.len() != n + 6 + tail.len() || rest[n + 1] != PAD || rest.skip(n + 6) != tail {
            None
        } else {
            match (radix64_decode(rest.take(n)), radix64_decode(rest.subrange(n + 2, n + 6))) {
                (Some(body), Some(sum)) => if sum == octets24(crc24(body)) {
                    Some(body)
                } else {
                    None
                },
                _ => None,
            }
        }
    }
}

proof fn lemma_first_line_feed_after(line: Seq<u8>, rest: Seq<u8>)
    requires
        forall|i: int| 0 <= i < line.len() ==> line[i] != LF,
        rest.len() > 0,
        rest[0] == LF,
    ensures
        first_line_feed(line + rest) == line.len(),
    decreases line.len(),
{
    if line.len() == 0 {
        assert(line + rest =~= rest);
    } else {
        assert((line + rest).skip(1) =~= line.skip(1) + rest);
        assert forall|i: int| 0 <= i < line.skip(1).len() implies line.skip(1)[i] != LF by {
            assert(line.skip(1)[i] == line[i + 1]);
        }
        lemma_first_line_feed_after(line.skip(1), rest);
    }
}

/// Armor loses nothing: taking the armor off the armored text of any body
/// gives that body back.
pub proof fn lemma_dearmor_armor(body: Seq<u8>)
    ensures
        dearmor(armor(body)) == Some(body),
{
    let head = armor_head();
    let tail = armor_tail();
    let line = radix64_encode(body);
    let sum = octets24(crc24(body));
    let sum_text = radix64_encode(sum);
    let text = armor(body);
    let after = armor_checksum(body) + tail;
    let rest = line + after;
    lemma_encode_len(sum);
    lemma_encode_no_line_feed(body);
    lemma_decode_encode(body);
    lemma_decode_encode(sum);
    assert(text =~= head + rest);
    assert(text.take(head.len() as int) =~= head);
    assert(text.skip(head.len() as int) =~= rest);
    assert(after[0] == LF);
    lemma_first_line_feed_after(line, after);
    let n = line.len() as int;
    assert(rest[n + 1] == PAD);
    assert(rest.skip(n + 6) =~= tail);
    assert(rest.take(n) =~= line);
    assert(rest.subrange(n + 2, n + 6) =~= sum_text);
}

fn head_octets() -> (out: Vec<u8>)
    ensures
        out@ == armor_head(),
{
    let out: Vec<u8> = vec![
        45u8, 45, 45, 45, 45, 66, 69, 71, 73, 78, 32, 80, 71, 80, 32, 83, 73, 71, 78, 65, 84, 85,
        82, 69, 45, 45, 45, 45, 45, 10, 10,
    ];
    assert(out@ =~= armor_head());
    out
}

fn tail_octets() -> (out: Vec<u8>)
    ensures
        out@ == armor_tail(),
{
    let out: Vec<u8> = vec![
        10u8, 45, 45, 45, 45, 45, 69, 78, 68, 32, 80, 71, 80, 32, 83, 73, 71, 78, 65, 84, 85, 82,
        69, 45, 45, 45, 45, 45, 10,
    ];
    assert(out@ =~= armor_tail());
    out
}

/// Whether `text` holds `part` at offset `at`.
fn holds_at(text: &[u8], at: usize, part: &[u8]) -> (yes: bool)
    requires
        at + part.len() <= text.len(),
    ensures
        yes == (text@.subrange(at as int, at + part.len()) == part@),
{
    let mut i: usize = 0;
    while i < part.len()
        invariant
            i <= part.len(),
            at + part.len() <= text.len(),
            text@.subrange(at as int, at + i) == part@.take(i as int),
        decreases part.len() - i,
    {
        if text[at + i] != part[i] {
            proof {
                let whole = text@.subrange(at as int, at + part.len());
                assert(whole[i as int] != part@[i as int]);
            }
            return false;
        }
        proof {
            assert(text@.subrange(at as int, at + i + 1) =~= text@.subrange(
                at as int,
                at + i,
            ).push(text@[at + i]));
            assert(part@.take(i + 1) =~= part@.take(i as int).push(part@[i as int]));
        }
        i = i + 1;
    }
    proof {
        assert(part@.take(part.len() as int) =~= part@);
    }
    true
}

/// Formats a binary signature as ASCII armor.
pub fn armor_binary_output(buffer: &[u8]) -> (text: Vec<u8>)
    ensures
        text@ == armor(buffer@),
{
    let mut text: Vec<u8> = head_octets();
    let line = binary_to_radix64(buffer);
    extend(&mut text, line.as_slice());
    text.push(LF);
    text.push(PAD);
    let sum = checksum_octets(crc24_checksum(buffer));
    let sum_text = binary_to_radix64(sum.as_slice());
    extend(&mut text, sum_text.as_slice());
    let tail = tail_octets();
    extend(&mut text, tail.as_slice());
    proof {
        assert(text@ =~= armor(buffer@));
    }
    text
}

/// Takes the armor off a signature. `None` where `text` is not the armor of
/// any body, or where its checksum does not agree with its body.
pub fn dearmor_binary_output(text: &[u8]) -> (body: Option<Vec<u8>>)
    ensures
        match body {
            Some(b) => dearmor(text@) == Some(b@),
            None => dearmor(text@) is None,
        },
{
    let head = head_octets();
    let tail = tail_octets();
    if text.len() < head.len() {
        return None;
    }
    if !holds_at(text, 0, head.as_slice()) {
        proof {
            assert(text@.take(head.len() as int) =~= text@.subrange(0, 0 + head.len()));
        }
        return None;
    }
    proof {
        assert(text@.take(head.len() as int) =~= text@.subrange(0, 0 + head.len()));
    }
    let start: usize = head.len();
    let ghost rest = text@.skip(start as int);
    let mut n: usize = 0;
    proof {
        assert(rest.skip(0) =~= rest);
    }
    while start + n < text.len() && text[start + n] != LF
        invariant
            start + n <= text.len(),
            rest == text@.skip(start as int),
            first_line_feed(rest) == n + first_line_feed(rest.skip(n as int)),
        decreases text.len() - n,
    {
        proof {
            assert(rest.skip(n as int).skip(1) =~= rest.skip(n + 1));
            assert(rest.skip(n as int)[0] == text@[start + n]);
        }
        n = n + 1;
    }
    proof {
        if start + n < text.len() {
            assert(rest.skip(n as int)[0] == text@[start + n]);
        }
        assert(first_line_feed(rest) == n);
    }
    if text.len() - start - n != 6 + tail.len() {
        return None;
    }
    if text[start + n + 1] != PAD {
        return None;
    }
    if !holds_at(text, start + n + 6, tail.as_slice()) {
        proof {
            assert(rest.skip(n + 6) =~= text@.subrange(start + n + 6, start + n + 6 + tail.len()));
        }
        return None;
    }
    proof {
        assert(rest.skip(n + 6) =~= text@.subrange(start + n + 6, start + n + 6 + tail.len()));
        assert(rest.take(n as int) =~= text@.subrange(start as int, start + n));
        assert(rest.subrange(n + 2, n + 6) =~= text@.subrange(start + n + 2, start + n + 6));
    }
    let line = slice_subrange(text, start, start + n);
    let sum_text = slice_subrange(text, start + n + 2, start + n + 6);
    let body = match radix64_to_binary(line) {
        Some(b) => b,
        None => {
            return None;
        },
    };
    let sum = match radix64_to_binary(sum_text) {
        Some(s) => s,
        None => {
            return None;
        },
    };
    let expected = checksum_octets(crc24_checksum(body.as_slice()));
    if sum.len() != expected.len() {
        return None;
    }
    if !holds_at(sum.as_slice(), 0, expected.as_slice()) {
        proof {
            assert(sum@.subrange(0, 0 + expected.len()) =~= sum@);
        }
        return None;
    }
    proof {
        assert(sum@.subrange(0, 0 + expected.len()) =~= sum@);
    }
    Some(body)
}

} // verus!
