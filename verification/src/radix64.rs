//! Radix-64, the text encoding of OpenPGP armor: three octets become four
//! symbols of the alphabet `A-Z a-z 0-9 + /`, and a short last group is
//! padded with `=`.

use vstd::prelude::*;

verus! {

/// The padding symbol `=`.
pub const PAD: u8 = 61;

/// The symbol that stands for the six-bit value `v`.
pub open spec fn radix64_symbol(v: int) -> u8
    recommends
        0 <= v < 64,
{
    if v < 26 {
        (65 + v) as u8
    } else if v < 52 {
        (71 + v) as u8
    } else if v < 62 {
        (v - 4) as u8
    } else if v == 62 {
        43
    } else {
        47
    }
}

/// The six-bit value that the symbol `c` stands for, if it is one of the
/// alphabet.
pub open spec fn radix64_value(c: u8) -> Option<int> {
    if 65 <= c <= 90 {
        Some(c - 65)
    } else if 97 <= c <= 122 {
        Some(c - 71)
    } else if 48 <= c <= 57 {
        Some(c + 4)
    } else if c == 43 {
        Some(62int)
    } else if c == 47 {
        Some(63int)
    } else {
        None
    }
}

/// The four symbols of a full group of three octets.
pub open spec fn radix64_group(a: u8, b: u8, c: u8) -> Seq<u8> {
    seq![
        radix64_symbol(a as int / 4),
        radix64_symbol((a as int % 4) * 16 + b as int / 16),
        radix64_symbol((b as int % 16) * 4 + c as int / 64),
        radix64_symbol(c as int % 64),
    ]
}

/// The radix-64 text of `data`.
pub open spec fn radix64_encode(data: Seq<u8>) -> Seq<u8>
    decreases data.len(),
{
    if data.len() == 0 {
        Seq::empty()
    } else if data.len() == 1 {
        seq![
            radix64_symbol(data[0] as int / 4),
            radix64_symbol((data[0] as int % 4) * 16),
            PAD,
            PAD,
        ]
    } else if data.len() == 2 {
        seq![
            radix64_symbol(data[0] as int / 4),
            radix64_symbol((data[0] as int % 4) * 16 + data[1] as int / 16),
            radix64_symbol((data[1] as int % 16) * 4),
            PAD,
        ]
    } else {
        radix64_group(data[0], data[1], data[2]) + radix64_encode(data.skip(3))
    }
}

/// The octets that the radix-64 text `text` stands for. `None` for a text
/// that no encoder produces: a length that is no multiple of four, a symbol
/// outside the alphabet, padding anywhere but at the end, or unused bits
/// that are not zero.
pub open spec fn radix64_decode(text: Seq<u8>) -> Option<Seq<u8>>
    decreases text.len(),
{
    if text.len() == 0 {
        Some(Seq::empty())
    } else if text.len() < 4 {
        None
    } else {
        let v0 = radix64_value(text[0]);
        let v1 = radix64_value(text[1]);
        let v2 = radix64_value(text[2]);
        let v3 = radix64_value(text[3]);
        if v0 is None || v1 is None {
            None
        } else if text.len() == 4 && text[2] == PAD && text[3] == PAD {
            if v1->0 % 16 == 0 {
                Some(seq![(v0->0 * 4 + v1->0 / 16) as u8])
            } else {
                None
            }
        } else if v2 is None {
            None
        } else if text.len() == 4 && text[3] == PAD {
            if v2->0 % 4 == 0 {
                Some(
                    seq![
                        (v0->0 * 4 + v1->0 / 16) as u8,
                        ((v1->0 % 16) * 16 + v2->0 / 4) as u8,
                    ],
                )
            } else {
                None
            }
        } else if v3 is None {
            None
        } else {
            match radix64_decode(text.skip(4)) {
                Some(rest) => Some(
                    seq![
                        (v0->0 * 4 + v1->0 / 16) as u8,
                        ((v1->0 % 16) * 16 + v2->0 / 4) as u8,
                        ((v2->0 % 4) * 64 + v3->0) as u8,
                    ] + rest,
                ),
                None => None,
            }
        }
    }
}

/// Every symbol stands for the value it was made from, and is neither the
/// padding symbol nor a line feed.
pub proof fn lemma_symbol_value(v: int)
    requires
        0 <= v < 64,
    ensures
        radix64_value(radix64_symbol(v)) == Some(v),
        radix64_symbol(v) != PAD,
        radix64_symbol(v) != 10,
{
}

/// The text of `data` has four symbols for every three octets, rounded up.
pub proof fn lemma_encode_len(data: Seq<u8>)
    ensures
        radix64_encode(data).len() == (data.len() + 2) / 3 * 4,
    decreases data.len(),
{
    if data.len() >= 3 {
        lemma_encode_len(data.skip(3));
    }
}

/// No line feed occurs in radix-64 text.
pub proof fn lemma_encode_no_line_feed(data: Seq<u8>)
    ensures
        forall|i: int| 0 <= i < radix64_encode(data).len() ==> radix64_encode(data)[i] != 10,
    decreases data.len(),
{
    if data.len() == 0 {
    } else if data.len() == 1 {
        lemma_symbol_value(data[0] as int / 4);
        lemma_symbol_value((data[0] as int % 4) * 16);
    } else if data.len() == 2 {
        lemma_symbol_value(data[0] as int / 4);
        lemma_symbol_value((data[0] as int % 4) * 16 + data[1] as int / 16);
        lemma_symbol_value((data[1] as int % 16) * 4);
    } else {
        lemma_encode_no_line_feed(data.skip(3));
        lemma_symbol_value(data[0] as int / 4);
        lemma_symbol_value((data[0] as int % 4) * 16 + data[1] as int / 16);
        lemma_symbol_value((data[1] as int % 16) * 4 + data[2] as int / 64);
        lemma_symbol_value(data[2] as int % 64);
        let group = radix64_group(data[0], data[1], data[2]);
        let rest = radix64_encode(data.skip(3));
        assert forall|i: int| 0 <= i < radix64_encode(data).len() implies radix64_encode(
            data,
        )[i] != 10 by {
            if i >= 4 {
                assert(radix64_encode(data)[i] == rest[i - 4]);
            } else {
                assert(radix64_encode(data)[i] == group[i]);
            }
        }
    }
}

/// Decoding undoes encoding: the text of any octet string decodes to that
/// string.
pub proof fn lemma_decode_encode(data: Seq<u8>)
    ensures
        radix64_decode(radix64_encode(data)) == Some(data),
    decreases data.len(),
{
    let text = radix64_encode(data);
    if data.len() == 0 {
    } else if data.len() == 1 {
        let a = data[0] as int;
        lemma_symbol_value(a / 4);
        lemma_symbol_value((a % 4) * 16);
        assert(radix64_decode(text)->0 =~= data);
    } else if data.len() == 2 {
        let a = data[0] as int;
        let b = data[1] as int;
        lemma_symbol_value(a / 4);
        lemma_symbol_value((a % 4) * 16 + b / 16);
        lemma_symbol_value((b % 16) * 4);
        assert(radix64_decode(text)->0 =~= data);
    } else {
        let a = data[0] as int;
        let b = data[1] as int;
        let c = data[2] as int;
        lemma_symbol_value(a / 4);
        lemma_symbol_value((a % 4) * 16 + b / 16);
        lemma_symbol_value((b % 16) * 4 + c / 64);
        lemma_symbol_value(c % 64);
        lemma_decode_encode(data.skip(3));
        assert(text.skip(4) =~= radix64_encode(data.skip(3)));
        assert(seq![data[0], data[1], data[2]] + data.skip(3) =~= data);
    }
}

/// The symbol for a six-bit value.
fn symbol(v: u8) -> (c: u8)
    requires
        v < 64,
    ensures
        c == radix64_symbol(v as int),
{
    if v < 26 {
        65 + v
    } else if v < 52 {
        71 + v
    } else if v < 62 {
        v - 4
    } else if v == 62 {
        43
    } else {
        47
    }
}

/// The six-bit value of a symbol of the alphabet.
fn value(c: u8) -> (v: Option<u8>)
    ensures
        match v {
            Some(x) => radix64_value(c) == Some(x as int) && x < 64,
            None => radix64_value(c) is None,
        },
{
    if 65 <= c && c <= 90 {
        Some(c - 65)
    } else if 97 <= c && c <= 122 {
        Some(c - 71)
    } else if 48 <= c && c <= 57 {
        Some(c + 4)
    } else if c == 43 {
        Some(62)
    } else if c == 47 {
        Some(63)
    } else {
        None
    }
}

/// A string of three octets or more starts with a full group.
proof fn lemma_encode_step(data: Seq<u8>, i: int)
    requires
        0 <= i,
        i + 3 <= data.len(),
    ensures
        radix64_encode(data.skip(i)) == radix64_group(data[i], data[i + 1], data[i + 2])
            + radix64_encode(data.skip(i + 3)),
{
    let tail = data.skip(i);
    assert(tail.len() >= 3);
    assert(tail[0] == data[i] && tail[1] == data[i + 1] && tail[2] == data[i + 2]);
    assert(tail.skip(3) =~= data.skip(i + 3));
}

/// Encodes `buffer` in radix-64.
pub fn binary_to_radix64(buffer: &[u8]) -> (encoded: Vec<u8>)
    ensures
        encoded@ == radix64_encode(buffer@),
{
    let mut encoded: Vec<u8> = Vec::new();
    let rem: usize = buffer.len() % 3;
    let len: usize = buffer.len() - rem;
    let mut i: usize = 0;
    assert(buffer@.skip(0) =~= buffer@);
    while i < len
        invariant
            i <= len,
            i % 3 == 0,
            len % 3 == 0,
            len + rem == buffer.len(),
            rem < 3,
            radix64_encode(buffer@) == encoded@ + radix64_encode(buffer@.skip(i as int)),
        decreases len - i,
    {
        let a: u8 = buffer[i];
        let b: u8 = buffer[i + 1];
        let c: u8 = buffer[i + 2];
        let ghost before = encoded@;
        let s0 = symbol(a / 4);
        let s1 = symbol((a % 4) * 16 + b / 16);
        let s2 = symbol((b % 16) * 4 + c / 64);
        let s3 = symbol(c % 64);
        encoded.push(s0);
        encoded.push(s1);
        encoded.push(s2);
        encoded.push(s3);
        proof {
            let group = radix64_group(a, b, c);
            let rest = radix64_encode(buffer@.skip(i + 3));
            lemma_encode_step(buffer@, i as int);
            assert(group =~= seq![s0, s1, s2, s3]);
            assert(encoded@ =~= before + group);
            assert(before + (group + rest) =~= (before + group) + rest);
        }
        i = i + 3;
    }
    let ghost before = encoded@;
    let ghost tail = buffer@.skip(len as int);
    proof {
        assert(tail.len() == rem);
        if rem == 0 {
            assert(before + radix64_encode(tail) =~= before);
        }
    }
    if rem == 2 {
        let a: u8 = buffer[len];
        let b: u8 = buffer[len + 1];
        let s0 = symbol(a / 4);
        let s1 = symbol((a % 4) * 16 + b / 16);
        let s2 = symbol((b % 16) * 4);
        encoded.push(s0);
        encoded.push(s1);
        encoded.push(s2);
        encoded.push(PAD);
        proof {
            assert(tail[0] == a && tail[1] == b);
            assert(radix64_encode(tail) =~= seq![s0, s1, s2, PAD]);
            assert(encoded@ =~= before + radix64_encode(tail));
        }
    }
    if rem == 1 {
        let a: u8 = buffer[len];
        let s0 = symbol(a / 4);
        let s1 = symbol((a % 4) * 16);
        encoded.push(s0);
        encoded.push(s1);
        encoded.push(PAD);
        encoded.push(PAD);
        proof {
            assert(tail[0] == a);
            assert(radix64_encode(tail) =~= seq![s0, s1, PAD, PAD]);
            assert(encoded@ =~= before + radix64_encode(tail));
        }
    }
    encoded
}

/// Decodes radix-64 text. `None` for text that `binary_to_radix64` does not
/// produce.
pub fn radix64_to_binary(text: &[u8]) -> (decoded: Option<Vec<u8>>)
    ensures
        match decoded {
            Some(v) => radix64_decode(text@) == Some(v@),
            None => radix64_decode(text@) is None,
        },
{
    let mut out: Vec<u8> = Vec::new();
    let n: usize = text.len();
    if n % 4 != 0 {
        proof {
            lemma_decode_needs_groups(text@);
        }
        return None;
    }
    let mut i: usize = 0;
    assert(text@.skip(0) =~= text@);
    while i < n
        invariant
            i <= n,
            n == text.len(),
            i % 4 == 0,
            n % 4 == 0,
            radix64_decode(text@) == match radix64_decode(text@.skip(i as int)) {
                Some(rest) => Some(out@ + rest),
                None => None,
            },
        decreases n - i,
    {
        let ghost tail = text@.skip(i as int);
        proof {
            assert(tail.len() >= 4);
            assert(tail.skip(4) =~= text@.skip(i + 4));
        }
        let last: bool = i + 4 == n;
        let v0 = value(text[i]);
        let v1 = value(text[i + 1]);
        let v2 = value(text[i + 2]);
        let v3 = value(text[i + 3]);
        let (x0, x1) = match (v0, v1) {
            (Some(x0), Some(x1)) => (x0, x1),
            _ => {
                return None;
            },
        };
        if last && text[i + 2] == PAD && text[i + 3] == PAD {
            if x1 % 16 != 0 {
                return None;
            }
            out.push(x0 * 4 + x1 / 16);
            proof {
                assert(radix64_decode(tail)->0 =~= seq![(x0 * 4 + x1 / 16) as u8]);
            }
            return Some(out);
        }
        let x2 = match v2 {
            Some(x2) => x2,
            None => {
                return None;
            },
        };
        if last && text[i + 3] == PAD {
            if x2 % 4 != 0 {
                return None;
            }
            let ghost before = out@;
            out.push(x0 * 4 + x1 / 16);
            out.push((x1 % 16) * 16 + x2 / 4);
            proof {
                assert(out@ =~= before + radix64_decode(tail)->0);
            }
            return Some(out);
        }
        let x3 = match v3 {
            Some(x3) => x3,
            None => {
                return None;
            },
        };
        let ghost before = out@;
        out.push(x0 * 4 + x1 / 16);
        out.push((x1 % 16) * 16 + x2 / 4);
        out.push((x2 % 4) * 64 + x3);
        proof {
            let three = seq![
                (x0 * 4 + x1 / 16) as u8,
                ((x1 % 16) * 16 + x2 / 4) as u8,
                ((x2 % 4) * 64 + x3) as u8,
            ];
            assert(out@ =~= before + three);
            assert forall|rest: Seq<u8>| before + (three + rest) == out@ + rest by {
                assert(before + (three + rest) =~= out@ + rest);
            }
        }
        i = i + 4;
    }
    proof {
        assert(text@.skip(n as int) =~= Seq::<u8>::empty());
        assert(out@ + Seq::<u8>::empty() =~= out@);
    }
    Some(out)
}

/// Text whose length is no multiple of four does not decode.
pub proof fn lemma_decode_needs_groups(text: Seq<u8>)
    requires
        text.len() % 4 != 0,
    ensures
        radix64_decode(text) is None,
    decreases text.len(),
{
    if text.len() >= 4 {
        lemma_decode_needs_groups(text.skip(4));
    }
}

} // verus!
