//! Score verification oracle.
//!
//! The oracle recomputes the score from the itemized collectible counts,
//! compares it with a reported score, and packages the trusted value — never
//! the reported one — into a fixed-order record of six 32-bit words.

use vstd::prelude::*;
use vstd::arithmetic::div_mod::lemma_add_mod_noop;

verus! {

/// The score recomputed from itemized counts: five points per yellow
/// collectible, ten per pink, twenty per purple, combined in wrapping
/// 32-bit arithmetic so that the function is total over its whole domain.
pub open spec fn spec_calculate_score(yellow: u32, pink: u32, purple: u32) -> u32 {
    ((5 * yellow + 10 * pink + 20 * purple) % 0x1_0000_0000) as u32
}

/// The total number of collectibles, in wrapping 32-bit arithmetic.
pub open spec fn spec_total_eggs(yellow: u32, pink: u32, purple: u32) -> u32 {
    ((yellow + pink + purple) % 0x1_0000_0000) as u32
}

/// Recompute the score owed for the given collectible counts.
pub fn calculate_score(yellow_eggs: u32, blue_eggs: u32, purple_eggs: u32) -> (score: u32)
    ensures
        score == spec_calculate_score(yellow_eggs, blue_eggs, purple_eggs),
{
    let a = yellow_eggs.wrapping_mul(5);
    let b = blue_eggs.wrapping_mul(10);
    let c = purple_eggs.wrapping_mul(20);
    let ab = a.wrapping_add(b);
    let abc = ab.wrapping_add(c);
    proof {
        let m: int = 0x1_0000_0000;
        let ya: int = 5 * yellow_eggs;
        let pa: int = 10 * blue_eggs;
        let ua: int = 20 * purple_eggs;
        assert(a == ya % m && b == pa % m && c == ua % m);
        assert(ab == (ya % m + pa % m) % m);
        lemma_add_mod_noop(ya, pa, m);
        assert(abc == ((ya + pa) % m + ua % m) % m);
        lemma_add_mod_noop(ya + pa, ua, m);
    }
    abc
}

/// The total number of collectibles the counts describe.
pub fn total_eggs(yellow_eggs: u32, blue_eggs: u32, purple_eggs: u32) -> (total: u32)
    ensures
        total == spec_total_eggs(yellow_eggs, blue_eggs, purple_eggs),
{
    let ab = yellow_eggs.wrapping_add(blue_eggs);
    let abc = ab.wrapping_add(purple_eggs);
    proof {
        let m: int = 0x1_0000_0000;
        lemma_add_mod_noop(yellow_eggs + blue_eggs, purple_eggs as int, m);
    }
    abc
}

/// The record the oracle commits: the recomputed score and the raw inputs,
/// in the fixed field order that downstream verifiers rely on.
#[derive(Clone, Copy, PartialEq, Eq, Structural, Debug)]
pub struct PublicValues {
    pub score: u32,
    pub yellow_eggs: u32,
    pub pink_eggs: u32,
    pub purple_eggs: u32,
    pub game_time: u32,
    pub lives: u32,
}

/// The oracle's full answer: whether the reported score matched, and the
/// committed record, whose score field always holds the recomputed value.
#[derive(Clone, Copy, PartialEq, Eq, Structural, Debug)]
pub struct CommittedResult {
    pub is_valid: bool,
    pub values: PublicValues,
}

/// What the oracle answers for given inputs: the validity flag compares the
/// report against the recomputed score, and the committed record carries the
/// recomputed score together with the raw inputs.
pub open spec fn spec_verify(
    yellow: u32,
    pink: u32,
    purple: u32,
    reported: u32,
    game_time: u32,
    lives: u32,
) -> CommittedResult {
    CommittedResult {
        is_valid: reported == spec_calculate_score(yellow, pink, purple),
        values: PublicValues {
            score: spec_calculate_score(yellow, pink, purple),
            yellow_eggs: yellow,
            pink_eggs: pink,
            purple_eggs: purple,
            game_time,
            lives,
        },
    }
}

/// Check a reported score against the score recomputed from the counts.
///
/// A mismatch is not an error: it is reported through `is_valid`, and the
/// committed record substitutes the recomputed score for the reported one.
/// `game_time` and `lives` are passed through unexamined: the oracle does not
/// constrain their relationship to the counts.
pub fn verify(
    yellow_eggs: u32,
    pink_eggs: u32,
    purple_eggs: u32,
    reported_score: u32,
    game_time: u32,
    lives: u32,
) -> (r: CommittedResult)
    ensures
        r == spec_verify(yellow_eggs, pink_eggs, purple_eggs, reported_score, game_time, lives),
{
    let calculated_score = calculate_score(yellow_eggs, pink_eggs, purple_eggs);
    CommittedResult {
        is_valid: reported_score == calculated_score,
        values: PublicValues {
            score: calculated_score,
            yellow_eggs,
            pink_eggs,
            purple_eggs,
            game_time,
            lives,
        },
    }
}

/// Big-endian byte `i` (0 is the most significant) of a 32-bit value.
pub open spec fn spec_u32_be_byte(x: u32, i: int) -> u8 {
    if i == 0 {
        ((x >> 24) & 0xFF) as u8
    } else if i == 1 {
        ((x >> 16) & 0xFF) as u8
    } else if i == 2 {
        ((x >> 8) & 0xFF) as u8
    } else {
        (x & 0xFF) as u8
    }
}

/// One 32-byte word of the committed layout: twenty-eight zero bytes of
/// padding, then the value big-endian.
pub open spec fn spec_abi_word(x: u32) -> Seq<u8> {
    Seq::new(
        32,
        |i: int|
            if i < 28 {
                0u8
            } else {
                spec_u32_be_byte(x, i - 28)
            },
    )
}

/// The committed record's fixed binary layout: six 32-byte words in fixed
/// field order — score, yellow, pink, purple, game time, lives — 192 bytes
/// in all. Field order and width are load-bearing: downstream verifiers
/// read the record at these exact offsets.
pub open spec fn spec_abi_encoding(v: PublicValues) -> Seq<u8> {
    spec_abi_word(v.score) + spec_abi_word(v.yellow_eggs) + spec_abi_word(v.pink_eggs)
        + spec_abi_word(v.purple_eggs) + spec_abi_word(v.game_time) + spec_abi_word(v.lives)
}

/// Append one padded big-endian word to the output.
fn push_abi_word(out: &mut Vec<u8>, x: u32)
    ensures
        final(out)@ == old(out)@ + spec_abi_word(x),
{
    let mut k: usize = 0;
    while k < 28
        invariant
            k <= 28,
            out@.len() == old(out)@.len() + k,
            out@.subrange(0, old(out)@.len() as int) == old(out)@,
            forall|i: int| old(out)@.len() <= i < out@.len() ==> out@[i] == 0u8,
        decreases 28 - k,
    {
        out.push(0u8);
        k = k + 1;
        proof {
            assert(out@.subrange(0, old(out)@.len() as int) =~= old(out)@);
        }
    }
    let b0 = ((x >> 24) & 0xFF) as u8;
    let b1 = ((x >> 16) & 0xFF) as u8;
    let b2 = ((x >> 8) & 0xFF) as u8;
    let b3 = (x & 0xFF) as u8;
    out.push(b0);
    out.push(b1);
    out.push(b2);
    out.push(b3);
    proof {
        assert(out@ =~= old(out)@ + spec_abi_word(x));
    }
}

/// Encode the committed record into its fixed 192-byte layout.
pub fn abi_encode_values(v: &PublicValues) -> (bytes: Vec<u8>)
    ensures
        bytes@ == spec_abi_encoding(*v),
        bytes@.len() == 192,
{
    let mut out: Vec<u8> = Vec::new();
    push_abi_word(&mut out, v.score);
    push_abi_word(&mut out, v.yellow_eggs);
    push_abi_word(&mut out, v.pink_eggs);
    push_abi_word(&mut out, v.purple_eggs);
    push_abi_word(&mut out, v.game_time);
    push_abi_word(&mut out, v.lives);
    proof {
        assert(out@ =~= spec_abi_encoding(*v));
    }
    out
}

/// Read the word at index `word` of a 192-byte record, checking its padding.
fn read_abi_word(bytes: &Vec<u8>, word: usize) -> (r: Option<u32>)
    requires
        bytes@.len() == 192,
        word < 6,
    ensures
        match r {
            Some(x) => bytes@.subrange(32 * word as int, 32 * word as int + 32) == spec_abi_word(
                x,
            ),
            None => exists|i: int|
                32 * word <= i < 32 * word + 28 && #[trigger] bytes@[i] != 0u8,
        },
{
    let base = 32 * word;
    let mut k: usize = 0;
    while k < 28
        invariant
            k <= 28,
            word < 6,
            base == 32 * word,
            bytes@.len() == 192,
            forall|i: int| base <= i < base + k ==> bytes@[i] == 0u8,
        decreases 28 - k,
    {
        if bytes[base + k] != 0u8 {
            return None;
        }
        k = k + 1;
    }
    let b0 = bytes[base + 28] as u32;
    let b1 = bytes[base + 29] as u32;
    let b2 = bytes[base + 30] as u32;
    let b3 = bytes[base + 31] as u32;
    let x = (b0 << 24) | (b1 << 16) | (b2 << 8) | b3;
    proof {
        assert(b0 == (x >> 24) & 0xFF && b1 == (x >> 16) & 0xFF && b2 == (x >> 8) & 0xFF && b3 == x
            & 0xFF) by (bit_vector)
            requires
                b0 < 256 && b1 < 256 && b2 < 256 && b3 < 256 && x == (b0 << 24) | (b1 << 16) | (b2
                    << 8) | b3,
        ;
        assert(bytes@.subrange(32 * word as int, 32 * word as int + 32) =~= spec_abi_word(x));
    }
    Some(x)
}

/// The field that occupies word `w` of the committed layout.
pub open spec fn spec_abi_field(v: PublicValues, w: int) -> u32 {
    if w == 0 {
        v.score
    } else if w == 1 {
        v.yellow_eggs
    } else if w == 2 {
        v.pink_eggs
    } else if w == 3 {
        v.purple_eggs
    } else if w == 4 {
        v.game_time
    } else {
        v.lives
    }
}

/// Byte `k` of word `w` of an encoded record is byte `k` of that field's word.
proof fn lemma_encoding_index(v: PublicValues, w: int, k: int)
    requires
        0 <= w < 6,
        0 <= k < 32,
    ensures
        spec_abi_encoding(v)[32 * w + k] == spec_abi_word(spec_abi_field(v, w))[k],
{
    let e = spec_abi_encoding(v);
    if w == 0 {
        assert(e[32 * w + k] == spec_abi_word(v.score)[k]);
    } else if w == 1 {
        assert(e[32 * w + k] == spec_abi_word(v.yellow_eggs)[k]);
    } else if w == 2 {
        assert(e[32 * w + k] == spec_abi_word(v.pink_eggs)[k]);
    } else if w == 3 {
        assert(e[32 * w + k] == spec_abi_word(v.purple_eggs)[k]);
    } else if w == 4 {
        assert(e[32 * w + k] == spec_abi_word(v.game_time)[k]);
    } else {
        assert(e[32 * w + k] == spec_abi_word(v.lives)[k]);
    }
}

/// A nonzero byte in a padding range refutes every possible encoding.
proof fn lemma_nonzero_padding_refutes(bytes: Seq<u8>, w: int)
    requires
        bytes.len() == 192,
        0 <= w < 6,
        exists|i: int| 32 * w <= i < 32 * w + 28 && #[trigger] bytes[i] != 0u8,
    ensures
        forall|v: PublicValues| bytes != spec_abi_encoding(v),
{
    let i = choose|i: int| 32 * w <= i < 32 * w + 28 && #[trigger] bytes[i] != 0u8;
    assert forall|v: PublicValues| bytes != spec_abi_encoding(v) by {
        if bytes == spec_abi_encoding(v) {
            lemma_encoding_index(v, w, i - 32 * w);
        }
    }
}

/// Decode a committed record from its fixed 192-byte layout. The answer is
/// the record whose encoding the bytes are, and nothing else: any length but
/// 192 or any nonzero padding byte is refused.
pub fn abi_decode_values(bytes: &Vec<u8>) -> (r: Option<PublicValues>)
    ensures
        match r {
            Some(v) => bytes@ == spec_abi_encoding(v),
            None => forall|v: PublicValues| bytes@ != spec_abi_encoding(v),
        },
{
    if bytes.len() != 192 {
        proof {
            assert(forall|v: PublicValues| (#[trigger] spec_abi_encoding(v)).len() == 192);
        }
        return None;
    }
    let score = read_abi_word(bytes, 0);
    let yellow = read_abi_word(bytes, 1);
    let pink = read_abi_word(bytes, 2);
    let purple = read_abi_word(bytes, 3);
    let game_time = read_abi_word(bytes, 4);
    let lives = read_abi_word(bytes, 5);
    match (score, yellow, pink, purple, game_time, lives) {
        (Some(s), Some(y), Some(p), Some(u), Some(t), Some(l)) => {
            let v = PublicValues {
                score: s,
                yellow_eggs: y,
                pink_eggs: p,
                purple_eggs: u,
                game_time: t,
                lives: l,
            };
            proof {
                let e = spec_abi_encoding(v);
                assert forall|i: int| 0 <= i < 192 implies bytes@[i] == e[i] by {
                    if i < 32 {
                        assert(bytes@[i] == bytes@.subrange(0, 32)[i]);
                        assert(e[i] == spec_abi_word(v.score)[i]);
                    } else if i < 64 {
                        assert(bytes@[i] == bytes@.subrange(32, 64)[i - 32]);
                        assert(e[i] == spec_abi_word(v.yellow_eggs)[i - 32]);
                    } else if i < 96 {
                        assert(bytes@[i] == bytes@.subrange(64, 96)[i - 64]);
                        assert(e[i] == spec_abi_word(v.pink_eggs)[i - 64]);
                    } else if i < 128 {
                        assert(bytes@[i] == bytes@.subrange(96, 128)[i - 96]);
                        assert(e[i] == spec_abi_word(v.purple_eggs)[i - 96]);
                    } else if i < 160 {
                        assert(bytes@[i] == bytes@.subrange(128, 160)[i - 128]);
                        assert(e[i] == spec_abi_word(v.game_time)[i - 128]);
                    } else {
                        assert(bytes@[i] == bytes@.subrange(160, 192)[i - 160]);
                        assert(e[i] == spec_abi_word(v.lives)[i - 160]);
                    }
                }
                assert(bytes@ =~= e);
            }
            Some(v)
        },
        _ => {
            proof {
                if score is None {
                    lemma_nonzero_padding_refutes(bytes@, 0);
                } else if yellow is None {
                    lemma_nonzero_padding_refutes(bytes@, 1);
                } else if pink is None {
                    lemma_nonzero_padding_refutes(bytes@, 2);
                } else if purple is None {
                    lemma_nonzero_padding_refutes(bytes@, 3);
                } else if game_time is None {
                    lemma_nonzero_padding_refutes(bytes@, 4);
                } else {
                    lemma_nonzero_padding_refutes(bytes@, 5);
                }
            }
            None
        },
    }
}

/// The fixed layout is lossless: no two different records share an encoding,
/// so decoding an encoded record can only give the record back.
pub proof fn lemma_abi_round_trip(v: PublicValues)
    ensures
        spec_abi_encoding(v).len() == 192,
        forall|w: PublicValues| spec_abi_encoding(v) == spec_abi_encoding(w) ==> v == w,
{
    assert forall|w: PublicValues| spec_abi_encoding(v) == spec_abi_encoding(w) implies v == w by {
        lemma_abi_injective_fields(v, w);
    }
}

/// Two records with the same encoding agree on every field.
proof fn lemma_abi_injective_fields(v: PublicValues, w: PublicValues)
    requires
        spec_abi_encoding(v) == spec_abi_encoding(w),
    ensures
        v == w,
{
    assert forall|wi: int| 0 <= wi < 6 implies spec_abi_field(v, wi) == spec_abi_field(
        w,
        wi,
    ) by {
        assert forall|k: int|
            0 <= k < 32 implies spec_abi_word(spec_abi_field(v, wi))[k] == spec_abi_word(
            spec_abi_field(w, wi),
        )[k] by {
            lemma_encoding_index(v, wi, k);
            lemma_encoding_index(w, wi, k);
        }
        assert(spec_abi_word(spec_abi_field(v, wi)) =~= spec_abi_word(spec_abi_field(w, wi)));
        lemma_word_eq_from_bytes(spec_abi_field(v, wi), spec_abi_field(w, wi));
    }
    assert(spec_abi_field(v, 0) == spec_abi_field(w, 0));
    assert(spec_abi_field(v, 1) == spec_abi_field(w, 1));
    assert(spec_abi_field(v, 2) == spec_abi_field(w, 2));
    assert(spec_abi_field(v, 3) == spec_abi_field(w, 3));
    assert(spec_abi_field(v, 4) == spec_abi_field(w, 4));
    assert(spec_abi_field(v, 5) == spec_abi_field(w, 5));
}

/// Two 32-bit values whose four big-endian bytes agree are equal.
proof fn lemma_word_eq_from_bytes(x: u32, y: u32)
    requires
        spec_abi_word(x) == spec_abi_word(y),
    ensures
        x == y,
{
    assert(spec_abi_word(x)[28] == ((x >> 24) & 0xFF) as u8);
    assert(spec_abi_word(x)[29] == ((x >> 16) & 0xFF) as u8);
    assert(spec_abi_word(x)[30] == ((x >> 8) & 0xFF) as u8);
    assert(spec_abi_word(x)[31] == (x & 0xFF) as u8);
    assert(spec_abi_word(y)[28] == ((y >> 24) & 0xFF) as u8);
    assert(spec_abi_word(y)[29] == ((y >> 16) & 0xFF) as u8);
    assert(spec_abi_word(y)[30] == ((y >> 8) & 0xFF) as u8);
    assert(spec_abi_word(y)[31] == (y & 0xFF) as u8);
    assert(x == y) by (bit_vector)
        requires
            ((x >> 24) & 0xFF) as u8 == ((y >> 24) & 0xFF) as u8,
            ((x >> 16) & 0xFF) as u8 == ((y >> 16) & 0xFF) as u8,
            ((x >> 8) & 0xFF) as u8 == ((y >> 8) & 0xFF) as u8,
            (x & 0xFF) as u8 == (y & 0xFF) as u8,
    ;
}

/// The oracle accepts exactly the score it computes itself: reporting the
/// recomputed score always validates, any other report never does, and in
/// particular a report inflated by one (in wrapping arithmetic, so the claim
/// covers the whole domain) is always rejected.
pub proof fn lemma_oracle_round_trip(yellow: u32, pink: u32, purple: u32, t: u32, l: u32)
    ensures
        spec_verify(
            yellow,
            pink,
            purple,
            spec_calculate_score(yellow, pink, purple),
            t,
            l,
        ).is_valid,
        forall|other: u32|
            other != spec_calculate_score(yellow, pink, purple) ==> !spec_verify(
                yellow,
                pink,
                purple,
                other,
                t,
                l,
            ).is_valid,
        !spec_verify(
            yellow,
            pink,
            purple,
            vstd::wrapping::u32_specs::wrapping_add(
                spec_calculate_score(yellow, pink, purple),
                1,
            ),
            t,
            l,
        ).is_valid,
{
}

} // verus!
