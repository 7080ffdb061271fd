use vstd::prelude::*;

use crate::hex::{
    is_lower_hex_digit, lemma_lower_hex_digit, lemma_lower_hex_digit_is_injective, lower_hex_digit,
};

verus! {

#[verifier::external_type_specification]
#[verifier::external_body]
pub struct ExJsonValue(serde_json::Value);

/// An event submitted for publication.
pub struct EventRequest {
    pub partner_id: String,
    pub payload: serde_json::Value,
    pub event_id: Option<String>,
}

/// The answer to an accepted event: the trace it was published under and its id.
pub struct EventResponse {
    pub trace_id: String,
    pub event_id: String,
}

/// The text form of a random (version 4, RFC 4122 variant) UUID in lower-case hyphenated
/// layout: 36 characters, hyphens at 8, 13, 18 and 23, lower-case hex digits elsewhere,
/// version digit `4` at 14 and a variant digit among `8`, `9`, `a`, `b` at 19.
pub open spec fn is_v4_uuid_text(text: Seq<char>) -> bool {
    &&& text.len() == 36
    &&& forall|i: int|
        0 <= i < 36 ==> if i == 8 || i == 13 || i == 18 || i == 23 {
            #[trigger] text[i] == '-'
        } else {
            is_lower_hex_digit(text[i])
        }
    &&& text[14] == '4'
    &&& (text[19] == '8' || text[19] == '9' || text[19] == 'a' || text[19] == 'b')
}

/// The bytes of the random (version 4) UUID built from 16 random bytes: the bytes themselves,
/// with the high nibble of byte 6 set to the version 4 and the top two bits of byte 8 set to
/// the RFC 4122 variant `10`.
pub open spec fn v4_bytes(random: Seq<u8>) -> Seq<u8> {
    random.update(6, (random[6] & 0x0f) | 0x40).update(8, (random[8] & 0x3f) | 0x80)
}

/// Each byte as two lower-case hex digits, high nibble first.
pub open spec fn hex_text(bytes: Seq<u8>) -> Seq<char>
    decreases bytes.len(),
{
    if bytes.len() == 0 {
        Seq::empty()
    } else {
        seq![lower_hex_digit(bytes[0] >> 4), lower_hex_digit(bytes[0] & 0x0f)] + hex_text(
            bytes.drop_first(),
        )
    }
}

/// The hyphenated form of 16 bytes: hex groups of 4, 2, 2, 2 and 6 bytes joined by `-`.
pub open spec fn hyphenated_text(bytes: Seq<u8>) -> Seq<char> {
    hex_text(bytes.subrange(0, 4)) + seq!['-'] + hex_text(bytes.subrange(4, 6)) + seq!['-']
        + hex_text(bytes.subrange(6, 8)) + seq!['-'] + hex_text(bytes.subrange(8, 10)) + seq!['-']
        + hex_text(bytes.subrange(10, 16))
}

/// The text that uuid writes for the random (version 4) UUID it builds from 16 random bytes.
pub open spec fn v4_uuid_text(random: Seq<u8>) -> Seq<char> {
    hyphenated_text(v4_bytes(random))
}

proof fn lemma_hex_text(bytes: Seq<u8>)
    ensures
        hex_text(bytes).len() == 2 * bytes.len(),
        forall|k: int|
            0 <= k < bytes.len() ==> hex_text(bytes)[2 * k] == lower_hex_digit(#[trigger] bytes[k] >> 4)
                && hex_text(bytes)[2 * k + 1] == lower_hex_digit(bytes[k] & 0x0f),
        forall|i: int| 0 <= i < hex_text(bytes).len() ==> is_lower_hex_digit(#[trigger] hex_text(bytes)[i]),
    decreases bytes.len(),
{
    if bytes.len() > 0 {
        let rest = bytes.drop_first();
        lemma_hex_text(rest);
        let b = bytes[0];
        assert((b >> 4) < 16 && (b & 0x0f) < 16) by (bit_vector);
        lemma_lower_hex_digit(b >> 4);
        lemma_lower_hex_digit(b & 0x0f);
        let head = seq![lower_hex_digit(b >> 4), lower_hex_digit(b & 0x0f)];
        assert forall|k: int| 0 <= k < bytes.len() implies hex_text(bytes)[2 * k] == lower_hex_digit(
            #[trigger] bytes[k] >> 4,
        ) && hex_text(bytes)[2 * k + 1] == lower_hex_digit(bytes[k] & 0x0f) by {
            if k > 0 {
                assert(bytes[k] == rest[k - 1]);
                assert(hex_text(bytes)[2 * k] == hex_text(rest)[2 * (k - 1)]);
                assert(hex_text(bytes)[2 * k + 1] == hex_text(rest)[2 * (k - 1) + 1]);
            }
        }
        assert forall|i: int| 0 <= i < hex_text(bytes).len() implies is_lower_hex_digit(
            #[trigger] hex_text(bytes)[i],
        ) by {
            if i >= 2 {
                assert(hex_text(bytes)[i] == hex_text(rest)[i - 2]);
            }
        }
    }
}

/// The text built from any 16 random bytes has the layout of a version 4 UUID.
pub proof fn lemma_v4_uuid_text_layout(random: Seq<u8>)
    requires
        random.len() == 16,
    ensures
        is_v4_uuid_text(v4_uuid_text(random)),
{
    let b = v4_bytes(random);
    let g0 = hex_text(b.subrange(0, 4));
    let g1 = hex_text(b.subrange(4, 6));
    let g2 = hex_text(b.subrange(6, 8));
    let g3 = hex_text(b.subrange(8, 10));
    let g4 = hex_text(b.subrange(10, 16));
    lemma_hex_text(b.subrange(0, 4));
    lemma_hex_text(b.subrange(4, 6));
    lemma_hex_text(b.subrange(6, 8));
    lemma_hex_text(b.subrange(8, 10));
    lemma_hex_text(b.subrange(10, 16));
    let text = v4_uuid_text(random);
    let dash = seq!['-'];
    assert(text == g0 + dash + g1 + dash + g2 + dash + g3 + dash + g4);
    assert(text.len() == 36);
    assert forall|i: int|
        0 <= i < 36 implies if i == 8 || i == 13 || i == 18 || i == 23 {
        #[trigger] text[i] == '-'
    } else {
        is_lower_hex_digit(text[i])
    } by {
        if i < 8 {
            assert(text[i] == g0[i]);
        } else if i == 8 {
        } else if i < 13 {
            assert(text[i] == g1[i - 9]);
        } else if i == 13 {
        } else if i < 18 {
            assert(text[i] == g2[i - 14]);
        } else if i == 18 {
        } else if i < 23 {
            assert(text[i] == g3[i - 19]);
        } else if i == 23 {
        } else {
            assert(text[i] == g4[i - 24]);
        }
    }
    let r6 = random[6];
    let r8 = random[8];
    assert((((r6 & 0x0f) | 0x40) >> 4) == 4) by (bit_vector);
    assert(8 <= (((r8 & 0x3f) | 0x80) >> 4) <= 11) by (bit_vector);
    assert(b.subrange(6, 8)[0] == (r6 & 0x0f) | 0x40);
    assert(b.subrange(8, 10)[0] == (r8 & 0x3f) | 0x80);
    assert(text[14] == g2[0]);
    assert(text[19] == g3[0]);
    lemma_lower_hex_digit(4);
    let v = ((r8 & 0x3f) | 0x80) >> 4;
    lemma_lower_hex_digit(v);
}

/// Hex text gives its bytes back: two byte sequences with the same hex text are equal.
proof fn lemma_hex_text_is_injective(bytes: Seq<u8>, other: Seq<u8>)
    requires
        hex_text(bytes) == hex_text(other),
    ensures
        bytes == other,
    decreases bytes.len(),
{
    lemma_hex_text(bytes);
    lemma_hex_text(other);
    if bytes.len() > 0 {
        let x = bytes[0];
        let y = other[0];
        assert(hex_text(bytes)[0] == hex_text(other)[0]);
        assert(hex_text(bytes)[1] == hex_text(other)[1]);
        assert((x >> 4) < 16 && (x & 0x0f) < 16 && (y >> 4) < 16 && (y & 0x0f) < 16) by (bit_vector);
        lemma_lower_hex_digit_is_injective(x >> 4, y >> 4);
        lemma_lower_hex_digit_is_injective(x & 0x0f, y & 0x0f);
        assert(x == y) by (bit_vector)
            requires
                x >> 4 == y >> 4,
                x & 0x0f == y & 0x0f,
        ;
        let h = hex_text(bytes);
        assert(hex_text(bytes.drop_first()) =~= h.subrange(2, h.len() as int));
        assert(hex_text(other.drop_first()) =~= h.subrange(2, h.len() as int));
        lemma_hex_text_is_injective(bytes.drop_first(), other.drop_first());
        assert(bytes =~= seq![x] + bytes.drop_first());
        assert(other =~= seq![y] + other.drop_first());
    }
}

/// The hyphenated text of 16 bytes gives the bytes back.
proof fn lemma_hyphenated_text_is_injective(bytes: Seq<u8>, other: Seq<u8>)
    requires
        bytes.len() == 16,
        other.len() == 16,
        hyphenated_text(bytes) == hyphenated_text(other),
    ensures
        bytes == other,
{
    let t = hyphenated_text(bytes);
    lemma_hex_text(bytes.subrange(0, 4));
    lemma_hex_text(bytes.subrange(4, 6));
    lemma_hex_text(bytes.subrange(6, 8));
    lemma_hex_text(bytes.subrange(8, 10));
    lemma_hex_text(bytes.subrange(10, 16));
    lemma_hex_text(other.subrange(0, 4));
    lemma_hex_text(other.subrange(4, 6));
    lemma_hex_text(other.subrange(6, 8));
    lemma_hex_text(other.subrange(8, 10));
    lemma_hex_text(other.subrange(10, 16));
    assert(hex_text(bytes.subrange(0, 4)) =~= t.subrange(0, 8));
    assert(hex_text(other.subrange(0, 4)) =~= t.subrange(0, 8));
    assert(hex_text(bytes.subrange(4, 6)) =~= t.subrange(9, 13));
    assert(hex_text(other.subrange(4, 6)) =~= t.subrange(9, 13));
    assert(hex_text(bytes.subrange(6, 8)) =~= t.subrange(14, 18));
    assert(hex_text(other.subrange(6, 8)) =~= t.subrange(14, 18));
    assert(hex_text(bytes.subrange(8, 10)) =~= t.subrange(19, 23));
    assert(hex_text(other.subrange(8, 10)) =~= t.subrange(19, 23));
    assert(hex_text(bytes.subrange(10, 16)) =~= t.subrange(24, 36));
    assert(hex_text(other.subrange(10, 16)) =~= t.subrange(24, 36));
    lemma_hex_text_is_injective(bytes.subrange(0, 4), other.subrange(0, 4));
    lemma_hex_text_is_injective(bytes.subrange(4, 6), other.subrange(4, 6));
    lemma_hex_text_is_injective(bytes.subrange(6, 8), other.subrange(6, 8));
    lemma_hex_text_is_injective(bytes.subrange(8, 10), other.subrange(8, 10));
    lemma_hex_text_is_injective(bytes.subrange(10, 16), other.subrange(10, 16));
    assert forall|i: int| 0 <= i < 16 implies bytes[i] == other[i] by {
        if i < 4 {
            assert(bytes.subrange(0, 4)[i] == other.subrange(0, 4)[i]);
        } else if i < 6 {
            assert(bytes.subrange(4, 6)[i - 4] == other.subrange(4, 6)[i - 4]);
        } else if i < 8 {
            assert(bytes.subrange(6, 8)[i - 6] == other.subrange(6, 8)[i - 6]);
        } else if i < 10 {
            assert(bytes.subrange(8, 10)[i - 8] == other.subrange(8, 10)[i - 8]);
        } else {
            assert(bytes.subrange(10, 16)[i - 10] == other.subrange(10, 16)[i - 10]);
        }
    }
    assert(bytes =~= other);
}

/// A generated event id keeps every random bit it was given: two sets of 16 random bytes that
/// give the same id agree in every bit but the four version bits of byte 6 and the two variant
/// bits of byte 8, which the id fixes.
pub proof fn lemma_v4_uuid_text_keeps_random_bits(random: Seq<u8>, other: Seq<u8>)
    requires
        random.len() == 16,
        other.len() == 16,
        v4_uuid_text(random) == v4_uuid_text(other),
    ensures
        forall|i: int| 0 <= i < 16 && i != 6 && i != 8 ==> random[i] == other[i],
        random[6] & 0x0f == other[6] & 0x0f,
        random[8] & 0x3f == other[8] & 0x3f,
{
    lemma_hyphenated_text_is_injective(v4_bytes(random), v4_bytes(other));
    assert forall|i: int| 0 <= i < 16 && i != 6 && i != 8 implies random[i] == other[i] by {
        assert(v4_bytes(random)[i] == v4_bytes(other)[i]);
    }
    let x = random[6];
    let y = other[6];
    assert(v4_bytes(random)[6] == v4_bytes(other)[6]);
    assert(x & 0x0f == y & 0x0f) by (bit_vector)
        requires
            (x & 0x0f) | 0x40 == (y & 0x0f) | 0x40,
    ;
    let p = random[8];
    let q = other[8];
    assert(v4_bytes(random)[8] == v4_bytes(other)[8]);
    assert(p & 0x3f == q & 0x3f) by (bit_vector)
        requires
            (p & 0x3f) | 0x80 == (q & 0x3f) | 0x80,
    ;
}

/// Calls `uuid::Builder::from_random_bytes`, takes the `Uuid` out of the builder and formats it
/// with its `Display` impl. The builder keeps the bytes, sets the version bits to 4 and the
/// variant bits to RFC 4122 (`with_version`, `with_variant`), and `Display` writes the
/// lower-case hyphenated form (`format_hyphenated`); none of these can panic. The contract
/// states that text.
#[verifier::external_body]
fn uuid_text_from_random_bytes(random: [u8; 16]) -> (text: String)
    ensures
        text@ == v4_uuid_text(random@),
{
    uuid::Builder::from_random_bytes(random).into_uuid().to_string()
}

/// The event id to publish under: the one the request carries, or else the random UUID built
/// from `random`, 16 bytes drawn from a random source.
pub fn resolve_event_id(given: Option<String>, random: [u8; 16]) -> (id: String)
    ensures
        given matches Some(g) ==> id == g,
        given is None ==> id@ == v4_uuid_text(random@) && is_v4_uuid_text(id@),
{
    match given {
        Some(id) => id,
        None => {
            proof {
                lemma_v4_uuid_text_layout(random@);
            }
            uuid_text_from_random_bytes(random)
        },
    }
}

impl EventRequest {
    /// Settles the event id of the request and returns it: a submitted id is kept, a missing
    /// one is built from the random bytes, and the request then always carries the id it is
    /// published under.
    pub fn assign_event_id(&mut self, random: [u8; 16]) -> (event_id: String)
        ensures
            old(self).event_id matches Some(given) ==> event_id == given,
            old(self).event_id is None ==> event_id@ == v4_uuid_text(random@) && is_v4_uuid_text(
                event_id@,
            ),
            final(self).event_id == Some(event_id),
            final(self).partner_id == old(self).partner_id,
            final(self).payload == old(self).payload,
    {
        let event_id = resolve_event_id(self.event_id.clone(), random);
        self.event_id = Some(event_id.clone());
        event_id
    }
}

} // verus!
