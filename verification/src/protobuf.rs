//! The one kind of protobuf message that the station is sent: text fields, each with
//! a tag, a length and the UTF-8 form of the text.
use vstd::prelude::*;
use vstd::string::*;

verus! {

/// The key byte of a length-delimited field.
pub open spec fn key_byte(tag: u32) -> u8 {
    ((tag % 32) * 8 + 2) as u8
}

/// A length in base 128, least significant digit first, with the high bit set on all
/// digits but the last.
pub open spec fn varint(n: nat) -> Seq<u8>
    decreases n,
{
    if n < 128 {
        seq![n as u8]
    } else {
        seq![(n % 128 + 128) as u8] + varint(n / 128)
    }
}

/// One field on the wire.
pub open spec fn field_bytes(tag: u32, value: Seq<u8>) -> Seq<u8> {
    seq![key_byte(tag)] + varint(value.len()) + value
}

/// The fields of a message on the wire, one after the other.
pub open spec fn message_bytes(fields: Seq<(u32, Seq<u8>)>) -> Seq<u8>
    decreases fields.len(),
{
    if fields.len() == 0 {
        Seq::empty()
    } else {
        field_bytes(fields[0].0, fields[0].1) + message_bytes(fields.skip(1))
    }
}

/// The tags of the entries, with the UTF-8 form of their texts.
pub open spec fn utf8_fields(entries: Seq<(u32, &str)>) -> Seq<(u32, Seq<u8>)> {
    entries.map_values(|e: (u32, &str)| (e.0, vstd::utf8::encode_utf8(e.1@)))
}

/// Puts the entries into the protobuf wire format. A tag above 31 loses its high bits.
pub fn protobuf_dumps(entries: &[(u32, &str)]) -> (r: Vec<u8>)
    ensures
        r@ == message_bytes(utf8_fields(entries@)),
{
    let mut buf: Vec<u8> = Vec::new();
    let ghost fields = utf8_fields(entries@);
    let n = entries.len();
    let mut i: usize = 0;
    proof {
        assert(fields.skip(0) =~= fields);
        assert(buf@ + message_bytes(fields.skip(0)) =~= message_bytes(fields));
    }
    while i < n
        invariant
            n == entries@.len(),
            i <= n,
            fields == utf8_fields(entries@),
            buf@ + message_bytes(fields.skip(i as int)) == message_bytes(fields),
        decreases n - i,
    {
        let (tag, value) = entries[i];
        let encoded = value.as_bytes();
        let ghost before = buf@;
        proof {
            assert(fields[i as int] == (tag, encoded@));
            assert(((tag << 3) | 2) as u8 == ((tag % 32) * 8 + 2) as u8) by (bit_vector);
        }
        buf.push(#[verifier::truncate] (((tag << 3) | 2) as u8));
        let mut len: usize = encoded.len();
        while len > 127
            invariant
                buf@ + varint(len as nat) == before + seq![key_byte(tag)] + varint(
                    encoded@.len(),
                ),
            decreases len,
        {
            let ghost held = buf@;
            proof {
                assert((len as u8 & 0x7F) | 0x80 == (len % 128 + 128) as u8) by (bit_vector);
                assert(len >> 7 == len / 128) by (bit_vector);
                assert(varint(len as nat) == seq![(len % 128 + 128) as u8] + varint(
                    (len / 128) as nat,
                ));
            }
            buf.push((#[verifier::truncate] (len as u8) & 0x7F) | 0x80);
            len = len >> 7;
            proof {
                assert(buf@ + varint(len as nat) =~= held + (seq![buf@.last()] + varint(
                    len as nat,
                )));
            }
        }
        let ghost held = buf@;
        buf.push(len as u8);
        let ghost head = buf@;
        proof {
            assert(varint(len as nat) =~= seq![len as u8]);
            assert(head =~= held + varint(len as nat));
        }
        buf.extend_from_slice(encoded);
        proof {
            let field = field_bytes(tag, encoded@);
            assert(buf@ =~= head + encoded@);
            assert(buf@ =~= before + field);
            assert(fields.skip(i as int)[0] == fields[i as int]);
            assert(fields.skip(i as int).skip(1) =~= fields.skip(i + 1));
            assert(buf@ + message_bytes(fields.skip(i + 1)) =~= before + (field + message_bytes(
                fields.skip(i + 1),
            )));
        }
        i += 1;
    }
    proof {
        assert(fields.skip(n as int) =~= Seq::empty());
        assert(buf@ =~= buf@ + message_bytes(fields.skip(n as int)));
    }
    buf
}

/// Reads a base-128 number off the front: its value and how many bytes it took.
pub open spec fn read_varint(bytes: Seq<u8>) -> Option<(nat, nat)>
    decreases bytes.len(),
{
    if bytes.len() == 0 {
        None
    } else if bytes[0] < 128 {
        Some((bytes[0] as nat, 1))
    } else {
        match read_varint(bytes.skip(1)) {
            Some((high, used)) => Some(((bytes[0] - 128) as nat + 128 * high, used + 1)),
            None => None,
        }
    }
}

/// Reads a message of length-delimited fields, as a protobuf reader does.
pub open spec fn read_message(bytes: Seq<u8>) -> Option<Seq<(u32, Seq<u8>)>>
    decreases bytes.len(),
{
    if bytes.len() == 0 {
        Some(Seq::empty())
    } else if bytes[0] >= 128 || bytes[0] % 8 != 2 {
        None
    } else {
        match read_varint(bytes.skip(1)) {
            Some((len, used)) => if 1 + used + len <= bytes.len() {
                let value = bytes.subrange(1 + used as int, 1 + used as int + len as int);
                match read_message(bytes.skip(1 + used as int + len as int)) {
                    Some(rest) => Some(seq![((bytes[0] / 8) as u32, value)] + rest),
                    None => None,
                }
            } else {
                None
            },
            None => None,
        }
    }
}

/// A base-128 number reads back, whatever follows it.
pub proof fn lemma_varint_reads_back(n: nat, rest: Seq<u8>)
    ensures
        varint(n).len() > 0,
        read_varint(varint(n) + rest) == Some((n, varint(n).len())),
    decreases n,
{
    let bytes = varint(n) + rest;
    if n < 128 {
        assert(bytes[0] == n as u8);
    } else {
        lemma_varint_reads_back(n / 128, rest);
        assert(bytes[0] == (n % 128 + 128) as u8);
        assert(bytes.skip(1) =~= varint(n / 128) + rest);
    }
}

/// A message reads back as the fields it was made of, as long as every tag fits in one
/// key byte.
pub proof fn law_message_reads_back(fields: Seq<(u32, Seq<u8>)>)
    requires
        forall|i: int| 0 <= i < fields.len() ==> (#[trigger] fields[i]).0 < 16,
    ensures
        read_message(message_bytes(fields)) == Some(fields),
    decreases fields.len(),
{
    let bytes = message_bytes(fields);
    if fields.len() > 0 {
        let (tag, value) = fields[0];
        let rest = fields.skip(1);
        assert forall|i: int| 0 <= i < rest.len() implies (#[trigger] rest[i]).0 < 16 by {
            assert(rest[i] == fields[i + 1]);
        }
        law_message_reads_back(rest);
        let len_bytes = varint(value.len());
        let tail = value + message_bytes(rest);
        lemma_varint_reads_back(value.len(), tail);
        assert(bytes[0] == key_byte(tag));
        assert(bytes.skip(1) =~= len_bytes + tail);
        let start = 1 + len_bytes.len() as int;
        assert(bytes.subrange(start, start + value.len() as int) =~= value);
        assert(bytes.skip(start + value.len() as int) =~= message_bytes(rest));
        assert(seq![(tag, value)] + rest =~= fields);
    } else {
        assert(fields =~= Seq::empty());
    }
}

/// A key byte has the wire type of a length-delimited field, and the low five bits of the
/// tag.
pub proof fn law_key_byte(tag: u32)
    ensures
        key_byte(tag) % 8 == 2,
        key_byte(tag) / 8 == tag % 32,
{
}

/// A length is written in as few bytes as it takes: none of them but the last is final,
/// and the last is not zero unless the length is.
pub proof fn law_varint_is_shortest(n: nat)
    ensures
        varint(n).len() > 0,
        n > 0 ==> varint(n).last() > 0,
        varint(n).last() < 128,
        forall|i: int| 0 <= i < varint(n).len() - 1 ==> #[trigger] varint(n)[i] >= 128,
    decreases n,
{
    if n >= 128 {
        law_varint_is_shortest(n / 128);
        let s = varint(n);
        let rest = varint(n / 128);
        assert(s.last() == rest.last());
        assert forall|i: int| 0 <= i < s.len() - 1 implies #[trigger] s[i] >= 128 by {
            if i > 0 {
                assert(s[i] == rest[i - 1]);
            }
        }
    }
}

/// Entries read back as their tags and the UTF-8 form of their texts, in their order.
pub proof fn law_entries_read_back(entries: Seq<(u32, &str)>)
    requires
        forall|i: int| 0 <= i < entries.len() ==> (#[trigger] entries[i]).0 < 16,
    ensures
        ({
            let read = read_message(message_bytes(utf8_fields(entries)));
            &&& read matches Some(fields)
            &&& fields.len() == entries.len()
            &&& forall|i: int|
                0 <= i < entries.len() ==> #[trigger] fields[i] == (
                    entries[i].0,
                    vstd::utf8::encode_utf8(entries[i].1@),
                )
        }),
{
    let fields = utf8_fields(entries);
    assert forall|i: int| 0 <= i < fields.len() implies (#[trigger] fields[i]).0 < 16 by {
        assert(fields[i].0 == entries[i].0);
    }
    law_message_reads_back(fields);
}

/// On the wire a message is its fields in their order, and a field is its key byte, the
/// length of its value and the value. A length is given seven bits at a time, the lowest
/// first.
pub proof fn law_wire_format(tag: u32, value: Seq<u8>, rest: Seq<(u32, Seq<u8>)>, n: nat)
    ensures
        message_bytes(Seq::empty()).len() == 0,
        message_bytes(seq![(tag, value)] + rest) == seq![((tag % 32) * 8 + 2) as u8] + varint(
            value.len(),
        ) + value + message_bytes(rest),
        n < 128 ==> varint(n) == seq![n as u8],
        n >= 128 ==> varint(n)[0] == n % 128 + 128 && varint(n).skip(1) == varint(n / 128),
{
    let fields = seq![(tag, value)] + rest;
    assert(fields[0] == (tag, value));
    assert(fields.skip(1) =~= rest);
    if n >= 128 {
        assert(varint(n).skip(1) =~= varint(n / 128));
    }
}

} // verus!
