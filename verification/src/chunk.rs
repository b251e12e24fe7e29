//! Pieces of a byte stream, held as `bytes::Bytes`.
use bytes::Bytes;
use vstd::prelude::*;
use vstd::string::*;

verus! {

/// A reference-counted run of bytes, opaque: `bytes_content` names what it holds.
#[verifier::external_type_specification]
#[verifier::external_body]
pub struct ExBytes(bytes::Bytes);

/// The bytes that a `bytes::Bytes` holds.
pub uninterp spec fn bytes_content(chunk: bytes::Bytes) -> Seq<u8>;

/// The contents of a queue of chunks.
pub open spec fn chunk_contents(chunks: Seq<Bytes>) -> Seq<Seq<u8>> {
    chunks.map_values(|chunk: Bytes| bytes_content(chunk))
}

/// How many bytes a queue of chunks holds.
pub open spec fn total_len(chunks: Seq<Seq<u8>>) -> nat
    decreases chunks.len(),
{
    if chunks.len() == 0 {
        0
    } else {
        total_len(chunks.drop_last()) + chunks.last().len()
    }
}

/// The bytes of a queue of chunks, one after the other.
pub open spec fn joined(chunks: Seq<Seq<u8>>) -> Seq<u8>
    decreases chunks.len(),
{
    if chunks.len() == 0 {
        Seq::empty()
    } else {
        joined(chunks.drop_last()) + chunks.last()
    }
}

/// Taking the first chunk takes its length.
pub proof fn lemma_total_len_first(chunks: Seq<Seq<u8>>)
    requires
        chunks.len() > 0,
    ensures
        total_len(chunks) == chunks[0].len() + total_len(chunks.skip(1)),
    decreases chunks.len(),
{
    if chunks.len() == 1 {
        assert(chunks.drop_last() =~= Seq::<Seq<u8>>::empty());
        assert(chunks.skip(1) =~= Seq::<Seq<u8>>::empty());
        assert(total_len(chunks.drop_last()) == 0);
    } else {
        lemma_total_len_first(chunks.drop_last());
        assert(chunks.skip(1).drop_last() =~= chunks.drop_last().skip(1));
    }
}

/// The first chunk comes first among the bytes.
pub proof fn lemma_joined_first(chunks: Seq<Seq<u8>>)
    requires
        chunks.len() > 0,
    ensures
        joined(chunks) == chunks[0] + joined(chunks.skip(1)),
    decreases chunks.len(),
{
    if chunks.len() == 1 {
        assert(chunks.drop_last() =~= Seq::<Seq<u8>>::empty());
        assert(chunks.skip(1) =~= Seq::<Seq<u8>>::empty());
        assert(joined(chunks) =~= chunks[0] + joined(chunks.skip(1)));
    } else {
        lemma_joined_first(chunks.drop_last());
        assert(chunks.skip(1).drop_last() =~= chunks.drop_last().skip(1));
        assert(joined(chunks) =~= chunks[0] + joined(chunks.skip(1)));
    }
}

/// A queue is as long as its bytes.
pub proof fn lemma_joined_len(chunks: Seq<Seq<u8>>)
    ensures
        joined(chunks).len() == total_len(chunks),
    decreases chunks.len(),
{
    if chunks.len() > 0 {
        lemma_joined_len(chunks.drop_last());
    }
}

/// Calls `Bytes::from` for a `Vec<u8>`: the same bytes.
#[verifier::external_body]
pub(crate) fn bytes_from_vec(data: Vec<u8>) -> (r: Bytes)
    ensures
        bytes_content(r) == data@,
{
    Bytes::from(data)
}

/// Calls `Bytes::from` for a `String`: the bytes of its UTF-8 form.
#[verifier::external_body]
pub(crate) fn bytes_from_text(text: String) -> (r: Bytes)
    ensures
        bytes_content(r) == vstd::utf8::encode_utf8(text@),
{
    Bytes::from(text)
}

/// Calls `Bytes::len`: the number of bytes.
#[verifier::external_body]
pub(crate) fn bytes_len(chunk: &Bytes) -> (r: usize)
    ensures
        r == bytes_content(*chunk).len(),
{
    chunk.len()
}

/// Calls `Bytes::clone`: a handle on the same bytes.
#[verifier::external_body]
pub(crate) fn bytes_clone(chunk: &Bytes) -> (r: Bytes)
    ensures
        bytes_content(r) == bytes_content(*chunk),
{
    chunk.clone()
}

} // verus!
