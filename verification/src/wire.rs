//! What goes over the serial line while an image is pushed: the size header,
//! the acknowledgement, and the chunks of the payload.

use vstd::prelude::*;

verus! {

/// The largest number of payload bytes handed to the device in one write.
pub const CHUNK_SIZE: usize = 512;

/// The number of bytes of the size header.
pub const HEADER_SIZE: usize = 4;

/// The number of bytes of an acknowledgement.
pub const ACK_SIZE: usize = 2;

/// The four bytes of `value`, least significant first.
pub open spec fn le_bytes(value: u32) -> Seq<u8> {
    seq![
        (value % 0x100) as u8,
        ((value / 0x100) % 0x100) as u8,
        ((value / 0x1_0000) % 0x100) as u8,
        (value / 0x100_0000) as u8,
    ]
}

/// The number whose least significant byte is `bytes[0]`, and so on upwards.
pub open spec fn le_value(bytes: Seq<u8>) -> nat
    recommends
        bytes.len() == 4,
{
    (bytes[0] + 0x100 * bytes[1] + 0x1_0000 * bytes[2] + 0x100_0000 * bytes[3]) as nat
}

/// The longest image that can be pushed: the size header holds the length
/// in 32 bits.
pub const MAX_IMAGE_SIZE: usize = 0xFFFF_FFFF;

/// The size header for an image of `len` bytes: the length in four bytes,
/// least significant first. Only a length of at most `MAX_IMAGE_SIZE` has a
/// header.
pub open spec fn header_of(len: nat) -> Seq<u8>
    recommends
        len <= u32::MAX,
{
    le_bytes(len as u32)
}

/// The two bytes with which the device accepts the size header: ASCII `OK`.
pub open spec fn ack() -> Seq<u8> {
    seq![0x4Fu8, 0x4Bu8]
}

/// How many chunks an image of `len` bytes is sent in.
pub open spec fn chunk_count(len: nat) -> nat {
    ((len + 511) / 512) as nat
}

/// At most `CHUNK_SIZE` bytes of `image`, starting at `offset`: the next 512
/// bytes, or what is left of the image, which is nothing from its end on.
pub open spec fn chunk_from(image: Seq<u8>, offset: nat) -> Seq<u8> {
    if offset >= image.len() {
        Seq::empty()
    } else if offset + 512 <= image.len() {
        image.subrange(offset as int, (offset + 512) as int)
    } else {
        image.subrange(offset as int, image.len() as int)
    }
}

/// The chunk with the given index, counted from 0.
pub open spec fn chunk(image: Seq<u8>, index: nat) -> Seq<u8>
    recommends
        index < chunk_count(image.len()),
{
    chunk_from(image, index * 512)
}

/// The first `count` chunks of `image`, in order.
pub open spec fn chunks(image: Seq<u8>, count: nat) -> Seq<Seq<u8>> {
    Seq::new(count, |i: int| chunk(image, i as nat))
}

/// The chunks in `parts`, one after the other.
pub open spec fn joined(parts: Seq<Seq<u8>>) -> Seq<u8>
    decreases parts.len(),
{
    if parts.len() == 0 {
        Seq::empty()
    } else {
        joined(parts.drop_last()) + parts.last()
    }
}

/// The size header for an image of `len` bytes: four bytes, little-endian,
/// from which the length is read back. A longer image than the header can
/// state has none.
pub fn size_header(len: usize) -> (header: Vec<u8>)
    requires
        len <= MAX_IMAGE_SIZE,
    ensures
        header@ == header_of(len as nat),
        header@.len() == HEADER_SIZE,
        le_value(header@) == len,
{
    let value: u32 = len as u32;
    let mut header: Vec<u8> = Vec::new();
    header.push((value % 0x100) as u8);
    header.push(((value / 0x100) % 0x100) as u8);
    header.push(((value / 0x1_0000) % 0x100) as u8);
    header.push((value / 0x100_0000) as u8);
    assert(header@ =~= header_of(len as nat));
    proof {
        lemma_header_round_trip(len as nat);
    }
    header
}

/// Whether an image of `len` bytes is short enough for its length to be
/// stated in the size header.
pub fn fits_header(len: usize) -> (yes: bool)
    ensures
        yes == (len <= u32::MAX),
{
    len <= MAX_IMAGE_SIZE
}

/// Whether `response` is the acknowledgement, byte for byte.
pub fn is_ack(response: &[u8]) -> (yes: bool)
    ensures
        yes == (response@ == ack()),
        yes == (response@.len() == 2 && response@[0] == 0x4F && response@[1] == 0x4B),
{
    if response.len() != 2 {
        return false;
    }
    let yes = response[0] == 0x4F && response[1] == 0x4B;
    assert(yes ==> response@ =~= ack());
    yes
}

/// How many writes the payload of an image of `len` bytes takes.
pub fn chunks_needed(len: usize) -> (count: usize)
    ensures
        count == chunk_count(len as nat),
{
    if len % 512 == 0 {
        len / 512
    } else {
        len / 512 + 1
    }
}

/// The chunk that starts at `offset`: the next `CHUNK_SIZE` bytes of `image`,
/// or what is left of it.
pub fn next_chunk(image: &[u8], offset: usize) -> (piece: Vec<u8>)
    ensures
        piece@ == chunk_from(image@, offset as nat),
        piece@.len() <= CHUNK_SIZE,
        offset < image@.len() <==> piece@.len() > 0,
{
    let len = image.len();
    let mut piece: Vec<u8> = Vec::new();
    if offset >= len {
        return piece;
    }
    let end: usize = if len - offset >= 512 {
        offset + 512
    } else {
        len
    };
    let mut i: usize = offset;
    assert(piece@ =~= image@.subrange(offset as int, i as int));
    while i < end
        invariant
            offset <= i <= end <= image@.len(),
            piece@ == image@.subrange(offset as int, i as int),
        decreases end - i,
    {
        piece.push(image[i]);
        assert(piece@ =~= image@.subrange(offset as int, i + 1));
        i += 1;
    }
    piece
}

/// The header holds the length: four bytes from which it is read back.
pub proof fn lemma_header_round_trip(len: nat)
    requires
        len <= u32::MAX,
    ensures
        header_of(len).len() == 4,
        le_value(header_of(len)) == len,
{
    let v: u32 = len as u32;
    let b = le_bytes(v);
    assert(b[0] == (v % 0x100) as u8);
    assert(b[1] == ((v / 0x100) % 0x100) as u8);
    assert(b[2] == ((v / 0x1_0000) % 0x100) as u8);
    assert(b[3] == (v / 0x100_0000) as u8);
}

/// Two lengths with the same header are the same length.
pub proof fn lemma_header_is_injective(a: nat, b: nat)
    requires
        a <= u32::MAX,
        b <= u32::MAX,
        header_of(a) == header_of(b),
    ensures
        a == b,
{
    lemma_header_round_trip(a);
    lemma_header_round_trip(b);
}

/// The acknowledgement is the text `OK` in ASCII.
pub proof fn lemma_ack_is_ok()
    ensures
        ack().len() == 2,
        ack() == "OK"@.map_values(|c: char| c as u8),
{
    reveal_strlit("OK");
    assert(ack() =~= "OK"@.map_values(|c: char| c as u8));
}

/// Every chunk but the last is full, and the last holds what is left: the
/// length modulo `CHUNK_SIZE`, or a full chunk where that is 0.
pub proof fn lemma_chunk_lengths(image: Seq<u8>, index: nat)
    requires
        index < chunk_count(image.len()),
    ensures
        index + 1 < chunk_count(image.len()) ==> chunk(image, index).len() == 512,
        index + 1 == chunk_count(image.len()) ==> chunk(image, index).len() == if image.len() % 512
            == 0 {
            512
        } else {
            image.len() % 512
        },
        0 < chunk(image, index).len() <= 512,
        chunk(image, index) == image.subrange(
            (index * 512) as int,
            (index * 512 + chunk(image, index).len()) as int,
        ),
{
}

/// An image of `len` bytes goes out in `len / 512` chunks, rounded up.
pub proof fn lemma_chunk_count(len: nat)
    ensures
        chunk_count(len) * 512 >= len,
        len > 0 ==> (chunk_count(len) - 1) * 512 < len,
        len == 0 <==> chunk_count(len) == 0,
        len % 512 == 0 ==> chunk_count(len) == len / 512,
        len % 512 != 0 ==> chunk_count(len) == len / 512 + 1,
{
}

/// The first `count` chunks, joined, are the first `count * 512` bytes of the image.
pub proof fn lemma_chunks_join_to_prefix(image: Seq<u8>, count: nat)
    requires
        count <= chunk_count(image.len()),
    ensures
        joined(chunks(image, count)) == if count * 512 <= image.len() {
            image.take((count * 512) as int)
        } else {
            image
        },
    decreases count,
{
    if count == 0 {
        assert(image.take(0) =~= Seq::<u8>::empty());
    } else {
        let before = (count - 1) as nat;
        lemma_chunks_join_to_prefix(image, before);
        assert(chunks(image, count).drop_last() =~= chunks(image, before));
        assert(chunks(image, count).last() == chunk(image, before));
        lemma_chunk_lengths(image, before);
        if count * 512 <= image.len() {
            assert(image.take((before * 512) as int) + chunk(image, before) =~= image.take((count * 512) as int));
        } else {
            assert(image.take((before * 512) as int) + chunk(image, before) =~= image);
        }
    }
}

/// All chunks of an image, joined in order, are the image.
pub proof fn lemma_chunks_rebuild_image(image: Seq<u8>)
    ensures
        joined(chunks(image, chunk_count(image.len()))) == image,
{
    let count = chunk_count(image.len());
    lemma_chunks_join_to_prefix(image, count);
    if count * 512 <= image.len() {
        assert(image.take((count * 512) as int) =~= image);
    }
}

} // verus!
