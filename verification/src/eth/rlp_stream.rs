//! The recursive length prefix encoding, written with the streams of the `rlp` crate.

use crate::eth::big_endian::be_trimmed;
use vstd::prelude::*;

verus! {

/// The stream that [`rlp::RlpStream`] is.
#[verifier::external_type_specification]
#[verifier::external_body]
pub struct ExRlpStream(rlp::RlpStream);

/// What a stream holds: first the bytes that are complete, then the payload so far of each list
/// that is open, the innermost last. There are no levels while a list is open that was begun with
/// the number of its items.
pub uninterp spec fn stream_levels(stream: rlp::RlpStream) -> Seq<Seq<u8>>;

/// The prefix of a payload of `len` bytes, where `base` marks what the payload is. The length of a
/// long payload is written in at most four bytes, so it is taken modulo 2 to the power 32.
pub open spec fn rlp_prefix(base: nat, len: nat) -> Seq<u8> {
    if len <= 55 {
        seq![(base + len) as u8]
    } else {
        let size = be_trimmed(len % 0x1_0000_0000);
        seq![(base + 55 + size.len()) as u8] + size
    }
}

/// The encoding of a byte string. A single byte below 0x80 stands for itself.
pub open spec fn rlp_string(data: Seq<u8>) -> Seq<u8> {
    if data.len() == 1 && data[0] < 0x80 {
        data
    } else {
        rlp_prefix(0x80, data.len()) + data
    }
}

/// The encoding of a list whose items are encoded, one after another, in `payload`.
pub open spec fn rlp_list(payload: Seq<u8>) -> Seq<u8> {
    rlp_prefix(0xc0, payload.len()) + payload
}

/// `levels` with `encoded` added to the innermost one.
pub open spec fn appended(levels: Seq<Seq<u8>>, encoded: Seq<u8>) -> Seq<Seq<u8>> {
    levels.update(levels.len() - 1, levels.last() + encoded)
}

/// Calls `rlp::RlpStream::new`: a stream that holds nothing, with no list open.
#[verifier::external_body]
pub(crate) fn stream_new() -> (r: rlp::RlpStream)
    ensures
        stream_levels(r) == seq![Seq::<u8>::empty()],
{
    rlp::RlpStream::new()
}

/// Calls `rlp::RlpStream::begin_unbounded_list`: opens a list.
#[verifier::external_body]
pub(crate) fn stream_begin_unbounded_list(stream: &mut rlp::RlpStream)
    requires
        stream_levels(*old(stream)).len() >= 1,
    ensures
        stream_levels(*final(stream)) == stream_levels(*old(stream)).push(Seq::empty()),
{
    stream.begin_unbounded_list();
}

/// Calls `rlp::RlpStream::append` on a byte vector: adds the encoding of the byte string to the
/// innermost open list, or to the complete bytes where no list is open.
#[verifier::external_body]
pub(crate) fn stream_append(stream: &mut rlp::RlpStream, data: &Vec<u8>)
    requires
        stream_levels(*old(stream)).len() >= 1,
    ensures
        stream_levels(*final(stream)) == appended(stream_levels(*old(stream)), rlp_string(data@)),
{
    stream.append(data);
}

/// Calls `rlp::RlpStream::finalize_unbounded_list`: closes the innermost open list, and adds its
/// encoding to what is around it. Without an open list it panics.
#[verifier::external_body]
pub(crate) fn stream_finalize_unbounded_list(stream: &mut rlp::RlpStream)
    requires
        stream_levels(*old(stream)).len() >= 2,
    ensures
        stream_levels(*final(stream)) == appended(
            stream_levels(*old(stream)).drop_last(),
            rlp_list(stream_levels(*old(stream)).last()),
        ),
{
    stream.finalize_unbounded_list();
}

/// Calls `rlp::RlpStream::out`: the bytes of the stream. With a list still open it panics.
#[verifier::external_body]
pub(crate) fn stream_out(stream: rlp::RlpStream) -> (r: Vec<u8>)
    requires
        stream_levels(stream).len() == 1,
    ensures
        r@ == stream_levels(stream)[0],
{
    stream.out().to_vec()
}

/// The encodings of `items`, one after another.
pub open spec fn rlp_payload(items: Seq<Seq<u8>>) -> Seq<u8>
    decreases items.len(),
{
    if items.len() == 0 {
        Seq::empty()
    } else {
        rlp_payload(items.drop_last()) + rlp_string(items.last())
    }
}

/// The encoding of the list of the byte strings `items`.
pub open spec fn rlp_list_of(items: Seq<Seq<u8>>) -> Seq<u8> {
    rlp_list(rlp_payload(items))
}

/// The byte strings that `items` hold.
pub open spec fn contents(items: Seq<Vec<u8>>) -> Seq<Seq<u8>> {
    items.map_values(|item: Vec<u8>| item@)
}

/// The encoding of the list of the byte strings `items`.
pub fn encode_list(items: &Vec<Vec<u8>>) -> (r: Vec<u8>)
    ensures
        r@ == rlp_list_of(contents(items@)),
{
    let mut stream = stream_new();
    stream_begin_unbounded_list(&mut stream);
    let mut i: usize = 0;
    assert(contents(items@).take(0) =~= Seq::empty());
    while i < items.len()
        invariant
            i <= items.len(),
            stream_levels(stream) =~= seq![
                Seq::<u8>::empty(),
                rlp_payload(contents(items@).take(i as int)),
            ],
        decreases items.len() - i,
    {
        stream_append(&mut stream, &items[i]);
        proof {
            let next = contents(items@).take(i + 1);
            assert(next.drop_last() =~= contents(items@).take(i as int));
        }
        i = i + 1;
    }
    assert(contents(items@).take(items.len() as int) =~= contents(items@));
    stream_finalize_unbounded_list(&mut stream);
    let bytes = stream_out(stream);
    assert(bytes@ =~= rlp_list_of(contents(items@)));
    bytes
}

} // verus!
