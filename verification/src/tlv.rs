//! The TLV walk used by the chip's file headers and security-environment
//! records: a flat sequence of {tag, length, value} triples with one tag
//! byte and one length byte each.

use vstd::prelude::*;

verus! {

/// The value bytes of the first triple carrying `tag`, walking the triples
/// from the front; `None` when no complete triple carries it.
pub open spec fn spec_tlv_find(b: Seq<u8>, tag: u8) -> Option<Seq<u8>>
    decreases b.len(),
{
    if b.len() < 2 {
        None
    } else if 2 + b[1] > b.len() {
        None
    } else if b[0] == tag {
        Some(b.subrange(2, 2 + b[1] as int))
    } else {
        spec_tlv_find(b.skip(2 + b[1] as int), tag)
    }
}

/// Finds the first triple carrying `tag` and returns the position and
/// length of its value bytes, exactly where `spec_tlv_find` looks.
pub fn tlv_find(b: &[u8], tag: u8) -> (r: Option<(usize, usize)>)
    ensures
        match r {
            Some((off, len)) => {
                &&& off + len <= b@.len()
                &&& 2 <= off
                &&& spec_tlv_find(b@, tag) == Some(b@.subrange(off as int, off + len))
            },
            None => spec_tlv_find(b@, tag) is None,
        },
{
    let mut pos: usize = 0;
    assert(b@.skip(0) =~= b@);
    loop
        invariant
            pos <= b@.len(),
            spec_tlv_find(b@, tag) == spec_tlv_find(b@.skip(pos as int), tag),
        decreases b@.len() - pos,
    {
        if b.len() - pos < 2 {
            return None;
        }
        let l: usize = b[pos + 1] as usize;
        if 2 + l > b.len() - pos {
            return None;
        }
        if b[pos] == tag {
            assert(b@.skip(pos as int).subrange(2, 2 + l as int) =~= b@.subrange(
                pos + 2,
                pos + 2 + l,
            ));
            return Some((pos + 2, l));
        }
        assert(b@.skip(pos as int).skip(2 + l as int) =~= b@.skip(pos + 2 + l));
        pos = pos + 2 + l;
    }
}

/// The list of complete {tag, value} triples from the front of `b`, up to
/// the first zero tag (record padding), an incomplete trailing triple, or
/// the end.
pub open spec fn spec_tlv_list(b: Seq<u8>) -> Seq<(u8, Seq<u8>)>
    decreases b.len(),
{
    if b.len() < 2 || b[0] == 0 {
        Seq::empty()
    } else if 2 + b[1] > b.len() {
        Seq::empty()
    } else {
        seq![(b[0], b.subrange(2, 2 + b[1] as int))] + spec_tlv_list(b.skip(2 + b[1] as int))
    }
}

} // verus!
