//! gRPC helpers: raw-byte framing and server reflection.
use crate::text::is_prefix;
use vstd::prelude::*;

pub mod reflection;

verus! {

/// Whether a connection to this address uses TLS: the address starts with `https://`.
pub fn uses_tls(addr: &str) -> (r: bool)
    ensures
        r == is_prefix("https://"@, addr@),
{
    crate::text::starts_with(addr, "https://")
}

/// The buffer after raw encoding of an item: the item's bytes after what it held.
pub open spec fn raw_encoded(buf: Seq<u8>, item: Seq<u8>) -> Seq<u8> {
    buf + item
}

/// What raw decoding takes from the remaining bytes: all of them, or nothing when
/// none remain.
pub open spec fn raw_decoded(remaining: Seq<u8>) -> Option<Seq<u8>> {
    if remaining.len() == 0 {
        None
    } else {
        Some(remaining)
    }
}

/// A codec that passes raw bytes through without protobuf encoding.
#[derive(Debug, Clone, Copy)]
pub struct RawBytesCodec;

impl Default for RawBytesCodec {
    fn default() -> (r: Self)
        ensures
            r == RawBytesCodec,
    {
        RawBytesCodec
    }
}

impl RawBytesCodec {
    /// Writes the item's bytes as they are after what the buffer holds.
    pub fn encode(&mut self, item: Vec<u8>, buf: &mut Vec<u8>)
        ensures
            final(buf)@ == raw_encoded(old(buf)@, item@),
    {
        let mut i: usize = 0;
        while i < item.len()
            invariant
                i <= item.len(),
                buf@ == old(buf)@ + item@.take(i as int),
            decreases item.len() - i,
        {
            buf.push(item[i]);
            assert(item@.take(i + 1) == item@.take(i as int).push(item@[i as int]));
            assert(buf@ =~= old(buf)@ + item@.take(i + 1));
            i += 1;
        }
        assert(item@.take(item@.len() as int) == item@);
    }

    /// Takes all remaining bytes as one item; no item when nothing remains.
    pub fn decode(&mut self, remaining: &[u8]) -> (r: Option<Vec<u8>>)
        ensures
            match r {
                Some(v) => raw_decoded(remaining@) == Some(v@),
                None => raw_decoded(remaining@) is None,
            },
    {
        if remaining.len() == 0 {
            return None;
        }
        let mut out: Vec<u8> = Vec::new();
        let mut i: usize = 0;
        while i < remaining.len()
            invariant
                i <= remaining.len(),
                out@ == remaining@.take(i as int),
            decreases remaining.len() - i,
        {
            out.push(remaining[i]);
            assert(remaining@.take(i + 1) == remaining@.take(i as int).push(remaining@[i as int]));
            i += 1;
        }
        assert(remaining@.take(remaining@.len() as int) == remaining@);
        Some(out)
    }

    /// The encoder: this same raw codec.
    pub fn encoder(&mut self) -> (r: RawBytesCodec)
        ensures
            r == RawBytesCodec,
    {
        RawBytesCodec
    }

    /// The decoder: this same raw codec.
    pub fn decoder(&mut self) -> (r: RawBytesCodec)
        ensures
            r == RawBytesCodec,
    {
        RawBytesCodec
    }
}


/// Decoding what was encoded into an empty buffer gives back the item; an empty
/// item decodes to nothing.
pub proof fn law_raw_codec_round_trip(item: Seq<u8>)
    ensures
        raw_decoded(raw_encoded(Seq::empty(), item)) == if item.len() == 0 {
            None
        } else {
            Some(item)
        },
{
    assert(raw_encoded(Seq::empty(), item) =~= item);
}

} // verus!
