//! The flat binary envelope: `[u64 metadata_len][metadata][u64 web_len][web]`,
//! both lengths big-endian, with strict caps on untrusted input.

use vstd::prelude::*;

use crate::endian::{lemma_u64_be_round_trip, u64_from_be, u64_to_be};

verus! {

/// Largest metadata length a parsed envelope may declare, in bytes.
pub const MAX_METADATA_SIZE: u64 = 1024;

/// Largest compressed-web length a parsed envelope may declare, in bytes.
pub const MAX_WEB_SIZE: u64 = 1024 * 1024 * 100;

/// The serialized form of an envelope holding `meta` and `web`.
pub open spec fn pack_spec(meta: Seq<u8>, web: Seq<u8>) -> Seq<u8>
    recommends
        meta.len() <= u64::MAX,
        web.len() <= u64::MAX,
{
    u64_to_be(meta.len() as u64) + meta + u64_to_be(web.len() as u64) + web
}

/// What parsing a byte buffer yields: the metadata and web fields, or
/// nothing when the buffer is truncated or a declared length is over its cap.
/// Bytes after the web field are ignored.
pub open spec fn parse_spec(s: Seq<u8>) -> Option<(Seq<u8>, Seq<u8>)> {
    if s.len() < 8 {
        None
    } else {
        let m = u64_from_be(s.subrange(0, 8)) as int;
        if m > MAX_METADATA_SIZE {
            None
        } else if s.len() < 8 + m {
            None
        } else if s.len() < 16 + m {
            None
        } else {
            let w = u64_from_be(s.subrange(8 + m, 16 + m)) as int;
            if w > MAX_WEB_SIZE {
                None
            } else if s.len() < 16 + m + w {
                None
            } else {
                Some((s.subrange(8, 8 + m), s.subrange(16 + m, 16 + m + w)))
            }
        }
    }
}

/// Round trip: serializing an envelope and parsing the result gives back
/// both fields unchanged, for any metadata within the 1024-byte cap and any
/// compressed web content within the 100 MiB cap.
pub proof fn lemma_pack_parse_round_trip(meta: Seq<u8>, web: Seq<u8>)
    ensures
        meta.len() <= MAX_METADATA_SIZE && web.len() <= MAX_WEB_SIZE ==> parse_spec(
            pack_spec(meta, web),
        ) == Some((meta, web)),
{
    if meta.len() <= MAX_METADATA_SIZE && web.len() <= MAX_WEB_SIZE {
        let s = pack_spec(meta, web);
        let m = meta.len() as int;
        let w = web.len() as int;
        lemma_u64_be_round_trip(meta.len() as u64);
        lemma_u64_be_round_trip(web.len() as u64);
        assert(s.subrange(0, 8) =~= u64_to_be(meta.len() as u64));
        assert(s.subrange(8 + m, 16 + m) =~= u64_to_be(web.len() as u64));
        assert(s.subrange(8, 8 + m) =~= meta);
        assert(s.subrange(16 + m, 16 + m + w) =~= web);
    }
}

/// Cap enforcement, metadata side: a buffer whose declared metadata length
/// exceeds the 1024-byte cap never parses.
pub proof fn lemma_metadata_cap_rejected(s: Seq<u8>)
    requires
        s.len() >= 8,
        u64_from_be(s.subrange(0, 8)) > MAX_METADATA_SIZE,
    ensures
        parse_spec(s) is None,
{
}

/// Cap enforcement, web side: a buffer whose declared web length exceeds the
/// 100 MiB cap never parses, whatever follows it.
pub proof fn lemma_web_cap_rejected(s: Seq<u8>)
    requires
        s.len() >= 16 + u64_from_be(s.subrange(0, 8)),
        u64_from_be(s.subrange(0, 8)) <= MAX_METADATA_SIZE,
        ({
            let m = u64_from_be(s.subrange(0, 8)) as int;
            u64_from_be(s.subrange(8 + m, 16 + m)) > MAX_WEB_SIZE
        }),
    ensures
        parse_spec(s) is None,
{
}

/// Truncation safety: a buffer shorter than its own declared field lengths,
/// at any of the four fields, never parses.
pub proof fn lemma_truncated_rejected(s: Seq<u8>)
    requires
        s.len() < 8 || s.len() < 8 + u64_from_be(s.subrange(0, 8)) || s.len() < 16 + u64_from_be(
            s.subrange(0, 8),
        ) || (s.len() >= 16 + u64_from_be(s.subrange(0, 8)) && ({
            let m = u64_from_be(s.subrange(0, 8)) as int;
            s.len() < 16 + m + u64_from_be(s.subrange(8 + m, 16 + m))
        })),
    ensures
        parse_spec(s) is None,
{
}

} // verus!
