//! Access to the compressed web archive: xz decompression and tar entry
//! listing stand behind trusted wrappers; the scan logic over the listed
//! entries is verified.

use std::io::Read;
use tar::Archive;
use vstd::prelude::*;
use xz2::read::{XzDecoder, XzEncoder};

verus! {

/// What xz compression at level 6 produces for the given bytes.
pub uninterp spec fn xz_encode_of(raw: Seq<u8>) -> Seq<u8>;

/// What xz decompression yields for the given bytes: the decompressed bytes,
/// or nothing when they are not a well-formed xz stream.
pub uninterp spec fn xz_decode_of(compressed: Seq<u8>) -> Option<Seq<u8>>;

/// The named file entries of a tar byte sequence, each a path (as characters,
/// invalid bytes substituted) and its contents, in archive order; nothing
/// when the bytes are not a readable tar archive.
pub uninterp spec fn tar_entries_of(tar_bytes: Seq<u8>) -> Option<Seq<(Seq<char>, Seq<u8>)>>;

/// The entries of the compressed web payload: its xz decompression fed to
/// the tar reader; nothing when either step fails.
pub open spec fn archive_entries(web: Seq<u8>) -> Option<Seq<(Seq<char>, Seq<u8>)>> {
    match xz_decode_of(web) {
        Option::Some(tar_bytes) => tar_entries_of(tar_bytes),
        Option::None => Option::None,
    }
}

/// The view of a listed entry vector: each path and contents as sequences.
pub open spec fn entry_views(v: Seq<(String, Vec<u8>)>) -> Seq<(Seq<char>, Seq<u8>)> {
    v.map_values(|e: (String, Vec<u8>)| (e.0@, e.1@))
}

/// The contents of the first entry whose path is `path`, scanning in archive
/// order; nothing when no entry matches.
pub open spec fn first_match(ents: Seq<(Seq<char>, Seq<u8>)>, path: Seq<char>) -> Option<Seq<u8>>
    decreases ents.len(),
{
    if ents.len() == 0 {
        Option::None
    } else if ents[0].0 == path {
        Option::Some(ents[0].1)
    } else {
        first_match(ents.drop_first(), path)
    }
}

/// Scanning may skip a prefix in which no entry matches.
pub proof fn lemma_first_match_skip(ents: Seq<(Seq<char>, Seq<u8>)>, path: Seq<char>, i: int)
    requires
        0 <= i <= ents.len(),
        forall|j: int| 0 <= j < i ==> ents[j].0 != path,
    ensures
        first_match(ents, path) == first_match(ents.skip(i), path),
    decreases i,
{
    if i > 0 {
        lemma_first_match_skip(ents, path, i - 1);
        let rest = ents.skip(i - 1);
        assert(rest.len() == ents.len() - (i - 1));
        assert(rest[0] == ents[i - 1]);
        assert(ents[i - 1].0 != path);
        assert(rest.drop_first() =~= ents.skip(i));
        assert(first_match(rest, path) == first_match(rest.drop_first(), path));
    } else {
        assert(ents.skip(0) =~= ents);
    }
}

/// Relies on xz2::read::XzEncoder at compression level 6: the bytes it
/// produces are a function of the input bytes alone, and decoding them with
/// xz yields the input again. Reading the encoder over an in-memory slice
/// returns no error: the slice reader never fails, and the encoder treats an
/// lzma fault as a fatal programming error rather than an `Err`.
#[verifier::external_body]
pub(crate) fn xz_compress(raw: &[u8]) -> (r: Vec<u8>)
    ensures
        r@ == xz_encode_of(raw@),
        xz_decode_of(r@) == Option::Some(raw@),
{
    let mut encoder = XzEncoder::new(raw, 6);
    let mut out = Vec::new();
    encoder.read_to_end(&mut out).unwrap();
    out
}

/// Relies on xz2::read::XzDecoder: whether a byte sequence decodes as one xz
/// stream, and to what, is a function of that sequence alone.
#[verifier::external_body]
pub(crate) fn xz_decompress(compressed: &[u8]) -> (r: Option<Vec<u8>>)
    ensures
        match r {
            Option::Some(d) => xz_decode_of(compressed@) == Option::Some(d@),
            Option::None => xz_decode_of(compressed@) is None,
        },
{
    let mut decoder = XzDecoder::new(compressed);
    let mut out = Vec::new();
    match decoder.read_to_end(&mut out) {
        Ok(_) => Some(out),
        Err(_) => None,
    }
}

/// Relies on tar::Archive::entries, with Entry::path_bytes and read_to_end:
/// the listing of a tar byte sequence — each entry's path (invalid UTF-8
/// substituted) and contents, in archive order — is a function of the bytes
/// alone, and fails exactly on bytes that are not a readable archive.
#[verifier::external_body]
pub(crate) fn tar_list(tar_bytes: &[u8]) -> (r: Option<Vec<(String, Vec<u8>)>>)
    ensures
        match r {
            Option::Some(v) => tar_entries_of(tar_bytes@) == Option::Some(entry_views(v@)),
            Option::None => tar_entries_of(tar_bytes@) is None,
        },
{
    let mut archive = Archive::new(tar_bytes);
    let entries = match archive.entries() { Ok(e) => e, Err(_) => return None };
    let mut out = Vec::new();
    for entry in entries {
        let mut entry = match entry { Ok(e) => e, Err(_) => return None };
        let path = String::from_utf8_lossy(&entry.path_bytes()).into_owned();
        let mut bytes = Vec::new();
        if entry.read_to_end(&mut bytes).is_err() { return None }
        out.push((path, bytes));
    }
    Some(out)
}

} // verus!
