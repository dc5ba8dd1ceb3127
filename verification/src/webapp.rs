//! The container value itself: construction, serialization, parsing, and
//! entry extraction.

use vstd::prelude::*;
use vstd::slice::{slice_subrange, slice_to_vec};

use crate::archive::{
    archive_entries, entry_views, first_match, lemma_first_match_skip, tar_list, xz_compress,
    xz_decode_of, xz_decompress, xz_encode_of,
};
use crate::endian::{push_u64_be, read_u64_be};
use crate::envelope::{pack_spec, parse_spec, MAX_METADATA_SIZE, MAX_WEB_SIZE};

verus! {

/// Failures of container operations, one variant per kind: format failures
/// on untrusted input, local storage failures, and a missing archive entry.
#[derive(Debug, PartialEq)]
pub enum WebContractError {
    /// A malformed envelope or archive: a truncated field, a declared length
    /// over its cap, or bytes that do not decode as a compressed archive.
    UnpackingError(String),
    /// A local filesystem failure while materializing entries.
    StoringError(String),
    /// No archive entry carries the requested path, which this holds.
    FileNotFound(String),
}

/// A contract web application: opaque metadata bytes plus an xz-compressed
/// tar archive of the application's static assets. The archive is held in
/// compressed form; every read decompresses afresh, so reads repeat freely.
#[derive(Debug)]
#[non_exhaustive]
pub struct WebApp {
    pub metadata: Vec<u8>,
    pub web: Vec<u8>,
}

impl WebApp {
    /// Builds a container from metadata and raw, finalized archive bytes,
    /// compressing the archive at a fixed moderate level. No length cap
    /// applies on this trusted construction path, and it always succeeds:
    /// in-memory compression has no recoverable failure.
    pub fn from_data(metadata: Vec<u8>, web: Vec<u8>) -> (r: Result<WebApp, WebContractError>)
        ensures
            r is Ok,
            r->Ok_0.metadata@ == metadata@,
            r->Ok_0.web@ == xz_encode_of(web@),
            xz_decode_of(r->Ok_0.web@) == Some(web@),
    {
        let compressed = xz_compress(web.as_slice());
        Ok(WebApp { metadata, web: compressed })
    }

    /// Builds a container from metadata and already-compressed archive
    /// bytes, storing both verbatim. Always succeeds.
    pub fn from_compressed(metadata: Vec<u8>, compressed_web: Vec<u8>) -> (r: Result<
        WebApp,
        WebContractError,
    >)
        ensures
            r is Ok,
            r->Ok_0.metadata@ == metadata@,
            r->Ok_0.web@ == compressed_web@,
    {
        Ok(WebApp { metadata, web: compressed_web })
    }

    /// Serializes the container, consuming it, into the flat envelope
    /// `[u64 metadata_len][metadata][u64 web_len][web]`, lengths big-endian.
    pub fn pack(self) -> (r: Vec<u8>)
        ensures
            r@ == pack_spec(self.metadata@, self.web@),
    {
        let mut this = self;
        let mut out: Vec<u8> = Vec::new();
        push_u64_be(&mut out, this.metadata.len() as u64);
        out.append(&mut this.metadata);
        push_u64_be(&mut out, this.web.len() as u64);
        out.append(&mut this.web);
        proof {
            assert(out@ =~= pack_spec(self.metadata@, self.web@));
        }
        out
    }

    /// Parses an untrusted byte buffer into a container. The declared
    /// lengths are read in strict order and each cap is checked before the
    /// field of that length is materialized; equalling a cap is accepted,
    /// exceeding it is rejected. Bytes after the web field are ignored.
    pub fn try_from(state: &[u8]) -> (r: Result<WebApp, WebContractError>)
        ensures
            match r {
                Ok(app) => parse_spec(state@) == Some((app.metadata@, app.web@)),
                Err(e) => parse_spec(state@) is None && e is UnpackingError,
            },
    {
        let n = state.len();
        if n < 8 {
            return Err(
                WebContractError::UnpackingError(
                    "envelope truncated before the metadata length".to_owned(),
                ),
            );
        }
        let metadata_size = read_u64_be(state, 0);
        if metadata_size > MAX_METADATA_SIZE {
            return Err(
                WebContractError::UnpackingError(
                    "declared metadata length above the 1 kB cap".to_owned(),
                ),
            );
        }
        let m = metadata_size as usize;
        if n - 8 < m {
            return Err(
                WebContractError::UnpackingError(
                    "envelope truncated inside the metadata field".to_owned(),
                ),
            );
        }
        let metadata = slice_to_vec(slice_subrange(state, 8, 8 + m));
        if n - 8 - m < 8 {
            return Err(
                WebContractError::UnpackingError(
                    "envelope truncated before the web length".to_owned(),
                ),
            );
        }
        let web_size = read_u64_be(state, 8 + m);
        if web_size > MAX_WEB_SIZE {
            return Err(
                WebContractError::UnpackingError(
                    "declared web length above the 100 MiB cap".to_owned(),
                ),
            );
        }
        let w = web_size as usize;
        if n - 16 - m < w {
            return Err(
                WebContractError::UnpackingError(
                    "envelope truncated inside the web field".to_owned(),
                ),
            );
        }
        let web = slice_to_vec(slice_subrange(state, 16 + m, 16 + m + w));
        Ok(WebApp { metadata, web })
    }

    /// Lists every entry of the stored archive, each as its path and full
    /// contents in archive order, decompressing afresh from the stored
    /// bytes. Fails exactly when those bytes are not a valid compressed
    /// archive.
    fn list_entries(&self) -> (r: Result<Vec<(String, Vec<u8>)>, WebContractError>)
        ensures
            match r {
                Ok(v) => archive_entries(self.web@) == Some(entry_views(v@)),
                Err(e) => archive_entries(self.web@) is None && e is UnpackingError,
            },
    {
        let tar_bytes = match xz_decompress(self.web.as_slice()) {
            Some(t) => t,
            None => {
                return Err(
                    WebContractError::UnpackingError(
                        "the stored web bytes are not a valid xz stream".to_owned(),
                    ),
                );
            },
        };
        match tar_list(tar_bytes.as_slice()) {
            Some(v) => Ok(v),
            None => Err(
                WebContractError::UnpackingError(
                    "the decompressed web bytes are not a readable tar archive".to_owned(),
                ),
            ),
        }
    }

    /// The compute half of materializing the application: every archive
    /// entry, path and contents, in archive order. A host writes them out;
    /// the stored fields stay unchanged, so extraction repeats freely.
    pub fn unpack_entries(&mut self) -> (r: Result<Vec<(String, Vec<u8>)>, WebContractError>)
        ensures
            final(self).metadata@ == old(self).metadata@,
            final(self).web@ == old(self).web@,
            match r {
                Ok(v) => archive_entries(old(self).web@) == Some(entry_views(v@)),
                Err(e) => archive_entries(old(self).web@) is None && e is UnpackingError,
            },
    {
        self.list_entries()
    }

    /// Extracts the contents of the first archive entry whose path equals
    /// `path`, scanning in archive order from a fresh decompression of the
    /// stored bytes. A missing path is reported as `FileNotFound` holding
    /// that path; an unreadable archive as `UnpackingError`. The stored
    /// fields stay unchanged, so calls repeat freely.
    pub fn get_file(&mut self, path: &str) -> (r: Result<Vec<u8>, WebContractError>)
        ensures
            final(self).metadata@ == old(self).metadata@,
            final(self).web@ == old(self).web@,
            match r {
                Ok(bytes) => {
                    &&& archive_entries(old(self).web@) is Some
                    &&& first_match(archive_entries(old(self).web@).unwrap(), path@) == Some(
                        bytes@,
                    )
                },
                Err(e) => match e {
                    WebContractError::FileNotFound(p) => {
                        &&& p@ == path@
                        &&& archive_entries(old(self).web@) is Some
                        &&& first_match(archive_entries(old(self).web@).unwrap(), path@) is None
                    },
                    WebContractError::UnpackingError(_) => archive_entries(
                        old(self).web@,
                    ) is None,
                    WebContractError::StoringError(_) => false,
                },
            },
    {
        let mut entries = match self.list_entries() {
            Ok(v) => v,
            Err(e) => {
                return Err(e);
            },
        };
        let ghost ents = entry_views(entries@);
        let want: String = path.to_owned();
        let mut i: usize = 0;
        while i < entries.len()
            invariant
                i <= entries.len(),
                ents == entry_views(entries@),
                archive_entries(old(self).web@) == Some(ents),
                self.metadata@ == old(self).metadata@,
                self.web@ == old(self).web@,
                want@ == path@,
                forall|j: int| 0 <= j < i ==> ents[j].0 != path@,
            decreases entries.len() - i,
        {
            proof {
                assert(ents[i as int] == (entries@[i as int].0@, entries@[i as int].1@));
            }
            if entries[i].0 == want {
                proof {
                    lemma_first_match_skip(ents, path@, i as int);
                    assert(ents.skip(i as int).len() > 0);
                    assert(ents.skip(i as int)[0] == ents[i as int]);
                    assert(ents[i as int].0 == path@);
                    assert(first_match(ents.skip(i as int), path@) == Some(ents[i as int].1));
                }
                let ghost pre = entries@;
                let entry = entries.remove(i);
                proof {
                    assert(entry == pre[i as int]);
                    assert(entry.1@ == ents[i as int].1);
                }
                return Ok(entry.1);
            }
            i = i + 1;
        }
        proof {
            lemma_first_match_skip(ents, path@, ents.len() as int);
            assert(ents.skip(ents.len() as int).len() == 0);
        }
        Err(WebContractError::FileNotFound(want))
    }
}

} // verus!
