//! The file uploader record: bookkeeping for a chunked blob upload. The
//! HTTP transfer itself is transport work and stays with the caller.

use vstd::prelude::*;

use crate::client::NavAbilityClient;
use crate::ids::Uuid;

verus! {

/// Bookkeeping for uploading one file's bytes as a blob: the connection
/// record, the file object (any type the caller reads from), the blob
/// identifier, and the chunking progress.
#[derive(Debug)]
pub struct FileUploader<T> {
    pub nvacl: NavAbilityClient,
    pub file: T,
    pub blob_id: Uuid,
    pub chunk_size: u64,
    pub nbytes_uploaded: u64,
}

impl<T> FileUploader<T> {
    /// Set up an upload. A chunk size must be given; the label is carried
    /// by the blob entry created elsewhere and is not part of the upload
    /// bookkeeping.
    pub fn new(nvacl: NavAbilityClient, file: T, label: String, blob_id: Uuid, chunk_size: Option<
        u64,
    >) -> (r: FileUploader<T>)
        requires
            chunk_size is Some,
        ensures
            r.nvacl == nvacl,
            r.file == file,
            r.blob_id == blob_id,
            Some(r.chunk_size) == chunk_size,
            r.nbytes_uploaded == 0,
    {
        let _ = label;
        let cs = match chunk_size {
            Some(c) => c,
            None => 0,
        };
        FileUploader { nvacl, file, blob_id, chunk_size: cs, nbytes_uploaded: 0 }
    }
}

} // verus!
