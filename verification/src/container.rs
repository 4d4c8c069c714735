//! The encrypted container for the security-sensitive upload path.
//!
//! A container is a compressed archive holding a single entry named
//! `content`, encrypted and authenticated with AES-256 under a
//! deployment-wide secret. The archive format's own authentication tag is
//! the sole corruption-detection mechanism; opening with the wrong secret
//! and opening corrupted data fail with one and the same error, since the
//! format does not distinguish them and this design adds no logic to.

use vstd::prelude::*;

use crate::store::StoreError;

verus! {

/// What opening a container with a secret recovers: a function of the
/// container bytes and the secret alone; `None` when authentication or
/// parsing fails.
pub uninterp spec fn open_of(container: Seq<u8>, secret: Seq<char>) -> Option<Seq<u8>>;

/// Relies on zip's `ZipWriter` with `with_aes_encryption` (AES-256) and
/// deflate compression: an archive written under a password holds, for that
/// password, exactly the bytes written into its single `content` entry, so
/// opening the sealed container with the sealing secret recovers the raw
/// bytes. Sealing fails only on an error writing the archive structure.
#[verifier::external_body]
pub fn seal(raw: &[u8], secret: &str) -> (r: Result<Vec<u8>, StoreError>)
    ensures
        r matches Ok(c) ==> open_of(c@, secret@) == Some(raw@),
        r matches Err(e) ==> e == StoreError::IoFailure,
{
    let mut w = zip::ZipWriter::new(std::io::Cursor::new(Vec::new()));
    let opts = zip::write::SimpleFileOptions::default().compression_method(
        zip::CompressionMethod::Deflated,
    ).with_aes_encryption(zip::AesMode::Aes256, secret);
    if w.start_file("content", opts).is_err() {
        return Err(StoreError::IoFailure);
    }
    if std::io::Write::write_all(&mut w, raw).is_err() {
        return Err(StoreError::IoFailure);
    }
    match w.finish() {
        Ok(c) => Ok(c.into_inner()),
        Err(_) => Err(StoreError::IoFailure),
    }
}

/// Relies on zip's `ZipArchive::by_name_decrypt`: reading the `content`
/// entry under the given password is deterministic in the container bytes
/// and the password, and any authentication or parse failure is an error.
/// Wrong secret and corrupted data come out as the one shared error kind.
#[verifier::external_body]
pub fn open(container: &[u8], secret: &str) -> (r: Result<Vec<u8>, StoreError>)
    ensures
        match r {
            Ok(b) => open_of(container@, secret@) == Some(b@),
            Err(e) => e == StoreError::BadSecretOrCorrupt && open_of(container@, secret@) is None,
        },
{
    let mut ar = match zip::ZipArchive::new(std::io::Cursor::new(container)) {
        Ok(a) => a,
        Err(_) => return Err(StoreError::BadSecretOrCorrupt),
    };
    let mut out: Vec<u8> = Vec::new();
    match ar.by_name_decrypt("content", secret.as_bytes()) {
        Ok(mut f) => {
            if std::io::Read::read_to_end(&mut f, &mut out).is_err() {
                return Err(StoreError::BadSecretOrCorrupt);
            }
        },
        Err(_) => return Err(StoreError::BadSecretOrCorrupt),
    }
    Ok(out)
}

} // verus!
