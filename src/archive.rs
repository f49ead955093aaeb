//! Reading a downloaded template archive.
use vstd::prelude::*;
use std::io::Cursor;
use zip::result::ZipError;
use zip::ZipArchive;

verus! {

#[verifier::external_type_specification]
#[verifier::external_body]
#[verifier::reject_recursive_types(T)]
pub struct ExCursor<T>(std::io::Cursor<T>);

#[verifier::external_type_specification]
#[verifier::external_body]
#[verifier::reject_recursive_types(R)]
pub struct ExZipArchive<R>(zip::ZipArchive<R>);

#[verifier::external_type_specification]
#[verifier::external_body]
pub struct ExZipError(zip::result::ZipError);

/// An archive read into memory, ready to be extracted.
pub type Archive = ZipArchive<Cursor<Vec<u8>>>;

/// Whether `zip::ZipArchive::new` accepts these bytes as a zip archive.
pub uninterp spec fn readable_archive(bytes: Seq<u8>) -> bool;

/// Relies on `zip::ZipArchive::new` over an in-memory cursor: it reads the
/// central directory, and whether it succeeds depends on the bytes alone.
#[verifier::external_body]
fn read_archive(bytes: Vec<u8>) -> (r: Result<Archive, ZipError>)
    ensures
        r is Ok <==> readable_archive(bytes@),
{
    ZipArchive::new(Cursor::new(bytes))
}

/// Reads `bytes` as a zip archive; `None` when they are not one.
pub fn open_archive(bytes: Vec<u8>) -> (r: Option<Archive>)
    ensures
        r is Some <==> readable_archive(bytes@),
{
    match read_archive(bytes) {
        Ok(a) => Some(a),
        Err(_) => None,
    }
}

} // verus!
