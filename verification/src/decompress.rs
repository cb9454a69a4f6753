//! Calls into the decompression crates: zlib through `flate2`, PKWare DCL
//! Implode through `explode`.

use vstd::prelude::*;

verus! {

/// What inflating a zlib stream with `flate2::read::ZlibDecoder` gives: the
/// decompressed bytes, or the text of the I/O error it reports.
pub uninterp spec fn zlib_inflate(data: Seq<u8>) -> Result<Seq<u8>, Seq<char>>;

/// What `explode::explode` gives: the decompressed bytes, or the `Debug` text
/// of its error.
pub uninterp spec fn pkware_explode(data: Seq<u8>) -> Result<Seq<u8>, Seq<char>>;

/// Reads a zlib stream to its end with `flate2::read::ZlibDecoder` and
/// `Read::read_to_end`. Claimed: the result is the named inflation of the
/// input, the error being the `to_string` text of the I/O error.
#[verifier::external_body]
pub(crate) fn inflate_zlib(data: &[u8]) -> (r: Result<Vec<u8>, String>)
    ensures
        zlib_inflate(data@) == (match r {
            Ok(v) => Ok::<Seq<u8>, Seq<char>>(v@),
            Err(e) => Err::<Seq<u8>, Seq<char>>(e@),
        }),
{
    let mut decoder = flate2::read::ZlibDecoder::new(data);
    let mut buf = Vec::new();
    match std::io::Read::read_to_end(&mut decoder, &mut buf) {
        Ok(_) => Ok(buf),
        Err(e) => Err(e.to_string()),
    }
}

/// Calls `explode::explode`. Claimed: the result is the named decompression
/// of the input, the error being the `Debug` text of `explode::Error`. The
/// crate's only panics guard states that its own decoder never reaches
/// ("double take", under-subscribed code books); nothing is claimed of them.
#[verifier::external_body]
pub(crate) fn explode_pkware(data: &[u8]) -> (r: Result<Vec<u8>, String>)
    ensures
        pkware_explode(data@) == (match r {
            Ok(v) => Ok::<Seq<u8>, Seq<char>>(v@),
            Err(e) => Err::<Seq<u8>, Seq<char>>(e@),
        }),
{
    match explode::explode(data) {
        Ok(v) => Ok(v),
        Err(e) => Err(format!("{e:?}")),
    }
}

} // verus!
