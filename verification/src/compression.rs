//! Detection and removal of bzip2 compression.

use bzip2::read::MultiBzDecoder;
use std::io::Read;
use vstd::prelude::*;

verus! {

/// True when `data` starts with the three bytes `BZh`, the signature of a
/// bzip2 stream.
pub open spec fn has_bzip2_signature(data: Seq<u8>) -> bool {
    data.len() >= 3 && data[0] == 0x42 && data[1] == 0x5a && data[2] == 0x68
}

/// The plain bytes that the bzip2 streams in `data` decompress to, or `None`
/// where `data` is no sequence of sound bzip2 streams.
pub uninterp spec fn decompressed(data: Seq<u8>) -> Option<Seq<u8>>;

/// Tells whether the input is bzip2-compressed, by its first three bytes.
pub fn is_compressed(data: &[u8]) -> (compressed: bool)
    requires
        data@.len() >= 3,
    ensures
        compressed == has_bzip2_signature(data@),
{
    data[0] == 0x42 && data[1] == 0x5a && data[2] == 0x68
}

/// Wraps `MultiBzDecoder::new` over a byte slice and `Read::read_to_end` on
/// it. Claims that the bytes returned are those that `decompressed` names,
/// and that `None` comes exactly where the decoder reports an error.
#[verifier::external_body]
pub(crate) fn decompress(data: &[u8]) -> (plain: Option<Vec<u8>>)
    ensures
        plain is Some == decompressed(data@) is Some,
        plain is Some ==> decompressed(data@) == Some(plain->0@),
{
    let mut plain = Vec::new();
    MultiBzDecoder::new(data).read_to_end(&mut plain).ok().map(|_| plain)
}

} // verus!
