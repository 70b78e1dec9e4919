use vstd::prelude::*;
use std::io::Read;

verus! {

/// A layer that could not be decompressed, by its position in the image.
#[derive(Clone, Copy, Debug, PartialEq, Eq, Structural)]
pub struct UnpackError {
    pub layer: usize,
}

/// What gzip decoding makes of a compressed layer: the tar stream, or
/// nothing where the bytes are not a valid gzip stream.
pub uninterp spec fn gunzipped(b: Seq<u8>) -> Option<Seq<u8>>;

/// Relies on `flate2::read::GzDecoder` read to the end: the outcome depends
/// on the bytes alone.
#[verifier::external_body]
fn gunzip(b: &Vec<u8>) -> (r: Option<Vec<u8>>)
    ensures
        r.is_some() == gunzipped(b@).is_some(),
        r.is_some() ==> r->Some_0@ == gunzipped(b@)->Some_0,
{
    let mut out = Vec::new();
    match flate2::read::GzDecoder::new(&b[..]).read_to_end(&mut out) {
        Ok(_) => Some(out),
        Err(_) => None,
    }
}

/// The tar stream of the layer at position `index` of an image, or an error
/// naming that position where the bytes do not decode. Layers are decoded
/// and extracted one at a time, in manifest order.
pub fn decompress_layer(layer: &Vec<u8>, index: usize) -> (r: Result<Vec<u8>, UnpackError>)
    ensures
        r is Ok <==> gunzipped(layer@).is_some(),
        r is Ok ==> r->Ok_0@ == gunzipped(layer@)->Some_0,
        r is Err ==> r->Err_0 == (UnpackError { layer: index }),
{
    match gunzip(layer) {
        Some(t) => Ok(t),
        None => Err(UnpackError { layer: index }),
    }
}

} // verus!
