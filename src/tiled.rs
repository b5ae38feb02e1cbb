//! Maps as the Tiled editor exports them, and decoding of their layer data.
use vstd::prelude::*;

use crate::base64::{base64_decoded, decode_base64};
use vstd::utf8::encode_utf8;

verus! {

/// A tileset entry of a Tiled map: the atlas image and its geometry.
#[derive(Debug)]
pub struct Tileset {
    pub firstgid: u32,
    pub image: String,
    pub imagewidth: u32,
    pub imageheight: u32,
    pub tileheight: u32,
    pub tilewidth: u32,
    pub tilecount: u32,
    pub margin: u32,
    pub spacing: u32,
}

/// A tile layer of a Tiled map. `data` is base64 text of zlib-compressed
/// tile IDs, four little-endian bytes each.
#[derive(Debug)]
pub struct Layer {
    pub data: Option<String>,
    pub width: u32,
    pub height: u32,
}

/// A Tiled map: its layers, size in tiles, tilesets and tile size.
#[derive(Debug)]
pub struct TiledMap {
    pub layers: Vec<Layer>,
    pub width: u32,
    pub height: u32,
    pub tilesets: Vec<Tileset>,
    pub tilewidth: u32,
    pub tileheight: u32,
}

/// Why the tile IDs of a layer could not be had.
#[derive(Clone, Copy, Debug, PartialEq, Eq, Structural)]
pub enum DecodeError {
    /// No layer has the index asked for.
    MissingLayer,
    /// The layer holds no data.
    MissingData,
    /// The data is not base64 text.
    BadBase64,
    /// The base64 text does not hold a zlib stream.
    BadZlib,
}

/// What a zlib stream inflates to; `None` where the bytes are not one.
pub uninterp spec fn zlib_inflated(data: Seq<u8>) -> Option<Seq<u8>>;

/// Relies on `miniz_oxide::inflate::decompress_to_vec_zlib`: it returns the
/// inflated bytes of a complete zlib stream and an error otherwise, and
/// depends on its input alone.
#[verifier::external_body]
fn inflate_zlib(data: &[u8]) -> (r: Option<Vec<u8>>)
    ensures
        match r {
            Some(v) => zlib_inflated(data@) == Some(v@),
            None => zlib_inflated(data@) is None,
        },
{
    miniz_oxide::inflate::decompress_to_vec_zlib(data).ok()
}

/// Every fourth byte, from the first: the low bytes of little-endian
/// 32-bit tile IDs.
pub open spec fn every_fourth(s: Seq<u8>) -> Seq<u8> {
    Seq::new(((s.len() + 3) / 4) as nat, |i: int| s[4 * i])
}

/// Tile IDs of the layer whose base64 text is `text`.
pub open spec fn decoded_text(text: Seq<char>) -> Result<Seq<u8>, DecodeError> {
    match base64_decoded(encode_utf8(text)) {
        None => Err(DecodeError::BadBase64),
        Some(z) => match zlib_inflated(z) {
            None => Err(DecodeError::BadZlib),
            Some(b) => Ok(every_fourth(b)),
        },
    }
}

/// The result as a plain value: the view of the bytes, or the error.
pub open spec fn result_view(r: Result<Vec<u8>, DecodeError>) -> Result<Seq<u8>, DecodeError> {
    match r {
        Ok(v) => Ok(v@),
        Err(e) => Err(e),
    }
}

/// Tile IDs (their low bytes) of the inflated layer data `bytes`, in
/// row-major order.
pub fn tile_ids_from_inflated(bytes: &[u8]) -> (r: Vec<u8>)
    ensures
        r@ == every_fourth(bytes@),
{
    let mut out: Vec<u8> = Vec::new();
    let mut i: usize = 0;
    let len = bytes.len();
    while i < len
        invariant
            len == bytes@.len(),
            i <= len,
            i % 4 == 0 || i == len,
            out@.len() == (i + 3) / 4,
            forall|k: int| 0 <= k < out@.len() ==> out@[k] == bytes@[4 * k],
        decreases len - i,
    {
        out.push(bytes[i]);
        if len - i > 4 {
            i = i + 4;
        } else {
            i = len;
        }
    }
    assert(out@ =~= every_fourth(bytes@));
    out
}

impl Layer {
    /// Tile IDs of this layer; where it cannot be decoded, why.
    pub open spec fn decoded(&self) -> Result<Seq<u8>, DecodeError> {
        match self.data {
            None => Err(DecodeError::MissingData),
            Some(t) => decoded_text(t@),
        }
    }

    /// Decodes the layer data: base64, then zlib, then the low byte of each
    /// 32-bit tile ID.
    pub fn tile_ids(&self) -> (r: Result<Vec<u8>, DecodeError>)
        ensures
            result_view(r) == self.decoded(),
    {
        let text = match &self.data {
            Some(t) => t,
            None => return Err(DecodeError::MissingData),
        };
        let compressed = match decode_base64(text.as_str().as_bytes()) {
            Some(z) => z,
            None => return Err(DecodeError::BadBase64),
        };
        let inflated = match inflate_zlib(compressed.as_slice()) {
            Some(b) => b,
            None => return Err(DecodeError::BadZlib),
        };
        Ok(tile_ids_from_inflated(inflated.as_slice()))
    }
}

impl TiledMap {
    /// Tile IDs of layer `index`; where they cannot be had, why.
    pub open spec fn layer_decoded(&self, index: int) -> Result<Seq<u8>, DecodeError> {
        if 0 <= index < self.layers@.len() {
            self.layers@[index].decoded()
        } else {
            Err(DecodeError::MissingLayer)
        }
    }

    /// Decodes the tile IDs of layer `index`.
    pub fn layer_tile_ids(&self, index: usize) -> (r: Result<Vec<u8>, DecodeError>)
        ensures
            result_view(r) == self.layer_decoded(index as int),
    {
        if index >= self.layers.len() {
            return Err(DecodeError::MissingLayer);
        }
        self.layers[index].tile_ids()
    }
}

} // verus!
