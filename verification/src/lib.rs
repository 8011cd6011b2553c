//! A small web service's core: turn a text payload into a QR-code image
//! (PNG or SVG), and route HTTP requests to that encoder.

pub mod bytes;
pub mod form;
pub mod media;
pub mod qr;
pub mod router;

use vstd::prelude::*;

verus! {

/// The output image format a request negotiates: raster PNG or vector SVG.
#[derive(Clone, Copy, PartialEq, Eq, Structural, Debug)]
pub enum OutputFormat {
    PNG,
    SVG,
}

} // verus!
