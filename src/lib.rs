//! Text to QR code: a square module matrix produced by the `qrcode` crate,
//! and two verified renderings of it (a terminal glyph grid and a grayscale
//! raster with a quiet zone), behind a validator for the request.

pub mod symbol;
pub mod terminal;
pub mod raster;
pub mod request;
