//! The request: what to encode and where to send it, its validation, and the
//! whole computation from a request to its renderings.
use vstd::prelude::*;
use crate::raster::{RasterImage, render_raster, raster_side, is_raster_of};
use crate::symbol::{QrSymbol, EncodingError, encode, encodes, qr_matrix_of};
use crate::terminal::{render_qr_to_terminal, terminal_text};

verus! {

/// Pixels per module when none is given.
pub const DEFAULT_SCALE: u32 = 10;

/// Quiet-zone width, in modules, when none is given.
pub const DEFAULT_BORDER: u32 = 4;

/// A request to encode `data`, print it to the terminal (`print`), save it as
/// an image (`output`, the path), or both.
pub struct EncodingRequest {
    pub data: String,
    pub output: Option<String>,
    pub scale: u32,
    pub border: u32,
    pub print: bool,
}

/// Why a request was refused before any encoding.
#[derive(Debug, Clone, Copy, PartialEq, Eq, Structural)]
pub enum ValidationError {
    /// Neither terminal output nor an output file was asked for.
    NoOutputSpecified,
    /// The scale is zero.
    InvalidScale,
}

/// The outcome of validating `req`; the rules are checked in order, so a
/// request with no output reports that first.
pub open spec fn validation_of(req: EncodingRequest) -> Result<(), ValidationError> {
    if !req.print && req.output is None {
        Err(ValidationError::NoOutputSpecified)
    } else if req.scale == 0 {
        Err(ValidationError::InvalidScale)
    } else {
        Ok(())
    }
}

/// Checks that some output is asked for and that the scale is at least 1.
/// Any border is accepted.
pub fn validate(req: &EncodingRequest) -> (r: Result<(), ValidationError>)
    ensures
        r == validation_of(*req),
{
    if !req.print && req.output.is_none() {
        Err(ValidationError::NoOutputSpecified)
    } else if req.scale == 0 {
        Err(ValidationError::InvalidScale)
    } else {
        Ok(())
    }
}

/// A request without outputs is refused as such, whatever its other fields.
pub proof fn lemma_no_output_rejected(req: EncodingRequest)
    requires
        !req.print,
        req.output is None,
    ensures
        validation_of(req) == Err::<(), ValidationError>(ValidationError::NoOutputSpecified),
{
}

/// A zero scale is always refused, and as `InvalidScale` once some output is
/// asked for (otherwise the missing output is reported first).
pub proof fn lemma_zero_scale_rejected(req: EncodingRequest)
    requires
        req.scale == 0,
    ensures
        validation_of(req) is Err,
        req.print || req.output is Some ==> validation_of(req) == Err::<(), ValidationError>(
            ValidationError::InvalidScale,
        ),
{
}

/// Why a request produced no output.
#[derive(Debug, Clone, Copy, PartialEq, Eq, Structural)]
pub enum GenerateError {
    /// The request was refused by validation.
    Invalid(ValidationError),
    /// The data cannot be encoded as a QR symbol.
    Encoding(EncodingError),
    /// The image would be wider than `u32::MAX` pixels.
    ImageTooLarge,
}

/// The symbol for a request and the renderings it asked for, both read from
/// that one symbol.
pub struct Outputs {
    pub symbol: QrSymbol,
    pub terminal: Option<String>,
    pub raster: Option<RasterImage>,
}

/// `out` holds what `req` asks for: the symbol of its data, the terminal
/// text when it asks to print, the image when it names an output file.
pub open spec fn outputs_for(out: Outputs, req: EncodingRequest) -> bool {
    &&& encodes(req.data@, out.symbol)
    &&& if req.print {
        out.terminal is Some && out.terminal->Some_0@ == terminal_text(out.symbol)
    } else {
        out.terminal is None
    }
    &&& if req.output is Some {
        out.raster is Some && is_raster_of(
            out.raster->Some_0,
            out.symbol,
            req.scale as nat,
            req.border as nat,
        )
    } else {
        out.raster is None
    }
}

/// Validates the request, encodes its data once, and renders that symbol for
/// each output asked for.
pub fn generate(req: &EncodingRequest) -> (r: Result<Outputs, GenerateError>)
    ensures
        match validation_of(*req) {
            Err(e) => r == Err::<Outputs, GenerateError>(GenerateError::Invalid(e)),
            Ok(_) => match qr_matrix_of(req.data@) {
                None => r == Err::<Outputs, GenerateError>(GenerateError::Encoding(EncodingError)),
                Some((n, _)) => if req.output is Some && (n + 2 * req.border) * req.scale
                    > u32::MAX {
                    r == Err::<Outputs, GenerateError>(GenerateError::ImageTooLarge)
                } else {
                    r is Ok && outputs_for(r->Ok_0, *req)
                },
            },
        },
{
    match validate(req) {
        Err(e) => {
            return Err(GenerateError::Invalid(e));
        },
        Ok(()) => {},
    }
    let symbol = match encode(req.data.as_str()) {
        Ok(s) => s,
        Err(e) => {
            return Err(GenerateError::Encoding(e));
        },
    };
    let raster = if req.output.is_some() {
        let n = symbol.width() as u64;
        let span = n + 2 * (req.border as u64);
        if span > u32::MAX as u64 {
            proof {
                assert(span * req.scale >= span) by (nonlinear_arith)
                    requires
                        req.scale >= 1,
                        span >= 0,
                ;
            }
            return Err(GenerateError::ImageTooLarge);
        }
        assert(span * req.scale <= u32::MAX * u32::MAX) by (nonlinear_arith)
            requires
                span <= u32::MAX,
                req.scale <= u32::MAX,
        ;
        if span * (req.scale as u64) > u32::MAX as u64 {
            return Err(GenerateError::ImageTooLarge);
        }
        Some(render_raster(&symbol, req.scale, req.border))
    } else {
        None
    };
    let terminal = if req.print {
        Some(render_qr_to_terminal(&symbol))
    } else {
        None
    };
    Ok(Outputs { symbol, terminal, raster })
}

} // verus!
