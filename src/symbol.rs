//! The QR symbol: an immutable square matrix of dark and light modules.
use vstd::prelude::*;

verus! {

#[verifier::external_type_specification]
#[verifier::external_body]
pub struct ExQrError(qrcode::types::QrError);

/// What `qrcode::QrCode::new` produces for a text: `None` when the text
/// cannot be encoded, otherwise the module count and the modules in row-major
/// order (`true` for dark). It depends on the text alone.
pub uninterp spec fn qr_matrix_of(text: Seq<char>) -> Option<(nat, Seq<bool>)>;

/// A side length that a normal QR version has (versions 1 to 40), with a
/// module for each cell.
pub open spec fn valid_matrix(size: nat, cells: Seq<bool>) -> bool {
    21 <= size <= 177 && cells.len() == size * size
}

/// Relies on `qrcode::QrCode::new` (medium error correction, smallest normal
/// version that holds the data), `QrCode::width` and `QrCode::to_colors`
/// (row-major, `width * width` modules).
#[verifier::external_body]
fn qr_encode(text: &str) -> (r: Result<(usize, Vec<bool>), qrcode::types::QrError>)
    ensures
        match r {
            Ok((w, m)) => qr_matrix_of(text@) == Some((w as nat, m@)) && valid_matrix(w as nat, m@),
            Err(_) => qr_matrix_of(text@) is None,
        },
{
    match qrcode::QrCode::new(text) {
        Ok(code) => {
            let colors = code.to_colors().into_iter().map(|c| match c {
                qrcode::Color::Dark => true,
                qrcode::Color::Light => false,
            });
            Ok((code.width(), colors.collect()))
        },
        Err(e) => Err(e),
    }
}

/// The text cannot be represented as a QR symbol: it is too long for the
/// largest version, or holds what no encoding mode can carry.
#[derive(Debug, Clone, Copy, PartialEq, Eq, Structural)]
pub struct EncodingError;

/// A QR symbol: `size` modules on each side, stored row by row.
pub struct QrSymbol {
    size: usize,
    cells: Vec<bool>,
}

/// `s` is the symbol that `qrcode` builds for `text`.
pub open spec fn encodes(text: Seq<char>, s: QrSymbol) -> bool {
    qr_matrix_of(text) == Some((s.size(), s.cells()))
}

impl QrSymbol {
    #[verifier::type_invariant]
    spec fn inv(&self) -> bool {
        valid_matrix(self.size as nat, self.cells@)
    }

    /// The module count: the number of modules on each side.
    pub closed spec fn size(&self) -> nat {
        self.size as nat
    }

    /// The modules, row by row, `true` for dark.
    pub closed spec fn cells(&self) -> Seq<bool> {
        self.cells@
    }

    /// Whether the module in row `row`, column `col` is dark.
    pub open spec fn dark_at(&self, row: int, col: int) -> bool {
        self.cells()[row * self.size() + col]
    }

    /// The module count.
    pub fn width(&self) -> (r: usize)
        ensures
            r == self.size(),
            21 <= r <= 177,
    {
        proof {
            use_type_invariant(self);
        }
        self.size
    }

    /// Whether the module in row `row`, column `col` is dark.
    pub fn is_dark(&self, row: usize, col: usize) -> (r: bool)
        requires
            row < self.size(),
            col < self.size(),
        ensures
            r == self.dark_at(row as int, col as int),
    {
        proof {
            use_type_invariant(self);
            let n = self.size as int;
            assert(row * n + col < n * n && n * n <= 177 * 177) by (nonlinear_arith)
                requires
                    row < n,
                    col < n,
                    n <= 177,
            ;
        }
        self.cells[row * self.size + col]
    }
}

/// Encodes `text` as a QR symbol, at medium error correction in the smallest
/// version that holds it.
pub fn encode(text: &str) -> (r: Result<QrSymbol, EncodingError>)
    ensures
        match r {
            Ok(s) => encodes(text@, s),
            Err(_) => qr_matrix_of(text@) is None,
        },
{
    match qr_encode(text) {
        Ok((size, cells)) => Ok(QrSymbol { size, cells }),
        Err(_) => Err(EncodingError),
    }
}

/// Encoding is a function of the text: two symbols encoded from one text
/// have the same module count and the same modules.
pub proof fn lemma_encode_deterministic(text: Seq<char>, a: QrSymbol, b: QrSymbol)
    requires
        encodes(text, a),
        encodes(text, b),
    ensures
        a.size() == b.size(),
        a.cells() == b.cells(),
        forall|row: int, col: int| a.dark_at(row, col) == b.dark_at(row, col),
{
}

} // verus!
