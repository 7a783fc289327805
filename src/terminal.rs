//! Terminal rendering: two character cells per module, one line per row of
//! modules, no quiet zone.
use vstd::prelude::*;
use vstd::string::StringExecFns;
use crate::symbol::QrSymbol;

verus! {

/// The glyph of a dark cell (FULL BLOCK).
pub open spec fn block() -> char {
    '\u{2588}'
}

/// The character drawn for the module in row `row`, column `col`.
pub open spec fn cell_char(s: QrSymbol, row: int, col: int) -> char {
    if s.dark_at(row, col) {
        block()
    } else {
        ' '
    }
}

/// The first `cols` modules of row `row`, each drawn twice.
pub open spec fn line_prefix(s: QrSymbol, row: int, cols: nat) -> Seq<char> {
    Seq::new(2 * cols, |j: int| cell_char(s, row, j / 2))
}

/// The line drawn for row `row`: `2 * size` characters.
pub open spec fn terminal_line(s: QrSymbol, row: int) -> Seq<char> {
    line_prefix(s, row, s.size())
}

/// The first `k` lines, separated by line breaks, with none after the last.
pub open spec fn terminal_lines(s: QrSymbol, k: nat) -> Seq<char>
    decreases k,
{
    if k == 0 {
        Seq::empty()
    } else if k == 1 {
        terminal_line(s, 0)
    } else {
        terminal_lines(s, (k - 1) as nat) + seq!['\n'] + terminal_line(s, k - 1)
    }
}

/// The whole terminal rendering of a symbol.
pub open spec fn terminal_text(s: QrSymbol) -> Seq<char> {
    terminal_lines(s, s.size())
}

/// Renders the symbol for a terminal: each dark module as two block glyphs,
/// each light one as two spaces, rows separated by line breaks.
pub fn render_qr_to_terminal(s: &QrSymbol) -> (r: String)
    ensures
        r@ == terminal_text(*s),
{
    let n = s.width();
    let mut out = String::new();
    let mut row: usize = 0;
    while row < n
        invariant
            n == s.size(),
            row <= n,
            out@ == terminal_lines(*s, row as nat),
        decreases n - row,
    {
        if row > 0 {
            proof {
                reveal_strlit("\n");
            }
            out.append("\n");
        }
        let ghost start = out@;
        assert(line_prefix(*s, row as int, 0) =~= Seq::<char>::empty());
        let mut col: usize = 0;
        while col < n
            invariant
                n == s.size(),
                row < n,
                col <= n,
                out@ == start + line_prefix(*s, row as int, col as nat),
            decreases n - col,
        {
            let dark = s.is_dark(row, col);
            if dark {
                proof {
                    reveal_strlit("\u{2588}\u{2588}");
                }
                out.append("\u{2588}\u{2588}");
            } else {
                proof {
                    reveal_strlit("  ");
                }
                out.append("  ");
            }
            assert(line_prefix(*s, row as int, (col + 1) as nat) =~= line_prefix(
                *s,
                row as int,
                col as nat,
            ) + seq![cell_char(*s, row as int, col as int), cell_char(*s, row as int, col as int)]);
            col += 1;
        }
        row += 1;
    }
    out
}

/// Where line `i` starts in the rendering.
pub open spec fn line_start(s: QrSymbol, i: int) -> int {
    i * (2 * s.size() + 1)
}

/// The first `k` lines take `k * (2 * size + 1) - 1` characters: line `i`
/// starts at `i * (2 * size + 1)`, and a line break follows every line but
/// the last.
proof fn lemma_lines_shape(s: QrSymbol, k: nat)
    requires
        k >= 1,
    ensures
        terminal_lines(s, k).len() == k * (2 * s.size() + 1) - 1,
        forall|i: int, j: int|
            0 <= i < k && 0 <= j < 2 * s.size() ==> terminal_lines(s, k)[line_start(s, i) + j]
                == #[trigger] terminal_line(s, i)[j],
        forall|i: int|
            0 <= i < k - 1 ==> terminal_lines(s, k)[#[trigger] line_start(s, i) + 2 * s.size()] == '\n',
    decreases k,
{
    let w = 2 * s.size() + 1;
    if k > 1 {
        let p = (k - 1) as nat;
        lemma_lines_shape(s, p);
        let prev = terminal_lines(s, p);
        let cur = terminal_lines(s, k);
        assert(p * w + w == k * w) by (nonlinear_arith)
            requires
                p + 1 == k,
        ;
        assert forall|i: int, j: int| 0 <= i < k && 0 <= j < 2 * s.size() implies cur[line_start(s, i) + j]
            == terminal_line(s, i)[j] by {
            if i < p {
                assert(i * w + j < p * w - 1) by (nonlinear_arith)
                    requires
                        i < p,
                        j < w - 1,
                        0 <= j,
                ;
            } else {
                assert(i * w == p * w);
            }
        }
        assert forall|i: int| 0 <= i < k - 1 implies cur[line_start(s, i) + 2 * s.size()] == '\n' by {
            if i < p - 1 {
                assert(i * w + 2 * s.size() < p * w - 1) by (nonlinear_arith)
                    requires
                        i < p - 1,
                        w == 2 * s.size() + 1,
                ;
            } else {
                assert(i * w == p * w - w) by (nonlinear_arith)
                    requires
                        i == p - 1,
                ;
            }
        }
    } else {
        assert forall|i: int, j: int| 0 <= i < k && 0 <= j < 2 * s.size() implies terminal_lines(
            s,
            k,
        )[line_start(s, i) + j] == terminal_line(s, i)[j] by {
            assert(i == 0);
            assert(line_start(s, i) == 0) by (nonlinear_arith)
                requires
                    i == 0,
                    line_start(s, i) == i * (2 * s.size() + 1),
            ;
        }
    }
}

/// The terminal rendering has exactly `size` lines, each of `2 * size`
/// characters: it is `size * (2 * size + 1) - 1` characters long, line `i`
/// occupies the positions from `line_start(s, i)` up to the next line break, holds
/// no line break itself, and a line break separates each pair of lines.
pub proof fn lemma_terminal_shape(s: QrSymbol)
    requires
        s.size() >= 1,
    ensures
        terminal_text(s).len() == s.size() * (2 * s.size() + 1) - 1,
        forall|i: int| 0 <= i < s.size() ==> #[trigger] terminal_line(s, i).len() == 2 * s.size(),
        forall|i: int, j: int|
            0 <= i < s.size() && 0 <= j < 2 * s.size() ==> terminal_text(s)[line_start(s, i) + j]
                == #[trigger] terminal_line(s, i)[j] && terminal_line(s, i)[j] != '\n',
        forall|i: int|
            0 <= i < s.size() - 1 ==> terminal_text(s)[#[trigger] line_start(s, i) + 2
                * s.size()] == '\n',
{
    lemma_lines_shape(s, s.size());
}

} // verus!
