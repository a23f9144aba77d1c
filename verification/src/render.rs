//! Turning the difference between two cell buffers into the bytes that
//! bring a terminal from one to the other.

use vstd::prelude::*;
use vstd::utf8::encode_scalar;
use crate::cell::{Cell, Color, Style};
use crate::cellbuffer::{lemma_offset_cover, lemma_offset_injective, lemma_offset_order, offset_of, CellBuffer};
use crate::chars::push_char;
use crate::cursor::Cursor;
use crate::driver::{DevFn, Driver};
use crate::error::Error;

verus! {

/// What the terminal was last told while cells are written: the styles in
/// force, and where the last character was put.
#[derive(Debug, Copy, Clone, PartialEq, Eq, Structural)]
pub struct Pen {
    pub fg: Style,
    pub bg: Style,
    pub at: Cursor,
}

/// One run of bytes after another; the first failure is the failure of
/// both.
pub open spec fn followed_by(first: Result<Seq<u8>, Error>, second: Result<Seq<u8>, Error>) -> Result<
    Seq<u8>,
    Error,
> {
    match first {
        Err(e) => Err(e),
        Ok(a) => match second {
            Ok(b) => Ok(a + b),
            Err(e) => Err(e),
        },
    }
}

/// A run of bytes that is only there on a condition.
pub open spec fn only_if(cond: bool, bytes: Result<Seq<u8>, Error>) -> Result<Seq<u8>, Error> {
    if cond {
        bytes
    } else {
        Ok(Seq::empty())
    }
}

/// The bytes that set the two colours: each unless it is the default.
pub open spec fn sgr_bytes(d: &Driver, fgcol: Color, bgcol: Color) -> Result<Seq<u8>, Error> {
    followed_by(
        only_if(fgcol != Color::Default, d.spec_get(DevFn::SetFg(fgcol.spec_as_byte()))),
        only_if(bgcol != Color::Default, d.spec_get(DevFn::SetBg(bgcol.spec_as_byte()))),
    )
}

/// The bytes that put a pair of styles in force: a reset of all
/// attributes, then bold, underline and reverse as the foreground style
/// holds them, then blink for a bold background where the terminal can
/// blink, reverse for a reversed background, and the two colours unless
/// they are the default.
pub open spec fn style_bytes(d: &Driver, fg: Style, bg: Style) -> Result<Seq<u8>, Error> {
    let reset = d.spec_get(DevFn::Reset);
    let bold = only_if(fg.1.has_bold(), d.spec_get(DevFn::Bold));
    let underline = only_if(fg.1.has_underline(), d.spec_get(DevFn::Underline));
    let reverse = only_if(fg.1.has_reverse(), d.spec_get(DevFn::Reverse));
    let blink = only_if(
        bg.1.has_bold() && d.template(DevFn::Blink.spec_slot()).is_some(),
        d.spec_get(DevFn::Blink),
    );
    let bg_reverse = only_if(bg.1.has_reverse(), d.spec_get(DevFn::Reverse));
    followed_by(
        followed_by(
            followed_by(followed_by(followed_by(followed_by(reset, bold), underline), reverse), blink),
            bg_reverse,
        ),
        sgr_bytes(d, fg.0, bg.0),
    )
}

/// The bytes that put one character at column `x`, row `y`: a cursor
/// movement, unless the last character was put just left of it in the
/// same row, and the character.
pub open spec fn char_bytes(d: &Driver, pen: Pen, x: int, y: int, ch: char) -> Result<
    Seq<u8>,
    Error,
> {
    followed_by(
        only_if(
            pen.at.spec_next() != Cursor::Valid(x as usize, y as usize),
            d.spec_get(DevFn::SetCursor(x as usize, y as usize)),
        ),
        Ok(encode_scalar(ch as u32)),
    )
}

/// The bytes that draw one cell at column `x`, row `y`: its styles, unless
/// they are in force already; a cursor movement, unless the last character
/// was put just left of it in the same row; and the character.
pub open spec fn cell_bytes(d: &Driver, pen: Pen, x: int, y: int, cell: Cell) -> Result<
    Seq<u8>,
    Error,
> {
    followed_by(
        only_if(cell.fg != pen.fg || cell.bg != pen.bg, style_bytes(d, cell.fg, cell.bg)),
        char_bytes(d, pen, x, y, cell.ch),
    )
}

/// What is known of the terminal after a cell was drawn at `(x, y)`.
pub open spec fn pen_after(x: int, y: int, cell: Cell) -> Pen {
    Pen { fg: cell.fg, bg: cell.bg, at: Cursor::Valid(x as usize, y as usize) }
}

/// The bytes that redraw, in row-major order, those of the first `upto`
/// cells in which `back` differs from `front`, and what is known of the
/// terminal afterwards. Cells that are equal in both give no byte.
pub open spec fn render_cells(
    d: &Driver,
    back: Seq<Cell>,
    front: Seq<Cell>,
    cols: int,
    pen: Pen,
    upto: int,
) -> Result<(Seq<u8>, Pen), Error>
    decreases upto,
{
    if upto <= 0 {
        Ok((Seq::empty(), pen))
    } else {
        let i = upto - 1;
        match render_cells(d, back, front, cols, pen, i) {
            Err(e) => Err(e),
            Ok((bytes, p)) => if back[i] == front[i] {
                Ok((bytes, p))
            } else {
                match cell_bytes(d, p, i % cols, i / cols, back[i]) {
                    Ok(more) => Ok((bytes + more, pen_after(i % cols, i / cols, back[i]))),
                    Err(e) => Err(e),
                }
            },
        }
    }
}

/// Appends the bytes of one display function.
pub fn emit(d: &Driver, out: &mut Vec<u8>, dfn: DevFn) -> (r: Result<(), Error>)
    ensures
        d.wf(),
        match d.spec_get(dfn) {
            Ok(bytes) => r.is_ok() && final(out)@ == old(out)@ + bytes,
            Err(e) => r == Err::<(), Error>(e) && final(out)@ == old(out)@,
        },
{
    match d.get(dfn) {
        Ok(mut bytes) => {
            out.append(&mut bytes);
            Ok(())
        },
        Err(e) => Err(e),
    }
}

/// Appends the bytes of one display function if `cond` holds, and nothing
/// if it does not.
fn emit_if(d: &Driver, out: &mut Vec<u8>, cond: bool, dfn: DevFn) -> (r: Result<(), Error>)
    ensures
        match only_if(cond, d.spec_get(dfn)) {
            Ok(bytes) => r.is_ok() && final(out)@ == old(out)@ + bytes,
            Err(e) => r == Err::<(), Error>(e) && final(out)@ == old(out)@,
        },
{
    if cond {
        emit(d, out, dfn)
    } else {
        assert(out@ + Seq::<u8>::empty() =~= out@);
        Ok(())
    }
}

/// Appends the bytes that set the two colours, each unless it is the
/// default. Where one of them cannot be had, nothing is appended.
pub fn write_sgr(d: &Driver, out: &mut Vec<u8>, fgcol: Color, bgcol: Color) -> (r: Result<
    (),
    Error,
>)
    ensures
        match sgr_bytes(d, fgcol, bgcol) {
            Ok(bytes) => r.is_ok() && final(out)@ == old(out)@ + bytes,
            Err(e) => r == Err::<(), Error>(e) && final(out)@ == old(out)@,
        },
{
    let mut bytes: Vec<u8> = Vec::new();
    match fgcol {
        Color::Default => {},
        fgc => {
            emit(d, &mut bytes, DevFn::SetFg(fgc.as_byte()))?;
        },
    }
    match bgcol {
        Color::Default => {},
        bgc => {
            emit(d, &mut bytes, DevFn::SetBg(bgc.as_byte()))?;
        },
    }
    out.append(&mut bytes);
    Ok(())
}

/// Appends the bytes that put a pair of styles in force. Where one of them
/// cannot be had, nothing is appended.
pub fn send_style(d: &Driver, out: &mut Vec<u8>, fg: Style, bg: Style) -> (r: Result<(), Error>)
    ensures
        match style_bytes(d, fg, bg) {
            Ok(bytes) => r.is_ok() && final(out)@ == old(out)@ + bytes,
            Err(e) => r == Err::<(), Error>(e) && final(out)@ == old(out)@,
        },
{
    let mut bytes: Vec<u8> = Vec::new();
    emit(d, &mut bytes, DevFn::Reset)?;
    emit_if(d, &mut bytes, fg.1.is_bold(), DevFn::Bold)?;
    emit_if(d, &mut bytes, fg.1.is_underline(), DevFn::Underline)?;
    emit_if(d, &mut bytes, fg.1.is_reverse(), DevFn::Reverse)?;
    let blinks = bg.1.is_bold() && d.has(DevFn::Blink);
    emit_if(d, &mut bytes, blinks, DevFn::Blink)?;
    emit_if(d, &mut bytes, bg.1.is_reverse(), DevFn::Reverse)?;
    write_sgr(d, &mut bytes, fg.0, bg.0)?;
    out.append(&mut bytes);
    Ok(())
}

/// Appends the bytes that move the cursor to column `x`, row `y`.
pub fn send_cursor(d: &Driver, out: &mut Vec<u8>, x: usize, y: usize) -> (r: Result<(), Error>)
    ensures
        match d.spec_get(DevFn::SetCursor(x, y)) {
            Ok(bytes) => r.is_ok() && final(out)@ == old(out)@ + bytes,
            Err(e) => r == Err::<(), Error>(e) && final(out)@ == old(out)@,
        },
{
    emit(d, out, DevFn::SetCursor(x, y))
}

/// Appends the bytes that put one character at column `x`, row `y`: a
/// cursor movement, unless the last character was put just left of it in
/// the same row, and the character. Where the movement cannot be had,
/// nothing is appended.
pub fn send_char(d: &Driver, out: &mut Vec<u8>, pen: Pen, x: usize, y: usize, ch: char) -> (r:
    Result<(), Error>)
    requires
        pen.at matches Cursor::Valid(px, _) ==> px < usize::MAX,
    ensures
        match char_bytes(d, pen, x as int, y as int, ch) {
            Ok(bytes) => r.is_ok() && final(out)@ == old(out)@ + bytes,
            Err(e) => r == Err::<(), Error>(e) && final(out)@ == old(out)@,
        },
{
    let mut bytes: Vec<u8> = Vec::new();
    let moves = pen.at.next() != Cursor::Valid(x, y);
    emit_if(d, &mut bytes, moves, DevFn::SetCursor(x, y))?;
    push_char(&mut bytes, ch);
    out.append(&mut bytes);
    Ok(())
}

/// Appends the bytes that draw one cell at column `x`, row `y`, and gives
/// what is known of the terminal afterwards. Where a sequence cannot be
/// had, nothing is appended.
pub fn send_cell(d: &Driver, out: &mut Vec<u8>, pen: Pen, x: usize, y: usize, cell: Cell) -> (r:
    Result<Pen, Error>)
    requires
        pen.at matches Cursor::Valid(px, _) ==> px < usize::MAX,
    ensures
        match cell_bytes(d, pen, x as int, y as int, cell) {
            Ok(bytes) => r == Ok::<Pen, Error>(pen_after(x as int, y as int, cell)) && final(out)@
                == old(out)@ + bytes,
            Err(e) => r == Err::<Pen, Error>(e) && final(out)@ == old(out)@,
        },
{
    let mut bytes: Vec<u8> = Vec::new();
    if cell.fg != pen.fg || cell.bg != pen.bg {
        send_style(d, &mut bytes, cell.fg, cell.bg)?;
    }
    send_char(d, &mut bytes, pen, x, y, cell.ch)?;
    out.append(&mut bytes);
    Ok(Pen { fg: cell.fg, bg: cell.bg, at: Cursor::Valid(x, y) })
}

/// Computes the bytes that redraw, in row-major order, every cell in which
/// `back` differs from `front`. Cells that are equal in both give no byte.
/// Fails, with the first error met, where a sequence cannot be had.
pub fn render(d: &Driver, back: &CellBuffer, front: &CellBuffer, pen: Pen) -> (r: Result<
    (Vec<u8>, Pen),
    Error,
>)
    requires
        back.spec_cols() == front.spec_cols(),
        back.spec_rows() == front.spec_rows(),
        pen.at matches Cursor::Valid(px, _) ==> px < usize::MAX,
    ensures
        match render_cells(d, back@, front@, back.spec_cols() as int, pen, back@.len() as int) {
            Ok((bytes, p)) => r matches Ok((out, q)) && out@ == bytes && q == p,
            Err(e) => r matches Err(f) && f == e,
        },
{
    let cols = back.cols();
    let rows = back.rows();
    let fcols = front.cols();
    let mut out: Vec<u8> = Vec::new();
    let mut cur = pen;
    let mut y: usize = 0;
    assert(offset_of(cols as int, 0, 0) == 0) by (nonlinear_arith);
    while y < rows
        invariant
            back.wf(),
            front.wf(),
            cols == back.spec_cols(),
            rows == back.spec_rows(),
            cols == front.spec_cols(),
            rows == front.spec_rows(),
            y <= rows,
            cur.at matches Cursor::Valid(px, _) ==> px < usize::MAX,
            render_cells(d, back@, front@, cols as int, pen, offset_of(cols as int, 0, y as int))
                == Ok::<(Seq<u8>, Pen), Error>((out@, cur)),
        decreases rows - y,
    {
        let mut x: usize = 0;
        while x < cols
            invariant
                back.wf(),
                front.wf(),
                cols == back.spec_cols(),
                rows == back.spec_rows(),
                cols == front.spec_cols(),
                rows == front.spec_rows(),
                y < rows,
                x <= cols,
                cur.at matches Cursor::Valid(px, _) ==> px < usize::MAX,
                render_cells(
                    d,
                    back@,
                    front@,
                    cols as int,
                    pen,
                    offset_of(cols as int, x as int, y as int),
                ) == Ok::<(Seq<u8>, Pen), Error>((out@, cur)),
            decreases cols - x,
        {
            let ghost i = offset_of(cols as int, x as int, y as int);
            proof {
                lemma_offset_order(cols as int, rows as int, x as int, y as int, 0, rows as int);
                lemma_offset_cover(cols as int, rows as int, i);
                lemma_offset_injective(cols as int, x as int, y as int, i % (cols as int), i / (
                cols as int));
                assert(offset_of(cols as int, x + 1, y as int) == i + 1);
            }
            let b = *back.index(x, y);
            let f = *front.index(x, y);
            if b != f {
                match send_cell(d, &mut out, cur, x, y, b) {
                    Ok(p) => {
                        cur = p;
                    },
                    Err(e) => {
                        proof {
                            assert(render_cells(d, back@, front@, cols as int, pen, i + 1).is_err());
                            lemma_render_error_stays(
                                d,
                                back@,
                                front@,
                                cols as int,
                                pen,
                                i + 1,
                                back@.len() as int,
                            );
                        }
                        return Err(e);
                    },
                }
            }
            x += 1;
        }
        assert(offset_of(cols as int, cols as int, y as int) == offset_of(cols as int, 0, y + 1))
            by (nonlinear_arith);
        y += 1;
    }
    assert(offset_of(cols as int, 0, rows as int) == cols * rows) by (nonlinear_arith);
    Ok((out, cur))
}

/// Once drawing has failed at some cell, it has failed for every longer
/// run of cells, with the same error.
pub proof fn lemma_render_error_stays(
    d: &Driver,
    back: Seq<Cell>,
    front: Seq<Cell>,
    cols: int,
    pen: Pen,
    upto: int,
    later: int,
)
    requires
        upto <= later,
        render_cells(d, back, front, cols, pen, upto).is_err(),
    ensures
        render_cells(d, back, front, cols, pen, later) == render_cells(
            d,
            back,
            front,
            cols,
            pen,
            upto,
        ),
    decreases later - upto,
{
    if upto < later {
        lemma_render_error_stays(d, back, front, cols, pen, upto, later - 1);
    }
}

/// Where two buffers hold the same cells, redrawing gives no byte and
/// leaves what is known of the terminal as it was.
pub proof fn lemma_render_equal_is_silent(
    d: &Driver,
    cells: Seq<Cell>,
    cols: int,
    pen: Pen,
    upto: int,
)
    requires
        upto <= cells.len(),
    ensures
        render_cells(d, cells, cells, cols, pen, upto) == Ok::<(Seq<u8>, Pen), Error>(
            (Seq::empty(), pen),
        ),
    decreases upto,
{
    if upto > 0 {
        lemma_render_equal_is_silent(d, cells, cols, pen, upto - 1);
    }
}

/// Redrawing depends only on the cells below `upto`: two pairs of buffers
/// that agree there give the same bytes.
pub proof fn lemma_render_prefix(
    d: &Driver,
    back1: Seq<Cell>,
    front1: Seq<Cell>,
    back2: Seq<Cell>,
    front2: Seq<Cell>,
    cols: int,
    pen: Pen,
    upto: int,
)
    requires
        forall|i: int| 0 <= i < upto ==> back1[i] == back2[i] && front1[i] == front2[i],
    ensures
        render_cells(d, back1, front1, cols, pen, upto) == render_cells(
            d,
            back2,
            front2,
            cols,
            pen,
            upto,
        ),
    decreases upto,
{
    if upto > 0 {
        lemma_render_prefix(d, back1, front1, back2, front2, cols, pen, upto - 1);
    }
}

/// Where the buffers differ in exactly one cell, redrawing gives the
/// bytes of that cell and nothing else: at most one change of style, at
/// most one cursor movement, and the cell's character.
pub proof fn lemma_render_single_change(
    d: &Driver,
    back: Seq<Cell>,
    front: Seq<Cell>,
    cols: int,
    pen: Pen,
    at: int,
    upto: int,
)
    requires
        back.len() == front.len(),
        0 <= at < upto <= back.len(),
        forall|i: int| 0 <= i < back.len() && i != at ==> back[i] == front[i],
        back[at] != front[at],
    ensures
        render_cells(d, back, front, cols, pen, upto) == match cell_bytes(
            d,
            pen,
            at % cols,
            at / cols,
            back[at],
        ) {
            Ok(bytes) => Ok::<(Seq<u8>, Pen), Error>(
                (bytes, pen_after(at % cols, at / cols, back[at])),
            ),
            Err(e) => Err(e),
        },
    decreases upto,
{
    if upto == at + 1 {
        lemma_render_prefix(d, back, front, back, back, cols, pen, at);
        lemma_render_equal_is_silent(d, back, cols, pen, at);
        match cell_bytes(d, pen, at % cols, at / cols, back[at]) {
            Ok(bytes) => {
                assert(Seq::<u8>::empty() + bytes =~= bytes);
            },
            Err(_) => {},
        }
    } else {
        lemma_render_single_change(d, back, front, cols, pen, at, upto - 1);
    }
}

/// A cell that is drawn right after its left neighbour in the same row
/// needs no cursor movement: its bytes are its styles, if they change, and
/// its character.
pub proof fn lemma_adjacent_cell_moves_no_cursor(d: &Driver, pen: Pen, x: int, y: int, cell: Cell)
    requires
        0 < x <= usize::MAX,
        0 <= y <= usize::MAX,
        pen.at == Cursor::Valid((x - 1) as usize, y as usize),
    ensures
        char_bytes(d, pen, x, y, cell.ch) == Ok::<Seq<u8>, Error>(encode_scalar(cell.ch as u32)),
        cell_bytes(d, pen, x, y, cell) == followed_by(
            only_if(cell.fg != pen.fg || cell.bg != pen.bg, style_bytes(d, cell.fg, cell.bg)),
            Ok(encode_scalar(cell.ch as u32)),
        ),
{
    assert(Seq::<u8>::empty() + encode_scalar(cell.ch as u32) =~= encode_scalar(cell.ch as u32));
}

/// A cell whose styles are in force already needs no change of style: its
/// bytes are a cursor movement, if one is needed, and its character.
pub proof fn lemma_same_style_sends_no_style(d: &Driver, pen: Pen, x: int, y: int, cell: Cell)
    requires
        cell.fg == pen.fg,
        cell.bg == pen.bg,
    ensures
        cell_bytes(d, pen, x, y, cell) == char_bytes(d, pen, x, y, cell.ch),
{
    match char_bytes(d, pen, x, y, cell.ch) {
        Ok(bytes) => {
            assert(Seq::<u8>::empty() + bytes =~= bytes);
        },
        Err(_) => {},
    }
}

/// The characters of `k` cells from index `a` on, as UTF-8, one after the
/// other.
pub open spec fn run_bytes(cells: Seq<Cell>, a: int, k: int) -> Seq<u8>
    decreases k,
{
    if k <= 0 {
        Seq::empty()
    } else {
        run_bytes(cells, a, k - 1) + encode_scalar(cells[a + k - 1].ch as u32)
    }
}

/// What comes before the characters of a run of cells of one pair of
/// styles that begins at column `x`, row `y`: the styles, unless they are
/// in force already, and then the cursor movement to the first cell.
pub open spec fn run_lead(d: &Driver, pen: Pen, fg: Style, bg: Style, x: int, y: int) -> Result<
    Seq<u8>,
    Error,
> {
    followed_by(
        only_if(fg != pen.fg || bg != pen.bg, style_bytes(d, fg, bg)),
        d.spec_get(DevFn::SetCursor(x as usize, y as usize)),
    )
}

/// The first cell of a run, drawn when nothing is known of the cursor,
/// gives what comes before the run and then its own character.
pub proof fn lemma_run_first(d: &Driver, pen: Pen, x: int, y: int, cell: Cell)
    requires
        pen.at == Cursor::Invalid,
    ensures
        cell_bytes(d, pen, x, y, cell) == match run_lead(d, pen, cell.fg, cell.bg, x, y) {
            Ok(lead) => Ok::<Seq<u8>, Error>(lead + encode_scalar(cell.ch as u32)),
            Err(e) => Err(e),
        },
{
    let styled = only_if(cell.fg != pen.fg || cell.bg != pen.bg, style_bytes(d, cell.fg, cell.bg));
    let moved = d.spec_get(DevFn::SetCursor(x as usize, y as usize));
    let ch = encode_scalar(cell.ch as u32);
    match (styled, moved) {
        (Ok(s), Ok(m)) => {
            assert(s + (m + ch) =~= (s + m) + ch);
        },
        _ => {},
    }
}

/// A cell of a run that is drawn right after its left neighbour, with the
/// styles of the run in force, gives its character and nothing else.
pub proof fn lemma_run_next(d: &Driver, pen: Pen, x: int, y: int, cell: Cell)
    requires
        0 < x <= usize::MAX,
        0 <= y <= usize::MAX,
        pen.at == Cursor::Valid((x - 1) as usize, y as usize),
        cell.fg == pen.fg,
        cell.bg == pen.bg,
    ensures
        cell_bytes(d, pen, x, y, cell) == Ok::<Seq<u8>, Error>(encode_scalar(cell.ch as u32)),
{
    lemma_same_style_sends_no_style(d, pen, x, y, cell);
    lemma_adjacent_cell_moves_no_cursor(d, pen, x, y, cell);
}

/// Where the buffers differ in a run of `k` cells side by side in one row,
/// and nowhere else, and the cells of the run have one pair of styles,
/// redrawing gives at most one change of style, then exactly one cursor
/// movement, to the first cell of the run, and after it the characters of
/// the run.
pub proof fn lemma_render_run(
    d: &Driver,
    back: Seq<Cell>,
    front: Seq<Cell>,
    cols: int,
    rows: int,
    pen: Pen,
    fg: Style,
    bg: Style,
    x0: int,
    y: int,
    k: int,
    upto: int,
)
    requires
        0 < k,
        0 <= x0,
        x0 + k <= cols,
        cols <= usize::MAX,
        0 <= y < rows,
        rows <= usize::MAX,
        back.len() == cols * rows,
        front.len() == cols * rows,
        pen.at == Cursor::Invalid,
        forall|i: int|
            0 <= i < back.len() ==> if offset_of(cols, x0, y) <= i < offset_of(cols, x0, y) + k {
                #[trigger] back[i] != front[i] && back[i].fg == fg && back[i].bg == bg
            } else {
                back[i] == front[i]
            },
        offset_of(cols, x0, y) < upto <= back.len(),
    ensures
        render_cells(d, back, front, cols, pen, upto) == ({
            let a = offset_of(cols, x0, y);
            let n = if upto < a + k {
                upto - a
            } else {
                k
            };
            match run_lead(d, pen, fg, bg, x0, y) {
                Ok(lead) => Ok::<(Seq<u8>, Pen), Error>(
                    (
                        lead + run_bytes(back, a, n),
                        Pen { fg, bg, at: Cursor::Valid((x0 + n - 1) as usize, y as usize) },
                    ),
                ),
                Err(e) => Err(e),
            }
        }),
    decreases upto,
{
    let a = offset_of(cols, x0, y);
    let i = upto - 1;
    let cell = back[i];
    let lead = run_lead(d, pen, fg, bg, x0, y);
    lemma_offset_order(cols, rows, x0, y, 0, rows);
    if i == a {
        assert(i % cols == x0 && i / cols == y) by {
            lemma_offset_cover(cols, rows, a);
            lemma_offset_injective(cols, x0, y, a % cols, a / cols);
        }
        assert(render_cells(d, back, front, cols, pen, a) == Ok::<(Seq<u8>, Pen), Error>(
            (Seq::empty(), pen),
        )) by {
            lemma_render_prefix(d, back, front, back, back, cols, pen, a);
            lemma_render_equal_is_silent(d, back, cols, pen, a);
        }
        lemma_run_first(d, pen, x0, y, cell);
        assert(run_bytes(back, a, 1) =~= encode_scalar(cell.ch as u32)) by {
            assert(run_bytes(back, a, 0) =~= Seq::<u8>::empty());
        }
        if let Ok(l) = lead {
            assert(Seq::<u8>::empty() + (l + encode_scalar(cell.ch as u32)) =~= l + run_bytes(
                back,
                a,
                1,
            ));
        }
    } else {
        lemma_render_run(d, back, front, cols, rows, pen, fg, bg, x0, y, k, upto - 1);
        if i < a + k {
            let j = i - a;
            assert(i % cols == x0 + j && i / cols == y) by {
                lemma_offset_order(cols, rows, x0 + j, y, 0, rows);
                lemma_offset_cover(cols, rows, i);
                lemma_offset_injective(cols, x0 + j, y, i % cols, i / cols);
            }
            let before = Pen { fg, bg, at: Cursor::Valid((x0 + j - 1) as usize, y as usize) };
            lemma_run_next(d, before, x0 + j, y, cell);
            if let Ok(l) = lead {
                assert((l + run_bytes(back, a, j)) + encode_scalar(cell.ch as u32) =~= l
                    + run_bytes(back, a, j + 1));
            }
        }
    }
}

} // verus!
