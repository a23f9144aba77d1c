//! The terminal: two cell buffers, the bytes waiting to be written, and the
//! events waiting to be read.
//!
//! A `Terminal` does no input or output of its own. What it wants written to
//! the device it hands out as bytes, and what was read from the device it
//! takes as bytes.

use vstd::prelude::*;
use std::collections::VecDeque;
use crate::cell::{Cell, Style};
use crate::cellbuffer::{offset_of, resized_cells, CellBuffer};
use crate::cursor::Cursor;
use crate::driver::{
    lemma_plain_resolution, slot_parameterized, slot_required, DevFn, Driver, MAX_COORD,
};
use crate::error::{spec_from_char_stream, Error, TtyError};
use crate::input::{decode, Event, KeyBinding, KeyTable};
use crate::position::{HasSize, Size};
use crate::render::{emit, lemma_render_equal_is_silent, render, render_cells, Pen};
use crate::status::StatusFlag;
use crate::time::Timeout;
use crate::ui::accessor::CellAccessor;
use vstd::std_specs::convert::FromSpec;

verus! {

/// What a terminal holds, as plain values.
pub struct TerminalView {
    /// The capability table.
    pub driver: Driver,
    /// The key table.
    pub keys: Seq<KeyBinding>,
    /// The width of both buffers.
    pub cols: nat,
    /// The height of both buffers.
    pub rows: nat,
    /// The working state that the caller draws on, in row-major order.
    pub back: Seq<Cell>,
    /// What the device was last brought to show.
    pub front: Seq<Cell>,
    /// The bytes that wait to be written to the device.
    pub output: Seq<u8>,
    /// The events that wait to be read, oldest first.
    pub events: Seq<Event>,
    /// Where the caller wants the cursor; `Invalid` hides it.
    pub cursor: Cursor,
    /// The foreground style that the device was last told.
    pub fg: Style,
    /// The background style that the device was last told.
    pub bg: Style,
    /// Whether the window changed its size since the buffers were sized.
    pub resized: bool,
}

impl TerminalView {
    /// Both buffers have the size that the view states, the size is one
    /// that a window can have, and the capability table is whole.
    pub open spec fn wf(self) -> bool {
        &&& self.driver.wf()
        &&& self.cols <= MAX_COORD
        &&& self.rows <= MAX_COORD
        &&& self.back.len() == self.cols * self.rows
        &&& self.front.len() == self.cols * self.rows
    }

    /// What is known of the device when a redraw begins: the styles last
    /// told, and nothing of the cursor.
    pub open spec fn pen(self) -> Pen {
        Pen { fg: self.fg, bg: self.bg, at: Cursor::Invalid }
    }

    /// The cell of the working buffer in column `x` and row `y`.
    pub open spec fn at(self, x: int, y: int) -> Cell {
        self.back[offset_of(self.cols as int, x, y)]
    }

    /// Whether `(x, y)` names a cell of the terminal.
    pub open spec fn in_bounds(self, x: int, y: int) -> bool {
        0 <= x < self.cols && 0 <= y < self.rows
    }
}

/// The bytes of a display function that takes no parameters and that every
/// capability table holds.
pub open spec fn plain(d: &Driver, dfn: DevFn) -> Seq<u8> {
    match d.template(dfn.spec_slot()) {
        Some(t) => t,
        None => Seq::empty(),
    }
}

/// The bytes that clear the screen with all attributes off.
pub open spec fn clear_bytes(d: &Driver) -> Seq<u8> {
    plain(d, DevFn::Reset) + plain(d, DevFn::Clear)
}

/// The bytes that a new terminal has waiting: enter the alternate screen,
/// hide the cursor, clear the screen.
pub open spec fn startup_bytes(d: &Driver) -> Seq<u8> {
    plain(d, DevFn::EnterCa) + plain(d, DevFn::HideCursor) + clear_bytes(d)
}

/// The bytes that give the device back: show the cursor, switch the
/// attributes off, clear the screen, leave the alternate screen.
pub open spec fn teardown_bytes(d: &Driver) -> Seq<u8> {
    plain(d, DevFn::ShowCursor) + plain(d, DevFn::Reset) + plain(d, DevFn::Clear) + plain(
        d,
        DevFn::ExitCa,
    )
}

/// The state of a new terminal of the given size.
pub open spec fn spec_new(driver: Driver, keys: Seq<KeyBinding>, cols: int, rows: int) -> TerminalView {
    TerminalView {
        driver,
        keys,
        cols: cols as nat,
        rows: rows as nat,
        back: Seq::new((cols * rows) as nat, |i: int| Cell::spec_default()),
        front: Seq::new((cols * rows) as nat, |i: int| Cell::spec_default()),
        output: startup_bytes(&driver),
        events: Seq::empty(),
        cursor: Cursor::Invalid,
        fg: Style::spec_default(),
        bg: Style::spec_default(),
        resized: false,
    }
}

/// The state after the screen was told to clear itself: the bytes for it
/// wait to be written, and the device is in its default styles.
pub open spec fn spec_send_clear(v: TerminalView) -> TerminalView {
    TerminalView {
        output: v.output + clear_bytes(&v.driver),
        fg: Style::spec_default(),
        bg: Style::spec_default(),
        ..v
    }
}

/// The state after the buffers were brought to the size of the window: the
/// working buffer keeps what fits, the buffer of what is shown is blank
/// throughout, and the bytes that clear the screen wait to be written.
pub open spec fn spec_resize(v: TerminalView, cols: int, rows: int) -> TerminalView {
    spec_send_clear(
        TerminalView {
            cols: cols as nat,
            rows: rows as nat,
            back: resized_cells(
                v.back,
                v.cols as int,
                v.rows as int,
                cols,
                rows,
                Cell::spec_default(),
            ),
            front: Seq::new((cols * rows) as nat, |i: int| Cell::spec_default()),
            resized: false,
            ..v
        },
    )
}

/// The state after a pending change of the window's size, if there is one,
/// was taken up.
pub open spec fn spec_try_resize(v: TerminalView, cols: int, rows: int) -> TerminalView {
    if v.resized {
        spec_resize(v, cols, rows)
    } else {
        v
    }
}

/// The bytes that bring the device from what it shows to the working
/// state: every cell that differs, in row-major order, then the cursor at
/// its place if it is to be seen; and what is known of the device after
/// the cells.
pub open spec fn spec_redraw(v: TerminalView) -> Result<(Seq<u8>, Pen), Error> {
    match render_cells(&v.driver, v.back, v.front, v.cols as int, v.pen(), v.back.len() as int) {
        Err(e) => Err(e),
        Ok((cells, pen)) => match v.cursor {
            Cursor::Invalid => Ok((cells, pen)),
            Cursor::Valid(x, y) => match v.driver.spec_get(DevFn::SetCursor(x, y)) {
                Ok(bytes) => Ok((cells + bytes, pen)),
                Err(e) => Err(e),
            },
        },
    }
}

/// The state after a redraw whose bytes were handed out: the device shows
/// the working state, and nothing waits to be written.
pub open spec fn spec_after_redraw(v: TerminalView, pen: Pen) -> TerminalView {
    TerminalView { front: v.back, output: Seq::empty(), fg: pen.fg, bg: pen.bg, ..v }
}

/// The bytes that tell the device of a change of the cursor's visibility:
/// show it when it comes into view, hide it when it goes.
pub open spec fn cursor_bytes(d: &Driver, from: Cursor, to: Cursor) -> Seq<u8> {
    if from == Cursor::Invalid && to != Cursor::Invalid {
        plain(d, DevFn::ShowCursor)
    } else if from != Cursor::Invalid && to == Cursor::Invalid {
        plain(d, DevFn::HideCursor)
    } else {
        Seq::empty()
    }
}

/// The state after a run of input bytes was read from the device: its
/// events wait behind those that waited already. Bytes that cannot be
/// decoded leave no event at all.
pub open spec fn spec_push_input(v: TerminalView, bytes: Seq<u8>) -> Result<TerminalView, Error> {
    match decode(v.keys, bytes) {
        Ok(events) => Ok(TerminalView { events: v.events + events, ..v }),
        Err(e) => Err(spec_from_char_stream(e)),
    }
}

/// How one wait for input on the device ended.
#[derive(Debug)]
pub enum Wait {
    /// The device had input, and these bytes were read from it.
    Ready(Vec<u8>),
    /// The time ran out with no input.
    TimedOut,
    /// A signal cut the wait short, this long after the first wait began.
    Interrupted(Timeout),
    /// The wait or the read failed.
    Failed(TtyError),
}

/// What to do after a wait for input.
#[derive(Debug, Copy, Clone, PartialEq, Eq, Structural)]
pub enum ReadStep {
    /// Reading is done; this many events were added.
    Done(usize),
    /// Wait again, for this long at most; `None` waits without limit.
    Again(Option<Timeout>),
}

/// The time that is left of a timeout after `elapsed` has passed. A wait
/// without limit stays without limit.
pub open spec fn spec_remaining(timeout: Option<Timeout>, elapsed: Timeout) -> Option<int> {
    match timeout {
        Some(t) => Some(
            if t.total_nanos() >= elapsed.total_nanos() {
                t.total_nanos() - elapsed.total_nanos()
            } else {
                0
            },
        ),
        None => None,
    }
}

/// The events that were taken out of a terminal in one go, oldest first.
#[derive(Debug)]
pub struct PollEvents(pub VecDeque<Event>);

/// The events that were taken out of a terminal after a wait, oldest first.
#[derive(Debug)]
pub struct WaitEvents(pub VecDeque<Event>);

impl PollEvents {
    /// Takes the oldest event, if one is left.
    pub fn next(&mut self) -> (e: Option<Event>)
        ensures
            match e {
                Some(event) => old(self).0@.len() > 0 && event == old(self).0@[0] && final(self).0@
                    == old(self).0@.drop_first(),
                None => old(self).0@.len() == 0 && final(self).0@ == old(self).0@,
            },
    {
        let e = self.0.pop_front();
        proof {
            if e.is_some() {
                assert(old(self).0@.subrange(1, old(self).0@.len() as int) =~= old(
                    self,
                ).0@.drop_first());
            }
        }
        e
    }
}

impl WaitEvents {
    /// Takes the oldest event, if one is left.
    pub fn next(&mut self) -> (e: Option<Event>)
        ensures
            match e {
                Some(event) => old(self).0@.len() > 0 && event == old(self).0@[0] && final(self).0@
                    == old(self).0@.drop_first(),
                None => old(self).0@.len() == 0 && final(self).0@ == old(self).0@,
            },
    {
        let e = self.0.pop_front();
        proof {
            if e.is_some() {
                assert(old(self).0@.subrange(1, old(self).0@.len() as int) =~= old(
                    self,
                ).0@.drop_first());
            }
        }
        e
    }
}

/// The two buffers of a terminal, which always have one size.
struct Buffers {
    back: CellBuffer,
    front: CellBuffer,
}

impl Buffers {
    #[verifier::type_invariant]
    spec fn inv(self) -> bool {
        &&& self.back.wf()
        &&& self.front.wf()
        &&& self.front.spec_cols() == self.back.spec_cols()
        &&& self.front.spec_rows() == self.back.spec_rows()
        &&& self.back.spec_cols() <= MAX_COORD
        &&& self.back.spec_rows() <= MAX_COORD
    }
}

/// A terminal window: the working buffer that the caller draws on, the
/// buffer of what the device shows, the bytes that wait to be written and
/// the events that wait to be read.
pub struct Terminal {
    driver: Driver,
    keys: KeyTable,
    buffers: Buffers,
    outbuffer: Vec<u8>,
    eventbuffer: VecDeque<Event>,
    cursor: Cursor,
    foreground: Style,
    background: Style,
    sigwinch: StatusFlag,
}

impl View for Terminal {
    type V = TerminalView;

    closed spec fn view(&self) -> TerminalView {
        TerminalView {
            driver: self.driver,
            keys: self.keys.bindings@,
            cols: self.buffers.back.spec_cols(),
            rows: self.buffers.back.spec_rows(),
            back: self.buffers.back@,
            front: self.buffers.front@,
            output: self.outbuffer@,
            events: self.eventbuffer@,
            cursor: self.cursor,
            fg: self.foreground,
            bg: self.background,
            resized: self.sigwinch.value,
        }
    }
}

/// Appends the bytes of a display function that takes no parameters and
/// that every capability table holds.
fn queue(d: &Driver, out: &mut Vec<u8>, dfn: DevFn)
    requires
        slot_required(dfn.spec_slot()),
        !slot_parameterized(dfn.spec_slot()),
    ensures
        d.wf(),
        final(out)@ == old(out)@ + plain(d, dfn),
{
    let sent = emit(d, out, dfn);
    proof {
        lemma_plain_resolution(d, dfn);
    }
    assert(sent.is_ok());
}

impl Terminal {
    #[verifier::type_invariant]
    closed spec fn inv(self) -> bool {
        &&& self.buffers.inv()
        &&& self.driver.wf()
    }

    /// The working buffer as a grid.
    pub closed spec fn back(&self) -> CellBuffer {
        self.buffers.back
    }

    /// A terminal of the given size over a capability table and a key
    /// table, for the one who holds no terminal yet.
    ///
    /// `live` says whether a terminal is live. If one is, this fails with
    /// the error of the state stage and changes nothing. If none is, `live`
    /// is set, and the new terminal has blank buffers and, waiting to be
    /// written, the bytes that enter the alternate screen, hide the cursor
    /// and clear the screen.
    pub fn new(live: &mut StatusFlag, driver: Driver, keys: KeyTable, cols: u16, rows: u16) -> (r:
        Result<Terminal, Error>)
        ensures
            match old(live).spec_acquire() {
                Ok(held) => {
                    &&& *final(live) == held
                    &&& r matches Ok(t)
                    &&& t@ == spec_new(driver, keys.bindings@, cols as int, rows as int)
                    &&& t@.wf()
                },
                Err(e) => {
                    &&& *final(live) == *old(live)
                    &&& r matches Err(f)
                    &&& f == e
                },
            },
    {
        match live.acquire() {
            Err(e) => {
                return Err(e);
            },
            Ok(()) => {},
        }
        assert(cols * rows <= usize::MAX) by (nonlinear_arith)
            requires
                cols <= 0xFFFF,
                rows <= 0xFFFF,
                usize::MAX >= 0xFFFF_FFFF,
        ;
        let mut outbuffer: Vec<u8> = Vec::new();
        queue(&driver, &mut outbuffer, DevFn::EnterCa);
        queue(&driver, &mut outbuffer, DevFn::HideCursor);
        queue(&driver, &mut outbuffer, DevFn::Reset);
        queue(&driver, &mut outbuffer, DevFn::Clear);
        assert(outbuffer@ =~= startup_bytes(&driver));
        let t = Terminal {
            driver,
            keys,
            buffers: Buffers {
                back: CellBuffer::new(cols as usize, rows as usize, Cell::default()),
                front: CellBuffer::new(cols as usize, rows as usize, Cell::default()),
            },
            outbuffer,
            eventbuffer: VecDeque::new(),
            cursor: Cursor::Invalid,
            foreground: Style::default(),
            background: Style::default(),
            sigwinch: StatusFlag::new(),
        };
        assert(t@.events =~= Seq::<Event>::empty());
        Ok(t)
    }

    /// The width of the terminal in columns.
    pub fn cols(&self) -> (c: usize)
        ensures
            c == self@.cols,
            self@.wf(),
    {
        proof {
            use_type_invariant(self);
            use_type_invariant(&self.buffers);
        }
        self.buffers.back.cols()
    }

    /// The height of the terminal in rows.
    pub fn rows(&self) -> (r: usize)
        ensures
            r == self@.rows,
            self@.wf(),
    {
        proof {
            use_type_invariant(self);
            use_type_invariant(&self.buffers);
        }
        self.buffers.back.rows()
    }

    /// The size of the terminal as `(cols, rows)`.
    pub fn size(&self) -> (s: (usize, usize))
        ensures
            s.0 == self@.cols,
            s.1 == self@.rows,
            self@.wf(),
    {
        proof {
            use_type_invariant(self);
            use_type_invariant(&self.buffers);
        }
        self.buffers.back.size()
    }

    /// The working buffer, for reading.
    pub fn panel(&self) -> (b: &CellBuffer)
        ensures
            self@.wf(),
            *b == self.back(),
            b.wf(),
            b@ == self@.back,
            b.spec_cols() == self@.cols,
            b.spec_rows() == self@.rows,
    {
        proof {
            use_type_invariant(self);
            use_type_invariant(&self.buffers);
        }
        &self.buffers.back
    }

    /// The cell of the working buffer in column `x` and row `y`, or `None`
    /// where the terminal has no such cell.
    pub fn get(&self, x: usize, y: usize) -> (r: Option<&Cell>)
        ensures
            self@.wf(),
            match r {
                Some(c) => self@.in_bounds(x as int, y as int) && *c == self@.at(x as int, y as int),
                None => !self@.in_bounds(x as int, y as int),
            },
    {
        proof {
            use_type_invariant(self);
            use_type_invariant(&self.buffers);
        }
        self.buffers.back.get(x, y)
    }

    /// A mutable reference to the cell of the working buffer in column `x`
    /// and row `y`, or `None` where the terminal has no such cell. Writing
    /// through the reference changes that cell and nothing else.
    pub fn get_mut(&mut self, x: usize, y: usize) -> (r: Option<&mut Cell>)
        ensures
            old(self)@.wf(),
            match r {
                Some(c) => {
                    &&& old(self)@.in_bounds(x as int, y as int)
                    &&& *c == old(self)@.at(x as int, y as int)
                    &&& final(self)@ == (TerminalView {
                        back: old(self)@.back.update(
                            offset_of(old(self)@.cols as int, x as int, y as int),
                            *final(c),
                        ),
                        ..old(self)@
                    })
                },
                None => !old(self)@.in_bounds(x as int, y as int) && final(self)@ == old(self)@,
            },
    {
        proof {
            use_type_invariant(&*self);
            use_type_invariant(&self.buffers);
        }
        self.buffers.back.get_mut(x, y)
    }

    /// Puts `cell` into column `x` and row `y` of the working buffer. Where
    /// the terminal has no such cell, nothing happens.
    pub fn set_cell(&mut self, x: usize, y: usize, cell: Cell)
        ensures
            old(self)@.wf(),
            final(self)@.wf(),
            final(self)@ == if old(self)@.in_bounds(x as int, y as int) {
                TerminalView {
                    back: old(self)@.back.update(
                        offset_of(old(self)@.cols as int, x as int, y as int),
                        cell,
                    ),
                    ..old(self)@
                }
            } else {
                old(self)@
            },
    {
        proof {
            use_type_invariant(&*self);
            use_type_invariant(&self.buffers);
        }
        match self.buffers.back.get_mut(x, y) {
            Some(c) => {
                *c = cell;
            },
            None => {},
        }
    }

    /// Makes every cell of the working buffer hold `cell`, so that the next
    /// redraw brings the whole screen to it. Nothing is written.
    pub fn clear(&mut self, cell: Cell)
        ensures
            old(self)@.wf(),
            final(self)@.wf(),
            final(self)@ == (TerminalView {
                back: Seq::new(old(self)@.back.len(), |i: int| cell),
                ..old(self)@
            }),
    {
        proof {
            use_type_invariant(&*self);
            use_type_invariant(&self.buffers);
        }
        self.buffers.back.clear(cell);
    }

    /// Where the caller wants the cursor.
    pub fn cursor(&self) -> (c: Cursor)
        ensures
            c == self@.cursor,
    {
        self.cursor
    }

    /// Takes the bytes that wait to be written out of the terminal.
    fn take_output(&mut self) -> (out: Vec<u8>)
        ensures
            out@ == old(self)@.output,
            final(self)@ == (TerminalView { output: Seq::empty(), ..old(self)@ }),
            old(self)@.wf(),
    {
        proof {
            use_type_invariant(&*self);
            use_type_invariant(&self.buffers);
        }
        let mut out: Vec<u8> = Vec::new();
        std::mem::swap(&mut self.outbuffer, &mut out);
        out
    }

    /// Hands out the bytes that wait to be written to the device, all at
    /// once, and keeps none of them.
    pub fn flush(&mut self) -> (out: Vec<u8>)
        ensures
            out@ == old(self)@.output,
            final(self)@ == (TerminalView { output: Seq::empty(), ..old(self)@ }),
    {
        self.take_output()
    }

    /// Sets where the caller wants the cursor; `Cursor::Invalid` hides it.
    /// A cursor that comes into view or goes out of it has the bytes that
    /// show or hide it put with those that wait to be written.
    pub fn set_cursor(&mut self, c: Cursor)
        ensures
            final(self)@ == (TerminalView {
                cursor: c,
                output: old(self)@.output + cursor_bytes(&old(self)@.driver, old(self)@.cursor, c),
                ..old(self)@
            }),
    {
        let mut out = self.take_output();
        proof {
            use_type_invariant(&*self);
        }
        let ghost before = out@;
        if !self.cursor.is_valid() && c.is_valid() {
            queue(&self.driver, &mut out, DevFn::ShowCursor);
        } else if self.cursor.is_valid() && !c.is_valid() {
            queue(&self.driver, &mut out, DevFn::HideCursor);
        } else {
            assert(out@ =~= before + Seq::<u8>::empty());
        }
        self.outbuffer = out;
        self.cursor = c;
    }

    /// Records that the window changed its size. The buffers are sized
    /// anew when this is next taken up.
    pub fn signal_resize(&mut self)
        ensures
            final(self)@ == (TerminalView { resized: true, ..old(self)@ }),
    {
        proof {
            use_type_invariant(&*self);
        }
        self.sigwinch = StatusFlag { value: true };
    }

    /// Whether the window changed its size since the buffers were sized.
    pub fn resize_pending(&self) -> (b: bool)
        ensures
            b == self@.resized,
    {
        self.sigwinch.load()
    }

    /// Puts the bytes that clear the screen, with all attributes off, with
    /// those that wait to be written.
    pub fn send_clear(&mut self)
        ensures
            final(self)@ == spec_send_clear(old(self)@),
    {
        let mut out = self.take_output();
        proof {
            use_type_invariant(&*self);
        }
        queue(&self.driver, &mut out, DevFn::Reset);
        queue(&self.driver, &mut out, DevFn::Clear);
        assert(out@ =~= old(self)@.output + clear_bytes(&self.driver));
        self.outbuffer = out;
        self.foreground = Style::default();
        self.background = Style::default();
    }

    /// Brings both buffers to the size of the window. The working buffer
    /// keeps what fits and is blank elsewhere; the buffer of what is shown
    /// is blank throughout, the screen is told to clear itself, and a
    /// pending change of size counts as taken up.
    pub fn resize(&mut self, cols: u16, rows: u16)
        ensures
            old(self)@.wf(),
            final(self)@.wf(),
            final(self)@ == spec_resize(old(self)@, cols as int, rows as int),
    {
        proof {
            use_type_invariant(&*self);
            use_type_invariant(&self.buffers);
        }
        assert(cols * rows <= usize::MAX) by (nonlinear_arith)
            requires
                cols <= 0xFFFF,
                rows <= 0xFFFF,
                usize::MAX >= 0xFFFF_FFFF,
        ;
        let back = self.buffers.back.resized(cols as usize, rows as usize, Cell::default());
        let front = CellBuffer::new(cols as usize, rows as usize, Cell::default());
        self.buffers = Buffers { back, front };
        self.sigwinch = StatusFlag { value: false };
        self.send_clear();
    }

    /// Takes up a pending change of the window's size: if there is one,
    /// brings the buffers to the size `window`, given as `(cols, rows)`,
    /// and returns the new size; else does nothing and returns `None`.
    pub fn try_resize(&mut self, window: (u16, u16)) -> (r: Option<(usize, usize)>)
        ensures
            old(self)@.wf(),
            final(self)@.wf(),
            final(self)@ == spec_try_resize(old(self)@, window.0 as int, window.1 as int),
            r == if old(self)@.resized {
                Some((window.0 as usize, window.1 as usize))
            } else {
                None::<(usize, usize)>
            },
    {
        proof {
            use_type_invariant(&*self);
            use_type_invariant(&self.buffers);
        }
        if self.sigwinch.load() {
            self.resize(window.0, window.1);
            Some((window.0 as usize, window.1 as usize))
        } else {
            None
        }
    }

    /// Brings the device to the working state and hands out the bytes to
    /// write for it.
    ///
    /// A pending change of the window's size is taken up first, with
    /// `window` as the size that the device reports now. Then every cell in
    /// which the working buffer differs from what the device shows is
    /// redrawn, in row-major order; cells that do not differ give no byte.
    /// If the cursor is to be seen, it is put at its place last. The result
    /// holds these bytes after those that were waiting, and the terminal
    /// keeps none; what the device shows is then the working state.
    ///
    /// Fails where a sequence cannot be had; the redraw is then not done
    /// at all.
    pub fn swap(&mut self, window: (u16, u16)) -> (r: Result<Vec<u8>, Error>)
        ensures
            old(self)@.wf(),
            final(self)@.wf(),
            match spec_redraw(spec_try_resize(old(self)@, window.0 as int, window.1 as int)) {
                Ok((bytes, pen)) => {
                    &&& r matches Ok(out)
                    &&& out@ == spec_try_resize(
                        old(self)@,
                        window.0 as int,
                        window.1 as int,
                    ).output + bytes
                    &&& final(self)@ == spec_after_redraw(
                        spec_try_resize(old(self)@, window.0 as int, window.1 as int),
                        pen,
                    )
                },
                Err(e) => {
                    &&& r matches Err(f)
                    &&& f == e
                    &&& final(self)@ == spec_try_resize(old(self)@, window.0 as int, window.1 as int)
                },
            },
    {
        self.try_resize(window);
        proof {
            use_type_invariant(&*self);
            use_type_invariant(&self.buffers);
        }
        let ghost mid = self@;
        let pen = Pen { fg: self.foreground, bg: self.background, at: Cursor::Invalid };
        let (mut bytes, pen) = match render(
            &self.driver,
            &self.buffers.back,
            &self.buffers.front,
            pen,
        ) {
            Ok(done) => done,
            Err(e) => {
                return Err(e);
            },
        };
        match self.cursor {
            Cursor::Valid(x, y) => {
                match emit(&self.driver, &mut bytes, DevFn::SetCursor(x, y)) {
                    Ok(()) => {},
                    Err(e) => {
                        return Err(e);
                    },
                }
            },
            Cursor::Invalid => {},
        }
        self.buffers.front.copy_from(&self.buffers.back);
        self.foreground = pen.fg;
        self.background = pen.bg;
        let mut out = self.take_output();
        out.append(&mut bytes);
        Ok(out)
    }

    /// Brings the device to the working state, as `swap` does.
    pub fn refresh(&mut self, window: (u16, u16)) -> (r: Result<Vec<u8>, Error>)
        ensures
            old(self)@.wf(),
            final(self)@.wf(),
            match spec_redraw(spec_try_resize(old(self)@, window.0 as int, window.1 as int)) {
                Ok((bytes, pen)) => {
                    &&& r matches Ok(out)
                    &&& out@ == spec_try_resize(
                        old(self)@,
                        window.0 as int,
                        window.1 as int,
                    ).output + bytes
                    &&& final(self)@ == spec_after_redraw(
                        spec_try_resize(old(self)@, window.0 as int, window.1 as int),
                        pen,
                    )
                },
                Err(e) => {
                    &&& r matches Err(f)
                    &&& f == e
                    &&& final(self)@ == spec_try_resize(old(self)@, window.0 as int, window.1 as int)
                },
            },
    {
        self.swap(window)
    }

    /// Takes the events that wait to be read out of the terminal.
    fn take_events(&mut self) -> (events: VecDeque<Event>)
        ensures
            events@ == old(self)@.events,
            final(self)@ == (TerminalView { events: Seq::empty(), ..old(self)@ }),
    {
        proof {
            use_type_invariant(&*self);
        }
        let mut events: VecDeque<Event> = VecDeque::new();
        std::mem::swap(&mut self.eventbuffer, &mut events);
        events
    }

    /// Puts an event behind those that wait to be read.
    pub fn push_event(&mut self, event: Event)
        ensures
            final(self)@ == (TerminalView { events: old(self)@.events.push(event), ..old(self)@ }),
    {
        let mut events = self.take_events();
        events.push_back(event);
        proof {
            use_type_invariant(&*self);
        }
        self.eventbuffer = events;
    }

    /// Takes in a run of bytes that were read from the device: decodes
    /// them into events and puts these, in the order of arrival, behind
    /// those that wait to be read. Returns how many events that made.
    ///
    /// Fails with an error of the encoding stage, and adds no event, where
    /// the bytes cannot be decoded.
    pub fn push_input(&mut self, bytes: &Vec<u8>) -> (r: Result<usize, Error>)
        ensures
            match spec_push_input(old(self)@, bytes@) {
                Ok(v) => r == Ok::<usize, Error>((v.events.len() - old(self)@.events.len()) as usize)
                    && final(self)@ == v,
                Err(e) => r == Err::<usize, Error>(e) && final(self)@ == old(self)@,
            },
    {
        let decoded = self.keys.decode(bytes);
        match decoded {
            Err(e) => Err(Error::from_char_stream(e)),
            Ok(new) => {
                let mut events = self.take_events();
                let ghost before = events@;
                let n = new.len();
                let mut i: usize = 0;
                while i < n
                    invariant
                        i <= n,
                        n == new@.len(),
                        events@ == before + new@.subrange(0, i as int),
                    decreases n - i,
                {
                    events.push_back(new[i]);
                    assert(new@.subrange(0, i as int).push(new@[i as int]) =~= new@.subrange(
                        0,
                        i + 1,
                    ));
                    i += 1;
                }
                assert(new@.subrange(0, n as int) =~= new@);
                proof {
                    use_type_invariant(&*self);
                }
                self.eventbuffer = events;
                Ok(n)
            },
        }
    }

    /// Takes the oldest of the events that wait to be read, if there is
    /// one.
    pub fn poll_event(&mut self) -> (e: Option<Event>)
        ensures
            match e {
                Some(event) => {
                    &&& old(self)@.events.len() > 0
                    &&& event == old(self)@.events[0]
                    &&& final(self)@ == (TerminalView {
                        events: old(self)@.events.drop_first(),
                        ..old(self)@
                    })
                },
                None => old(self)@.events.len() == 0 && final(self)@ == old(self)@,
            },
    {
        let mut events = self.take_events();
        let e = events.pop_front();
        proof {
            use_type_invariant(&*self);
            if e.is_some() {
                assert(old(self)@.events.subrange(1, old(self)@.events.len() as int) =~= old(
                    self,
                )@.events.drop_first());
            }
        }
        self.eventbuffer = events;
        e
    }

    /// Takes all the events that wait to be read.
    pub fn poll_events(&mut self) -> (events: PollEvents)
        ensures
            events.0@ == old(self)@.events,
            final(self)@ == (TerminalView { events: Seq::empty(), ..old(self)@ }),
    {
        PollEvents(self.take_events())
    }

    /// Takes all the events that wait to be read, after the caller has
    /// waited for input.
    pub fn wait_events(&mut self) -> (events: WaitEvents)
        ensures
            events.0@ == old(self)@.events,
            final(self)@ == (TerminalView { events: Seq::empty(), ..old(self)@ }),
    {
        WaitEvents(self.take_events())
    }

    /// Takes in how a wait for input ended, and says what to do next.
    ///
    /// `timeout` is the time that the caller was ready to wait when the
    /// first wait began. Input that was read is decoded and its events are
    /// put behind those that wait to be read. A wait that a signal cut
    /// short is to be taken up again for the time that is left; if the
    /// window changed its size meanwhile, a `Resize` event is put behind
    /// the events that wait. A wait whose time ran out adds nothing.
    pub fn read_events(&mut self, timeout: Option<Timeout>, outcome: Wait) -> (r: Result<
        ReadStep,
        Error,
    >)
        ensures
            match outcome {
                Wait::Ready(bytes) => match spec_push_input(old(self)@, bytes@) {
                    Ok(v) => r == Ok::<ReadStep, Error>(
                        ReadStep::Done((v.events.len() - old(self)@.events.len()) as usize),
                    ) && final(self)@ == v,
                    Err(e) => r == Err::<ReadStep, Error>(e) && final(self)@ == old(self)@,
                },
                Wait::TimedOut => r == Ok::<ReadStep, Error>(ReadStep::Done(0)) && final(self)@
                    == old(self)@,
                Wait::Interrupted(elapsed) => {
                    &&& r matches Ok(ReadStep::Again(left))
                    &&& (match left {
                        Some(t) => Some(t.total_nanos()) == spec_remaining(timeout, elapsed),
                        None => timeout.is_none(),
                    })
                    &&& final(self)@ == if old(self)@.resized {
                        TerminalView { events: old(self)@.events.push(Event::Resize), ..old(self)@ }
                    } else {
                        old(self)@
                    }
                },
                Wait::Failed(e) => r == Err::<ReadStep, Error>(
                    <Error as FromSpec<TtyError>>::from_spec(e),
                ) && final(self)@ == old(self)@,
            },
    {
        match outcome {
            Wait::Ready(bytes) => {
                match self.push_input(&bytes) {
                    Ok(n) => Ok(ReadStep::Done(n)),
                    Err(e) => Err(e),
                }
            },
            Wait::TimedOut => Ok(ReadStep::Done(0)),
            Wait::Interrupted(elapsed) => {
                if self.resize_pending() {
                    self.push_event(Event::Resize);
                }
                let left = match timeout {
                    Some(t) => Some(t.saturating_sub(elapsed)),
                    None => None,
                };
                Ok(ReadStep::Again(left))
            },
            Wait::Failed(e) => Err(Error::from(e)),
        }
    }

    /// Gives the device back: hands out the bytes that were waiting and,
    /// after them, those that show the cursor, switch the attributes off,
    /// clear the screen and leave the alternate screen. `live` is cleared,
    /// so that a new terminal can be had.
    pub fn close(self, live: &mut StatusFlag) -> (out: Vec<u8>)
        ensures
            out@ == self@.output + teardown_bytes(&self@.driver),
            *final(live) == old(live).spec_release(),
    {
        let mut t = self;
        let mut out = t.take_output();
        queue(&t.driver, &mut out, DevFn::ShowCursor);
        queue(&t.driver, &mut out, DevFn::Reset);
        queue(&t.driver, &mut out, DevFn::Clear);
        queue(&t.driver, &mut out, DevFn::ExitCa);
        assert(out@ =~= self@.output + teardown_bytes(&self@.driver));
        live.release();
        out
    }
}

/// After a redraw, a second redraw with nothing drawn between gives no
/// byte at all, as long as the cursor is hidden and the window kept its
/// size: what the device shows is the working state already.
pub proof fn lemma_second_swap_is_silent(v: TerminalView, window: (int, int), again: (int, int))
    requires
        v.wf(),
        spec_redraw(spec_try_resize(v, window.0, window.1)).is_ok(),
        v.cursor == Cursor::Invalid,
    ensures
        ({
            let mid = spec_try_resize(v, window.0, window.1);
            let (_, pen) = spec_redraw(mid).unwrap();
            let shown = spec_after_redraw(mid, pen);
            &&& spec_try_resize(shown, again.0, again.1) == shown
            &&& shown.front == shown.back
            &&& spec_redraw(shown) matches Ok((bytes, _))
            &&& bytes == Seq::<u8>::empty()
            &&& shown.output + bytes == Seq::<u8>::empty()
        }),
{
    let mid = spec_try_resize(v, window.0, window.1);
    let (_, pen) = spec_redraw(mid).unwrap();
    let shown = spec_after_redraw(mid, pen);
    lemma_render_equal_is_silent(
        &shown.driver,
        shown.back,
        shown.cols as int,
        shown.pen(),
        shown.back.len() as int,
    );
    assert(shown.output + Seq::<u8>::empty() =~= Seq::<u8>::empty());
}

/// A redraw of a terminal that shows its working state already, with the
/// cursor hidden and no change of size pending, gives no byte.
pub proof fn lemma_redraw_of_shown_state_is_silent(v: TerminalView)
    requires
        v.front == v.back,
        v.cursor == Cursor::Invalid,
    ensures
        spec_redraw(v) == Ok::<(Seq<u8>, Pen), Error>((Seq::empty(), v.pen())),
{
    lemma_render_equal_is_silent(&v.driver, v.back, v.cols as int, v.pen(), v.back.len() as int);
}

/// Once the window has changed its size, taking that up gives both
/// buffers the size of the window and leaves the buffer of what is shown
/// blank throughout, so that the redraw that follows compares every cell
/// of the working buffer with a blank.
pub proof fn lemma_resize_takes_window_size(v: TerminalView, cols: int, rows: int)
    requires
        v.wf(),
        v.resized,
        0 <= cols <= MAX_COORD,
        0 <= rows <= MAX_COORD,
    ensures
        ({
            let sized = spec_try_resize(v, cols, rows);
            &&& sized.wf()
            &&& sized.cols == cols
            &&& sized.rows == rows
            &&& !sized.resized
            &&& forall|i: int|
                0 <= i < cols * rows ==> #[trigger] sized.front[i] == Cell::spec_default()
            &&& sized.output == v.output + clear_bytes(&v.driver)
        }),
{
    assert(0 <= cols * rows) by (nonlinear_arith)
        requires
            0 <= cols,
            0 <= rows,
    ;
}

impl HasSize for Terminal {
    open spec fn spec_size(&self) -> Size {
        (self@.cols as usize, self@.rows as usize)
    }

    fn size(&self) -> (s: Size) {
        Terminal::size(self)
    }
}

impl CellAccessor for Terminal {
    /// The working buffer.
    open spec fn grid(&self) -> CellBuffer {
        self.back()
    }

    fn dims(&self) -> (s: Size) {
        proof {
            use_type_invariant(self);
            use_type_invariant(&self.buffers);
        }
        self.buffers.back.size()
    }

    fn cellvec(&self) -> (v: &Vec<Cell>) {
        self.buffers.back.cells()
    }

    fn clear(&mut self, blank: Cell) {
        proof {
            use_type_invariant(&*self);
            use_type_invariant(&self.buffers);
        }
        self.buffers.back.clear(blank);
    }

    fn pos_to_index(&self, x: usize, y: usize) -> (r: Option<usize>) {
        self.buffers.back.pos_to_index(x, y)
    }

    fn get(&self, x: usize, y: usize) -> (r: Option<&Cell>) {
        proof {
            use_type_invariant(self);
            use_type_invariant(&self.buffers);
        }
        self.buffers.back.get(x, y)
    }

    fn get_mut(&mut self, x: usize, y: usize) -> (r: Option<&mut Cell>) {
        proof {
            use_type_invariant(&*self);
            use_type_invariant(&self.buffers);
        }
        self.buffers.back.get_mut(x, y)
    }

    fn set_cell(&mut self, x: usize, y: usize, cell: Cell) {
        proof {
            use_type_invariant(&*self);
            use_type_invariant(&self.buffers);
        }
        self.buffers.back.set_cell(x, y, cell);
    }
}

} // verus!
