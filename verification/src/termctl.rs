//! The mode of a terminal device: what raw mode changes in it, and what is
//! written back when the device is given up.

use vstd::prelude::*;

verus! {

/// The mode settings of a terminal device: the four words of mode flags and
/// the control characters.
#[derive(Debug, PartialEq, Eq)]
pub struct Termios {
    /// The input flags.
    pub c_iflag: u32,
    /// The output flags.
    pub c_oflag: u32,
    /// The control flags.
    pub c_cflag: u32,
    /// The local flags.
    pub c_lflag: u32,
    /// The control characters.
    pub c_cc: Vec<u8>,
}

/// The numbers that the platform gives to the mode flags and control
/// characters that raw mode touches.
#[derive(Debug, Copy, Clone, PartialEq, Eq, Structural)]
pub struct ModeBits {
    pub ignbrk: u32,
    pub brkint: u32,
    pub parmrk: u32,
    pub istrip: u32,
    pub inlcr: u32,
    pub igncr: u32,
    pub icrnl: u32,
    pub ixon: u32,
    pub opost: u32,
    pub echo: u32,
    pub echonl: u32,
    pub icanon: u32,
    pub isig: u32,
    pub iexten: u32,
    pub csize: u32,
    pub parenb: u32,
    pub cs8: u32,
    /// The index of the control character that holds the least number of
    /// bytes that a read waits for.
    pub vmin: usize,
    /// The index of the control character that holds the time that a read
    /// waits.
    pub vtime: usize,
}

/// The control characters that raw mode sets.
#[derive(Debug, Copy, Clone, PartialEq, Eq, Structural)]
pub enum ControlChar {
    /// The least number of bytes that a read waits for.
    VMIN,
    /// The time that a read waits.
    VTIME,
}

/// The size of a terminal window as the system reports it.
#[derive(Debug, Copy, Clone, PartialEq, Eq, Structural)]
pub struct WindowSize {
    pub ws_row: u16,
    pub ws_col: u16,
    pub ws_xpixel: u16,
    pub ws_ypixel: u16,
}

impl WindowSize {
    /// A window size of nothing.
    pub fn new() -> (ws: WindowSize)
        ensures
            ws == (WindowSize { ws_row: 0, ws_col: 0, ws_xpixel: 0, ws_ypixel: 0 }),
    {
        WindowSize { ws_row: 0, ws_col: 0, ws_xpixel: 0, ws_ypixel: 0 }
    }

    /// The size in cells as `(cols, rows)`.
    pub fn size(&self) -> (s: (usize, usize))
        ensures
            s == (self.ws_col as usize, self.ws_row as usize),
    {
        (self.ws_col as usize, self.ws_row as usize)
    }
}

impl ModeBits {
    /// The input flags that raw mode switches off: break handling, parity
    /// marking, stripping of the eighth bit, translation of carriage
    /// return and newline, and flow control.
    pub open spec fn input_mask(self) -> u32 {
        self.ignbrk | self.brkint | self.parmrk | self.istrip | self.inlcr | self.igncr | self.icrnl
            | self.ixon
    }

    /// The local flags that raw mode switches off: echo, line buffering,
    /// the keys that raise signals, and extended input processing.
    pub open spec fn local_mask(self) -> u32 {
        self.echo | self.echonl | self.icanon | self.isig | self.iexten
    }

    /// The control flags that raw mode switches off: the character size
    /// and parity.
    pub open spec fn control_mask(self) -> u32 {
        self.csize | self.parenb
    }

    /// The index of a control character.
    pub open spec fn spec_index(self, cc: ControlChar) -> usize {
        match cc {
            ControlChar::VMIN => self.vmin,
            ControlChar::VTIME => self.vtime,
        }
    }

    /// The index of a control character.
    pub fn index(&self, cc: ControlChar) -> (i: usize)
        ensures
            i == self.spec_index(cc),
    {
        match cc {
            ControlChar::VMIN => self.vmin,
            ControlChar::VTIME => self.vtime,
        }
    }
}

/// The control characters with the one at `index` set to `val`; nothing
/// changes where there is no such control character.
pub open spec fn cc_set(cc: Seq<u8>, index: usize, val: u8) -> Seq<u8> {
    if index < cc.len() {
        cc.update(index as int, val)
    } else {
        cc
    }
}

/// The raw mode that belongs to a mode: input is not translated, stripped
/// or flow-controlled; output is not processed; nothing is echoed, lines
/// are not buffered, no key raises a signal; characters have eight bits and
/// no parity; and a read neither waits for a number of bytes nor for a
/// time.
pub open spec fn raw_mode(orig: Termios, bits: ModeBits) -> (u32, u32, u32, u32, Seq<u8>) {
    (
        orig.c_iflag & !bits.input_mask(),
        orig.c_oflag & !bits.opost,
        (orig.c_cflag & !bits.control_mask()) | bits.cs8,
        orig.c_lflag & !bits.local_mask(),
        cc_set(cc_set(orig.c_cc@, bits.vmin, 0), bits.vtime, 0),
    )
}

impl Termios {
    /// The settings as plain values.
    pub open spec fn fields(&self) -> (u32, u32, u32, u32, Seq<u8>) {
        (self.c_iflag, self.c_oflag, self.c_cflag, self.c_lflag, self.c_cc@)
    }

    /// The input flags, to change them.
    pub fn iflags_mut(&mut self) -> (f: &mut u32)
        ensures
            *f == old(self).c_iflag,
            final(self).fields() == (
                *final(f),
                old(self).c_oflag,
                old(self).c_cflag,
                old(self).c_lflag,
                old(self).c_cc@,
            ),
    {
        &mut self.c_iflag
    }

    /// The output flags, to change them.
    pub fn oflags_mut(&mut self) -> (f: &mut u32)
        ensures
            *f == old(self).c_oflag,
            final(self).fields() == (
                old(self).c_iflag,
                *final(f),
                old(self).c_cflag,
                old(self).c_lflag,
                old(self).c_cc@,
            ),
    {
        &mut self.c_oflag
    }

    /// The local flags, to change them.
    pub fn lflags_mut(&mut self) -> (f: &mut u32)
        ensures
            *f == old(self).c_lflag,
            final(self).fields() == (
                old(self).c_iflag,
                old(self).c_oflag,
                old(self).c_cflag,
                *final(f),
                old(self).c_cc@,
            ),
    {
        &mut self.c_lflag
    }

    /// The control flags, to change them.
    pub fn cflags_mut(&mut self) -> (f: &mut u32)
        ensures
            *f == old(self).c_cflag,
            final(self).fields() == (
                old(self).c_iflag,
                old(self).c_oflag,
                *final(f),
                old(self).c_lflag,
                old(self).c_cc@,
            ),
    {
        &mut self.c_cflag
    }

    /// Sets the control character at `cc_idx` to `val`. Nothing changes
    /// where the settings have no such control character.
    pub fn set_cc(&mut self, cc_idx: usize, val: u8)
        ensures
            final(self).fields() == (
                old(self).c_iflag,
                old(self).c_oflag,
                old(self).c_cflag,
                old(self).c_lflag,
                cc_set(old(self).c_cc@, cc_idx, val),
            ),
    {
        if cc_idx < self.c_cc.len() {
            self.c_cc[cc_idx] = val;
        }
    }

    /// The raw mode that belongs to these settings.
    pub fn raw(&self, bits: &ModeBits) -> (t: Termios)
        ensures
            t.fields() == raw_mode(*self, *bits),
    {
        let mut tios = self.clone();
        tios.c_iflag = tios.c_iflag & !(bits.ignbrk | bits.brkint | bits.parmrk | bits.istrip
            | bits.inlcr | bits.igncr | bits.icrnl | bits.ixon);
        tios.c_oflag = tios.c_oflag & !bits.opost;
        tios.c_lflag = tios.c_lflag & !(bits.echo | bits.echonl | bits.icanon | bits.isig
            | bits.iexten);
        tios.c_cflag = tios.c_cflag & !(bits.csize | bits.parenb);
        tios.c_cflag = tios.c_cflag | bits.cs8;
        tios.set_cc(bits.index(ControlChar::VMIN), 0);
        tios.set_cc(bits.index(ControlChar::VTIME), 0);
        tios
    }
}

impl Clone for Termios {
    /// The same settings once more.
    fn clone(&self) -> (t: Termios)
        ensures
            t.fields() == self.fields(),
    {
        let c_cc = self.c_cc.clone();
        assert(c_cc@ =~= self.c_cc@);
        Termios {
            c_iflag: self.c_iflag,
            c_oflag: self.c_oflag,
            c_cflag: self.c_cflag,
            c_lflag: self.c_lflag,
            c_cc,
        }
    }
}

/// The keeper of a terminal device's mode: it holds the mode that the
/// device had at first, derives the raw mode from it, and gives the first
/// mode back unchanged when the device is given up.
#[derive(Debug)]
pub struct TermCtl {
    fd: i32,
    orig_tios: Termios,
}

impl TermCtl {
    /// The file descriptor of the device.
    pub closed spec fn spec_fd(&self) -> i32 {
        self.fd
    }

    /// The mode that the device had at first.
    pub closed spec fn orig(&self) -> Termios {
        self.orig_tios
    }

    /// A keeper for the device behind `fd`, which had the mode `termios`
    /// when it was asked.
    pub fn new(fd: i32, termios: Termios) -> (ctl: TermCtl)
        ensures
            ctl.spec_fd() == fd,
            ctl.orig() == termios,
    {
        TermCtl { fd, orig_tios: termios }
    }

    /// The file descriptor of the device.
    pub fn fd(&self) -> (fd: i32)
        ensures
            fd == self.spec_fd(),
    {
        self.fd
    }

    /// The mode to put the device in: the raw mode that belongs to the
    /// mode it had at first.
    pub fn set(&self, bits: &ModeBits) -> (t: Termios)
        ensures
            t.fields() == raw_mode(self.orig(), *bits),
    {
        self.orig_tios.raw(bits)
    }

    /// The size of the window in cells, as `(cols, rows)`, from what the
    /// system reported.
    pub fn window_size(&self, ws: WindowSize) -> (s: (usize, usize))
        ensures
            s == (ws.ws_col as usize, ws.ws_row as usize),
    {
        ws.size()
    }

    /// The mode to give the device back in: the one it had at first,
    /// unchanged.
    pub fn reset(&self) -> (t: Termios)
        ensures
            t.fields() == self.orig().fields(),
    {
        self.orig_tios.clone()
    }
}

} // verus!
