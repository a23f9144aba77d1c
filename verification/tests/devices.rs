use rustty::bytebuffer::ByteBuffer;
use rustty::chars::CharStreamError;
use rustty::device::{contains, DevFunc, Device};
use rustty::driver::{DevFn, Driver};
use rustty::error::{Error, ErrorKind, TtyError};
use rustty::input::{Event, KeyTable};
use rustty::termctl::{ControlChar, ModeBits, TermCtl, Termios, WindowSize};

fn bits() -> ModeBits {
    ModeBits {
        ignbrk: 0o1,
        brkint: 0o2,
        parmrk: 0o10,
        istrip: 0o40,
        inlcr: 0o100,
        igncr: 0o200,
        icrnl: 0o400,
        ixon: 0o2000,
        opost: 0o1,
        echo: 0o10,
        echonl: 0o100,
        icanon: 0o2,
        isig: 0o1,
        iexten: 0o100000,
        csize: 0o60,
        parenb: 0o400,
        cs8: 0o60,
        vmin: 6,
        vtime: 5,
    }
}

fn cooked() -> Termios {
    Termios {
        c_iflag: 0o2400 | 0o40000,
        c_oflag: 0o5,
        c_cflag: 0o277 | 0o400,
        c_lflag: 0o105073,
        c_cc: (0..32).collect(),
    }
}

#[test]
fn device_is_found_by_the_terminal_type() {
    let device = Device::new(Some("xterm-256color")).unwrap();
    assert_eq!(device.name(), "xterm");
    assert_eq!(Device::new(Some("rxvt-xterm")).unwrap().name(), "xterm");
    let err = Device::new(Some("vt100")).unwrap_err();
    assert_eq!(err.description(), "Unsupported terminal");
    let err = Device::new(Some("xter")).unwrap_err();
    assert_eq!(err.description(), "Unsupported terminal");
    let err = Device::new(None).unwrap_err();
    assert_eq!(err.description(), "TERM not set");
}

#[test]
fn device_lists_its_sequences() {
    let device = Device::xterm();
    assert_eq!(device.get(DevFunc::EnterCa), b"\x1b[?1049h");
    assert_eq!(device.get(DevFunc::ExitCa), b"\x1b[?1049l");
    assert_eq!(device.get(DevFunc::ShowCursor), b"\x1b[?12l\x1b[?25h");
    assert_eq!(device.get(DevFunc::HideCursor), b"\x1b[?25l");
    assert_eq!(device.get(DevFunc::ClearScreen), b"\x1b[H\x1b[2J");
    assert_eq!(device.get(DevFunc::Sgr0), b"\x1b(B\x1b[m");
    assert_eq!(device.get(DevFunc::Underline), b"\x1b[4m");
    assert_eq!(device.get(DevFunc::Bold), b"\x1b[1m");
    assert_eq!(device.get(DevFunc::Blink), b"\x1b[5m");
    assert_eq!(device.get(DevFunc::Reverse), b"\x1b[7m");
    assert_eq!(device.get(DevFunc::EnterKeypad), b"\x1b[?1h\x1b=");
    assert_eq!(device.get(DevFunc::ExitKeypad), b"\x1b[?1l\x1b>");
    assert_eq!(device.get(DevFunc::EnterMouse), b"\x1b[?1000h");
    assert_eq!(device.get(DevFunc::ExitMouse), b"\x1b[?1000l");
    assert_eq!(DevFunc::FuncsNum.index(), 14);
    assert_eq!(device.key_bytes(0), b"\x1bOP");
    assert_eq!(device.key_bytes(11), b"\x1b[24~");
    assert_eq!(device.key_bytes(21), b"\x1bOC");
}

#[test]
fn device_gives_the_tables_of_its_terminal() {
    let entries = Device::xterm().entries();
    assert_eq!(entries.len(), 35);
    assert_eq!(entries[0], ("smcup".to_string(), b"\x1b[?1049h".to_vec()));
    assert_eq!(entries[10], ("cup".to_string(), b"\x1b[%i%p1%d;%p2%dH".to_vec()));
    assert_eq!(entries[34], ("kcuf1".to_string(), b"\x1bOC".to_vec()));
    let driver = Driver::new(&entries).unwrap();
    assert_eq!(driver.get(DevFn::SetCursor(4, 2)).unwrap(), b"\x1b[3;5H".to_vec());
    assert_eq!(driver.get(DevFn::SetFg(2)).unwrap(), b"\x1b[32m".to_vec());
    assert_eq!(driver.get(DevFn::SetBg(2)).unwrap(), b"\x1b[42m".to_vec());
    assert_eq!(driver.get(DevFn::Clear).unwrap(), b"\x1b[H\x1b[2J".to_vec());
    let keys = KeyTable::new(&entries);
    assert_eq!(
        keys.decode(&b"\x1bOA\x1b[5~\x1bOH\x1b[15~".to_vec()).unwrap(),
        vec![Event::Up, Event::PageUp, Event::Home, Event::Function(5)]
    );
}

#[test]
fn bytes_are_searched_for() {
    assert!(contains(b"xterm-256color", b"xterm"));
    assert!(contains(b"my-xterm", b"xterm"));
    assert!(contains(b"xterm", b""));
    assert!(contains(b"", b""));
    assert!(!contains(b"", b"x"));
    assert!(!contains(b"xter", b"xterm"));
    assert!(!contains(b"xxtermm".split_at(5).0, b"xterm"));
    assert!(contains(b"xxterm", b"xterm"));
}

#[test]
fn raw_mode_switches_the_right_flags_off() {
    let ctl = TermCtl::new(7, cooked());
    assert_eq!(ctl.fd(), 7);
    let raw = ctl.set(&bits());
    // Break, CR-NL translation and flow control are off; UTF-8 input stays.
    assert_eq!(raw.c_iflag, 0o40000);
    // Output is not processed.
    assert_eq!(raw.c_oflag, 0o4);
    // Eight bits, no parity.
    assert_eq!(raw.c_cflag, 0o277);
    // No echo, no line buffering, no signals, no extended processing.
    assert_eq!(raw.c_lflag, 0o105073 & !0o100113);
    let mut cc: Vec<u8> = (0..32).collect();
    cc[6] = 0;
    cc[5] = 0;
    assert_eq!(raw.c_cc, cc);
    // The first mode is given back unchanged.
    assert_eq!(ctl.reset(), cooked());
    assert_eq!(cooked().raw(&bits()), raw);
    assert_eq!(cooked().clone(), cooked());
}

#[test]
fn termios_words_can_be_changed_one_by_one() {
    let mut tios = cooked();
    *tios.iflags_mut() &= !0o400;
    *tios.oflags_mut() = 0;
    *tios.lflags_mut() |= 0o1;
    *tios.cflags_mut() = 0o60;
    tios.set_cc(bits().index(ControlChar::VMIN), 1);
    tios.set_cc(bits().index(ControlChar::VTIME), 2);
    tios.set_cc(99, 3);
    assert_eq!(tios.c_iflag, 0o2000 | 0o40000);
    assert_eq!(tios.c_oflag, 0);
    assert_eq!(tios.c_lflag, 0o105073);
    assert_eq!(tios.c_cflag, 0o60);
    assert_eq!(tios.c_cc[6], 1);
    assert_eq!(tios.c_cc[5], 2);
    assert_eq!(tios.c_cc.len(), 32);
}

#[test]
fn window_size_is_columns_then_rows() {
    let mut ws = WindowSize::new();
    assert_eq!(ws.size(), (0, 0));
    ws.ws_col = 80;
    ws.ws_row = 24;
    assert_eq!(ws.size(), (80, 24));
    assert_eq!(TermCtl::new(0, cooked()).window_size(ws), (80, 24));
}

#[test]
fn byte_buffer_gathers_bytes() {
    let mut buf = ByteBuffer::new(16);
    assert_eq!(buf.len(), 0);
    buf.write_all(b"ab");
    buf.write_all(b"");
    buf.write_all(b"c");
    assert_eq!(buf.as_slice(), b"abc");
    assert_eq!(buf.len(), 3);
    buf.clear();
    assert_eq!(buf.len(), 0);
    assert_eq!(ByteBuffer::with_capacity(4).as_slice(), b"");
}

#[test]
fn errors_carry_their_stage() {
    let err = Error::new("boom");
    assert_eq!(err.kind(), ErrorKind::Other);
    assert_eq!(err.description(), "boom");
    let err = Error::with_kind(ErrorKind::State, "twice");
    assert_eq!(err.kind(), ErrorKind::State);
    let err = Error::from(TtyError::new("Bad file number"));
    assert_eq!(err.kind(), ErrorKind::Os);
    assert_eq!(err.description(), "Bad file number");
    let err = Error::from_char_stream(CharStreamError::NotUtf8);
    assert_eq!(err.kind(), ErrorKind::Encoding);
    assert_eq!(err.description(), "utf8 encoding error");
    let err = Error::from_char_stream(CharStreamError::Other(5));
    assert_eq!(err.kind(), ErrorKind::Os);
    assert_eq!(err.description(), "internal io error");
    assert_eq!(CharStreamError::NotUtf8.description(), "invalid utf8 encoding");
    assert_eq!(CharStreamError::Other(5).description(), "internal io error");
}
