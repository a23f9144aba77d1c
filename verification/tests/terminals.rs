use rustty::cell::{Attr, Cell, Color, Style};
use rustty::cursor::Cursor;
use rustty::driver::Driver;
use rustty::error::{ErrorKind, TtyError};
use rustty::input::{Event, KeyTable};
use rustty::status::StatusFlag;
use rustty::terminal::{ReadStep, Terminal, Wait};
use rustty::time::{cvt_duration, Timeout};
use rustty::position::HasSize;
use rustty::ui::accessor::CellAccessor;
use rustty::ui::attributes::{ButtonResult, HorizontalAlign, VerticalAlign};
use rustty::ui::painter::Painter;
use rustty::ui::stdbutton::StdButton;
use rustty::ui::widget::Widget;

fn entry(name: &str, bytes: &[u8]) -> (String, Vec<u8>) {
    (name.to_string(), bytes.to_vec())
}

fn xterm() -> Vec<(String, Vec<u8>)> {
    vec![
        entry("smcup", b"\x1b[?1049h"),
        entry("rmcup", b"\x1b[?1049l"),
        entry("cnorm", b"\x1b[?12l\x1b[?25h"),
        entry("civis", b"\x1b[?25l"),
        entry("cup", b"\x1b[%i%p1%d;%p2%dH"),
        entry("clear", b"\x1b[H\x1b[2J"),
        entry("sgr0", b"\x1b(B\x1b[m"),
        entry("smul", b"\x1b[4m"),
        entry("bold", b"\x1b[1m"),
        entry("blink", b"\x1b[5m"),
        entry("rev", b"\x1b[7m"),
        entry("setaf", b"\x1b[3%p1%dm"),
        entry("setab", b"\x1b[4%p1%dm"),
        entry("kcuu1", b"\x1bOA"),
        entry("kf1", b"\x1bOP"),
    ]
}

fn terminal(cols: u16, rows: u16) -> Terminal {
    let mut live = StatusFlag::new();
    let entries = xterm();
    let mut term = Terminal::new(
        &mut live,
        Driver::new(&entries).unwrap(),
        KeyTable::new(&entries),
        cols,
        rows,
    )
    .unwrap();
    term.flush();
    term
}

fn count(haystack: &[u8], needle: &[u8]) -> usize {
    haystack.windows(needle.len()).filter(|w| *w == needle).count()
}

#[test]
fn new_terminal_queues_the_startup_sequences() {
    let mut live = StatusFlag::new();
    let entries = xterm();
    let mut term =
        Terminal::new(&mut live, Driver::new(&entries).unwrap(), KeyTable::new(&entries), 80, 24)
            .unwrap();
    assert!(live.load());
    assert_eq!(term.size(), (80, 24));
    assert_eq!(term.cols(), 80);
    assert_eq!(term.rows(), 24);
    assert_eq!(term.cursor(), Cursor::Invalid);
    assert_eq!(term.flush(), b"\x1b[?1049h\x1b[?25l\x1b(B\x1b[m\x1b[H\x1b[2J".to_vec());
    assert_eq!(term.flush(), Vec::<u8>::new());
    assert_eq!(term.get(0, 0), Some(&Cell::default()));
    assert_eq!(term.get(79, 23), Some(&Cell::default()));
    assert_eq!(term.get(80, 0), None);
    assert_eq!(term.get(0, 24), None);
}

#[test]
fn only_one_terminal_is_live_at_a_time() {
    let mut live = StatusFlag::new();
    let entries = xterm();
    let first =
        Terminal::new(&mut live, Driver::new(&entries).unwrap(), KeyTable::new(&entries), 4, 2)
            .unwrap();
    let second =
        Terminal::new(&mut live, Driver::new(&entries).unwrap(), KeyTable::new(&entries), 4, 2);
    let err = second.err().unwrap();
    assert_eq!(err.kind(), ErrorKind::State);
    assert_eq!(err.description(), "terminal already initialized");
    assert!(live.load());
    let bytes = first.close(&mut live);
    assert!(!live.load());
    assert_eq!(
        bytes,
        b"\x1b[?1049h\x1b[?25l\x1b(B\x1b[m\x1b[H\x1b[2J\x1b[?12l\x1b[?25h\x1b(B\x1b[m\x1b[H\x1b[2J\x1b[?1049l"
            .to_vec()
    );
    let third =
        Terminal::new(&mut live, Driver::new(&entries).unwrap(), KeyTable::new(&entries), 4, 2);
    assert!(third.is_ok());
    assert!(live.load());
}

#[test]
fn end_to_end_one_cell_on_a_cleared_screen() {
    let mut term = terminal(80, 24);
    term.clear(Cell::with_char(' '));
    term.get_mut(0, 0).unwrap().set_ch('x');
    let out = term.swap((80, 24)).unwrap();
    assert_eq!(out, b"\x1b[1;1Hx".to_vec());
    // What the device shows is now the working state: nothing is left to draw.
    assert_eq!(term.swap((80, 24)).unwrap(), Vec::<u8>::new());
    assert_eq!(term.get(0, 0).unwrap().ch(), 'x');
    for y in 0..24 {
        for x in 0..80 {
            if (x, y) != (0, 0) {
                assert_eq!(term.get(x, y).unwrap().ch(), ' ');
            }
        }
    }
}

#[test]
fn second_swap_emits_nothing() {
    let mut term = terminal(10, 3);
    term.set_cell(2, 1, Cell::new('q', Style::with_color(Color::Red), Style::default()));
    term.set_cell(9, 2, Cell::with_char('w'));
    assert!(!term.swap((10, 3)).unwrap().is_empty());
    assert!(term.swap((10, 3)).unwrap().is_empty());
    assert!(term.refresh((10, 3)).unwrap().is_empty());
}

#[test]
fn one_changed_cell_gives_one_style_one_cursor_and_the_character() {
    let mut term = terminal(10, 3);
    term.set_cell(
        4,
        2,
        Cell::new(
            '€',
            Style::new(Color::Green, Attr::BoldUnderline),
            Style::new(Color::Byte(5), Attr::Reverse),
        ),
    );
    let out = term.swap((10, 3)).unwrap();
    let mut want = b"\x1b(B\x1b[m\x1b[1m\x1b[4m\x1b[7m\x1b[32m\x1b[45m\x1b[3;5H".to_vec();
    want.extend_from_slice("€".as_bytes());
    assert_eq!(out, want);
    assert_eq!(count(&out, b"\x1b(B\x1b[m"), 1);
    assert_eq!(count(&out, b"H"), 1);
}

#[test]
fn a_run_in_one_row_moves_the_cursor_once() {
    let mut term = terminal(10, 3);
    for (i, ch) in "hello".chars().enumerate() {
        term.set_cell(3 + i, 1, Cell::with_char(ch));
    }
    let out = term.swap((10, 3)).unwrap();
    assert_eq!(out, b"\x1b[2;4Hhello".to_vec());
}

#[test]
fn a_gap_or_a_new_row_moves_the_cursor_again() {
    let mut term = terminal(4, 2);
    term.set_cell(0, 0, Cell::with_char('a'));
    term.set_cell(2, 0, Cell::with_char('b'));
    term.set_cell(3, 0, Cell::with_char('c'));
    term.set_cell(0, 1, Cell::with_char('d'));
    let out = term.swap((4, 2)).unwrap();
    assert_eq!(out, b"\x1b[1;1Ha\x1b[1;3Hbc\x1b[2;1Hd".to_vec());
}

#[test]
fn styles_are_sent_only_when_they_change() {
    let mut term = terminal(6, 1);
    let red = Style::with_color(Color::Red);
    term.set_cell(0, 0, Cell::new('a', red, Style::default()));
    term.set_cell(1, 0, Cell::new('b', red, Style::default()));
    term.set_cell(2, 0, Cell::new('c', Style::default(), Style::default()));
    let out = term.swap((6, 1)).unwrap();
    assert_eq!(out, b"\x1b(B\x1b[m\x1b[31m\x1b[1;1Hab\x1b(B\x1b[mc".to_vec());
    // The styles last told are remembered across redraws.
    term.set_cell(4, 0, Cell::with_char('e'));
    assert_eq!(term.swap((6, 1)).unwrap(), b"\x1b[1;5He".to_vec());
    term.set_cell(5, 0, Cell::new('f', Style::default(), Style::with_attr(Attr::Bold)));
    assert_eq!(term.swap((6, 1)).unwrap(), b"\x1b(B\x1b[m\x1b[5m\x1b[1;6Hf".to_vec());
}

#[test]
fn a_visible_cursor_is_placed_last() {
    let mut term = terminal(5, 2);
    term.set_cursor(Cursor::Valid(3, 1));
    assert_eq!(term.cursor(), Cursor::Valid(3, 1));
    term.set_cell(0, 0, Cell::with_char('a'));
    let out = term.swap((5, 2)).unwrap();
    assert_eq!(out, b"\x1b[?12l\x1b[?25h\x1b[1;1Ha\x1b[2;4H".to_vec());
    assert_eq!(term.swap((5, 2)).unwrap(), b"\x1b[2;4H".to_vec());
    term.set_cursor(Cursor::Valid(0, 0));
    assert_eq!(term.flush(), Vec::<u8>::new());
    term.set_cursor(Cursor::Invalid);
    assert_eq!(term.swap((5, 2)).unwrap(), b"\x1b[?25l".to_vec());
}

#[test]
fn clear_marks_every_cell_and_writes_nothing() {
    let mut term = terminal(3, 2);
    term.clear(Cell::with_char('.'));
    assert_eq!(term.flush(), Vec::<u8>::new());
    for y in 0..2 {
        for x in 0..3 {
            assert_eq!(term.get(x, y).unwrap().ch(), '.');
        }
    }
    assert_eq!(term.swap((3, 2)).unwrap(), b"\x1b[1;1H...\x1b[2;1H...".to_vec());
    assert_eq!(term.panel().get(2, 1).unwrap().ch(), '.');
}

#[test]
fn set_cell_outside_the_screen_does_nothing() {
    let mut term = terminal(3, 2);
    term.set_cell(3, 0, Cell::with_char('x'));
    term.set_cell(0, 2, Cell::with_char('x'));
    assert!(term.get_mut(3, 1).is_none());
    assert_eq!(term.swap((3, 2)).unwrap(), Vec::<u8>::new());
}

#[test]
fn a_signalled_resize_sizes_the_buffers_and_repaints() {
    let mut term = terminal(4, 2);
    term.set_cell(0, 0, Cell::with_char('a'));
    term.set_cell(3, 1, Cell::with_char('b'));
    term.swap((4, 2)).unwrap();
    assert!(!term.resize_pending());
    assert_eq!(term.try_resize((6, 3)), None);
    assert_eq!(term.size(), (4, 2));
    term.signal_resize();
    assert!(term.resize_pending());
    let out = term.swap((3, 3)).unwrap();
    assert!(!term.resize_pending());
    assert_eq!(term.size(), (3, 3));
    // The screen is cleared and what is left of the working state is drawn again.
    assert_eq!(out, b"\x1b(B\x1b[m\x1b[H\x1b[2J\x1b[1;1Ha".to_vec());
    assert_eq!(term.get(0, 0).unwrap().ch(), 'a');
    assert_eq!(term.get(2, 2), Some(&Cell::default()));
    assert_eq!(term.get(3, 1), None);
    term.signal_resize();
    assert_eq!(term.try_resize((5, 1)), Some((5, 1)));
    assert_eq!(term.size(), (5, 1));
    assert_eq!(term.flush(), b"\x1b(B\x1b[m\x1b[H\x1b[2J".to_vec());
    assert_eq!(term.swap((5, 1)).unwrap(), b"\x1b[1;1Ha".to_vec());
}

#[test]
fn a_failed_redraw_changes_nothing() {
    let mut live = StatusFlag::new();
    let mut entries = xterm();
    entries[11] = entry("setaf", b"\x1b[3%?%p1%t%d%;m");
    let mut term =
        Terminal::new(&mut live, Driver::new(&entries).unwrap(), KeyTable::empty(), 3, 1).unwrap();
    term.flush();
    term.set_cell(0, 0, Cell::with_char('a'));
    term.set_cell(1, 0, Cell::new('b', Style::with_color(Color::Red), Style::default()));
    let err = term.swap((3, 1)).unwrap_err();
    assert_eq!(err.kind(), ErrorKind::Environment);
    assert_eq!(term.flush(), Vec::<u8>::new());
    term.set_cell(1, 0, Cell::with_char('b'));
    assert_eq!(term.swap((3, 1)).unwrap(), b"\x1b[1;1Hab".to_vec());
}

#[test]
fn widgets_draw_on_the_terminal() {
    let mut term = terminal(12, 3);
    let mut button = StdButton::new("Ok", 'o', ButtonResult::Okay);
    button.pack(&term, HorizontalAlign::Middle, VerticalAlign::Bottom, (0, 0));
    button.draw(&mut term);
    term.printline(0, 0, "hi");
    assert_eq!(CellAccessor::dims(&term), (12, 3));
    assert_eq!(HasSize::size(&term), (12, 3));
    let out = term.swap((12, 3)).unwrap();
    // The blanks of the button are what the screen shows already.
    assert_eq!(
        out,
        b"\x1b[1;1Hhi\x1b[3;4H<\x1b(B\x1b[m\x1b[1m\x1b[3;6HO\x1b(B\x1b[mk\x1b[3;9H>".to_vec()
    );
}

#[test]
fn input_bytes_become_events_in_order() {
    let mut term = terminal(3, 1);
    assert_eq!(term.poll_event(), None);
    assert_eq!(term.push_input(&b"a\x1bOAb".to_vec()), Ok(3));
    term.push_event(Event::Resize);
    assert_eq!(term.poll_event(), Some(Event::Key('a')));
    assert_eq!(term.poll_event(), Some(Event::Up));
    assert_eq!(term.poll_event(), Some(Event::Key('b')));
    assert_eq!(term.poll_event(), Some(Event::Resize));
    assert_eq!(term.poll_event(), None);
    let err = term.push_input(&vec![b'a', 0xFF]).unwrap_err();
    assert_eq!(err.kind(), ErrorKind::Encoding);
    assert_eq!(err.description(), "utf8 encoding error");
    assert_eq!(term.poll_event(), None);
    term.push_input(&b"\x1bOPz".to_vec()).unwrap();
    let mut all = term.poll_events();
    assert_eq!(all.next(), Some(Event::Function(1)));
    assert_eq!(all.next(), Some(Event::Key('z')));
    assert_eq!(all.next(), None);
    assert_eq!(term.poll_event(), None);
    term.push_input(&b"q".to_vec()).unwrap();
    let mut waited = term.wait_events();
    assert_eq!(waited.next(), Some(Event::Key('q')));
    assert_eq!(waited.next(), None);
}

#[test]
fn waits_are_taken_up_again_after_a_signal() {
    let mut term = terminal(3, 1);
    let timeout = Some(Timeout::new(2, 500_000_000));
    // Interrupted with no change of size: wait for what is left.
    let step = term.read_events(timeout, Wait::Interrupted(Timeout::new(1, 750_000_000))).unwrap();
    assert_eq!(step, ReadStep::Again(Some(Timeout::new(0, 750_000_000))));
    assert_eq!(term.poll_event(), None);
    // Interrupted by a change of size: a resize event is queued before any input.
    term.signal_resize();
    let step = term.read_events(timeout, Wait::Interrupted(Timeout::new(3, 0))).unwrap();
    assert_eq!(step, ReadStep::Again(Some(Timeout::zero())));
    let step = term.read_events(timeout, Wait::Ready(b"ab".to_vec())).unwrap();
    assert_eq!(step, ReadStep::Done(2));
    assert_eq!(term.poll_event(), Some(Event::Resize));
    assert_eq!(term.poll_event(), Some(Event::Key('a')));
    assert_eq!(term.poll_event(), Some(Event::Key('b')));
    // A wait without limit stays without limit.
    let step = term.read_events(None, Wait::Interrupted(Timeout::new(9, 0))).unwrap();
    assert_eq!(step, ReadStep::Again(None));
    term.poll_events();
    assert_eq!(term.read_events(timeout, Wait::TimedOut), Ok(ReadStep::Done(0)));
    let err = term.read_events(timeout, Wait::Failed(TtyError::new("Bad file number"))).unwrap_err();
    assert_eq!(err.kind(), ErrorKind::Os);
    assert_eq!(err.description(), "Bad file number");
    let err = term.read_events(timeout, Wait::Ready(vec![0xC0])).unwrap_err();
    assert_eq!(err.kind(), ErrorKind::Encoding);
}

#[test]
fn timeouts_subtract_and_convert() {
    let t = Timeout::new(5, 100);
    assert_eq!(t.secs(), 5);
    assert_eq!(t.nanos(), 100);
    assert_eq!(Timeout::new(1, 2_000_000_000).nanos(), 999_999_999);
    assert_eq!(t.saturating_sub(Timeout::new(2, 200)), Timeout::new(2, 999_999_900));
    assert_eq!(t.saturating_sub(Timeout::new(5, 100)), Timeout::zero());
    assert_eq!(t.saturating_sub(Timeout::new(5, 101)), Timeout::zero());
    let ts = cvt_duration(Timeout::new(7, 8));
    assert_eq!((ts.tv_sec, ts.tv_nsec), (7, 8));
    assert_eq!(cvt_duration(Timeout::new(u64::MAX, 0)).tv_sec, i64::MAX);
}

#[test]
fn status_flag_compare_and_swap() {
    let mut flag = StatusFlag::new();
    assert!(!flag.load());
    assert!(!flag.compare_and_swap(true, false));
    assert!(!flag.load());
    assert!(!flag.compare_and_swap(false, true));
    assert!(flag.load());
    assert!(flag.compare_and_swap(false, true));
    assert!(flag.compare_and_swap(true, false));
    assert!(!flag.load());
    flag.store(true);
    assert!(flag.acquire().is_err());
    flag.release();
    assert!(flag.acquire().is_ok());
    assert!(StatusFlag::default() == StatusFlag::new());
}

#[test]
fn errno_wording_comes_from_nix() {
    let err = TtyError::from_nix(nix::errno::Errno::EBADF);
    assert_eq!(err.description(), nix::errno::Errno::EBADF.desc());
    assert!(!err.description().is_empty());
}
