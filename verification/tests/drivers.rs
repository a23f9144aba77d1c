use rustty::driver::{DevFn, Driver};
use rustty::error::ErrorKind;
use rustty::expand::is_total_template;

fn entry(name: &str, bytes: &[u8]) -> (String, Vec<u8>) {
    (name.to_string(), bytes.to_vec())
}

fn xterm() -> Vec<(String, Vec<u8>)> {
    vec![
        entry("smcup", b"\x1b[?1049h"),
        entry("rmcup", b"\x1b[?1049l"),
        entry("cnorm", b"\x1b[?12l\x1b[?25h"),
        entry("civis", b"\x1b[?25l"),
        entry("cup", b"\x1b[%i%p1%d;%p2%dH"),
        entry("clear", b"\x1b[H\x1b[2J"),
        entry("sgr0", b"\x1b(B\x1b[m"),
        entry("smul", b"\x1b[4m"),
        entry("bold", b"\x1b[1m"),
        entry("blink", b"\x1b[5m"),
        entry("rev", b"\x1b[7m"),
        entry("setaf", b"\x1b[3%p1%dm"),
        entry("setab", b"\x1b[4%p1%dm"),
    ]
}

const SETAF_256: &[u8] =
    b"\x1b[%?%p1%{8}%<%t3%p1%d%e%p1%{16}%<%t9%p1%{8}%-%d%e38;5;%p1%d%;m";

#[test]
fn capability_names() {
    assert_eq!(DevFn::EnterCa.as_str(), "smcup");
    assert_eq!(DevFn::ExitCa.as_str(), "rmcup");
    assert_eq!(DevFn::ShowCursor.as_str(), "cnorm");
    assert_eq!(DevFn::HideCursor.as_str(), "civis");
    assert_eq!(DevFn::SetCursor(3, 4).as_str(), "cup");
    assert_eq!(DevFn::Clear.as_str(), "clear");
    assert_eq!(DevFn::Reset.as_str(), "sgr0");
    assert_eq!(DevFn::Underline.as_str(), "smul");
    assert_eq!(DevFn::Bold.as_str(), "bold");
    assert_eq!(DevFn::Blink.as_str(), "blink");
    assert_eq!(DevFn::Reverse.as_str(), "rev");
    assert_eq!(DevFn::SetFg(1).as_str(), "setaf");
    assert_eq!(DevFn::SetBg(1).as_str(), "setab");
    assert_eq!(DevFn::SetBg(1).slot(), 12);
}

#[test]
fn plain_functions_resolve_to_their_template() {
    let driver = Driver::new(&xterm()).unwrap();
    assert_eq!(driver.get(DevFn::EnterCa).unwrap(), b"\x1b[?1049h".to_vec());
    assert_eq!(driver.get(DevFn::Clear).unwrap(), b"\x1b[H\x1b[2J".to_vec());
    assert_eq!(driver.get(DevFn::Reset).unwrap(), b"\x1b(B\x1b[m".to_vec());
    assert_eq!(driver.get(DevFn::Blink).unwrap(), b"\x1b[5m".to_vec());
    assert!(driver.has(DevFn::Blink));
}

#[test]
fn cursor_positions_are_expanded_one_based_row_first() {
    let driver = Driver::new(&xterm()).unwrap();
    assert_eq!(driver.get(DevFn::SetCursor(0, 0)).unwrap(), b"\x1b[1;1H".to_vec());
    assert_eq!(driver.get(DevFn::SetCursor(79, 23)).unwrap(), b"\x1b[24;80H".to_vec());
    assert_eq!(driver.get(DevFn::SetCursor(65535, 0)).unwrap(), b"\x1b[1;65536H".to_vec());
}

#[test]
fn every_position_of_a_screen_resolves() {
    let driver = Driver::new(&xterm()).unwrap();
    for y in 0..24 {
        for x in 0..80 {
            let want = format!("\x1b[{};{}H", y + 1, x + 1).into_bytes();
            assert_eq!(driver.get(DevFn::SetCursor(x, y)), Ok(want));
        }
    }
    for c in 0..=255u8 {
        assert_eq!(driver.get(DevFn::SetFg(c)), Ok(format!("\x1b[3{}m", c).into_bytes()));
        assert_eq!(driver.get(DevFn::SetBg(c)), Ok(format!("\x1b[4{}m", c).into_bytes()));
    }
}

#[test]
fn cursor_position_beyond_the_limit_is_refused() {
    let driver = Driver::new(&xterm()).unwrap();
    let err = driver.get(DevFn::SetCursor(65536, 0)).unwrap_err();
    assert_eq!(err.kind(), ErrorKind::Other);
    assert_eq!(err.description(), "cursor position out of range");
}

#[test]
fn colors_are_expanded() {
    let driver = Driver::new(&xterm()).unwrap();
    assert_eq!(driver.get(DevFn::SetFg(1)).unwrap(), b"\x1b[31m".to_vec());
    assert_eq!(driver.get(DevFn::SetBg(7)).unwrap(), b"\x1b[47m".to_vec());
}

#[test]
fn indexed_colors_with_arithmetic_templates() {
    let mut entries = xterm();
    entries[11] = entry("setaf", SETAF_256);
    let driver = Driver::new(&entries).unwrap();
    assert_eq!(driver.get(DevFn::SetFg(1)).unwrap(), b"\x1b[31m".to_vec());
    assert_eq!(driver.get(DevFn::SetFg(9)).unwrap(), b"\x1b[91m".to_vec());
    assert_eq!(driver.get(DevFn::SetFg(200)).unwrap(), b"\x1b[38;5;200m".to_vec());
}

#[test]
fn missing_required_capability_is_named() {
    let mut entries = xterm();
    entries.remove(5);
    let err = Driver::new(&entries).unwrap_err();
    assert_eq!(err.kind(), ErrorKind::Environment);
    assert_eq!(err.description(), "clear");
    let err = Driver::new(&Vec::new()).unwrap_err();
    assert_eq!(err.description(), "smcup");
}

#[test]
fn blink_is_optional() {
    let mut entries = xterm();
    entries.remove(9);
    let driver = Driver::new(&entries).unwrap();
    assert!(!driver.has(DevFn::Blink));
    let err = driver.get(DevFn::Blink).unwrap_err();
    assert_eq!(err.kind(), ErrorKind::Environment);
    assert_eq!(err.description(), "blink");
}

#[test]
fn first_entry_of_a_name_wins() {
    let mut entries = xterm();
    entries.push(entry("bold", b"other"));
    let driver = Driver::new(&entries).unwrap();
    assert_eq!(driver.get(DevFn::Bold).unwrap(), b"\x1b[1m".to_vec());
}

#[test]
fn templates_that_divide_or_multiply_are_refused() {
    assert!(is_total_template(&b"\x1b[%i%p1%d;%p2%dH".to_vec()));
    assert!(is_total_template(&SETAF_256.to_vec()));
    assert!(is_total_template(&b"plain".to_vec()));
    assert!(!is_total_template(&b"%p1%p2%/%d".to_vec()));
    assert!(!is_total_template(&b"%p1%p2%m%d".to_vec()));
    assert!(!is_total_template(&b"%p1%p2%*%d".to_vec()));
    assert!(!is_total_template(&b"%p0%d".to_vec()));
    // Formats are admitted as long as they are short.
    assert!(is_total_template(&b"%p1%2d".to_vec()));
    assert!(is_total_template(&b"%p1%:-5d".to_vec()));
    assert!(is_total_template(&b"%p1%03d".to_vec()));
    assert!(is_total_template(&b"%p1%9.3x".to_vec()));
    assert!(is_total_template(&b"%p1%1234d".to_vec()));
    assert!(is_total_template(&b"%p1%1234".to_vec()));
    assert!(!is_total_template(&b"%p1%12345d".to_vec()));
    assert!(!is_total_template(&b"%p1%:-123d".to_vec()));
    assert!(!is_total_template(&b"%p1%99999999999999999999d".to_vec()));
    assert!(!is_total_template(&b"%{123456}%d".to_vec()));
    assert!(is_total_template(&b"%{12345}%d".to_vec()));
    assert!(is_total_template(&b"%i%i%i%i%i%i%i%i%i%i%i%i".to_vec()));
    assert!(!is_total_template(&b"%i%i%i%i%i%i%i%i%i%i%i%i%i".to_vec()));
    let mut entries = xterm();
    entries[4] = entry("cup", b"\x1b[%p1%p2%/%dH");
    let err = Driver::new(&entries).unwrap_err();
    assert_eq!(err.description(), "cup");
}

#[test]
fn formats_pad_what_they_print() {
    let mut entries = xterm();
    entries[4] = entry("cup", b"\x1b[%i%p1%3d;%p2%:-3dH");
    entries[11] = entry("setaf", b"\x1b[3%p1%.3dm");
    entries[12] = entry("setab", b"\x1b[4%p1%#xm");
    let driver = Driver::new(&entries).unwrap();
    assert_eq!(driver.get(DevFn::SetCursor(4, 2)).unwrap(), b"\x1b[  3;5  H".to_vec());
    assert_eq!(driver.get(DevFn::SetFg(7)).unwrap(), b"\x1b[3007m".to_vec());
    assert_eq!(driver.get(DevFn::SetBg(255)).unwrap(), b"\x1b[40xffm".to_vec());
    let mut entries = xterm();
    entries[11] = entry("setaf", b"\x1b[3%p1%1234dm");
    let driver = Driver::new(&entries).unwrap();
    assert_eq!(driver.get(DevFn::SetFg(7)).unwrap().len(), 3 + 1234 + 1);
}

#[test]
fn template_whose_trial_expansion_fails_is_refused() {
    // The template takes a number from an empty stack, whatever the colour.
    let mut entries = xterm();
    entries[11] = entry("setaf", b"\x1b[3%dm");
    let err = Driver::new(&entries).unwrap_err();
    assert_eq!(err.kind(), ErrorKind::Environment);
    assert_eq!(err.description(), "setaf");
    let mut entries = xterm();
    entries[4] = entry("cup", b"\x1b[%d;%dH");
    assert_eq!(Driver::new(&entries).unwrap_err().description(), "cup");
    let mut entries = xterm();
    entries[12] = entry("setab", b"\x1b[4%p1%p2%+%+%dm");
    assert_eq!(Driver::new(&entries).unwrap_err().description(), "setab");
}

#[test]
fn failing_expansion_is_an_error_of_the_environment() {
    // The template expands for the first palette index and takes a number
    // from an empty stack for every other one.
    let mut entries = xterm();
    entries[11] = entry("setaf", b"\x1b[3%?%p1%t%d%;m");
    let driver = Driver::new(&entries).unwrap();
    assert_eq!(driver.get(DevFn::SetFg(0)).unwrap(), b"\x1b[3m".to_vec());
    let err = driver.get(DevFn::SetFg(1)).unwrap_err();
    assert_eq!(err.kind(), ErrorKind::Environment);
    assert_eq!(err.description(), "capability expansion failed");
}

#[test]
fn admitted_templates_are_expanded_without_incident() {
    // Templates are drawn from the bytes that matter to the expansion, and
    // every one that is admitted is expanded with the smallest and the
    // largest parameters.
    let alphabet: &[u8] = b"%%%%%%pPg{}'l&|^=><AO!~idoxXs?;te+-123456789aZ$<> ";
    let mut state: u64 = 0x9E3779B97F4A7C15;
    let mut next = move || {
        state = state.wrapping_mul(6364136223846793005).wrapping_add(1442695040888963407);
        (state >> 33) as usize
    };
    let mut admitted = 0;
    let mut built = 0;
    for _ in 0..20000 {
        let len = next() % 24;
        let template: Vec<u8> = (0..len).map(|_| alphabet[next() % alphabet.len()]).collect();
        if !is_total_template(&template) {
            continue;
        }
        admitted += 1;
        let mut entries = xterm();
        entries[4] = ("cup".to_string(), template.clone());
        entries[11] = ("setaf".to_string(), template);
        let driver = match Driver::new(&entries) {
            Ok(driver) => driver,
            Err(err) => {
                assert!(err.description() == "cup" || err.description() == "setaf");
                continue;
            }
        };
        built += 1;
        // What was tried when the table was built succeeds again.
        assert!(driver.get(DevFn::SetCursor(0, 0)).is_ok());
        assert!(driver.get(DevFn::SetFg(0)).is_ok());
        for (x, y) in [(65535, 65535), (0, 65535), (1, 2)] {
            let _ = driver.get(DevFn::SetCursor(x, y));
        }
        let _ = driver.get(DevFn::SetFg(255));
    }
    assert!(admitted > 1000);
    assert!(built > 100);
}

#[test]
fn sums_stay_in_range_at_the_limit_of_growth() {
    // Twelve doublings of the largest parameter.
    let mut doubling = b"%p1%Pa".to_vec();
    for _ in 0..12 {
        doubling.extend_from_slice(b"%ga%ga%+%Pa");
    }
    doubling.extend_from_slice(b"%ga%d");
    assert!(is_total_template(&doubling));
    let mut entries = xterm();
    entries[4] = ("cup".to_string(), doubling);
    let driver = Driver::new(&entries).unwrap();
    // The parameters are row, then column.
    let want = (65535u64 << 12).to_string().into_bytes();
    assert_eq!(driver.get(DevFn::SetCursor(0, 65535)).unwrap(), want);
}
