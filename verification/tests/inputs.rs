use rustty::chars::CharStreamError;
use rustty::input::{Event, KeyTable};

fn entry(name: &str, bytes: &[u8]) -> (String, Vec<u8>) {
    (name.to_string(), bytes.to_vec())
}

fn keys() -> KeyTable {
    KeyTable::new(&vec![
        entry("kf1", b"\x1bOP"),
        entry("key_f2", b"\x1bOQ"),
        entry("kf2", b"never"),
        entry("kf12", b"\x1b[24~"),
        entry("kcuu1", b"\x1bOA"),
        entry("kcud1", b"\x1bOB"),
        entry("kcub1", b"\x1bOD"),
        entry("kcuf1", b"\x1bOC"),
        entry("kpp", b"\x1b[5~"),
        entry("knp", b"\x1b[6~"),
        entry("khome", b"\x1bOH"),
        entry("kend", b"\x1bOF"),
        entry("kf5", b""),
        entry("smcup", b"\x1b[?1049h"),
    ])
}

#[test]
fn key_table_is_built_in_the_order_of_the_keys() {
    let table = keys();
    let got: Vec<(Vec<u8>, Event)> =
        table.bindings.iter().map(|b| (b.seq.clone(), b.event)).collect();
    let want: Vec<(Vec<u8>, Event)> = vec![
        (b"\x1bOP".to_vec(), Event::Function(1)),
        (b"\x1bOQ".to_vec(), Event::Function(2)),
        (b"\x1b[24~".to_vec(), Event::Function(12)),
        (b"\x1bOA".to_vec(), Event::Up),
        (b"\x1bOB".to_vec(), Event::Down),
        (b"\x1bOD".to_vec(), Event::Left),
        (b"\x1bOC".to_vec(), Event::Right),
        (b"\x1b[5~".to_vec(), Event::PageUp),
        (b"\x1b[6~".to_vec(), Event::PageDown),
        (b"\x1bOH".to_vec(), Event::Home),
        (b"\x1bOF".to_vec(), Event::End),
    ];
    assert_eq!(got, want);
}

#[test]
fn bytes_decode_to_keys_and_characters_in_order() {
    let table = keys();
    let mut bytes = b"a".to_vec();
    bytes.extend_from_slice(b"\x1bOA");
    bytes.extend_from_slice("é".as_bytes());
    bytes.extend_from_slice(b"\x1b[6~");
    bytes.extend_from_slice(b"\x1bOP\x1b[24~z");
    let events = table.decode(&bytes).unwrap();
    assert_eq!(
        events,
        vec![
            Event::Key('a'),
            Event::Up,
            Event::Key('é'),
            Event::PageDown,
            Event::Function(1),
            Event::Function(12),
            Event::Key('z'),
        ]
    );
}

#[test]
fn unbound_escape_sequences_are_read_as_characters() {
    let table = keys();
    let events = table.decode(&b"\x1b[9~".to_vec()).unwrap();
    assert_eq!(
        events,
        vec![Event::Key('\x1b'), Event::Key('['), Event::Key('9'), Event::Key('~')]
    );
    let none = KeyTable::empty();
    assert_eq!(
        none.decode(&b"\x1bOA".to_vec()).unwrap(),
        vec![Event::Key('\x1b'), Event::Key('O'), Event::Key('A')]
    );
    assert_eq!(none.decode(&Vec::new()).unwrap(), Vec::new());
}

#[test]
fn bytes_that_are_no_utf8_fail_the_whole_run() {
    let table = keys();
    assert_eq!(table.decode(&vec![b'a', 0xFF, b'b']), Err(CharStreamError::NotUtf8));
    assert_eq!(table.decode(&vec![b'a', 0xE2, 0x82]), Err(CharStreamError::NotUtf8));
}

#[test]
fn first_matching_binding_wins() {
    let mut table = KeyTable::empty();
    table.bind(b"\x1b[".to_vec(), Event::Home);
    table.bind(b"\x1b[A".to_vec(), Event::Up);
    table.bind(Vec::new(), Event::End);
    assert_eq!(table.match_at(&b"x\x1b[A".to_vec(), 1), Some((Event::Home, 3)));
    assert_eq!(table.match_at(&b"x\x1b[A".to_vec(), 0), None);
    assert_eq!(table.decode(&b"\x1b[A".to_vec()).unwrap(), vec![Event::Home, Event::Key('A')]);
}
