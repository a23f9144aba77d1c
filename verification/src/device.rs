//! The terminals that the engine knows by name, with their sequences
//! written down.

use vstd::prelude::*;
use vstd::string::*;
use crate::error::TtyError;

verus! {

/// How many display functions a device lists.
pub const FUNCS_NUM: usize = 14;

/// How many keys a device lists.
pub const KEYS_NUM: usize = 22;

/// A display function of a device that is known by name.
#[derive(Debug, Copy, Clone, PartialEq, Eq, Structural)]
pub enum DevFunc {
    EnterCa,
    ExitCa,
    ShowCursor,
    HideCursor,
    ClearScreen,
    Sgr0,
    Underline,
    Bold,
    Blink,
    Reverse,
    EnterKeypad,
    ExitKeypad,
    EnterMouse,
    ExitMouse,
    /// The number of display functions; it is no function itself.
    FuncsNum,
}

impl DevFunc {
    /// The place of the function in the list of a device.
    pub open spec fn spec_index(self) -> int {
        match self {
            DevFunc::EnterCa => 0,
            DevFunc::ExitCa => 1,
            DevFunc::ShowCursor => 2,
            DevFunc::HideCursor => 3,
            DevFunc::ClearScreen => 4,
            DevFunc::Sgr0 => 5,
            DevFunc::Underline => 6,
            DevFunc::Bold => 7,
            DevFunc::Blink => 8,
            DevFunc::Reverse => 9,
            DevFunc::EnterKeypad => 10,
            DevFunc::ExitKeypad => 11,
            DevFunc::EnterMouse => 12,
            DevFunc::ExitMouse => 13,
            DevFunc::FuncsNum => 14,
        }
    }

    /// The place of the function in the list of a device.
    pub fn index(&self) -> (i: usize)
        ensures
            i == self.spec_index(),
            i <= FUNCS_NUM,
    {
        match *self {
            DevFunc::EnterCa => 0,
            DevFunc::ExitCa => 1,
            DevFunc::ShowCursor => 2,
            DevFunc::HideCursor => 3,
            DevFunc::ClearScreen => 4,
            DevFunc::Sgr0 => 5,
            DevFunc::Underline => 6,
            DevFunc::Bold => 7,
            DevFunc::Blink => 8,
            DevFunc::Reverse => 9,
            DevFunc::EnterKeypad => 10,
            DevFunc::ExitKeypad => 11,
            DevFunc::EnterMouse => 12,
            DevFunc::ExitMouse => 13,
            DevFunc::FuncsNum => 14,
        }
    }
}

/// The sequence of xterm for the display function at a place of the list.
pub open spec fn xterm_func(i: int) -> &'static str {
    if i == 0 {
        "\x1b[?1049h"
    } else if i == 1 {
        "\x1b[?1049l"
    } else if i == 2 {
        "\x1b[?12l\x1b[?25h"
    } else if i == 3 {
        "\x1b[?25l"
    } else if i == 4 {
        "\x1b[H\x1b[2J"
    } else if i == 5 {
        "\x1b(B\x1b[m"
    } else if i == 6 {
        "\x1b[4m"
    } else if i == 7 {
        "\x1b[1m"
    } else if i == 8 {
        "\x1b[5m"
    } else if i == 9 {
        "\x1b[7m"
    } else if i == 10 {
        "\x1b[?1h\x1b="
    } else if i == 11 {
        "\x1b[?1l\x1b>"
    } else if i == 12 {
        "\x1b[?1000h"
    } else {
        "\x1b[?1000l"
    }
}

/// The sequence that xterm sends for the key at a place of the list: the
/// function keys `F1` to `F12`, insert, delete, home, end, page up, page
/// down, and the arrows up, down, left, right.
pub open spec fn xterm_key(i: int) -> &'static str {
    if i == 0 {
        "\x1bOP"
    } else if i == 1 {
        "\x1bOQ"
    } else if i == 2 {
        "\x1bOR"
    } else if i == 3 {
        "\x1bOS"
    } else if i == 4 {
        "\x1b[15~"
    } else if i == 5 {
        "\x1b[17~"
    } else if i == 6 {
        "\x1b[18~"
    } else if i == 7 {
        "\x1b[19~"
    } else if i == 8 {
        "\x1b[20~"
    } else if i == 9 {
        "\x1b[21~"
    } else if i == 10 {
        "\x1b[23~"
    } else if i == 11 {
        "\x1b[24~"
    } else if i == 12 {
        "\x1b[2~"
    } else if i == 13 {
        "\x1b[3~"
    } else if i == 14 {
        "\x1bOH"
    } else if i == 15 {
        "\x1bOF"
    } else if i == 16 {
        "\x1b[5~"
    } else if i == 17 {
        "\x1b[6~"
    } else if i == 18 {
        "\x1bOA"
    } else if i == 19 {
        "\x1bOB"
    } else if i == 20 {
        "\x1bOD"
    } else {
        "\x1bOC"
    }
}

fn func_of_xterm(i: usize) -> (s: &'static str)
    requires
        i < FUNCS_NUM,
    ensures
        s == xterm_func(i as int),
{
    if i == 0 {
        "\x1b[?1049h"
    } else if i == 1 {
        "\x1b[?1049l"
    } else if i == 2 {
        "\x1b[?12l\x1b[?25h"
    } else if i == 3 {
        "\x1b[?25l"
    } else if i == 4 {
        "\x1b[H\x1b[2J"
    } else if i == 5 {
        "\x1b(B\x1b[m"
    } else if i == 6 {
        "\x1b[4m"
    } else if i == 7 {
        "\x1b[1m"
    } else if i == 8 {
        "\x1b[5m"
    } else if i == 9 {
        "\x1b[7m"
    } else if i == 10 {
        "\x1b[?1h\x1b="
    } else if i == 11 {
        "\x1b[?1l\x1b>"
    } else if i == 12 {
        "\x1b[?1000h"
    } else {
        "\x1b[?1000l"
    }
}

fn key_of_xterm(i: usize) -> (s: &'static str)
    requires
        i < KEYS_NUM,
    ensures
        s == xterm_key(i as int),
{
    if i == 0 {
        "\x1bOP"
    } else if i == 1 {
        "\x1bOQ"
    } else if i == 2 {
        "\x1bOR"
    } else if i == 3 {
        "\x1bOS"
    } else if i == 4 {
        "\x1b[15~"
    } else if i == 5 {
        "\x1b[17~"
    } else if i == 6 {
        "\x1b[18~"
    } else if i == 7 {
        "\x1b[19~"
    } else if i == 8 {
        "\x1b[20~"
    } else if i == 9 {
        "\x1b[21~"
    } else if i == 10 {
        "\x1b[23~"
    } else if i == 11 {
        "\x1b[24~"
    } else if i == 12 {
        "\x1b[2~"
    } else if i == 13 {
        "\x1b[3~"
    } else if i == 14 {
        "\x1bOH"
    } else if i == 15 {
        "\x1bOF"
    } else if i == 16 {
        "\x1b[5~"
    } else if i == 17 {
        "\x1b[6~"
    } else if i == 18 {
        "\x1bOA"
    } else if i == 19 {
        "\x1bOB"
    } else if i == 20 {
        "\x1bOD"
    } else {
        "\x1bOC"
    }
}

/// How many named capabilities a device gives: its first ten display
/// functions, the three sequences with parameters, and its keys.
pub const ENTRIES_NUM: usize = 35;

/// The terminfo name under which a device gives its capability at a place
/// of the list of `entries`.
pub open spec fn entry_name(i: int) -> &'static str {
    if i == 0 {
        "smcup"
    } else if i == 1 {
        "rmcup"
    } else if i == 2 {
        "cnorm"
    } else if i == 3 {
        "civis"
    } else if i == 4 {
        "clear"
    } else if i == 5 {
        "sgr0"
    } else if i == 6 {
        "smul"
    } else if i == 7 {
        "bold"
    } else if i == 8 {
        "blink"
    } else if i == 9 {
        "rev"
    } else if i == 10 {
        "cup"
    } else if i == 11 {
        "setaf"
    } else if i == 12 {
        "setab"
    } else if i == 13 {
        "kf1"
    } else if i == 14 {
        "kf2"
    } else if i == 15 {
        "kf3"
    } else if i == 16 {
        "kf4"
    } else if i == 17 {
        "kf5"
    } else if i == 18 {
        "kf6"
    } else if i == 19 {
        "kf7"
    } else if i == 20 {
        "kf8"
    } else if i == 21 {
        "kf9"
    } else if i == 22 {
        "kf10"
    } else if i == 23 {
        "kf11"
    } else if i == 24 {
        "kf12"
    } else if i == 25 {
        "kich1"
    } else if i == 26 {
        "kdch1"
    } else if i == 27 {
        "khome"
    } else if i == 28 {
        "kend"
    } else if i == 29 {
        "kpp"
    } else if i == 30 {
        "knp"
    } else if i == 31 {
        "kcuu1"
    } else if i == 32 {
        "kcud1"
    } else if i == 33 {
        "kcub1"
    } else {
        "kcuf1"
    }
}

/// The sequences with parameters of a terminal that follows the ANSI
/// standard, as templates: cursor position, foreground colour, background
/// colour.
pub open spec fn ansi_template(i: int) -> &'static str {
    if i == 10 {
        "\x1b[%i%p1%d;%p2%dH"
    } else if i == 11 {
        "\x1b[3%p1%dm"
    } else {
        "\x1b[4%p1%dm"
    }
}

fn name_of_entry(i: usize) -> (s: &'static str)
    requires
        i < ENTRIES_NUM,
    ensures
        s == entry_name(i as int),
{
    if i == 0 {
        "smcup"
    } else if i == 1 {
        "rmcup"
    } else if i == 2 {
        "cnorm"
    } else if i == 3 {
        "civis"
    } else if i == 4 {
        "clear"
    } else if i == 5 {
        "sgr0"
    } else if i == 6 {
        "smul"
    } else if i == 7 {
        "bold"
    } else if i == 8 {
        "blink"
    } else if i == 9 {
        "rev"
    } else if i == 10 {
        "cup"
    } else if i == 11 {
        "setaf"
    } else if i == 12 {
        "setab"
    } else if i == 13 {
        "kf1"
    } else if i == 14 {
        "kf2"
    } else if i == 15 {
        "kf3"
    } else if i == 16 {
        "kf4"
    } else if i == 17 {
        "kf5"
    } else if i == 18 {
        "kf6"
    } else if i == 19 {
        "kf7"
    } else if i == 20 {
        "kf8"
    } else if i == 21 {
        "kf9"
    } else if i == 22 {
        "kf10"
    } else if i == 23 {
        "kf11"
    } else if i == 24 {
        "kf12"
    } else if i == 25 {
        "kich1"
    } else if i == 26 {
        "kdch1"
    } else if i == 27 {
        "khome"
    } else if i == 28 {
        "kend"
    } else if i == 29 {
        "kpp"
    } else if i == 30 {
        "knp"
    } else if i == 31 {
        "kcuu1"
    } else if i == 32 {
        "kcud1"
    } else if i == 33 {
        "kcub1"
    } else {
        "kcuf1"
    }
}

fn template_of_ansi(i: usize) -> (s: &'static str)
    requires
        10 <= i < 13,
    ensures
        s == ansi_template(i as int),
{
    if i == 10 {
        "\x1b[%i%p1%d;%p2%dH"
    } else if i == 11 {
        "\x1b[3%p1%dm"
    } else {
        "\x1b[4%p1%dm"
    }
}

/// Whether `needle` stands in `hay` from index `i` on.
pub open spec fn occurs_at(hay: Seq<u8>, needle: Seq<u8>, i: int) -> bool {
    0 <= i && i + needle.len() <= hay.len() && hay.subrange(i, i + needle.len()) == needle
}

/// Whether `needle` stands somewhere in `hay`.
pub open spec fn contains_bytes(hay: Seq<u8>, needle: Seq<u8>) -> bool {
    exists|i: int| occurs_at(hay, needle, i)
}

/// Decides whether `needle` stands somewhere in `hay`.
pub fn contains(hay: &[u8], needle: &[u8]) -> (b: bool)
    ensures
        b == contains_bytes(hay@, needle@),
{
    let n = needle.len();
    if n > hay.len() {
        assert(forall|i: int| !occurs_at(hay@, needle@, i));
        return false;
    }
    let last = hay.len() - n;
    let mut i: usize = 0;
    while i <= last
        invariant
            n == needle.len(),
            n <= hay.len(),
            last == hay.len() - n,
            i <= last + 1,
            forall|j: int| 0 <= j < i ==> !occurs_at(hay@, needle@, j),
        decreases last + 1 - i,
    {
        let mut k: usize = 0;
        let mut same = true;
        while k < n
            invariant
                n == needle.len(),
                i + n <= hay.len(),
                k <= n,
                same == (forall|j: int| 0 <= j < k ==> hay@[i + j] == needle@[j]),
            decreases n - k,
        {
            if hay[i + k] != needle[k] {
                same = false;
            }
            k += 1;
        }
        proof {
            if same {
                assert(hay@.subrange(i as int, i + n) =~= needle@);
                assert(occurs_at(hay@, needle@, i as int));
            } else {
                let j = choose|j: int| 0 <= j < n && hay@[i + j] != needle@[j];
                assert(hay@.subrange(i as int, i + n)[j] == hay@[i + j]);
            }
        }
        if same {
            return true;
        }
        i += 1;
    }
    assert(forall|j: int| !occurs_at(hay@, needle@, j));
    false
}

/// A terminal that is known by name: its name, the sequences of its
/// display functions and the sequences that its keys send.
#[derive(Debug)]
pub struct Device {
    name: &'static str,
    keys: Vec<&'static str>,
    funcs: Vec<&'static str>,
}

/// Why no device was found: the terminal type is not set.
pub open spec fn term_not_set() -> TtyError {
    TtyError { description: "TERM not set" }
}

/// Why no device was found: the terminal type is none of the known ones.
pub open spec fn unsupported_terminal() -> TtyError {
    TtyError { description: "Unsupported terminal" }
}

impl Device {
    #[verifier::type_invariant]
    closed spec fn inv(self) -> bool {
        &&& self.funcs@.len() == FUNCS_NUM
        &&& self.keys@.len() == KEYS_NUM
    }

    /// The name of the device.
    pub closed spec fn spec_name(&self) -> &'static str {
        self.name
    }

    /// The sequence of the display function at a place of the list.
    pub closed spec fn func(&self, i: int) -> &'static str {
        self.funcs@[i]
    }

    /// The sequence that the key at a place of the list sends.
    pub closed spec fn key(&self, i: int) -> &'static str {
        self.keys@[i]
    }

    /// Whether the device is xterm as this library knows it.
    pub open spec fn is_xterm(&self) -> bool {
        &&& self.spec_name() == "xterm"
        &&& forall|i: int| 0 <= i < FUNCS_NUM ==> #[trigger] self.func(i) == xterm_func(i)
        &&& forall|i: int| 0 <= i < KEYS_NUM ==> #[trigger] self.key(i) == xterm_key(i)
    }

    /// The device named `xterm`.
    pub fn xterm() -> (d: Device)
        ensures
            d.is_xterm(),
    {
        let mut funcs: Vec<&'static str> = Vec::with_capacity(FUNCS_NUM);
        let mut i: usize = 0;
        while i < FUNCS_NUM
            invariant
                i <= FUNCS_NUM,
                funcs@.len() == i,
                forall|k: int| 0 <= k < i ==> funcs@[k] == xterm_func(k),
            decreases FUNCS_NUM - i,
        {
            funcs.push(func_of_xterm(i));
            i += 1;
        }
        let mut keys: Vec<&'static str> = Vec::with_capacity(KEYS_NUM);
        let mut j: usize = 0;
        while j < KEYS_NUM
            invariant
                j <= KEYS_NUM,
                keys@.len() == j,
                forall|k: int| 0 <= k < j ==> keys@[k] == xterm_key(k),
            decreases KEYS_NUM - j,
        {
            keys.push(key_of_xterm(j));
            j += 1;
        }
        Device { name: "xterm", keys, funcs }
    }

    /// Finds the device for a terminal type, as the environment names it:
    /// the known device whose name stands somewhere in the terminal type.
    ///
    /// Fails where the terminal type is not set, and where it holds the
    /// name of no known device.
    pub fn new(term: Option<&str>) -> (r: Result<Device, TtyError>)
        ensures
            match term {
                None => r matches Err(e) && e == term_not_set(),
                Some(dname) => if contains_bytes(dname.spec_bytes(), "xterm".spec_bytes()) {
                    r matches Ok(d) && d.is_xterm()
                } else {
                    r matches Err(e) && e == unsupported_terminal()
                },
            },
    {
        match term {
            None => Err(TtyError::new("TERM not set")),
            Some(dname) => {
                let dev = Device::xterm();
                if contains(dname.as_bytes(), dev.name.as_bytes()) {
                    Ok(dev)
                } else {
                    Err(TtyError::new("Unsupported terminal"))
                }
            },
        }
    }

    /// The text of the capability that the device gives at a place of the
    /// list of `entries`: one of its first ten display functions, then the
    /// three ANSI templates, then its keys.
    pub open spec fn entry_text(&self, i: int) -> &'static str {
        if i < 10 {
            self.func(i)
        } else if i < 13 {
            ansi_template(i)
        } else {
            self.key(i - 13)
        }
    }

    /// The capabilities of the device under their terminfo names, in the
    /// form that a capability table and a key table are built from.
    pub fn entries(&self) -> (r: Vec<(String, Vec<u8>)>)
        ensures
            r@.len() == ENTRIES_NUM,
            forall|i: int|
                0 <= i < ENTRIES_NUM ==> (#[trigger] r@[i]).0@ == entry_name(i)@ && r@[i].1@
                    == self.entry_text(i).spec_bytes(),
    {
        proof {
            use_type_invariant(self);
        }
        let mut r: Vec<(String, Vec<u8>)> = Vec::with_capacity(ENTRIES_NUM);
        let mut i: usize = 0;
        while i < ENTRIES_NUM
            invariant
                i <= ENTRIES_NUM,
                self.funcs@.len() == FUNCS_NUM,
                self.keys@.len() == KEYS_NUM,
                r@.len() == i,
                forall|k: int|
                    0 <= k < i ==> (#[trigger] r@[k]).0@ == entry_name(k)@ && r@[k].1@
                        == self.entry_text(k).spec_bytes(),
            decreases ENTRIES_NUM - i,
        {
            let text: &'static str = if i < 10 {
                self.funcs[i]
            } else if i < 13 {
                template_of_ansi(i)
            } else {
                self.keys[i - 13]
            };
            r.push((name_of_entry(i).to_owned(), text.as_bytes_vec()));
            i += 1;
        }
        r
    }

    /// The name of the device.
    pub fn name(&self) -> (n: &str)
        ensures
            n == self.spec_name(),
    {
        self.name
    }

    /// The bytes of a display function of the device.
    pub fn get(&self, index: DevFunc) -> (bytes: &[u8])
        requires
            index != DevFunc::FuncsNum,
        ensures
            bytes@ == self.func(index.spec_index()).spec_bytes(),
    {
        proof {
            use_type_invariant(self);
        }
        self.funcs[index.index()].as_bytes()
    }

    /// The bytes that the key at a place of the list sends.
    pub fn key_bytes(&self, i: usize) -> (bytes: &[u8])
        requires
            i < KEYS_NUM,
        ensures
            bytes@ == self.key(i as int).spec_bytes(),
    {
        proof {
            use_type_invariant(self);
        }
        self.keys[i].as_bytes()
    }
}

} // verus!
