//! The capability table: from display functions to the byte sequences of one
//! terminal.

use vstd::prelude::*;
use crate::error::{Error, ErrorKind};
use crate::expand::{expand, expanded, is_total_template, params_ok, template_is_total};

verus! {

/// How many display functions there are.
pub const NUM_FUNCS: usize = 13;

/// The largest coordinate that a cursor position may hold: window sizes are
/// 16-bit numbers.
pub const MAX_COORD: usize = 0xFFFF;

/// A display function of the terminal.
#[derive(Debug, Copy, Clone, PartialEq, Eq, Structural)]
pub enum DevFn {
    /// Enter the alternate screen.
    EnterCa,
    /// Leave the alternate screen.
    ExitCa,
    ShowCursor,
    HideCursor,
    /// Move the cursor to column `x`, row `y`, both counted from zero.
    SetCursor(usize, usize),
    /// Clear the screen.
    Clear,
    /// Switch all attributes off.
    Reset,
    Underline,
    Bold,
    Blink,
    Reverse,
    /// Set the foreground colour to a palette index.
    SetFg(u8),
    /// Set the background colour to a palette index.
    SetBg(u8),
}

/// The terminfo name of the capability in a slot of the table.
pub open spec fn slot_name(slot: int) -> &'static str {
    if slot == 0 {
        "smcup"
    } else if slot == 1 {
        "rmcup"
    } else if slot == 2 {
        "cnorm"
    } else if slot == 3 {
        "civis"
    } else if slot == 4 {
        "cup"
    } else if slot == 5 {
        "clear"
    } else if slot == 6 {
        "sgr0"
    } else if slot == 7 {
        "smul"
    } else if slot == 8 {
        "bold"
    } else if slot == 9 {
        "blink"
    } else if slot == 10 {
        "rev"
    } else if slot == 11 {
        "setaf"
    } else {
        "setab"
    }
}

/// Whether the engine cannot do without the capability in this slot. Only
/// blinking is optional.
pub open spec fn slot_required(slot: int) -> bool {
    0 <= slot < NUM_FUNCS && slot != 9
}

/// Whether the capability in this slot takes parameters: cursor position
/// and the two colours.
pub open spec fn slot_parameterized(slot: int) -> bool {
    slot == 4 || slot == 11 || slot == 12
}

impl DevFn {
    /// The slot of the table that holds the function's template.
    pub open spec fn spec_slot(self) -> int {
        match self {
            DevFn::EnterCa => 0,
            DevFn::ExitCa => 1,
            DevFn::ShowCursor => 2,
            DevFn::HideCursor => 3,
            DevFn::SetCursor(..) => 4,
            DevFn::Clear => 5,
            DevFn::Reset => 6,
            DevFn::Underline => 7,
            DevFn::Bold => 8,
            DevFn::Blink => 9,
            DevFn::Reverse => 10,
            DevFn::SetFg(..) => 11,
            DevFn::SetBg(..) => 12,
        }
    }

    /// The parameters that fill the function's template: row then column
    /// for the cursor, the palette index for a colour, none otherwise.
    pub open spec fn spec_params(self) -> Seq<i32> {
        match self {
            DevFn::SetCursor(x, y) => seq![y as i32, x as i32],
            DevFn::SetFg(c) => seq![c as i32],
            DevFn::SetBg(c) => seq![c as i32],
            _ => Seq::empty(),
        }
    }

    /// Whether the function's parameters are ones that a terminal can take:
    /// a cursor position within `MAX_COORD`.
    pub open spec fn params_in_range(self) -> bool {
        match self {
            DevFn::SetCursor(x, y) => x <= MAX_COORD && y <= MAX_COORD,
            _ => true,
        }
    }

    /// The slot of the table that holds the function's template.
    pub fn slot(&self) -> (s: usize)
        ensures
            s == self.spec_slot(),
            s < NUM_FUNCS,
    {
        match *self {
            DevFn::EnterCa => 0,
            DevFn::ExitCa => 1,
            DevFn::ShowCursor => 2,
            DevFn::HideCursor => 3,
            DevFn::SetCursor(..) => 4,
            DevFn::Clear => 5,
            DevFn::Reset => 6,
            DevFn::Underline => 7,
            DevFn::Bold => 8,
            DevFn::Blink => 9,
            DevFn::Reverse => 10,
            DevFn::SetFg(..) => 11,
            DevFn::SetBg(..) => 12,
        }
    }

    /// The terminfo name of the function's capability.
    pub fn as_str(&self) -> (name: &'static str)
        ensures
            name == slot_name(self.spec_slot()),
    {
        match *self {
            DevFn::EnterCa => "smcup",
            DevFn::ExitCa => "rmcup",
            DevFn::ShowCursor => "cnorm",
            DevFn::HideCursor => "civis",
            DevFn::SetCursor(..) => "cup",
            DevFn::Clear => "clear",
            DevFn::Reset => "sgr0",
            DevFn::Underline => "smul",
            DevFn::Bold => "bold",
            DevFn::Blink => "blink",
            DevFn::Reverse => "rev",
            DevFn::SetFg(..) => "setaf",
            DevFn::SetBg(..) => "setab",
        }
    }
}

/// The template that a list of named capabilities holds under a name: that
/// of the first entry with this name.
pub open spec fn lookup(entries: Seq<(String, Vec<u8>)>, name: Seq<char>) -> Option<Seq<u8>>
    decreases entries.len(),
{
    if entries.len() == 0 {
        None
    } else if entries[0].0@ == name {
        Some(entries[0].1@)
    } else {
        lookup(entries.drop_first(), name)
    }
}

/// The parameters that a template is tried with when a table is built: the
/// top left corner for the cursor, the first palette index for a colour.
pub open spec fn trial_params(slot: int) -> Seq<i32> {
    if slot == 4 {
        seq![0i32, 0i32]
    } else {
        seq![0i32]
    }
}

/// Whether a template serves a slot of the table. One that takes
/// parameters must be one that may be expanded, and its expansion with the
/// trial parameters must succeed; one without parameters serves as it
/// stands.
pub open spec fn template_usable(slot: int, t: Seq<u8>) -> bool {
    slot_parameterized(slot) ==> template_is_total(t) && expanded(t, trial_params(slot)).is_some()
}

/// Whether a list of named capabilities serves a slot of the table: the
/// template it holds for the slot must serve it, and only an optional
/// capability may be missing.
pub open spec fn slot_usable(entries: Seq<(String, Vec<u8>)>, slot: int) -> bool {
    match lookup(entries, slot_name(slot)@) {
        Some(t) => template_usable(slot, t),
        None => !slot_required(slot),
    }
}

/// What is reported when expanding a template fails.
pub open spec fn expansion_failure() -> Error {
    Error { kind: ErrorKind::Environment, description: "capability expansion failed" }
}

/// What is reported for a cursor position beyond `MAX_COORD`.
pub open spec fn range_failure() -> Error {
    Error { kind: ErrorKind::Other, description: "cursor position out of range" }
}

/// What is reported for a capability that the terminal lacks or that this
/// engine cannot use: the error names the capability.
pub open spec fn capability_failure(slot: int) -> Error {
    Error { kind: ErrorKind::Environment, description: slot_name(slot) }
}

/// The bytes of an expansion, or the error that stands for its failure.
pub open spec fn spec_expansion_outcome(expansion: Option<Seq<u8>>) -> Result<Seq<u8>, Error> {
    match expansion {
        Some(bytes) => Ok(bytes),
        None => Err(expansion_failure()),
    }
}

/// A result with its bytes taken as a sequence.
pub open spec fn bytes_view(r: Result<Vec<u8>, Error>) -> Result<Seq<u8>, Error> {
    match r {
        Ok(bytes) => Ok(bytes@),
        Err(e) => Err(e),
    }
}

/// Turns what an expansion gave into the result of a resolution: the bytes,
/// or an error of the environment stage.
pub fn expansion_outcome(expansion: Option<Vec<u8>>) -> (r: Result<Vec<u8>, Error>)
    ensures
        bytes_view(r) == spec_expansion_outcome(
            match expansion {
                Some(bytes) => Some(bytes@),
                None => None,
            },
        ),
{
    match expansion {
        Some(bytes) => Ok(bytes),
        None => Err(Error::with_kind(ErrorKind::Environment, "capability expansion failed")),
    }
}

/// The capability table of one terminal: for each display function the
/// template of its byte sequence.
///
/// A table always holds every capability but the optional one, and its
/// templates with parameters are ones that may be expanded and whose
/// expansion with the trial parameters succeeds.
#[derive(Debug)]
pub struct Driver {
    caps: Vec<Option<Vec<u8>>>,
}

impl Driver {
    #[verifier::type_invariant]
    closed spec fn inv(self) -> bool {
        &&& self.caps@.len() == NUM_FUNCS
        &&& self.wf()
    }

    /// The template in a slot of the table, if the terminal has the
    /// capability.
    pub closed spec fn template(&self, slot: int) -> Option<Seq<u8>> {
        if 0 <= slot < self.caps@.len() {
            match self.caps@[slot] {
                Some(t) => Some(t@),
                None => None,
            }
        } else {
            None
        }
    }

    /// Every required capability is there, and every template serves its
    /// slot.
    pub open spec fn wf(&self) -> bool {
        forall|slot: int|
            0 <= slot < NUM_FUNCS ==> match #[trigger] self.template(slot) {
                Some(t) => template_usable(slot, t),
                None => !slot_required(slot),
            }
    }

    /// What resolving a display function gives: the template itself where
    /// it takes no parameters, else the template expanded with the
    /// function's parameters.
    pub open spec fn spec_get(&self, dfn: DevFn) -> Result<Seq<u8>, Error> {
        match self.template(dfn.spec_slot()) {
            None => Err(capability_failure(dfn.spec_slot())),
            Some(t) => if !slot_parameterized(dfn.spec_slot()) {
                Ok(t)
            } else if !dfn.params_in_range() {
                Err(range_failure())
            } else {
                spec_expansion_outcome(expanded(t, dfn.spec_params()))
            },
        }
    }

    /// Builds the table from the named string capabilities of a terminal,
    /// as its terminfo entry lists them.
    ///
    /// Every template with parameters is expanded once, with the trial
    /// parameters. Construction fails if a required capability is missing,
    /// if a template with parameters is not one that may be expanded, or if
    /// its trial expansion fails; the error names the first such capability
    /// in the order of the table.
    pub fn new(entries: &Vec<(String, Vec<u8>)>) -> (r: Result<Driver, Error>)
        ensures
            match r {
                Ok(d) => {
                    &&& d.wf()
                    &&& forall|slot: int|
                        0 <= slot < NUM_FUNCS ==> slot_usable(entries@, slot) && d.template(slot)
                            == lookup(entries@, slot_name(slot)@)
                },
                Err(e) => exists|slot: int|
                    {
                        &&& 0 <= slot < NUM_FUNCS
                        &&& !slot_usable(entries@, slot)
                        &&& forall|s: int| 0 <= s < slot ==> slot_usable(entries@, s)
                        &&& e == capability_failure(slot)
                    },
            },
    {
        let mut caps: Vec<Option<Vec<u8>>> = Vec::with_capacity(NUM_FUNCS);
        let mut slot: usize = 0;
        while slot < NUM_FUNCS
            invariant
                slot <= NUM_FUNCS,
                caps@.len() == slot,
                forall|s: int| 0 <= s < slot ==> #[trigger] slot_usable(entries@, s),
                forall|s: int|
                    0 <= s < slot ==> (match #[trigger] caps@[s] {
                        Some(t) => Some(t@),
                        None => None,
                    }) == lookup(entries@, slot_name(s)@),
            decreases NUM_FUNCS - slot,
        {
            let name = name_of_slot(slot);
            let found = find(entries, name);
            let usable = match &found {
                Some(t) => serves(slot, t),
                None => slot == 9,
            };
            if !usable {
                let e = Error::with_kind(ErrorKind::Environment, name);
                assert(!slot_usable(entries@, slot as int));
                assert(e == capability_failure(slot as int));
                return Err(e);
            }
            caps.push(found);
            slot += 1;
        }
        proof {
            let g = Driver { caps };
            assert forall|s: int| 0 <= s < NUM_FUNCS implies slot_usable(entries@, s)
                && #[trigger] g.template(s) == lookup(entries@, slot_name(s)@) by {
                let held = caps@[s];
            }
            assert(g.wf());
        }
        Ok(Driver { caps })
    }

    /// Whether the terminal has the capability of a display function.
    pub fn has(&self, dfn: DevFn) -> (b: bool)
        ensures
            self.wf(),
            b == self.template(dfn.spec_slot()).is_some(),
    {
        proof {
            use_type_invariant(self);
        }
        self.caps[dfn.slot()].is_some()
    }

    /// Resolves a display function to the bytes that make the terminal
    /// perform it.
    ///
    /// A function without parameters gives its template as it stands; one
    /// with parameters gives its template expanded. It fails for a
    /// capability that the terminal lacks, for a cursor position beyond
    /// `MAX_COORD`, and where the expansion fails.
    pub fn get(&self, dfn: DevFn) -> (r: Result<Vec<u8>, Error>)
        ensures
            self.wf(),
            bytes_view(r) == self.spec_get(dfn),
    {
        proof {
            use_type_invariant(self);
        }
        let slot = dfn.slot();
        match &self.caps[slot] {
            None => Err(Error::with_kind(ErrorKind::Environment, dfn.as_str())),
            Some(t) => {
                assert(self.template(slot as int) == Some(t@));
                match dfn {
                    DevFn::SetCursor(x, y) => {
                        if x > MAX_COORD || y > MAX_COORD {
                            Err(Error::with_kind(ErrorKind::Other, "cursor position out of range"))
                        } else {
                            let mut params: Vec<i32> = Vec::with_capacity(2);
                            params.push(y as i32);
                            params.push(x as i32);
                            assert(params@ =~= dfn.spec_params());
                            expansion_outcome(expand(t, &params))
                        }
                    },
                    DevFn::SetFg(c) | DevFn::SetBg(c) => {
                        let mut params: Vec<i32> = Vec::with_capacity(1);
                        params.push(c as i32);
                        assert(params@ =~= dfn.spec_params());
                        expansion_outcome(expand(t, &params))
                    },
                    _ => {
                        let bytes = t.clone();
                        assert(bytes@ =~= t@);
                        Ok(bytes)
                    },
                }
            },
        }
    }
}

/// Decides whether a template serves a slot of the table; a template with
/// parameters is expanded with the trial parameters for it.
fn serves(slot: usize, t: &Vec<u8>) -> (b: bool)
    requires
        slot < NUM_FUNCS,
    ensures
        b == template_usable(slot as int, t@),
{
    if !(slot == 4 || slot == 11 || slot == 12) {
        return true;
    }
    if !is_total_template(t) {
        return false;
    }
    let mut params: Vec<i32> = Vec::with_capacity(2);
    params.push(0);
    if slot == 4 {
        params.push(0);
    }
    assert(params@ =~= trial_params(slot as int));
    expand(t, &params).is_some()
}

/// The terminfo name of the capability in a slot of the table.
fn name_of_slot(slot: usize) -> (name: &'static str)
    requires
        slot < NUM_FUNCS,
    ensures
        name == slot_name(slot as int),
{
    if slot == 0 {
        "smcup"
    } else if slot == 1 {
        "rmcup"
    } else if slot == 2 {
        "cnorm"
    } else if slot == 3 {
        "civis"
    } else if slot == 4 {
        "cup"
    } else if slot == 5 {
        "clear"
    } else if slot == 6 {
        "sgr0"
    } else if slot == 7 {
        "smul"
    } else if slot == 8 {
        "bold"
    } else if slot == 9 {
        "blink"
    } else if slot == 10 {
        "rev"
    } else if slot == 11 {
        "setaf"
    } else {
        "setab"
    }
}

/// Looks a capability up by name: the template of the first entry that
/// bears the name.
pub fn find(entries: &Vec<(String, Vec<u8>)>, name: &str) -> (r: Option<Vec<u8>>)
    ensures
        (match r {
            Some(t) => Some(t@),
            None => None,
        }) == lookup(entries@, name@),
{
    let key: String = name.to_owned();
    let mut i: usize = 0;
    assert(entries@.skip(0) =~= entries@);
    while i < entries.len()
        invariant
            i <= entries.len(),
            key@ == name@,
            lookup(entries@, name@) == lookup(entries@.skip(i as int), name@),
        decreases entries.len() - i,
    {
        let ghost rest = entries@.skip(i as int);
        assert(rest[0] == entries@[i as int]);
        assert(rest.drop_first() =~= entries@.skip(i as int + 1));
        if entries[i].0 == key {
            let bytes = entries[i].1.clone();
            assert(bytes@ =~= entries@[i as int].1@);
            return Some(bytes);
        }
        i += 1;
    }
    assert(entries@.skip(i as int).len() == 0);
    None
}

/// Resolving a cursor position within `MAX_COORD` hands the template of
/// the cursor capability and the position, row first, to the expansion,
/// and fails only if the expansion does.
pub proof fn lemma_set_cursor_resolution(d: &Driver, x: usize, y: usize)
    requires
        d.wf(),
        x <= MAX_COORD,
        y <= MAX_COORD,
    ensures
        d.template(4) matches Some(t) && template_is_total(t) && params_ok(seq![y as i32, x as i32])
            && d.spec_get(DevFn::SetCursor(x, y)) == spec_expansion_outcome(
            expanded(t, seq![y as i32, x as i32]),
        ),
{
    let t = d.template(4);
    assert(slot_required(4));
}

/// In every table the cursor resolves for the top left corner, and both
/// colours resolve for the first palette index: these are the expansions
/// that were tried when the table was built.
pub proof fn lemma_trial_resolution(d: &Driver)
    requires
        d.wf(),
    ensures
        d.spec_get(DevFn::SetCursor(0, 0)).is_ok(),
        d.spec_get(DevFn::SetFg(0)).is_ok(),
        d.spec_get(DevFn::SetBg(0)).is_ok(),
{
    let cup = d.template(4);
    let setaf = d.template(11);
    let setab = d.template(12);
    assert(slot_required(4) && slot_required(11) && slot_required(12));
    assert(DevFn::SetCursor(0, 0).spec_params() =~= trial_params(4));
    assert(DevFn::SetFg(0).spec_params() =~= trial_params(11));
    assert(DevFn::SetBg(0).spec_params() =~= trial_params(12));
}

/// Resolving a display function that takes no parameters gives its
/// template, and never fails for a capability that every table holds.
pub proof fn lemma_plain_resolution(d: &Driver, dfn: DevFn)
    requires
        d.wf(),
        !slot_parameterized(dfn.spec_slot()),
        slot_required(dfn.spec_slot()),
    ensures
        d.template(dfn.spec_slot()) matches Some(t) && d.spec_get(dfn) == Ok::<Seq<u8>, Error>(t),
{
    let t = d.template(dfn.spec_slot());
}

} // verus!
