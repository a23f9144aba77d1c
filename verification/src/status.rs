//! Flags that record a state shared by the whole process: that a terminal
//! is live, or that the window changed its size.

use vstd::prelude::*;
use crate::error::{Error, ErrorKind};

verus! {

/// A flag that is either set or clear.
///
/// The handler of the window-size signal does nothing but set such a flag;
/// everything that follows from it happens when the flag is next looked at.
#[derive(Debug, Copy, Clone, PartialEq, Eq, Structural)]
pub struct StatusFlag {
    pub value: bool,
}

impl StatusFlag {
    /// A flag that is clear.
    pub fn new() -> (f: StatusFlag)
        ensures
            !f.value,
    {
        StatusFlag { value: false }
    }

    /// Whether the flag is set.
    pub fn load(&self) -> (v: bool)
        ensures
            v == self.value,
    {
        self.value
    }

    /// Sets or clears the flag.
    pub fn store(&mut self, v: bool)
        ensures
            final(self).value == v,
    {
        self.value = v;
    }

    /// Gives the flag the value `new` if it has the value `current`, and
    /// returns the value it had.
    pub fn compare_and_swap(&mut self, current: bool, new: bool) -> (previous: bool)
        ensures
            previous == old(self).value,
            final(self).value == if old(self).value == current {
                new
            } else {
                old(self).value
            },
    {
        let previous = self.value;
        if previous == current {
            self.value = new;
        }
        previous
    }

    /// What claiming the flag for a new terminal gives: nothing but the set
    /// flag where it was clear, the error of the state stage where another
    /// terminal holds it.
    pub open spec fn spec_acquire(self) -> Result<StatusFlag, Error> {
        if self.value {
            Err(already_initialized())
        } else {
            Ok(StatusFlag { value: true })
        }
    }

    /// The flag after the terminal that held it is gone.
    pub open spec fn spec_release(self) -> StatusFlag {
        StatusFlag { value: false }
    }

    /// Claims the flag for a new terminal. Fails, and leaves the flag as it
    /// is, where another terminal holds it.
    pub fn acquire(&mut self) -> (r: Result<(), Error>)
        ensures
            match old(self).spec_acquire() {
                Ok(f) => r.is_ok() && *final(self) == f,
                Err(e) => r == Err::<(), Error>(e) && *final(self) == *old(self),
            },
    {
        if self.compare_and_swap(false, true) {
            Err(Error::with_kind(ErrorKind::State, "terminal already initialized"))
        } else {
            Ok(())
        }
    }

    /// Gives the flag up when the terminal that held it goes.
    pub fn release(&mut self)
        ensures
            *final(self) == old(self).spec_release(),
    {
        self.store(false);
    }
}

/// The error of asking for a terminal while another one is live.
pub open spec fn already_initialized() -> Error {
    Error { kind: ErrorKind::State, description: "terminal already initialized" }
}

/// While the flag is held, claiming it again fails with the error of the
/// state stage; once it is given up, claiming it succeeds again.
pub proof fn lemma_single_holder(flag: StatusFlag)
    requires
        !flag.value,
    ensures
        flag.spec_acquire() matches Ok(held) && held.spec_acquire() == Err::<StatusFlag, Error>(
            already_initialized(),
        ) && held.spec_release().spec_acquire().is_ok(),
{
}

impl Default for StatusFlag {
    /// A flag that is clear.
    fn default() -> (f: StatusFlag)
        ensures
            !f.value,
    {
        StatusFlag::new()
    }
}

} // verus!
