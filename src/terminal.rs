use vstd::prelude::*;
use nix::sys::termios::Termios;

verus! {

#[verifier::external_type_specification]
#[verifier::external_body]
pub struct ExTermios(Termios);

/// The raw configuration derived from a terminal configuration: canonical
/// mode, echo, signal characters and the other input and output processing
/// turned off, eight-bit characters, reads returning after one byte.
pub uninterp spec fn raw_mode_of(t: Termios) -> Termios;

/// Relies on nix::sys::termios::cfmakeraw, applied to a clone of `saved`: the
/// copy is put in raw mode, its result depending on `saved` alone, and `saved`
/// itself is only read.
#[verifier::external_body]
fn raw_copy(saved: &Termios) -> (r: Termios)
    ensures
        r == raw_mode_of(*saved),
{
    let mut raw = saved.clone();
    nix::sys::termios::cfmakeraw(&mut raw);
    raw
}

/// The attributes of the invoking terminal, captured once before any change.
/// The snapshot is never modified; raw mode is derived from a copy of it, at
/// most once, and the snapshot is handed back exactly once, to restore.
pub struct TerminalModes {
    saved: Termios,
    raw_taken: bool,
}

impl TerminalModes {
    /// The attributes captured before any change.
    pub closed spec fn snapshot(&self) -> Termios {
        self.saved
    }

    /// Whether the raw configuration has already been derived.
    pub closed spec fn raw_taken(&self) -> bool {
        self.raw_taken
    }

    /// Keeps the attributes just read from the terminal.
    pub fn capture(saved: Termios) -> (r: TerminalModes)
        ensures
            r.snapshot() == saved,
            !r.raw_taken(),
    {
        TerminalModes { saved, raw_taken: false }
    }

    /// The raw configuration to apply to the terminal: canonical mode, echo and
    /// signal characters off. It is given once; a second request gets `None`.
    /// The snapshot is left as it was either way.
    pub fn set_raw(&mut self) -> (r: Option<Termios>)
        ensures
            final(self).snapshot() == old(self).snapshot(),
            final(self).raw_taken(),
            r is Some <==> !old(self).raw_taken(),
            r is Some ==> r == Some(raw_mode_of(old(self).snapshot())),
    {
        if self.raw_taken {
            None
        } else {
            self.raw_taken = true;
            Some(raw_copy(&self.saved))
        }
    }

    /// The attributes to restore: the snapshot, unchanged since capture.
    /// Taking it ends the borrow of raw mode.
    pub fn restore(self) -> (r: Termios)
        ensures
            r == self.snapshot(),
    {
        self.saved
    }

    /// The snapshot, for a restore that has to be repeated.
    pub fn snapshot_ref(&self) -> (r: &Termios)
        ensures
            *r == self.snapshot(),
    {
        &self.saved
    }
}

} // verus!
