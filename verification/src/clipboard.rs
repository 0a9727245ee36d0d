//! The deterministic in-process clipboard used by tests and the simulation
//! harness: text plus a sequence number bumped on every change, the same
//! protocol the real clipboard backend follows.
use vstd::prelude::*;

use crate::library::{bumped, Library};
use crate::session::{clears_protected_copy, ProtectedCopyGuard};

verus! {

/// State of the simulated clipboard.
#[derive(Debug)]
pub struct SimState {
    pub text: String,
    pub seq: u64,
    /// When set, every write fails (a clipboard held by another app).
    pub fail_writes: bool,
}

impl Default for SimState {
    fn default() -> (r: Self)
        ensures
            r.text@.len() == 0,
            r.seq == 0,
            !r.fail_writes,
    {
        SimState { text: String::new(), seq: 0, fail_writes: false }
    }
}

/// The error every write reports while writes fail.
pub open spec fn failure_message() -> Seq<char> {
    "simulated clipboard failure"@
}

impl SimState {
    /// Places `text` on the clipboard, bumping the sequence number; fails
    /// without a change while writes fail.
    pub fn set_text(&mut self, text: &str) -> (r: Result<(), String>)
        ensures
            old(self).fail_writes ==> (r matches Err(e) && e@ == failure_message()),
            old(self).fail_writes ==> *final(self) == *old(self),
            !old(self).fail_writes ==> r is Ok && final(self).text@ == text@ && final(self).seq
                == bumped(old(self).seq) && !final(self).fail_writes,
    {
        if self.fail_writes {
            return Err(String::from_str("simulated clipboard failure"));
        }
        self.text = String::from_str(text);
        self.seq = self.seq.wrapping_add(1);
        Ok(())
    }

    /// Empties the clipboard, bumping the sequence number; fails without a
    /// change while writes fail.
    pub fn clear(&mut self) -> (r: Result<(), String>)
        ensures
            old(self).fail_writes ==> (r matches Err(e) && e@ == failure_message()),
            old(self).fail_writes ==> *final(self) == *old(self),
            !old(self).fail_writes ==> r is Ok && final(self).text@.len() == 0 && final(self).seq
                == bumped(old(self).seq) && !final(self).fail_writes,
    {
        if self.fail_writes {
            return Err(String::from_str("simulated clipboard failure"));
        }
        self.text = String::new();
        self.seq = self.seq.wrapping_add(1);
        Ok(())
    }

    /// The clipboard's sequence number.
    pub fn sequence(&self) -> (r: u64)
        ensures
            r == self.seq,
    {
        self.seq
    }

    /// The clipboard's text.
    pub fn text(&self) -> (r: String)
        ensures
            r@ == self.text@,
    {
        self.text.clone()
    }

    /// Another application replaces the clipboard content (never fails).
    pub fn overwrite(&mut self, text: &str)
        ensures
            final(self).text@ == text@,
            final(self).seq == bumped(old(self).seq),
            final(self).fail_writes == old(self).fail_writes,
    {
        self.text = String::from_str(text);
        self.seq = self.seq.wrapping_add(1);
    }

    pub fn set_fail_writes(&mut self, fail: bool)
        ensures
            final(self).fail_writes == fail,
            final(self).text == old(self).text,
            final(self).seq == old(self).seq,
    {
        self.fail_writes = fail;
    }
}

/// The scheduled clear of a protected copy never fires before its window has
/// passed; once it has, it empties the clipboard exactly when the clipboard
/// still holds that copy. One change since the copy (a newer copy, another
/// application's content) bumps the sequence number, and the clear then
/// leaves the newer content alone.
pub proof fn lemma_protected_copy_clear(a: Library, g: ProtectedCopyGuard, now_ms: u64, current: Option<u64>)
    requires
        a.protected_copy == Some(g),
    ensures
        now_ms < g.expires_at_ms ==> !clears_protected_copy(a, now_ms, current),
        now_ms >= g.expires_at_ms ==> (clears_protected_copy(a, now_ms, Some(g.sequence))),
        !clears_protected_copy(a, now_ms, Some(bumped(g.sequence))),
        !clears_protected_copy(a, now_ms, None),
{
}

} // verus!
