use vstd::prelude::*;

verus! {

/// The single admission point in front of the build engine: at most one
/// attempt, named by a number, stages and builds at a time.
#[derive(Debug)]
pub struct BuildGate {
    busy: bool,
    holder: u64,
}

impl BuildGate {
    /// The attempt inside the critical section, if any.
    pub closed spec fn holder(&self) -> Option<u64> {
        if self.busy { Some(self.holder) } else { None }
    }

    pub fn new() -> (r: BuildGate)
        ensures
            r.holder() is None,
    {
        BuildGate { busy: false, holder: 0 }
    }

    /// Attempt `a` asks to enter. It is admitted exactly when nobody is
    /// inside; otherwise it must wait and ask again, and nothing changes.
    pub fn try_enter(&mut self, a: u64) -> (r: bool)
        ensures
            r == (old(self).holder() is None),
            final(self).holder() == after_enter(old(self).holder(), a),
    {
        if self.busy {
            false
        } else {
            self.busy = true;
            self.holder = a;
            true
        }
    }

    /// Attempt `a` exits the critical section; it must be the holder, and the lock
    /// is then free.
    pub fn leave(&mut self, a: u64) -> (r: bool)
        ensures
            r == (old(self).holder() == Some(a)),
            final(self).holder() == after_leave(old(self).holder(), a),
    {
        if self.busy && self.holder == a {
            self.busy = false;
            true
        } else {
            false
        }
    }

    /// Whether anyone is inside.
    pub fn is_busy(&self) -> (r: bool)
        ensures
            r == (self.holder() is Some),
    {
        self.busy
    }
}

/// The holder after attempt `a` asks to enter a lock held by `h`, as
/// `try_enter` states it.
pub open spec fn after_enter(h: Option<u64>, a: u64) -> Option<u64> {
    if h is None { Some(a) } else { h }
}

/// The holder after attempt `a` exits a lock held by `h`, as `leave` states
/// it.
pub open spec fn after_leave(h: Option<u64>, a: u64) -> Option<u64> {
    if h == Some(a) { None } else { h }
}

/// Mutual exclusion: once attempt `a` is admitted, a distinct attempt `b` is
/// refused, and stays refused however often it asks or tries to exit, until
/// `a` exits; then `b` is admitted. At no point are both admitted.
pub proof fn lemma_gate_exclusive(h: Option<u64>, a: u64, b: u64, tries: nat)
    requires
        a != b,
    ensures
        after_enter(h, a) == Some(a) ==> {
            let held = after_enter(h, a);
            &&& after_enter(held, b) == Some(a)
            &&& after_leave(held, b) == Some(a)
            &&& repeat_enter(held, b, tries) == Some(a)
            &&& after_enter(after_leave(repeat_enter(held, b, tries), a), b) == Some(b)
        },
    decreases tries,
{
    if tries > 0 {
        lemma_gate_exclusive(h, a, b, (tries - 1) as nat);
    }
}

/// The holder after attempt `b` asks to enter `n` times in a row.
pub open spec fn repeat_enter(h: Option<u64>, b: u64, n: nat) -> Option<u64>
    decreases n,
{
    if n == 0 { h } else { after_enter(repeat_enter(h, b, (n - 1) as nat), b) }
}

} // verus!
