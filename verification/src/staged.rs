//! Staged values: a plain value plus three pending-claim sets.
//!
//! A claim is a `(phase, claimant id)` pair. Claims are declared (idempotent
//! insert) before resolution begins and resolved (remove if present) during the
//! rounds. The phases are strictly ordered per field: a modifier claim may only
//! clear once every initializer claim on the same field has cleared, and a
//! finalizer claim only once both earlier sets are empty. The gating
//! coordinates order; it does not lock the value, which stays freely writable.

use vstd::prelude::*;

verus! {

/// One of the three strictly ordered phases of a staged field.
#[derive(Clone, Copy, PartialEq, Eq, Structural, Debug)]
pub enum Phase {
    Initializer,
    Modifier,
    Finalizer,
}

/// A pending obligation on a staged field, owned by the claimant named `who`.
#[derive(Debug)]
pub struct Claim {
    pub phase: Phase,
    pub who: String,
}

/// A value gated by three pending-claim sets, one per phase.
#[derive(Debug)]
pub struct Staged<T> {
    value: T,
    claims: Vec<Claim>,
}

impl<T> Staged<T> {
    /// The pending claims as `(phase, claimant id)` pairs, in declaration order.
    pub closed spec fn claim_seq(&self) -> Seq<(Phase, Seq<char>)> {
        self.claims@.map_values(|c: Claim| (c.phase, c.who@))
    }

    /// The set of claimant ids pending in the given phase.
    pub open spec fn claims_of(&self, phase: Phase) -> Set<Seq<char>> {
        Set::new(|id: Seq<char>| self.claim_seq().contains((phase, id)))
    }

    /// The pending initializer claimants.
    pub open spec fn initializers(&self) -> Set<Seq<char>> {
        self.claims_of(Phase::Initializer)
    }

    /// The pending modifier claimants.
    pub open spec fn modifiers(&self) -> Set<Seq<char>> {
        self.claims_of(Phase::Modifier)
    }

    /// The pending finalizer claimants.
    pub open spec fn finalizers(&self) -> Set<Seq<char>> {
        self.claims_of(Phase::Finalizer)
    }

    /// The wrapped value.
    pub closed spec fn val(&self) -> T {
        self.value
    }

    /// The total number of pending claims, over all three phases.
    pub open spec fn count(&self) -> nat {
        self.claim_seq().len()
    }

    /// Each `(phase, claimant)` pair is pending at most once.
    pub open spec fn wf(&self) -> bool {
        self.claim_seq().no_duplicates()
    }

    /// The claim sets of `b` are those of `a`; only the value may differ.
    pub open spec fn same_claims(a: Self, b: Self) -> bool {
        &&& b.claim_seq() == a.claim_seq()
        &&& b.count() == a.count()
        &&& (b.wf() <==> a.wf())
        &&& b.initializers() == a.initializers()
        &&& b.modifiers() == a.modifiers()
        &&& b.finalizers() == a.finalizers()
    }


    /// Every claim set of `a` is contained in the corresponding set of `b`:
    /// going from `a` to `b` only inserted claims.
    pub open spec fn grows(a: Self, b: Self) -> bool {
        &&& a.initializers().subset_of(b.initializers())
        &&& a.modifiers().subset_of(b.modifiers())
        &&& a.finalizers().subset_of(b.finalizers())
    }

    /// Every claim on this field, in all three phases, has cleared.
    pub open spec fn resolved(&self) -> bool {
        &&& self.initializers() == Set::<Seq<char>>::empty()
        &&& self.modifiers() == Set::<Seq<char>>::empty()
        &&& self.finalizers() == Set::<Seq<char>>::empty()
    }

    /// Whether phase `p` is allowed to resolve claims: every earlier-phase
    /// claim set on this field must be empty.
    pub open spec fn gate_open(&self, p: Phase) -> bool {
        match p {
            Phase::Initializer => true,
            Phase::Modifier => self.initializers() == Set::<Seq<char>>::empty(),
            Phase::Finalizer => self.initializers() == Set::<Seq<char>>::empty()
                && self.modifiers() == Set::<Seq<char>>::empty(),
        }
    }
    /// Wraps a base value; no claims are pending yet.
    pub fn new(value: T) -> (s: Self)
        ensures
            s.val() == value,
            s.count() == 0,
            s.wf(),
            s.claim_seq() == Seq::<(Phase, Seq<char>)>::empty(),
            s.initializers() == Set::<Seq<char>>::empty(),
            s.modifiers() == Set::<Seq<char>>::empty(),
            s.finalizers() == Set::<Seq<char>>::empty(),
    {
        let s = Staged { value, claims: Vec::new() };
        proof {
            assert(s.claim_seq() =~= Seq::<(Phase, Seq<char>)>::empty());
            assert(s.initializers() =~= Set::<Seq<char>>::empty());
            assert(s.modifiers() =~= Set::<Seq<char>>::empty());
            assert(s.finalizers() =~= Set::<Seq<char>>::empty());
        }
        s
    }

    /// Takes the wrapped value out, dropping the claim bookkeeping.
    pub fn unwrap(self) -> (r: T)
        ensures
            r == self.val(),
    {
        self.value
    }

    /// Reads the wrapped value.
    pub fn get(&self) -> (r: &T)
        ensures
            *r == self.val(),
    {
        &self.value
    }

    /// Writes the wrapped value. The claim machinery is advisory: this does not
    /// consult the claim sets.
    pub fn set(&mut self, value: T)
        ensures
            final(self).val() == value,
            Self::same_claims(*old(self), *final(self)),
    {
        self.value = value;
    }

    /// Swaps a new value in and hands the old one back.
    pub fn replace(&mut self, value: T) -> (r: T)
        ensures
            r == old(self).val(),
            final(self).val() == value,
            Self::same_claims(*old(self), *final(self)),
    {
        let mut value = value;
        core::mem::swap(&mut self.value, &mut value);
        value
    }

    /// The index of the pending claim `(phase, who)`, if that claim is pending.
    fn find_claim(&self, phase: Phase, who: &String) -> (r: Option<usize>)
        ensures
            match r {
                Some(i) => i < self.claim_seq().len() && self.claim_seq()[i as int] == (
                phase,
                who@,
                ),
                None => !self.claim_seq().contains((phase, who@)),
            },
    {
        let mut i: usize = 0;
        while i < self.claims.len()
            invariant
                i <= self.claims@.len(),
                forall|j: int| 0 <= j < i ==> self.claim_seq()[j] != (phase, who@),
            decreases self.claims@.len() - i,
        {
            let c = &self.claims[i];
            if c.phase == phase && c.who == *who {
                return Some(i);
            }
            i = i + 1;
        }
        None
    }

    /// True when no claim is pending in the given phase.
    fn phase_clear(&self, phase: Phase) -> (r: bool)
        ensures
            r == (self.claims_of(phase) == Set::<Seq<char>>::empty()),
    {
        let mut i: usize = 0;
        while i < self.claims.len()
            invariant
                i <= self.claims@.len(),
                forall|j: int| 0 <= j < i ==> self.claim_seq()[j].0 != phase,
            decreases self.claims@.len() - i,
        {
            let c = &self.claims[i];
            if c.phase == phase {
                proof {
                    assert(self.claims_of(phase).contains(self.claim_seq()[i as int].1));
                }
                return false;
            }
            i = i + 1;
        }
        proof {
            assert(self.claims_of(phase) =~= Set::<Seq<char>>::empty());
        }
        true
    }

    /// Idempotent insert of `(phase, who)` into the pending claims.
    pub fn declare_phase(&mut self, phase: Phase, who: &str)
        requires
            old(self).wf(),
        ensures
            final(self).wf(),
            final(self).val() == old(self).val(),
            final(self).claims_of(phase) == old(self).claims_of(phase).insert(who@),
            phase != Phase::Initializer ==> final(self).initializers() == old(self).initializers(),
            phase != Phase::Modifier ==> final(self).modifiers() == old(self).modifiers(),
            phase != Phase::Finalizer ==> final(self).finalizers() == old(self).finalizers(),
            final(self).count() == old(self).count() + (if old(self).claims_of(phase).contains(
                who@,
            ) {
                0int
            } else {
                1int
            }),
    {
        let w: String = who.to_owned();
        match self.find_claim(phase, &w) {
            Some(_) => {
                proof {
                    assert(old(self).claims_of(phase).contains(who@));
                    assert(final(self).claims_of(phase) =~= old(self).claims_of(phase).insert(
                        who@,
                    ));
                }
            },
            None => {
                let ghost pre = self.claim_seq();
                self.claims.push(Claim { phase, who: w });
                proof {
                    assert(self.claim_seq() =~= pre.push((phase, who@)));
                    lemma_push_contains(pre, (phase, who@));
                    lemma_push_no_duplicates(pre, (phase, who@));
                    assert(self.claims_of(phase) =~= old(self).claims_of(phase).insert(who@));
                    if phase != Phase::Initializer {
                        assert(self.initializers() =~= old(self).initializers());
                    }
                    if phase != Phase::Modifier {
                        assert(self.modifiers() =~= old(self).modifiers());
                    }
                    if phase != Phase::Finalizer {
                        assert(self.finalizers() =~= old(self).finalizers());
                    }
                }
            },
        }
    }

    /// Removes `(phase, who)` from the pending claims if it is there; reports
    /// whether it was.
    fn resolve(&mut self, phase: Phase, who: &str) -> (r: bool)
        requires
            old(self).wf(),
        ensures
            final(self).wf(),
            final(self).val() == old(self).val(),
            r == old(self).claims_of(phase).contains(who@),
            final(self).claims_of(phase) == old(self).claims_of(phase).remove(who@),
            phase != Phase::Initializer ==> final(self).initializers() == old(self).initializers(),
            phase != Phase::Modifier ==> final(self).modifiers() == old(self).modifiers(),
            phase != Phase::Finalizer ==> final(self).finalizers() == old(self).finalizers(),
            final(self).count() == old(self).count() - (if r {
                1int
            } else {
                0int
            }),
    {
        let w: String = who.to_owned();
        match self.find_claim(phase, &w) {
            Some(i) => {
                let ghost pre = self.claim_seq();
                self.claims.remove(i);
                proof {
                    assert(self.claim_seq() =~= pre.remove(i as int));
                    lemma_remove_unique(pre, i as int);
                    assert(old(self).claims_of(phase).contains(who@));
                    assert(self.claims_of(phase) =~= old(self).claims_of(phase).remove(who@));
                    if phase != Phase::Initializer {
                        assert(self.initializers() =~= old(self).initializers());
                    }
                    if phase != Phase::Modifier {
                        assert(self.modifiers() =~= old(self).modifiers());
                    }
                    if phase != Phase::Finalizer {
                        assert(self.finalizers() =~= old(self).finalizers());
                    }
                }
                true
            },
            None => {
                proof {
                    assert(final(self).claims_of(phase) =~= old(self).claims_of(phase).remove(
                        who@,
                    ));
                }
                false
            },
        }
    }

    /// Declares that `who` will act on this field in the initializer phase.
    pub fn declare_initializer(&mut self, who: &str)
        requires
            old(self).wf(),
        ensures
            final(self).wf(),
            final(self).val() == old(self).val(),
            final(self).initializers() == old(self).initializers().insert(who@),
            final(self).modifiers() == old(self).modifiers(),
            final(self).finalizers() == old(self).finalizers(),
            final(self).count() == old(self).count() + (if old(self).initializers().contains(
                who@,
            ) {
                0int
            } else {
                1int
            }),
    {
        self.declare_phase(Phase::Initializer, who);
    }

    /// Declares that `who` will act on this field in the modifier phase.
    pub fn declare_modifier(&mut self, who: &str)
        requires
            old(self).wf(),
        ensures
            final(self).wf(),
            final(self).val() == old(self).val(),
            final(self).modifiers() == old(self).modifiers().insert(who@),
            final(self).initializers() == old(self).initializers(),
            final(self).finalizers() == old(self).finalizers(),
            final(self).count() == old(self).count() + (if old(self).modifiers().contains(who@) {
                0int
            } else {
                1int
            }),
    {
        self.declare_phase(Phase::Modifier, who);
    }

    /// Declares that `who` will act on this field in the finalizer phase.
    pub fn declare_finalizer(&mut self, who: &str)
        requires
            old(self).wf(),
        ensures
            final(self).wf(),
            final(self).val() == old(self).val(),
            final(self).finalizers() == old(self).finalizers().insert(who@),
            final(self).initializers() == old(self).initializers(),
            final(self).modifiers() == old(self).modifiers(),
            final(self).count() == old(self).count() + (if old(self).finalizers().contains(who@) {
                0int
            } else {
                1int
            }),
    {
        self.declare_phase(Phase::Finalizer, who);
    }

    /// True when every initializer claim has cleared.
    pub fn initialized(&self) -> (r: bool)
        ensures
            r == (self.initializers() == Set::<Seq<char>>::empty()),
    {
        self.phase_clear(Phase::Initializer)
    }

    /// True when every initializer and modifier claim has cleared.
    pub fn modified(&self) -> (r: bool)
        ensures
            r == (self.initializers() == Set::<Seq<char>>::empty() && self.modifiers()
                == Set::<Seq<char>>::empty()),
    {
        self.phase_clear(Phase::Initializer) && self.phase_clear(Phase::Modifier)
    }

    /// True when every claim on this field, in all three phases, has cleared.
    pub fn finalized(&self) -> (r: bool)
        ensures
            r == (self.initializers() == Set::<Seq<char>>::empty() && self.modifiers()
                == Set::<Seq<char>>::empty() && self.finalizers() == Set::<Seq<char>>::empty()),
    {
        self.phase_clear(Phase::Initializer) && self.phase_clear(Phase::Modifier)
            && self.phase_clear(Phase::Finalizer)
    }

    /// Clears `who`'s initializer claim unconditionally; reports whether the
    /// claim was pending.
    pub fn initialize(&mut self, who: &str) -> (r: bool)
        requires
            old(self).wf(),
        ensures
            final(self).wf(),
            final(self).val() == old(self).val(),
            r == old(self).initializers().contains(who@),
            final(self).initializers() == old(self).initializers().remove(who@),
            final(self).modifiers() == old(self).modifiers(),
            final(self).finalizers() == old(self).finalizers(),
            final(self).count() == old(self).count() - (if r {
                1int
            } else {
                0int
            }),
    {
        self.resolve(Phase::Initializer, who)
    }

    /// Clears `who`'s modifier claim, but only once every initializer claim on
    /// this field has cleared; otherwise the call is a no-op returning false.
    pub fn modify(&mut self, who: &str) -> (r: bool)
        requires
            old(self).wf(),
        ensures
            final(self).wf(),
            old(self).initializers() != Set::<Seq<char>>::empty() ==> r == false && *final(self)
                == *old(self),
            old(self).initializers() == Set::<Seq<char>>::empty() ==> {
                &&& r == old(self).modifiers().contains(who@)
                &&& final(self).val() == old(self).val()
                &&& final(self).modifiers() == old(self).modifiers().remove(who@)
                &&& final(self).initializers() == old(self).initializers()
                &&& final(self).finalizers() == old(self).finalizers()
            },
            final(self).count() == old(self).count() - (if r {
                1int
            } else {
                0int
            }),
    {
        self.phase_clear(Phase::Initializer) && self.resolve(Phase::Modifier, who)
    }

    /// Clears `who`'s finalizer claim, but only once every initializer and
    /// modifier claim on this field has cleared; otherwise a no-op returning
    /// false.
    pub fn finalize(&mut self, who: &str) -> (r: bool)
        requires
            old(self).wf(),
        ensures
            final(self).wf(),
            (old(self).initializers() != Set::<Seq<char>>::empty() || old(self).modifiers()
                != Set::<Seq<char>>::empty()) ==> r == false && *final(self) == *old(self),
            (old(self).initializers() == Set::<Seq<char>>::empty() && old(self).modifiers()
                == Set::<Seq<char>>::empty()) ==> {
                &&& r == old(self).finalizers().contains(who@)
                &&& final(self).val() == old(self).val()
                &&& final(self).finalizers() == old(self).finalizers().remove(who@)
                &&& final(self).initializers() == old(self).initializers()
                &&& final(self).modifiers() == old(self).modifiers()
            },
            final(self).count() == old(self).count() - (if r {
                1int
            } else {
                0int
            }),
    {
        self.phase_clear(Phase::Initializer) && self.phase_clear(Phase::Modifier) && self.resolve(
            Phase::Finalizer,
            who,
        )
    }

    /// Attempts to resolve `who`'s claim in the given phase, honouring the
    /// phase gate: a blocked attempt is a silent no-op returning false.
    pub fn resolve_phase(&mut self, phase: Phase, who: &str) -> (r: bool)
        requires
            old(self).wf(),
        ensures
            final(self).wf(),
            final(self).val() == old(self).val(),
            r == (old(self).gate_open(phase) && old(self).claims_of(phase).contains(who@)),
            old(self).gate_open(phase) ==> final(self).claims_of(phase) == old(self).claims_of(
                phase,
            ).remove(who@),
            !old(self).gate_open(phase) ==> *final(self) == *old(self),
            phase != Phase::Initializer ==> final(self).initializers() == old(self).initializers(),
            phase != Phase::Modifier ==> final(self).modifiers() == old(self).modifiers(),
            phase != Phase::Finalizer ==> final(self).finalizers() == old(self).finalizers(),
            final(self).count() == old(self).count() - (if r {
                1int
            } else {
                0int
            }),
    {
        match phase {
            Phase::Initializer => self.initialize(who),
            Phase::Modifier => self.modify(who),
            Phase::Finalizer => self.finalize(who),
        }
    }

    /// The total number of pending claims over all three phases, used for the
    /// driver's global convergence count.
    pub fn count_unresolved(&self) -> (r: usize)
        ensures
            r == self.count(),
    {
        self.claims.len()
    }

    /// The pending claims as owned `(phase, claimant id)` pairs, for deadlock
    /// diagnostics.
    pub fn pending_claims(&self) -> (r: Vec<(Phase, String)>)
        ensures
            r@.map_values(|pc: (Phase, String)| (pc.0, pc.1@)) == self.claim_seq(),
    {
        let mut out: Vec<(Phase, String)> = Vec::new();
        let mut i: usize = 0;
        while i < self.claims.len()
            invariant
                i <= self.claims@.len(),
                out@.len() == i,
                forall|j: int|
                    0 <= j < i ==> (#[trigger] out@[j].0, out@[j].1@) == self.claim_seq()[j],
            decreases self.claims@.len() - i,
        {
            let c = &self.claims[i];
            out.push((c.phase, c.who.clone()));
            i = i + 1;
        }
        proof {
            assert(out@.map_values(|pc: (Phase, String)| (pc.0, pc.1@)) =~= self.claim_seq());
        }
        out
    }
}

/// Membership in a sequence after a push: the pushed element, or anything
/// already there.
proof fn lemma_push_contains<A>(s: Seq<A>, x: A)
    ensures
        forall|y: A| #[trigger] s.push(x).contains(y) <==> (s.contains(y) || y == x),
{
    assert forall|y: A| #[trigger] s.push(x).contains(y) implies (s.contains(y) || y == x) by {
        let j = choose|j: int| 0 <= j < s.push(x).len() && s.push(x)[j] == y;
        if j < s.len() {
            assert(s[j] == y);
        }
    }
    assert forall|y: A| (s.contains(y) || y == x) implies #[trigger] s.push(x).contains(y) by {
        if s.contains(y) {
            let j = choose|j: int| 0 <= j < s.len() && s[j] == y;
            assert(s.push(x)[j] == y);
        } else {
            assert(s.push(x)[s.len() as int] == y);
        }
    }
}

/// Pushing a fresh element keeps a duplicate-free sequence duplicate-free.
proof fn lemma_push_no_duplicates<A>(s: Seq<A>, x: A)
    requires
        s.no_duplicates(),
        !s.contains(x),
    ensures
        s.push(x).no_duplicates(),
{
    assert forall|i: int, j: int|
        0 <= i < s.push(x).len() && 0 <= j < s.push(x).len() && i != j implies s.push(x)[i]
        != s.push(x)[j] by {
        if i < s.len() && j < s.len() {
            assert(s.push(x)[i] == s[i]);
            assert(s.push(x)[j] == s[j]);
        } else if i < s.len() {
            assert(s.push(x)[i] == s[i]);
            assert(s.contains(s[i]));
        } else if j < s.len() {
            assert(s.push(x)[j] == s[j]);
            assert(s.contains(s[j]));
        }
    }
}

/// Removing one position from a duplicate-free sequence removes exactly that
/// element from its membership, and keeps it duplicate-free.
proof fn lemma_remove_unique<A>(s: Seq<A>, i: int)
    requires
        s.no_duplicates(),
        0 <= i < s.len(),
    ensures
        s.remove(i).no_duplicates(),
        forall|y: A| #[trigger] s.remove(i).contains(y) <==> (s.contains(y) && y != s[i]),
{
    let t = s.remove(i);
    assert forall|j: int, k: int| 0 <= j < t.len() && 0 <= k < t.len() && j != k implies t[j]
        != t[k] by {
        let j0 = if j < i {
            j
        } else {
            j + 1
        };
        let k0 = if k < i {
            k
        } else {
            k + 1
        };
        assert(t[j] == s[j0]);
        assert(t[k] == s[k0]);
    }
    assert forall|y: A| #[trigger] t.contains(y) implies (s.contains(y) && y != s[i]) by {
        let j = choose|j: int| 0 <= j < t.len() && t[j] == y;
        let j0 = if j < i {
            j
        } else {
            j + 1
        };
        assert(t[j] == s[j0]);
        assert(s.contains(y));
        assert(j0 != i);
    }
    assert forall|y: A| (s.contains(y) && y != s[i]) implies #[trigger] t.contains(y) by {
        let j0 = choose|j0: int| 0 <= j0 < s.len() && s[j0] == y;
        if j0 < i {
            assert(t[j0] == s[j0]);
        } else {
            assert(t[j0 - 1] == s[j0]);
        }
    }
}

} // verus!
