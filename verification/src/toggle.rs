//! Mutually-exclusive toggle groups.
//!
//! A `ToggleGroup` owns an ordered sequence of toggle [`ClickElement`]s.
//! After its members update each frame, the group scans for the first member
//! whose click edge fired, forces every other member off, and records that
//! member's label as active; when no member is on and none fired, the active
//! label clears.  Earliest-declared member wins a same-frame tie.

use vstd::prelude::*;
use crate::button::{force_off_step, ClickElement};

verus! {

/// An exclusive set of toggles plus the label of the active one, if any.
pub struct ToggleGroup {
    pub toggles: Vec<ClickElement>,
    pub on_toggle: Option<String>,
}

/// At most one member latched on.
pub open spec fn at_most_one_on(ms: Seq<ClickElement>) -> bool {
    forall|i: int, j: int|
        0 <= i < j < ms.len() ==> !((#[trigger] ms[i]).state_or_held && (#[trigger] ms[j]).state_or_held)
}

/// Every member is in toggle mode.
pub open spec fn all_toggles(ms: Seq<ClickElement>) -> bool {
    forall|i: int| 0 <= i < ms.len() ==> (#[trigger] ms[i]).is_toggle()
}

/// Whether any member is latched on.
pub open spec fn any_on(ms: Seq<ClickElement>) -> bool {
    exists|i: int| 0 <= i < ms.len() && (#[trigger] ms[i]).state_or_held
}

/// Index of the first member whose click edge fired, or `-1`.
pub open spec fn first_clicked(ms: Seq<ClickElement>) -> int
    decreases ms.len(),
{
    if ms.len() == 0 {
        -1
    } else if ms[0].just_clicked {
        0
    } else {
        let r = first_clicked(ms.subrange(1, ms.len() as int));
        if r == -1 {
            -1
        } else {
            r + 1
        }
    }
}

/// The members after the exclusivity scan: if some member clicked, every
/// other member is forced off; otherwise nothing moves.
pub open spec fn resolved_members(ms: Seq<ClickElement>) -> Seq<ClickElement> {
    let fc = first_clicked(ms);
    if fc == -1 {
        ms
    } else {
        Seq::new(
            ms.len(),
            |j: int|
                if j == fc {
                    ms[j]
                } else {
                    force_off_step(ms[j])
                },
        )
    }
}

/// The active label after the scan: the clicked member's label, or cleared
/// when nothing is on, or left alone.
pub open spec fn resolved_active(ms: Seq<ClickElement>, prev: Option<String>) -> Option<String> {
    let fc = first_clicked(ms);
    if fc != -1 {
        Some(ms[fc].text)
    } else if !any_on(ms) {
        None
    } else {
        prev
    }
}

/// `first_clicked` finds exactly the first fired click edge.
pub proof fn lemma_first_clicked_at(ms: Seq<ClickElement>, k: int)
    requires
        0 <= k <= ms.len(),
        forall|j: int| 0 <= j < k ==> !(#[trigger] ms[j]).just_clicked,
        k == ms.len() || ms[k].just_clicked,
    ensures
        first_clicked(ms) == if k == ms.len() {
            -1
        } else {
            k
        },
    decreases ms.len(),
{
    if ms.len() == 0 {
    } else if ms[0].just_clicked {
    } else {
        let t = ms.subrange(1, ms.len() as int);
        assert(forall|j: int| 0 <= j < k - 1 ==> !(#[trigger] t[j]).just_clicked);
        lemma_first_clicked_at(t, k - 1);
    }
}

/// When no click edge fired anywhere, `first_clicked` reports none.
pub proof fn lemma_first_clicked_props(ms: Seq<ClickElement>)
    ensures
        first_clicked(ms) == -1 ==> forall|i: int|
            0 <= i < ms.len() ==> !(#[trigger] ms[i]).just_clicked,
        first_clicked(ms) != -1 ==> 0 <= first_clicked(ms) < ms.len()
            && ms[first_clicked(ms)].just_clicked,
    decreases ms.len(),
{
    if ms.len() == 0 {
    } else if ms[0].just_clicked {
    } else {
        let t = ms.subrange(1, ms.len() as int);
        lemma_first_clicked_props(t);
        if first_clicked(ms) == -1 {
            assert(first_clicked(t) == -1);
            assert forall|i: int| 1 <= i < ms.len() implies !(#[trigger] ms[i]).just_clicked by {
                assert(ms[i] == t[i - 1]);
            };
        }
    }
}

/// Exclusivity is an invariant of the group scan: starting from at most one
/// latched member, if every member whose latched state moved this frame also
/// fired its click edge (true of every toggle update), then after the scan
/// at most one member is latched — whatever the inputs were, for any number
/// of members.
pub proof fn lemma_group_exclusive(ms0: Seq<ClickElement>, ms1: Seq<ClickElement>)
    requires
        ms1.len() == ms0.len(),
        at_most_one_on(ms0),
        forall|i: int|
            0 <= i < ms1.len() ==> ((#[trigger] ms1[i]).state_or_held != ms0[i].state_or_held
                ==> ms1[i].just_clicked),
    ensures
        at_most_one_on(resolved_members(ms1)),
{
    let fc = first_clicked(ms1);
    lemma_first_clicked_props(ms1);
    if fc == -1 {
        assert(forall|i: int|
            0 <= i < ms1.len() ==> (#[trigger] ms1[i]).state_or_held == ms0[i].state_or_held);
        assert(resolved_members(ms1) == ms1);
    } else {
        let rm = resolved_members(ms1);
        assert(forall|j: int| 0 <= j < rm.len() && j != fc ==> !(#[trigger] rm[j]).state_or_held);
    }
}

impl ToggleGroup {
    /// Structural invariant: members are toggles, at most one is latched,
    /// and the recorded active label, if any, is some member's label.
    pub open spec fn wf(self) -> bool {
        &&& all_toggles(self.toggles@)
        &&& at_most_one_on(self.toggles@)
        &&& match self.on_toggle {
            None => true,
            Some(s) => exists|i: int|
                0 <= i < self.toggles@.len() && (#[trigger] self.toggles@[i]).text == s,
        }
    }

    pub fn new(toggles: Vec<ClickElement>) -> (r: ToggleGroup)
        ensures
            r.toggles == toggles,
            r.on_toggle is None,
            all_toggles(toggles@) && at_most_one_on(toggles@) ==> r.wf(),
    {
        ToggleGroup { toggles, on_toggle: None }
    }

    /// The active member's label, if any.
    pub fn active_toggle(&self) -> (r: Option<String>)
        ensures
            r == self.on_toggle,
    {
        match &self.on_toggle {
            Some(s) => Some(s.clone()),
            None => None,
        }
    }

    /// The exclusivity scan, run after the members' own updates.
    pub fn resolve(&mut self)
        ensures
            final(self).toggles@ == resolved_members(old(self).toggles@),
            final(self).on_toggle == resolved_active(old(self).toggles@, old(self).on_toggle),
    {
        let ghost ms = self.toggles@;
        let n = self.toggles.len();
        let mut on: usize = n;
        let mut seen_on = false;
        let mut i: usize = 0;
        while i < n
            invariant_except_break
                on == n,
                seen_on == exists|j: int| 0 <= j < i && (#[trigger] ms[j]).state_or_held,
                forall|j: int| 0 <= j < i ==> !(#[trigger] ms[j]).just_clicked,
            invariant
                n == self.toggles.len(),
                n as int == ms.len(),
                self.toggles@ == ms,
                self.on_toggle == old(self).on_toggle,
                i <= n,
            ensures
                n == self.toggles.len(),
                n as int == ms.len(),
                self.toggles@ == ms,
                self.on_toggle == old(self).on_toggle,
                on <= n,
                on == n ==> i == n && (seen_on == exists|j: int|
                    0 <= j < n && (#[trigger] ms[j]).state_or_held),
                on == n ==> forall|j: int| 0 <= j < n ==> !(#[trigger] ms[j]).just_clicked,
                on < n ==> ms[on as int].just_clicked && forall|j: int|
                    0 <= j < on ==> !(#[trigger] ms[j]).just_clicked,
            decreases n - i,
        {
            if self.toggles[i].on() {
                seen_on = true;
            }
            if self.toggles[i].just_clicked() {
                on = i;
                break;
            }
            i += 1;
        }
        proof {
            if on == n {
                lemma_first_clicked_at(ms, n as int);
                assert(first_clicked(ms) == -1);
            } else {
                lemma_first_clicked_at(ms, on as int);
                assert(first_clicked(ms) == on as int);
            }
        }
        if !seen_on && on == n {
            self.on_toggle = None;
        }
        if on < n {
            let mut j: usize = 0;
            while j < n
                invariant
                    n == self.toggles.len(),
                    n as int == ms.len(),
                    on < n,
                    j <= n,
                    first_clicked(ms) == on as int,
                    self.on_toggle == old(self).on_toggle,
                    forall|k: int|
                        0 <= k < n ==> #[trigger] self.toggles@[k] == if k < j && k != on as int {
                            force_off_step(ms[k])
                        } else {
                            ms[k]
                        },
                decreases n - j,
            {
                if j != on {
                    let e = &mut self.toggles[j];
                    e.force_off();
                }
                j += 1;
            }
            let label = self.toggles[on].text.clone();
            self.on_toggle = Some(label);
            proof {
                assert(self.toggles@ =~= resolved_members(ms));
            }
        } else {
            proof {
                assert(self.toggles@ =~= resolved_members(ms));
            }
        }
    }
}

} // verus!
