//! The overlay's view of the simulation model.
//!
//! The bindings read and write plain decimal fields ([`Num`]), so the model
//! the overlay edits holds exactly those: a [`Body`] carries the editable
//! rigid-body fields, a [`Constraint`] the editable joint fields, and a
//! [`World`] maps string identifiers to them.  The host mirrors this model
//! into whatever simulation library it runs — converting mass to an inverse
//! mass, fixed-point to floating point — outside the overlay.
//!
//! The world is an association list with unique keys, so reconciliation can
//! walk it in a stable order.

use vstd::prelude::*;
use crate::num::Num;
use crate::strutil::str_eq;

verus! {

/// The collision shape the overlay can spawn.
pub enum BodyShape {
    Circle { radius: Num },
    Square { half_w: Num, half_h: Num },
}

/// The editable fields of one rigid body.
pub struct Body {
    pub position_x: Num,
    pub position_y: Num,
    pub velocity_x: Num,
    pub velocity_y: Num,
    pub rotation: Num,
    pub ang_velocity: Num,
    pub scale_x: Num,
    pub scale_y: Num,
    pub mass: Num,
    pub inertia: Num,
    pub gravity_scale: Num,
    pub shape: BodyShape,
    pub is_static: bool,
    /// Set by a layout's delete button; the model's owner honors it by
    /// removing the entry on its next pass.
    pub deleted: bool,
}

impl Body {
    pub open spec fn wf(self) -> bool {
        &&& self.position_x.wf() && self.position_y.wf()
        &&& self.velocity_x.wf() && self.velocity_y.wf()
        &&& self.rotation.wf() && self.ang_velocity.wf()
        &&& self.scale_x.wf() && self.scale_y.wf()
        &&& self.mass.wf() && self.inertia.wf()
        &&& self.gravity_scale.wf()
        &&& match self.shape {
            BodyShape::Circle { radius } => radius.wf(),
            BodyShape::Square { half_w, half_h } => half_w.wf() && half_h.wf(),
        }
    }

    /// A freshly spawned circle: at rest at the given position, unit scale,
    /// with the stock mass, inertia, and gravity scale of a new body.
    pub fn new_circle(position_x: Num, position_y: Num, rotation: Num, radius: Num, is_static:
        bool) -> (r: Body)
        requires
            position_x.wf(),
            position_y.wf(),
            rotation.wf(),
            radius.wf(),
        ensures
            r == (Body {
                position_x,
                position_y,
                velocity_x: r.velocity_x,
                velocity_y: r.velocity_y,
                rotation,
                ang_velocity: r.ang_velocity,
                scale_x: r.scale_x,
                scale_y: r.scale_y,
                mass: r.mass,
                inertia: r.inertia,
                gravity_scale: r.gravity_scale,
                shape: BodyShape::Circle { radius },
                is_static,
                deleted: false,
            }),
            r.velocity_x.value() == 0 && r.velocity_y.value() == 0,
            r.ang_velocity.value() == 0,
            r.scale_x.value() == 1000 && r.scale_y.value() == 1000,
            r.mass.value() == if is_static {
                0int
            } else {
                100int
            },
            r.inertia.value() == 266_666,
            r.gravity_scale.value() == 1000,
            r.wf(),
    {
        Body {
            position_x,
            position_y,
            velocity_x: Num::zero(),
            velocity_y: Num::zero(),
            rotation,
            ang_velocity: Num::zero(),
            scale_x: Num::from_milli(1000),
            scale_y: Num::from_milli(1000),
            mass: if is_static {
                Num::zero()
            } else {
                Num::from_milli(100)
            },
            inertia: Num::from_milli(266_666),
            gravity_scale: Num::from_milli(1000),
            shape: BodyShape::Circle { radius },
            is_static,
            deleted: false,
        }
    }

    /// A freshly spawned axis-aligned square, at rest like a new circle.
    pub fn new_square(
        position_x: Num,
        position_y: Num,
        rotation: Num,
        half_w: Num,
        half_h: Num,
        is_static: bool,
    ) -> (r: Body)
        requires
            position_x.wf(),
            position_y.wf(),
            rotation.wf(),
            half_w.wf(),
            half_h.wf(),
        ensures
            r == (Body {
                position_x,
                position_y,
                velocity_x: r.velocity_x,
                velocity_y: r.velocity_y,
                rotation,
                ang_velocity: r.ang_velocity,
                scale_x: r.scale_x,
                scale_y: r.scale_y,
                mass: r.mass,
                inertia: r.inertia,
                gravity_scale: r.gravity_scale,
                shape: BodyShape::Square { half_w, half_h },
                is_static,
                deleted: false,
            }),
            r.velocity_x.value() == 0 && r.velocity_y.value() == 0,
            r.ang_velocity.value() == 0,
            r.scale_x.value() == 1000 && r.scale_y.value() == 1000,
            r.mass.value() == if is_static {
                0int
            } else {
                100int
            },
            r.inertia.value() == 266_666,
            r.gravity_scale.value() == 1000,
            r.wf(),
    {
        Body {
            position_x,
            position_y,
            velocity_x: Num::zero(),
            velocity_y: Num::zero(),
            rotation,
            ang_velocity: Num::zero(),
            scale_x: Num::from_milli(1000),
            scale_y: Num::from_milli(1000),
            mass: if is_static {
                Num::zero()
            } else {
                Num::from_milli(100)
            },
            inertia: Num::from_milli(266_666),
            gravity_scale: Num::from_milli(1000),
            shape: BodyShape::Square { half_w, half_h },
            is_static,
            deleted: false,
        }
    }

    /// The body's hit region: the axis-aligned box of its shape around its
    /// position, tested against a pointer position in whole pixels.
    pub open spec fn spec_within(self, px: int, py: int) -> bool {
        let dx = if self.position_x.value() >= px * 1000 {
            self.position_x.value() - px * 1000
        } else {
            px * 1000 - self.position_x.value()
        };
        let dy = if self.position_y.value() >= py * 1000 {
            self.position_y.value() - py * 1000
        } else {
            py * 1000 - self.position_y.value()
        };
        match self.shape {
            BodyShape::Circle { radius } => dx < radius.value() && dy < radius.value(),
            BodyShape::Square { half_w, half_h } => dx < half_w.value() && dy < half_h.value(),
        }
    }

    /// Whether the pointer lands inside the body's hit region.
    pub fn within(&self, px: i32, py: i32) -> (r: bool)
        requires
            self.wf(),
            -16_000_000 <= px <= 16_000_000,
            -16_000_000 <= py <= 16_000_000,
        ensures
            r == self.spec_within(px as int, py as int),
    {
        let pxm: i64 = (px as i64) * 1000;
        let pym: i64 = (py as i64) * 1000;
        let cx = self.position_x.milli();
        let cy = self.position_y.milli();
        let dx: i64 = if cx >= pxm {
            cx - pxm
        } else {
            pxm - cx
        };
        let dy: i64 = if cy >= pym {
            cy - pym
        } else {
            pym - cy
        };
        match &self.shape {
            BodyShape::Circle { radius } => dx < radius.milli() && dy < radius.milli(),
            BodyShape::Square { half_w, half_h } => dx < half_w.milli() && dy < half_h.milli(),
        }
    }
}

/// The editable fields of one constraint the overlay knows how to bind.
pub enum Constraint {
    SlideJoint { body: String, position_x: Num, position_y: Num, rotation: Num, strength: Num },
    FixedJoint { body: String, position_x: Num, position_y: Num, rotation: Num, strength: Num },
}

impl Constraint {
    pub open spec fn wf(self) -> bool {
        match self {
            Constraint::SlideJoint { position_x, position_y, rotation, strength, .. } =>
                position_x.wf() && position_y.wf() && rotation.wf() && strength.wf(),
            Constraint::FixedJoint { position_x, position_y, rotation, strength, .. } =>
                position_x.wf() && position_y.wf() && rotation.wf() && strength.wf(),
        }
    }
}

/// The seed with `k` copy suffixes appended: the shape of every identifier
/// the fresh-identifier search can produce.
pub open spec fn copy_suffixes(seed: Seq<char>, k: nat) -> Seq<char>
    decreases k,
{
    if k == 0 {
        seed
    } else {
        copy_suffixes(seed, (k - 1) as nat) + " Copy"@
    }
}

/// One keyed body.
pub struct BodyEntry {
    pub id: String,
    pub body: Body,
}

/// One keyed constraint.
pub struct ConstraintEntry {
    pub id: String,
    pub constraint: Constraint,
}

/// The simulation model the overlay binds to: identifier-keyed bodies and
/// constraints, keys unique.
pub struct World {
    pub bodies: Vec<BodyEntry>,
    pub constraints: Vec<ConstraintEntry>,
}

/// Whether some body entry carries this identifier.
pub open spec fn has_body_id(bodies: Seq<BodyEntry>, id: Seq<char>) -> bool {
    exists|i: int| 0 <= i < bodies.len() && (#[trigger] bodies[i]).id@ == id
}

/// Whether some constraint entry carries this identifier.
pub open spec fn has_constraint_id(cs: Seq<ConstraintEntry>, id: Seq<char>) -> bool {
    exists|i: int| 0 <= i < cs.len() && (#[trigger] cs[i]).id@ == id
}

/// Body keys are pairwise distinct.
pub open spec fn body_keys_unique(bodies: Seq<BodyEntry>) -> bool {
    forall|i: int, j: int|
        0 <= i < j < bodies.len() ==> (#[trigger] bodies[i]).id@ != (#[trigger] bodies[j]).id@
}

/// Constraint keys are pairwise distinct.
pub open spec fn constraint_keys_unique(cs: Seq<ConstraintEntry>) -> bool {
    forall|i: int, j: int|
        0 <= i < j < cs.len() ==> (#[trigger] cs[i]).id@ != (#[trigger] cs[j]).id@
}

impl World {
    pub open spec fn wf(self) -> bool {
        &&& body_keys_unique(self.bodies@)
        &&& constraint_keys_unique(self.constraints@)
        &&& forall|i: int| 0 <= i < self.bodies@.len() ==> (#[trigger] self.bodies@[i]).body.wf()
        &&& forall|i: int|
            0 <= i < self.constraints@.len() ==> (#[trigger] self.constraints@[i]).constraint.wf()
    }

    pub fn new() -> (r: World)
        ensures
            r.bodies@.len() == 0,
            r.constraints@.len() == 0,
            r.wf(),
    {
        World { bodies: Vec::new(), constraints: Vec::new() }
    }

    /// Whether a body with this identifier is present.
    pub fn contains_body(&self, id: &str) -> (r: bool)
        ensures
            r == has_body_id(self.bodies@, id@),
    {
        let n = self.bodies.len();
        let mut i: usize = 0;
        while i < n
            invariant
                n == self.bodies.len(),
                i <= n,
                forall|j: int| 0 <= j < i ==> (#[trigger] self.bodies@[j]).id@ != id@,
            decreases n - i,
        {
            if str_eq(self.bodies[i].id.as_str(), id) {
                return true;
            }
            i += 1;
        }
        false
    }

    /// The index of the body with this identifier, if present.
    pub fn body_index(&self, id: &str) -> (r: Option<usize>)
        ensures
            match r {
                Some(i) => i < self.bodies@.len() && self.bodies@[i as int].id@ == id@,
                None => !has_body_id(self.bodies@, id@),
            },
    {
        let n = self.bodies.len();
        let mut i: usize = 0;
        while i < n
            invariant
                n == self.bodies.len(),
                i <= n,
                forall|j: int| 0 <= j < i ==> (#[trigger] self.bodies@[j]).id@ != id@,
            decreases n - i,
        {
            if str_eq(self.bodies[i].id.as_str(), id) {
                return Some(i);
            }
            i += 1;
        }
        None
    }

    /// Inserts a body under the identifier, replacing a previous body with
    /// the same identifier.
    pub fn add_body(&mut self, id: &str, body: Body)
        requires
            old(self).wf(),
            body.wf(),
        ensures
            final(self).wf(),
            final(self).constraints == old(self).constraints,
            has_body_id(final(self).bodies@, id@),
            !has_body_id(old(self).bodies@, id@) ==> final(self).bodies@.len() == old(self).bodies@.len() + 1 && final(self).bodies@.last().id@ == id@ && final(self).bodies@.last().body == body && final(self).bodies@.drop_last() == old(self).bodies@,
            has_body_id(old(self).bodies@, id@) ==> final(self).bodies@.len() == old(self).bodies@.len() && forall|j: int|
                0 <= j < final(self).bodies@.len() ==> (#[trigger] final(self).bodies@[j]) == if old(self).bodies@[j].id@ == id@ {
                    BodyEntry { id: final(self).bodies@[j].id, body }
                } else {
                    old(self).bodies@[j]
                },
    {
        match self.body_index(id) {
            Some(i) => {
                let e = &mut self.bodies[i];
                e.body = body;
                proof {
                    assert(forall|j: int|
                        0 <= j < self.bodies@.len() && j != i ==> #[trigger] self.bodies@[j]
                            == old(self).bodies@[j]);
                }
            },
            None => {
                self.bodies.push(BodyEntry { id: id.to_owned(), body });
                proof {
                    assert(final(self).bodies@.drop_last() =~= old(self).bodies@);
                }
            },
        }
    }

    /// Removes the body with this identifier, if present.
    pub fn remove_body(&mut self, id: &str)
        requires
            old(self).wf(),
        ensures
            final(self).wf(),
            final(self).constraints == old(self).constraints,
            !has_body_id(final(self).bodies@, id@),
            forall|k: Seq<char>|
                k != id@ ==> #[trigger] has_body_id(final(self).bodies@, k) == has_body_id(
                    old(self).bodies@,
                    k,
                ),
    {
        match self.body_index(id) {
            Some(i) => {
                self.bodies.remove(i);
                proof {
                    let pre = old(self).bodies@;
                    let post = self.bodies@;
                    assert(post =~= pre.subrange(0, i as int) + pre.subrange(
                        i + 1,
                        pre.len() as int,
                    ));
                    assert forall|k: Seq<char>| k != id@ implies #[trigger] has_body_id(post, k)
                        == has_body_id(pre, k) by {
                        if has_body_id(pre, k) {
                            let w = choose|j: int| 0 <= j < pre.len() && (#[trigger] pre[j]).id@ == k;
                            if w < i {
                                assert(post[w].id@ == k);
                            } else {
                                assert(w != i);
                                assert(post[w - 1].id@ == k);
                            }
                        }
                        if has_body_id(post, k) {
                            let w = choose|j: int|
                                0 <= j < post.len() && (#[trigger] post[j]).id@ == k;
                            if w < i {
                                assert(pre[w].id@ == k);
                            } else {
                                assert(pre[w + 1].id@ == k);
                            }
                        }
                    }
                    assert forall|j: int| 0 <= j < post.len() implies (#[trigger] post[j]).id@
                        != id@ by {
                        if j < i {
                            assert(post[j] == pre[j]);
                        } else {
                            assert(post[j] == pre[j + 1]);
                        }
                    }
                }
            },
            None => {},
        }
    }

    /// An upper bound on the length of every body identifier.
    pub fn max_body_id_len(&self) -> (m: usize)
        ensures
            forall|i: int|
                0 <= i < self.bodies@.len() ==> (#[trigger] self.bodies@[i]).id@.len() <= m,
    {
        let n = self.bodies.len();
        let mut m: usize = 0;
        let mut i: usize = 0;
        while i < n
            invariant
                n == self.bodies.len(),
                i <= n,
                forall|j: int| 0 <= j < i ==> (#[trigger] self.bodies@[j]).id@.len() <= m,
            decreases n - i,
        {
            let l = self.bodies[i].id.as_str().unicode_len();
            if l > m {
                m = l;
            }
            i += 1;
        }
        m
    }

    /// A non-empty identifier not yet used by any body: the seed itself if
    /// it qualifies, else the seed with enough copy suffixes appended.
    pub fn fresh_body_id(&self, seed: &str) -> (r: String)
        ensures
            !has_body_id(self.bodies@, r@),
            r@.len() > 0,
            exists|k: nat| r@ == copy_suffixes(seed@, k),
            !has_body_id(self.bodies@, seed@) && seed@.len() > 0 ==> r@ == seed@,
    {
        let mut id = seed.to_owned();
        let m = self.max_body_id_len();
        let ghost mut k: nat = 0;
        proof {
            assert(copy_suffixes(seed@, 0) == seed@);
        }
        loop
            invariant
                id@ == copy_suffixes(seed@, k),
                k == 0 ==> id@ == seed@,
                k > 0 ==> (has_body_id(self.bodies@, seed@) || seed@.len() == 0),
                forall|i: int|
                    0 <= i < self.bodies@.len() ==> (#[trigger] self.bodies@[i]).id@.len() <= m,
            ensures
                !has_body_id(self.bodies@, id@),
                id@.len() > 0,
                id@ == copy_suffixes(seed@, k),
                !has_body_id(self.bodies@, seed@) && seed@.len() > 0 ==> id@ == seed@,
            decreases (if id@.len() > m {
                0int
            } else {
                m + 1 - id@.len()
            }),
        {
            let present = self.contains_body(id.as_str());
            let empty = id.as_str().is_empty();
            if !present && !empty {
                break;
            }
            proof {
                if present {
                    let w = choose|i: int|
                        0 <= i < self.bodies@.len() && (#[trigger] self.bodies@[i]).id@ == id@;
                    assert(id@.len() <= m);
                }
                reveal_strlit(" Copy");
            }
            vstd::string::StringExecFns::append(&mut id, " Copy");
            proof {
                k = k + 1;
            }
        }
        id
    }

    /// Whether a constraint with this identifier is present.
    pub fn contains_constraint(&self, id: &str) -> (r: bool)
        ensures
            r == has_constraint_id(self.constraints@, id@),
    {
        let n = self.constraints.len();
        let mut i: usize = 0;
        while i < n
            invariant
                n == self.constraints.len(),
                i <= n,
                forall|j: int| 0 <= j < i ==> (#[trigger] self.constraints@[j]).id@ != id@,
            decreases n - i,
        {
            if str_eq(self.constraints[i].id.as_str(), id) {
                return true;
            }
            i += 1;
        }
        false
    }

    /// Appends a constraint under a fresh identifier.
    pub fn add_constraint(&mut self, id: &str, constraint: Constraint)
        requires
            old(self).wf(),
            constraint.wf(),
            !has_constraint_id(old(self).constraints@, id@),
        ensures
            final(self).wf(),
            final(self).bodies == old(self).bodies,
            final(self).constraints@.len() == old(self).constraints@.len() + 1,
            final(self).constraints@.last().id@ == id@,
            final(self).constraints@.last().constraint == constraint,
            final(self).constraints@.drop_last() == old(self).constraints@,
    {
        self.constraints.push(ConstraintEntry { id: id.to_owned(), constraint });
        proof {
            assert(final(self).constraints@.drop_last() =~= old(self).constraints@);
        }
    }
}

} // verus!
