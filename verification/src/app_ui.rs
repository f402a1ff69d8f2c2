//! The overlay root: fixed panels, the per-entity panel registry, and the
//! per-frame reconciliation and dispatch.
//!
//! Each frame `AppUI::render` (a) reconciles the registries against the
//! model — a layout exists for an entity exactly when the entity is present,
//! keyed and ordered by the model's own entries, created hidden on first
//! sight and dropped when its entity disappears — then (b) renders every
//! present entity's layout, (c) runs the fixed panels, and (d) applies user
//! actions back into the model (spawning bodies, adding constraints).

use vstd::prelude::*;
use vstd::string::StringExecFns;
use crate::button::ClickElement;
use crate::constraint_guis::ConstraintDebugGui;
use crate::draw::DrawCmd;
use crate::geom::Rect;
use crate::input::FrameInput;
use crate::model::{has_body_id, has_constraint_id, Body, BodyShape, Constraint, World};
use crate::num::Num;
use crate::panel::{first_over, mouse_over_panel, Panel};
use crate::rigidbody_gui::RigidBodyDebugGui;
use crate::strutil::str_eq;
use crate::text_input::{TextInput, DT_LIMIT};
use crate::toggle::ToggleGroup;

verus! {

/// Which body shape the placement click spawns; the closed set of choices
/// the shape-selection group can produce.
pub enum UIPlaceBodyType {
    Circle,
    Square,
}

/// Maps a selection label to the shape it stands for.
pub fn place_body_kind(label: &str) -> (r: Option<UIPlaceBodyType>)
    ensures
        r is Some <==> (label@ == "Circle"@ || label@ == "Square"@),
        (r matches Some(k) && k is Circle) <==> label@ == "Circle"@,
        (r matches Some(k) && k is Square) <==> (label@ == "Square"@ && label@ != "Circle"@),
{
    if str_eq(label, "Circle") {
        Some(UIPlaceBodyType::Circle)
    } else if str_eq(label, "Square") {
        Some(UIPlaceBodyType::Square)
    } else {
        None
    }
}

/// The stock slide joint an add-constraint click creates: anchored at
/// (500, 500), level, with the tenth-of-a-percent strength, constraining
/// the body named in the first identifier field.
pub open spec fn slide_joint_shape(c: Constraint, body_id: String) -> bool {
    match c {
        Constraint::SlideJoint { body, position_x, position_y, rotation, strength } => {
            &&& body == body_id
            &&& position_x.value() == 500_000
            &&& position_y.value() == 500_000
            &&& rotation.value() == 0
            &&& strength.value() == 10
        },
        _ => false,
    }
}

/// One registry entry: a body's identifier and its generated layout.
pub struct BodyPanelEntry {
    pub id: String,
    pub gui: RigidBodyDebugGui,
}

/// One registry entry for a constraint: its layout plus the reveal toggle
/// shown on the constraints panel.
pub struct ConstraintPanelEntry {
    pub id: String,
    pub gui: ConstraintDebugGui,
    pub toggle: ClickElement,
}

pub open spec fn has_body_panel(ps: Seq<BodyPanelEntry>, id: Seq<char>) -> bool {
    exists|i: int| 0 <= i < ps.len() && (#[trigger] ps[i]).id@ == id
}

pub open spec fn body_panel_keys_unique(ps: Seq<BodyPanelEntry>) -> bool {
    forall|i: int, j: int|
        0 <= i < j < ps.len() ==> (#[trigger] ps[i]).id@ != (#[trigger] ps[j]).id@
}

pub open spec fn has_constraint_panel(ps: Seq<ConstraintPanelEntry>, id: Seq<char>) -> bool {
    exists|i: int| 0 <= i < ps.len() && (#[trigger] ps[i]).id@ == id
}

pub open spec fn constraint_panel_keys_unique(ps: Seq<ConstraintPanelEntry>) -> bool {
    forall|i: int, j: int|
        0 <= i < j < ps.len() ==> (#[trigger] ps[i]).id@ != (#[trigger] ps[j]).id@
}

/// Finds a body's entry in the leftover pool.
fn body_pool_index(pool: &Vec<BodyPanelEntry>, id: &str) -> (r: Option<usize>)
    ensures
        match r {
            Some(i) => i < pool@.len() && pool@[i as int].id@ == id@,
            None => !has_body_panel(pool@, id@),
        },
{
    let n = pool.len();
    let mut i: usize = 0;
    while i < n
        invariant
            n == pool.len(),
            i <= n,
            forall|j: int| 0 <= j < i ==> (#[trigger] pool@[j]).id@ != id@,
        decreases n - i,
    {
        if str_eq(pool[i].id.as_str(), id) {
            return Some(i);
        }
        i += 1;
    }
    None
}

/// Rebuilds the body-panel registry against the model: one entry per model
/// body, in model order — an existing layout is kept, a missing one is
/// synthesized hidden.  Leftover entries (deleted bodies) are dropped.
fn reconcile_body_panels(pool: Vec<BodyPanelEntry>, world: &World) -> (r: Vec<BodyPanelEntry>)
    requires
        body_panel_keys_unique(pool@),
        forall|i: int| 0 <= i < pool@.len() ==> (#[trigger] pool@[i]).gui.wf(),
        world.wf(),
    ensures
        r@.len() == world.bodies@.len(),
        forall|i: int| 0 <= i < r@.len() ==> (#[trigger] r@[i]).id@ == world.bodies@[i].id@,
        forall|i: int| 0 <= i < r@.len() ==> (#[trigger] r@[i]).gui.wf(),
        body_panel_keys_unique(r@),
        forall|i: int|
            0 <= i < r@.len() && has_body_panel(pool@, world.bodies@[i].id@) ==> exists|j: int|
                0 <= j < pool@.len() && (#[trigger] pool@[j]).id@ == world.bodies@[i].id@
                    && r@[i].gui == pool@[j].gui,
        forall|i: int|
            0 <= i < r@.len() && !has_body_panel(pool@, world.bodies@[i].id@) ==> (
            #[trigger] r@[i]).gui.panel.hidden,
    {
        let ghost pool0 = pool@;
        let mut pool = pool;
        let mut out: Vec<BodyPanelEntry> = Vec::new();
        let n = world.bodies.len();
        let mut i: usize = 0;
        while i < n
            invariant
                n == world.bodies@.len(),
                i <= n,
                world.wf(),
                out@.len() == i,
                forall|k: int| 0 <= k < i ==> (#[trigger] out@[k]).id@ == world.bodies@[k].id@,
                forall|k: int| 0 <= k < i ==> (#[trigger] out@[k]).gui.wf(),
                forall|k: int|
                    0 <= k < i && has_body_panel(pool0, world.bodies@[k].id@) ==> exists|j: int|
                        0 <= j < pool0.len() && (#[trigger] pool0[j]).id@ == world.bodies@[k].id@
                            && out@[k].gui == pool0[j].gui,
                forall|k: int|
                    0 <= k < i && !has_body_panel(pool0, world.bodies@[k].id@) ==> (
                    #[trigger] out@[k]).gui.panel.hidden,
                forall|j: int| 0 <= j < pool@.len() ==> pool0.contains(#[trigger] pool@[j]),
                forall|j: int| 0 <= j < pool@.len() ==> (#[trigger] pool@[j]).gui.wf(),
                body_panel_keys_unique(pool@),
                body_panel_keys_unique(pool0),
                forall|k: Seq<char>|
                    #[trigger] has_body_panel(pool@, k) <==> (has_body_panel(pool0, k) && !(
                    exists|t: int| 0 <= t < i && (#[trigger] world.bodies@[t]).id@ == k)),
            decreases n - i,
        {
            let id_ref: &String = &world.bodies[i].id;
            match body_pool_index(&pool, id_ref.as_str()) {
                Some(j) => {
                    let ghost prepool = pool@;
                    let e = pool.remove(j);
                    out.push(e);
                    proof {
                        let post = pool@;
                        assert(post =~= prepool.subrange(0, j as int) + prepool.subrange(
                            j + 1,
                            prepool.len() as int,
                        ));
                        assert(forall|a: int|
                            0 <= a < post.len() ==> #[trigger] post[a] == if a < j {
                                prepool[a]
                            } else {
                                prepool[a + 1]
                            });
                        assert forall|k: Seq<char>| #[trigger] has_body_panel(post, k) implies (
                        has_body_panel(pool0, k) && !(exists|t: int|
                            0 <= t < i + 1 && (#[trigger] world.bodies@[t]).id@ == k)) by {
                            let w = choose|a: int|
                                0 <= a < post.len() && (#[trigger] post[a]).id@ == k;
                            if w < j {
                                assert(prepool[w].id@ == k);
                            } else {
                                assert(prepool[w + 1].id@ == k);
                            }
                            assert(has_body_panel(prepool, k));
                            assert(k != world.bodies@[i as int].id@) by {
                                if k == world.bodies@[i as int].id@ {
                                    if w < j {
                                        assert(prepool[w].id@ == prepool[j as int].id@);
                                    } else {
                                        assert(prepool[w + 1].id@ == prepool[j as int].id@);
                                    }
                                }
                            }
                        }
                        assert forall|k: Seq<char>|
                            has_body_panel(pool0, k) && !(exists|t: int|
                                0 <= t < i + 1 && (#[trigger] world.bodies@[t]).id@
                                    == k) implies #[trigger] has_body_panel(post, k) by {
                            assert(has_body_panel(prepool, k));
                            let w = choose|a: int|
                                0 <= a < prepool.len() && (#[trigger] prepool[a]).id@ == k;
                            assert(k != world.bodies@[i as int].id@);
                            assert(w != j);
                            if w < j {
                                assert(post[w].id@ == k);
                            } else {
                                assert(post[w - 1].id@ == k);
                            }
                        }
                    }
                },
                None => {
                    let mut nm: String = "Rigidbody Panel".to_owned();
                    nm.append(id_ref.as_str());
                    let body_ref: &Body = &world.bodies[i].body;
                    let gui = body_ref.debug_gui(0, 0, nm.as_str());
                    out.push(BodyPanelEntry { id: id_ref.clone(), gui });
                    proof {
                        assert forall|k: Seq<char>| #[trigger] has_body_panel(pool@, k) implies (
                        has_body_panel(pool0, k) && !(exists|t: int|
                            0 <= t < i + 1 && (#[trigger] world.bodies@[t]).id@ == k)) by {
                            assert(has_body_panel(pool0, k));
                            if k == world.bodies@[i as int].id@ {
                                assert(!has_body_panel(pool@, k));
                            }
                        }
                    }
                },
            }
            i += 1;
        }
        proof {
            assert(body_panel_keys_unique(out@)) by {
                assert(forall|a: int, b: int|
                    0 <= a < b < out@.len() ==> (#[trigger] out@[a]).id@ == world.bodies@[a].id@
                        && (#[trigger] out@[b]).id@ == world.bodies@[b].id@);
            }
        }
        out
    }

/// Finds a constraint's entry in the leftover pool.
fn constraint_pool_index(pool: &Vec<ConstraintPanelEntry>, id: &str) -> (r: Option<usize>)
    ensures
        match r {
            Some(i) => i < pool@.len() && pool@[i as int].id@ == id@,
            None => !has_constraint_panel(pool@, id@),
        },
{
    let n = pool.len();
    let mut i: usize = 0;
    while i < n
        invariant
            n == pool.len(),
            i <= n,
            forall|j: int| 0 <= j < i ==> (#[trigger] pool@[j]).id@ != id@,
        decreases n - i,
    {
        if str_eq(pool[i].id.as_str(), id) {
            return Some(i);
        }
        i += 1;
    }
    None
}

/// Rebuilds the constraint-panel registry against the model, exactly as the
/// body registry is rebuilt; a fresh entry also gets its reveal toggle.
fn reconcile_constraint_panels(pool: Vec<ConstraintPanelEntry>, world: &World) -> (r: Vec<
    ConstraintPanelEntry,
>)
    requires
        constraint_panel_keys_unique(pool@),
        forall|i: int| 0 <= i < pool@.len() ==> (#[trigger] pool@[i]).gui.wf(),
        world.wf(),
    ensures
        r@.len() == world.constraints@.len(),
        forall|i: int| 0 <= i < r@.len() ==> (#[trigger] r@[i]).id@ == world.constraints@[i].id@,
        forall|i: int| 0 <= i < r@.len() ==> (#[trigger] r@[i]).gui.wf(),
        constraint_panel_keys_unique(r@),
        forall|i: int|
            0 <= i < r@.len() && has_constraint_panel(pool@, world.constraints@[i].id@) ==> exists|
                j: int,
            |
                0 <= j < pool@.len() && (#[trigger] pool@[j]).id@ == world.constraints@[i].id@
                    && r@[i].gui == pool@[j].gui && r@[i].toggle == pool@[j].toggle,
        forall|i: int|
            0 <= i < r@.len() && !has_constraint_panel(pool@, world.constraints@[i].id@) ==> (
            #[trigger] r@[i]).gui.panel.hidden && !r@[i].toggle.state_or_held,
    {
        let ghost pool0 = pool@;
        let mut pool = pool;
        let mut out: Vec<ConstraintPanelEntry> = Vec::new();
        let n = world.constraints.len();
        let mut i: usize = 0;
        while i < n
            invariant
                n == world.constraints@.len(),
                i <= n,
                world.wf(),
                out@.len() == i,
                forall|k: int|
                    0 <= k < i ==> (#[trigger] out@[k]).id@ == world.constraints@[k].id@,
                forall|k: int| 0 <= k < i ==> (#[trigger] out@[k]).gui.wf(),
                forall|k: int|
                    0 <= k < i && has_constraint_panel(pool0, world.constraints@[k].id@)
                        ==> exists|j: int|
                        0 <= j < pool0.len() && (#[trigger] pool0[j]).id@
                            == world.constraints@[k].id@ && out@[k].gui == pool0[j].gui
                            && out@[k].toggle == pool0[j].toggle,
                forall|k: int|
                    0 <= k < i && !has_constraint_panel(pool0, world.constraints@[k].id@) ==> (
                    #[trigger] out@[k]).gui.panel.hidden && !out@[k].toggle.state_or_held,
                forall|j: int| 0 <= j < pool@.len() ==> pool0.contains(#[trigger] pool@[j]),
                forall|j: int| 0 <= j < pool@.len() ==> (#[trigger] pool@[j]).gui.wf(),
                constraint_panel_keys_unique(pool@),
                constraint_panel_keys_unique(pool0),
                forall|k: Seq<char>|
                    #[trigger] has_constraint_panel(pool@, k) <==> (has_constraint_panel(pool0, k)
                        && !(exists|t: int|
                        0 <= t < i && (#[trigger] world.constraints@[t]).id@ == k)),
            decreases n - i,
        {
            let id_ref: &String = &world.constraints[i].id;
            match constraint_pool_index(&pool, id_ref.as_str()) {
                Some(j) => {
                    let ghost prepool = pool@;
                    let e = pool.remove(j);
                    out.push(e);
                    proof {
                        let post = pool@;
                        assert(post =~= prepool.subrange(0, j as int) + prepool.subrange(
                            j + 1,
                            prepool.len() as int,
                        ));
                        assert(forall|a: int|
                            0 <= a < post.len() ==> #[trigger] post[a] == if a < j {
                                prepool[a]
                            } else {
                                prepool[a + 1]
                            });
                        assert forall|k: Seq<char>| #[trigger] has_constraint_panel(
                            post,
                            k,
                        ) implies (has_constraint_panel(pool0, k) && !(exists|t: int|
                            0 <= t < i + 1 && (#[trigger] world.constraints@[t]).id@ == k)) by {
                            let w = choose|a: int|
                                0 <= a < post.len() && (#[trigger] post[a]).id@ == k;
                            if w < j {
                                assert(prepool[w].id@ == k);
                            } else {
                                assert(prepool[w + 1].id@ == k);
                            }
                            assert(has_constraint_panel(prepool, k));
                            assert(k != world.constraints@[i as int].id@) by {
                                if k == world.constraints@[i as int].id@ {
                                    if w < j {
                                        assert(prepool[w].id@ == prepool[j as int].id@);
                                    } else {
                                        assert(prepool[w + 1].id@ == prepool[j as int].id@);
                                    }
                                }
                            }
                        }
                        assert forall|k: Seq<char>|
                            has_constraint_panel(pool0, k) && !(exists|t: int|
                                0 <= t < i + 1 && (#[trigger] world.constraints@[t]).id@
                                    == k) implies #[trigger] has_constraint_panel(post, k) by {
                            assert(has_constraint_panel(prepool, k));
                            let w = choose|a: int|
                                0 <= a < prepool.len() && (#[trigger] prepool[a]).id@ == k;
                            assert(k != world.constraints@[i as int].id@);
                            assert(w != j);
                            if w < j {
                                assert(post[w].id@ == k);
                            } else {
                                assert(post[w - 1].id@ == k);
                            }
                        }
                    }
                },
                None => {
                    let mut nm: String = "Constraint Panel ".to_owned();
                    nm.append(id_ref.as_str());
                    let c_ref: &Constraint = &world.constraints[i].constraint;
                    let gui = c_ref.debug_gui(0, 0, nm.as_str());
                    let toggle = ClickElement::new_toggle(nm.as_str());
                    out.push(ConstraintPanelEntry { id: id_ref.clone(), gui, toggle });
                    proof {
                        assert forall|k: Seq<char>| #[trigger] has_constraint_panel(
                            pool@,
                            k,
                        ) implies (has_constraint_panel(pool0, k) && !(exists|t: int|
                            0 <= t < i + 1 && (#[trigger] world.constraints@[t]).id@ == k)) by {
                            assert(has_constraint_panel(pool0, k));
                            if k == world.constraints@[i as int].id@ {
                                assert(!has_constraint_panel(pool@, k));
                            }
                        }
                    }
                },
            }
            i += 1;
        }
        proof {
            assert(constraint_panel_keys_unique(out@)) by {
                assert(forall|a: int, b: int|
                    0 <= a < b < out@.len() ==> (#[trigger] out@[a]).id@
                        == world.constraints@[a].id@ && (#[trigger] out@[b]).id@
                        == world.constraints@[b].id@);
            }
        }
        out
    }

/// The overlay root.
pub struct AppUI {
    pub main_panel: Panel,
    pub grab_button: ClickElement,
    pub move_button: ClickElement,
    pub static_body: ClickElement,
    pub place_bodies: ToggleGroup,
    pub view_debug_body: ClickElement,
    pub hide: ClickElement,
    pub bodies_panel: Panel,
    pub bodies_id: TextInput,
    pub place_body_options: ToggleGroup,
    pub rigidbody_panels: Vec<BodyPanelEntry>,
    pub constraints_panel: Panel,
    pub constraints_panel_toggle: ClickElement,
    pub constraint_guis: Vec<ConstraintPanelEntry>,
    pub add_constraint_type: ToggleGroup,
    pub add_constraint: ClickElement,
    pub constraining_body_id_a: TextInput,
    pub constraining_body_id_b: TextInput,
    /// Mirror of the identifier field, refreshed whenever it is edited.
    pub new_body_id: String,
    /// Mirror of the static toggle, refreshed every frame.
    pub static_flag: bool,
}

impl AppUI {
    pub open spec fn wf(self) -> bool {
        &&& self.main_panel.wf()
        &&& self.bodies_panel.wf()
        &&& self.constraints_panel.wf()
        &&& self.bodies_id.wf()
        &&& self.constraining_body_id_a.wf()
        &&& self.constraining_body_id_b.wf()
        &&& self.place_bodies.wf() && self.place_bodies.toggles@.len() == 2
        &&& self.place_body_options.wf() && self.place_body_options.toggles@.len() == 2
        &&& self.place_body_options.toggles@[0].text@ == "Square"@
        &&& self.place_body_options.toggles@[1].text@ == "Circle"@
        &&& self.add_constraint_type.wf() && self.add_constraint_type.toggles@.len() == 4
        &&& self.add_constraint_type.toggles@[0].text@ == "Look"@
        &&& self.add_constraint_type.toggles@[1].text@ == "Distance"@
        &&& self.add_constraint_type.toggles@[2].text@ == "Fixed"@
        &&& self.add_constraint_type.toggles@[3].text@ == "Slide"@
        &&& body_panel_keys_unique(self.rigidbody_panels@)
        &&& forall|i: int|
            0 <= i < self.rigidbody_panels@.len() ==> (
            #[trigger] self.rigidbody_panels@[i]).gui.wf()
        &&& constraint_panel_keys_unique(self.constraint_guis@)
        &&& forall|i: int|
            0 <= i < self.constraint_guis@.len() ==> (#[trigger] self.constraint_guis@[i]).gui.wf()
    }

    pub fn new() -> (r: AppUI)
        ensures
            r.wf(),
            r.rigidbody_panels@.len() == 0,
            r.constraint_guis@.len() == 0,
            !r.static_flag,
            r.new_body_id@.len() == 0,
            r.main_panel.hidden,
            r.main_panel.bounds == (Rect { x: 50, y: 50, w: 200, h: 0 }),
            r.bodies_panel.bounds == (Rect { x: 255, y: 50, w: 200, h: 0 }),
            r.constraints_panel.bounds == (Rect { x: 460, y: 50, w: 200, h: 0 }),
    {
        AppUI {
            main_panel: Panel::new(Rect::new(50, 50, 200, 0), "main_panel"),
            grab_button: ClickElement::new_button("Grab Bodies"),
            move_button: ClickElement::new_button("Move"),
            static_body: ClickElement::new_toggle("Static"),
            place_bodies: ToggleGroup::new(
                vec![ClickElement::new_toggle("Bodies"), ClickElement::new_toggle("Fish")],
            ),
            view_debug_body: ClickElement::new_toggle("Debug Body"),
            hide: ClickElement::new_button("Hide"),
            bodies_panel: Panel::new(Rect::new(255, 50, 200, 0), "bodies_panel"),
            bodies_id: TextInput::new(crate::idgen::unique_id().as_str(), "Body ID"),
            place_body_options: ToggleGroup::new(
                vec![ClickElement::new_toggle("Square"), ClickElement::new_toggle("Circle")],
            ),
            rigidbody_panels: Vec::new(),
            constraints_panel: Panel::new(Rect::new(460, 50, 200, 0), "constraints_panel"),
            constraints_panel_toggle: ClickElement::new_toggle("Constraints"),
            constraint_guis: Vec::new(),
            add_constraint_type: ToggleGroup::new(
                vec![
                    ClickElement::new_toggle("Look"),
                    ClickElement::new_toggle("Distance"),
                    ClickElement::new_toggle("Fixed"),
                    ClickElement::new_toggle("Slide"),
                ],
            ),
            add_constraint: ClickElement::new_button("Add Constraint"),
            constraining_body_id_a: TextInput::new("", "Body A"),
            constraining_body_id_b: TextInput::new("", "Body B"),
            new_body_id: String::new(),
            static_flag: false,
        }
    }

    /// Reconciles the body-panel registry against the model's bodies, then
    /// renders every body's layout and applies the click-to-reveal
    /// affordance.
    fn render_rigidbody_panels(
        &mut self,
        world: &mut World,
        input: &FrameInput,
        dt: u64,
        out: &mut Vec<DrawCmd>,
    )
        requires
            old(self).wf(),
            old(world).wf(),
            input.wf(),
            dt <= DT_LIMIT,
        ensures
            final(self).wf(),
            final(world).wf(),
            *final(self) == (AppUI {
                rigidbody_panels: final(self).rigidbody_panels,
                ..*old(self)
            }),
            final(world).constraints == old(world).constraints,
            final(world).bodies@.len() == old(world).bodies@.len(),
            forall|i: int|
                0 <= i < final(world).bodies@.len() ==> (#[trigger] final(world).bodies@[i]).id@
                    == old(world).bodies@[i].id@,
            // Registry keys equal model keys, in model order.
            final(self).rigidbody_panels@.len() == final(world).bodies@.len(),
            forall|i: int|
                0 <= i < final(self).rigidbody_panels@.len() ==> (#[trigger] final(self).rigidbody_panels@[i]).id@ == final(world).bodies@[i].id@,
            // Click-to-reveal: with the inspect toggle on, a press landing
            // inside a body's hit region unhides that body's panel.
            forall|i: int|
                0 <= i < final(self).rigidbody_panels@.len() && old(self).view_debug_body.state_or_held
                    && input.left_pressed && final(world).bodies@[i].body.spec_within(
                    input.mouse_x as int,
                    input.mouse_y as int,
                ) ==> !(#[trigger] final(self).rigidbody_panels@[i]).gui.panel.hidden,
    {
        let mut panels: Vec<BodyPanelEntry> = Vec::new();
        core::mem::swap(&mut panels, &mut self.rigidbody_panels);
        let mut panels = reconcile_body_panels(panels, world);
        let n = panels.len();
        let mut i: usize = 0;
        while i < n
            invariant
                n == panels.len(),
                i <= n,
                input.wf(),
                dt <= DT_LIMIT,
                n == world.bodies@.len(),
                world.wf(),
                self.view_debug_body == old(self).view_debug_body,
                world.constraints == old(world).constraints,
                forall|k: int|
                    0 <= k < n ==> (#[trigger] world.bodies@[k]).id@ == old(world).bodies@[k].id@,
                forall|k: int| 0 <= k < n ==> (#[trigger] panels@[k]).id@ == world.bodies@[k].id@,
                forall|k: int| 0 <= k < n ==> (#[trigger] panels@[k]).gui.wf(),
                body_panel_keys_unique(panels@),
                forall|k: int|
                    0 <= k < i && old(self).view_debug_body.state_or_held && input.left_pressed
                        && world.bodies@[k].body.spec_within(
                        input.mouse_x as int,
                        input.mouse_y as int,
                    ) ==> !(#[trigger] panels@[k]).gui.panel.hidden,
            decreases n - i,
        {
            let we = &mut world.bodies[i];
            let pe = &mut panels[i];
            pe.gui.render_debug_gui(&mut we.body, input, dt, out);
            let reveal_hit = self.view_debug_body.on() && world.bodies[i].body.within(
                input.mouse_x,
                input.mouse_y,
            ) && input.left_pressed;
            if reveal_hit {
                let pe2 = &mut panels[i];
                pe2.gui.panel.hidden = false;
            }
            i += 1;
        }
        self.rigidbody_panels = panels;
    }

    /// Applies a drawn identifier to an add-constraint action: for every
    /// value the identifier generator may return, appends the stock slide
    /// joint exactly when the identifier is unused, and changes nothing on a
    /// collision.
    fn add_slide_joint(world: &mut World, id: &str, body_id: String)
        requires
            old(world).wf(),
        ensures
            final(world).wf(),
            final(world).bodies == old(world).bodies,
            !has_constraint_id(old(world).constraints@, id@) ==> {
                &&& final(world).constraints@.len() == old(world).constraints@.len() + 1
                &&& final(world).constraints@.drop_last() == old(world).constraints@
                &&& final(world).constraints@.last().id@ == id@
                &&& slide_joint_shape(final(world).constraints@.last().constraint, body_id)
            },
            has_constraint_id(old(world).constraints@, id@) ==> final(world).constraints == old(world).constraints,
    {
        if !world.contains_constraint(id) {
            let c = Constraint::SlideJoint {
                body: body_id,
                position_x: Num::from_milli(500_000),
                position_y: Num::from_milli(500_000),
                rotation: Num::zero(),
                strength: Num::from_milli(10),
            };
            world.add_constraint(id, c);
        }
    }

    /// Reconciles the constraint-panel registry, renders every constraint's
    /// layout, runs the constraints panel (joint-kind selection, add button,
    /// body-identifier fields, per-constraint reveal toggles), and applies
    /// an add-constraint click to the model.
    #[verifier::rlimit(100)]
    fn render_constraint_panels(
        &mut self,
        world: &mut World,
        input: &FrameInput,
        dt: u64,
        out: &mut Vec<DrawCmd>,
    )
        requires
            old(self).wf(),
            old(world).wf(),
            input.wf(),
            dt <= DT_LIMIT,
            old(world).constraints@.len() <= 10_000,
        ensures
            final(self).wf(),
            final(world).wf(),
            *final(self) == (AppUI {
                constraints_panel: final(self).constraints_panel,
                constraints_panel_toggle: final(self).constraints_panel_toggle,
                constraint_guis: final(self).constraint_guis,
                add_constraint_type: final(self).add_constraint_type,
                add_constraint: final(self).add_constraint,
                constraining_body_id_a: final(self).constraining_body_id_a,
                constraining_body_id_b: final(self).constraining_body_id_b,
                ..*old(self)
            }),
            final(world).bodies == old(world).bodies,
            old(world).constraints@.len() <= final(world).constraints@.len() <= old(world).constraints@.len() + 1,
            forall|i: int|
                0 <= i < old(world).constraints@.len() ==> (#[trigger] final(world).constraints@[i]).id@ == old(world).constraints@[i].id@,
            // Registry keys equal the model keys seen at reconciliation.
            final(self).constraint_guis@.len() == old(world).constraints@.len(),
            forall|i: int|
                0 <= i < final(self).constraint_guis@.len() ==> (#[trigger] final(self).constraint_guis@[i]).id@ == old(world).constraints@[i].id@,
            // Each constraint panel is revealed exactly by its toggle.
            forall|i: int|
                0 <= i < final(self).constraint_guis@.len() ==> (#[trigger] final(self).constraint_guis@[i]).gui.panel.hidden == !final(self).constraint_guis@[i].toggle.state_or_held,
            // The constraints panel itself mirrors its toggle, as the
            // toggle stood entering the frame.
            final(self).constraints_panel.hidden == !old(self).constraints_panel_toggle.state_or_held,
            // A constraint is added exactly on an add-button click with
            // "Slide" selected and a fresh drawn identifier; the addition
            // is the stock slide joint.  Without a press edge, or without
            // that selection, the constraint set is untouched.
            !input.left_pressed ==> final(world).constraints@.len() == old(world).constraints@.len(),
            final(world).constraints@.len() == old(world).constraints@.len() + 1 ==> {
                &&& !final(self).constraints_panel.hidden
                &&& final(self).add_constraint.just_clicked
                &&& input.left_pressed
                &&& (final(self).add_constraint_type.on_toggle matches Some(s) && s@ == "Slide"@)
                &&& final(world).constraints@.last().id@.len() > 0
                &&& !has_constraint_id(
                    old(world).constraints@,
                    final(world).constraints@.last().id@,
                )
                &&& slide_joint_shape(
                    final(world).constraints@.last().constraint,
                    final(self).constraining_body_id_a.content,
                )
            },
            !(!final(self).constraints_panel.hidden && final(self).add_constraint.just_clicked
                && (final(self).add_constraint_type.on_toggle matches Some(s) && s@ == "Slide"@))
                ==> final(world).constraints@.len() == old(world).constraints@.len(),
    {
        let mut guis: Vec<ConstraintPanelEntry> = Vec::new();
        core::mem::swap(&mut guis, &mut self.constraint_guis);
        let mut guis = reconcile_constraint_panels(guis, world);
        let n = guis.len();
        let mut i: usize = 0;
        while i < n
            invariant
                n == guis.len(),
                i <= n,
                input.wf(),
                dt <= DT_LIMIT,
                n == world.constraints@.len(),
                n <= 10_000,
                world.wf(),
                world.bodies == old(world).bodies,
                forall|k: int|
                    0 <= k < n ==> (#[trigger] world.constraints@[k]).id@ == old(world).constraints@[k].id@,
                forall|k: int|
                    0 <= k < n ==> (#[trigger] guis@[k]).id@ == world.constraints@[k].id@,
                forall|k: int| 0 <= k < n ==> (#[trigger] guis@[k]).gui.wf(),
                constraint_panel_keys_unique(guis@),
            decreases n - i,
        {
            let we = &mut world.constraints[i];
            let pe = &mut guis[i];
            pe.gui.render_debug_gui(&mut we.constraint, input, dt, out);
            i += 1;
        }
        self.constraint_guis = guis;
        self.constraints_panel.hidden = !self.constraints_panel_toggle.on();
        self.constraints_panel.render(input, out);
        self.constraints_panel.drag_start(input);
        self.constraints_panel.drag_end(input);
        let ghost kinds0 = self.add_constraint_type;
        let ghost cp0 = self.constraints_panel;
        self.constraints_panel.display_group(&mut self.add_constraint_type, input, out);
        proof {
            crate::panel::lemma_group_step_preserves_labels(kinds0.toggles@, *input, cp0);
            assert(forall|k: int|
                0 <= k < 4 ==> (#[trigger] self.add_constraint_type.toggles@[k]).text
                    == kinds0.toggles@[k].text);
        }
        self.constraints_panel.display_click(&mut self.add_constraint, input, out);
        self.constraints_panel.display_text_input(&mut self.constraining_body_id_a, input, dt, out);
        self.constraints_panel.display_text_input(&mut self.constraining_body_id_b, input, dt, out);
        // The click edge acts only on the frame the panel was visible: a
        // hidden panel exposes no interaction surface, so a leftover edge
        // from its last visible frame is inert.
        if !self.constraints_panel.hidden && self.add_constraint.just_clicked() {
            match self.add_constraint_type.active_toggle() {
                Some(name) => {
                    if str_eq(name.as_str(), "Slide") {
                        let id = crate::idgen::unique_id();
                        let ghost wpre = world.constraints@;
                        proof {
                            let w0 = old(world).constraints@;
                            assert forall|k: Seq<char>| #[trigger] has_constraint_id(wpre, k)
                                == has_constraint_id(w0, k) by {
                                if has_constraint_id(wpre, k) {
                                    let w = choose|t: int|
                                        0 <= t < wpre.len() && (#[trigger] wpre[t]).id@ == k;
                                    assert(w0[w].id@ == k);
                                }
                                if has_constraint_id(w0, k) {
                                    let w = choose|t: int|
                                        0 <= t < w0.len() && (#[trigger] w0[t]).id@ == k;
                                    assert(wpre[w].id@ == k);
                                }
                            }
                        }
                        Self::add_slide_joint(world, id.as_str(), self.constraining_body_id_a.get_value());
                        proof {
                            if world.constraints@.len() > wpre.len() {
                                assert(forall|t: int|
                                    0 <= t < wpre.len() ==> #[trigger] world.constraints@[t]
                                        == world.constraints@.drop_last()[t]);
                            }
                        }
                    } else if str_eq(name.as_str(), "Look") || str_eq(name.as_str(), "Distance")
                        || str_eq(name.as_str(), "Fixed") {
                        // These joint kinds carry no parameters yet; the
                        // selection alone does nothing.
                    } else {
                        // The group reports only its own members' labels, so
                        // no other selection can reach this arm.
                        proof {
                            let ts = self.add_constraint_type.toggles@;
                            let w = choose|w: int|
                                0 <= w < ts.len() && (#[trigger] ts[w]).text == name;
                            assert(ts[w].text@ == name@);
                            assert(w == 0 || w == 1 || w == 2 || w == 3);
                            assert(false);
                        }
                    }
                },
                None => {
                    // An add click with no kind selected adds nothing.
                    // Treating it as fatal, like an unknown selection, was
                    // considered; the no-op was chosen because an unselected
                    // group is an ordinary reachable state and verified code
                    // does not panic.
                },
            }
        }
        let ghost guis1 = self.constraint_guis@;
        let ghost pre_loop = *self;
        let m = self.constraint_guis.len();
        let mut j: usize = 0;
        while j < m
            invariant
                *self == (AppUI {
                    constraints_panel: self.constraints_panel,
                    constraint_guis: self.constraint_guis,
                    ..pre_loop
                }),
                self.constraints_panel.hidden == pre_loop.constraints_panel.hidden,
                m == self.constraint_guis.len(),
                m as int == guis1.len(),
                j <= m,
                input.wf(),
                self.constraints_panel.wf(),
                self.constraints_panel.hidden || self.constraints_panel.y_offset + 40 * (m - j)
                    <= 1_000_000,
                forall|k: int| 0 <= k < m ==> (#[trigger] self.constraint_guis@[k]).gui.wf(),
                forall|k: int|
                    0 <= k < m ==> (#[trigger] self.constraint_guis@[k]).id@ == guis1[k].id@,
                constraint_panel_keys_unique(self.constraint_guis@),
                forall|k: int|
                    0 <= k < j ==> (#[trigger] self.constraint_guis@[k]).gui.panel.hidden
                        == !self.constraint_guis@[k].toggle.state_or_held,
            decreases m - j,
        {
            self.constraints_panel.display_click(&mut self.constraint_guis[j].toggle, input, out);
            let on = self.constraint_guis[j].toggle.on();
            self.constraint_guis[j].gui.panel.hidden = !on;
            j += 1;
        }
    }

    /// One frame of the whole overlay: reconcile and render the per-entity
    /// panels, run the fixed panels, and apply user actions to the model.
    #[verifier::rlimit(100)]
    pub fn render(
        &mut self,
        world: &mut World,
        input: &FrameInput,
        dt: u64,
        out: &mut Vec<DrawCmd>,
    )
        requires
            old(self).wf(),
            old(world).wf(),
            input.wf(),
            dt <= DT_LIMIT,
            old(world).constraints@.len() <= 10_000,
        ensures
            final(self).wf(),
            final(world).wf(),
            // The body-panel registry mirrors the model as reconciled this
            // frame: same keys, same order, no leaks, no stale entries.
            final(self).rigidbody_panels@.len() == old(world).bodies@.len(),
            forall|i: int|
                0 <= i < final(self).rigidbody_panels@.len() ==> (#[trigger] final(self).rigidbody_panels@[i]).id@ == old(world).bodies@[i].id@,
            // The model's bodies persist; at most one body is placed.
            old(world).bodies@.len() <= final(world).bodies@.len() <= old(world).bodies@.len()
                + 1,
            forall|i: int|
                0 <= i < old(world).bodies@.len() ==> (#[trigger] final(world).bodies@[i]).id@
                    == old(world).bodies@[i].id@,
            !input.left_pressed ==> final(world).bodies@.len() == old(world).bodies@.len(),
            // A body is placed exactly when the press lands on no panel
            // chrome and a shape is selected.
            (final(world).bodies@.len() == old(world).bodies@.len() + 1) <==> (input.left_pressed
                && first_over(
                seq![final(self).main_panel, final(self).bodies_panel],
                input.mouse_x as int,
                input.mouse_y as int,
            ) == -1 && (match final(self).place_body_options.on_toggle {
                Some(s) => s@ == "Circle"@ || s@ == "Square"@,
                None => false,
            })),
            // The placed body: fresh identifier, at the pointer, selected
            // shape, current static flag.
            final(world).bodies@.len() == old(world).bodies@.len() + 1 ==> {
                let nb = final(world).bodies@.last();
                &&& !has_body_id(final(world).bodies@.drop_last(), nb.id@)
                &&& nb.id@.len() > 0
                &&& nb.body.position_x.value() == input.mouse_x * 1000
                &&& nb.body.position_y.value() == input.mouse_y * 1000
                &&& nb.body.is_static == final(self).static_body.state_or_held
                &&& (match final(self).place_body_options.on_toggle {
                    Some(s) => (s@ == "Circle"@ ==> (nb.body.shape matches BodyShape::Circle {
                        radius,
                    } && radius.value() == 30_000)) && ((s@ == "Square"@ && s@ != "Circle"@) ==> (
                    nb.body.shape matches BodyShape::Square { half_w, half_h } && half_w.value()
                        == 30_000 && half_h.value() == 30_000)),
                    None => false,
                })
            },
            // Interface mirrors.
            final(self).static_flag == final(self).static_body.state_or_held,
            !final(self).bodies_id.updated ==> final(self).new_body_id == old(self).new_body_id,
            // Show/hide rules: the hide button and the panel key drive the
            // main panel; the selection group drives the bodies panel.
            final(self).main_panel.hidden == (if input.panel_key_pressed {
                !(old(self).main_panel.hidden || final(self).hide.just_clicked)
            } else {
                old(self).main_panel.hidden || final(self).hide.just_clicked
            }),
            final(self).bodies_panel.hidden == (match final(self).place_bodies.on_toggle {
                Some(s) => s@ != "Bodies"@,
                None => true,
            }),
            // Constraints persist; at most one is added.
            old(world).constraints@.len() <= final(world).constraints@.len() <= old(world).constraints@.len() + 1,
            forall|i: int|
                0 <= i < old(world).constraints@.len() ==> (#[trigger] final(world).constraints@[i]).id@ == old(world).constraints@[i].id@,
            final(self).constraint_guis@.len() == old(world).constraints@.len(),
            forall|i: int|
                0 <= i < final(self).constraint_guis@.len() ==> (#[trigger] final(self).constraint_guis@[i]).id@ == old(world).constraints@[i].id@,
            // A constraint is added exactly on an add-button click with
            // "Slide" selected and a fresh drawn identifier, and it is the
            // stock slide joint.
            !input.left_pressed ==> final(world).constraints@.len() == old(world).constraints@.len(),
            final(world).constraints@.len() == old(world).constraints@.len() + 1 ==> {
                &&& !final(self).constraints_panel.hidden
                &&& final(self).add_constraint.just_clicked
                &&& input.left_pressed
                &&& (final(self).add_constraint_type.on_toggle matches Some(s) && s@ == "Slide"@)
                &&& final(world).constraints@.last().id@.len() > 0
                &&& !has_constraint_id(
                    old(world).constraints@,
                    final(world).constraints@.last().id@,
                )
                &&& slide_joint_shape(
                    final(world).constraints@.last().constraint,
                    final(self).constraining_body_id_a.content,
                )
            },
            !(!final(self).constraints_panel.hidden && final(self).add_constraint.just_clicked
                && (final(self).add_constraint_type.on_toggle matches Some(s) && s@ == "Slide"@))
                ==> final(world).constraints@.len() == old(world).constraints@.len(),
            // Panel visibility mirrors: the constraints panel follows its
            // toggle as it stood entering the frame, and each constraint's
            // panel follows its own reveal toggle.
            final(self).constraints_panel.hidden == !old(self).constraints_panel_toggle.state_or_held,
            forall|i: int|
                0 <= i < final(self).constraint_guis@.len() ==> (#[trigger] final(self).constraint_guis@[i]).gui.panel.hidden == !final(self).constraint_guis@[i].toggle.state_or_held,
            // Click-to-reveal: with the inspect toggle on as the frame
            // began, a press inside a body's hit region unhides its panel.
            forall|i: int|
                0 <= i < final(self).rigidbody_panels@.len() && old(self).view_debug_body.state_or_held && input.left_pressed && final(world).bodies@[i].body.spec_within(input.mouse_x as int, input.mouse_y as int) ==> !(
                #[trigger] final(self).rigidbody_panels@[i]).gui.panel.hidden,
            // Hidden fixed panels freeze their widgets.
            old(self).main_panel.hidden ==> final(self).static_body == old(self).static_body
                && final(self).place_bodies == old(self).place_bodies && final(self).view_debug_body == old(self).view_debug_body,
            old(self).bodies_panel.hidden ==> final(self).place_body_options == old(self).place_body_options,
            !input.left_pressed && old(self).static_body.is_toggle() ==> final(self).static_body.state_or_held == old(self).static_body.state_or_held,
    {
        self.render_rigidbody_panels(world, input, dt, out);
        let ghost w1_bodies = world.bodies@;
        let ghost panels1 = self.rigidbody_panels@;
        proof {
            assert forall|i: int|
                0 <= i < panels1.len() && old(self).view_debug_body.state_or_held
                    && input.left_pressed && w1_bodies[i].body.spec_within(
                    input.mouse_x as int,
                    input.mouse_y as int,
                ) implies !(#[trigger] panels1[i]).gui.panel.hidden by {
                assert(self.rigidbody_panels@[i] == panels1[i]);
                assert(world.bodies@[i] == w1_bodies[i]);
            }
        }
        self.render_constraint_panels(world, input, dt, out);
        self.run_main_panel(input, out);
        self.run_bodies_panel(input, dt, out);
        self.place_body_click(world, input);
        proof {
            assert(self.rigidbody_panels@ == panels1);
            assert forall|i: int|
                0 <= i < self.rigidbody_panels@.len() && old(self).view_debug_body.state_or_held
                    && input.left_pressed && world.bodies@[i].body.spec_within(
                    input.mouse_x as int,
                    input.mouse_y as int,
                ) implies !(#[trigger] self.rigidbody_panels@[i]).gui.panel.hidden by {
                assert(world.bodies@[i] == w1_bodies[i]);
                assert(w1_bodies[i].body.spec_within(input.mouse_x as int, input.mouse_y as int));
                assert(self.rigidbody_panels@[i] == panels1[i]);
                assert(!panels1[i].gui.panel.hidden);
            }
        }
    }

    /// The main panel's frame: background, drag, fixed widgets, and the
    /// hide-button and panel-key visibility rules.
    fn run_main_panel(&mut self, input: &FrameInput, out: &mut Vec<DrawCmd>)
        requires
            old(self).main_panel.wf(),
            old(self).place_bodies.wf(),
            old(self).place_bodies.toggles@.len() == 2,
            input.wf(),
        ensures
            final(self).main_panel.wf(),
            final(self).place_bodies.wf(),
            final(self).place_bodies.toggles@.len() == 2,
            *final(self) == (AppUI {
                main_panel: final(self).main_panel,
                grab_button: final(self).grab_button,
                move_button: final(self).move_button,
                static_body: final(self).static_body,
                place_bodies: final(self).place_bodies,
                view_debug_body: final(self).view_debug_body,
                constraints_panel_toggle: final(self).constraints_panel_toggle,
                hide: final(self).hide,
                static_flag: final(self).static_flag,
                ..*old(self)
            }),
            final(self).static_flag == final(self).static_body.state_or_held,
            final(self).main_panel.hidden == (if input.panel_key_pressed {
                !(old(self).main_panel.hidden || (!old(self).main_panel.hidden && final(self).hide.just_clicked))
            } else {
                old(self).main_panel.hidden || (!old(self).main_panel.hidden && final(self).hide.just_clicked)
            }),
            // A hidden main panel freezes its widgets.
            old(self).main_panel.hidden ==> final(self).grab_button == old(self).grab_button
                && final(self).move_button == old(self).move_button && final(self).static_body
                == old(self).static_body && final(self).place_bodies == old(self).place_bodies
                && final(self).view_debug_body == old(self).view_debug_body && final(self).constraints_panel_toggle == old(self).constraints_panel_toggle && final(self).hide
                == old(self).hide,
            // A toggle's latch cannot move without a press edge.
            !input.left_pressed && old(self).static_body.is_toggle() ==> final(self).static_body.state_or_held == old(self).static_body.state_or_held,
    {
        self.run_main_widgets_a(input, out);
        self.run_main_widgets_b(input, out);
        // Edges act only on frames the panel was visible.
        if !self.main_panel.hidden && self.hide.just_clicked() {
            self.main_panel.hidden = true;
        }
        if input.panel_key_pressed {
            self.main_panel.hidden = !self.main_panel.hidden;
        }
        self.static_flag = self.static_body.on();
    }

    /// The main panel's background, drag, and first widget rows.
    fn run_main_widgets_a(&mut self, input: &FrameInput, out: &mut Vec<DrawCmd>)
        requires
            old(self).main_panel.wf(),
            input.wf(),
        ensures
            final(self).main_panel.wf(),
            final(self).main_panel.hidden == old(self).main_panel.hidden,
            !old(self).main_panel.hidden ==> final(self).main_panel.y_offset == 130,
            *final(self) == (AppUI {
                main_panel: final(self).main_panel,
                grab_button: final(self).grab_button,
                move_button: final(self).move_button,
                static_body: final(self).static_body,
                ..*old(self)
            }),
            old(self).main_panel.hidden ==> final(self).grab_button == old(self).grab_button
                && final(self).move_button == old(self).move_button && final(self).static_body
                == old(self).static_body,
            !input.left_pressed && old(self).static_body.is_toggle() ==> final(self).static_body.state_or_held == old(self).static_body.state_or_held,
    {
        self.main_panel.render(input, out);
        self.main_panel.drag_start(input);
        self.main_panel.drag_end(input);
        self.main_panel.display_click(&mut self.grab_button, input, out);
        self.main_panel.display_click(&mut self.move_button, input, out);
        self.main_panel.display_click(&mut self.static_body, input, out);
    }

    /// The main panel's selection group and remaining buttons.
    fn run_main_widgets_b(&mut self, input: &FrameInput, out: &mut Vec<DrawCmd>)
        requires
            old(self).main_panel.wf(),
            old(self).place_bodies.wf(),
            old(self).place_bodies.toggles@.len() == 2,
            input.wf(),
            !old(self).main_panel.hidden ==> old(self).main_panel.y_offset == 130,
        ensures
            final(self).main_panel.wf(),
            final(self).place_bodies.wf(),
            final(self).place_bodies.toggles@.len() == 2,
            final(self).main_panel.hidden == old(self).main_panel.hidden,
            *final(self) == (AppUI {
                main_panel: final(self).main_panel,
                place_bodies: final(self).place_bodies,
                view_debug_body: final(self).view_debug_body,
                constraints_panel_toggle: final(self).constraints_panel_toggle,
                hide: final(self).hide,
                ..*old(self)
            }),
            old(self).main_panel.hidden ==> final(self).place_bodies == old(self).place_bodies
                && final(self).view_debug_body == old(self).view_debug_body && final(self).constraints_panel_toggle == old(self).constraints_panel_toggle && final(self).hide
                == old(self).hide,
    {
        self.main_panel.display_group(&mut self.place_bodies, input, out);
        self.main_panel.display_click(&mut self.view_debug_body, input, out);
        self.main_panel.display_click(&mut self.constraints_panel_toggle, input, out);
        self.main_panel.display_click(&mut self.hide, input, out);
    }

    /// The bodies panel's frame: identifier entry, shape selection, the
    /// identifier mirror, and the visibility rule driven by the main
    /// panel's selection group.
    fn run_bodies_panel(&mut self, input: &FrameInput, dt: u64, out: &mut Vec<DrawCmd>)
        requires
            old(self).bodies_panel.wf(),
            old(self).bodies_id.wf(),
            old(self).place_body_options.wf(),
            old(self).place_body_options.toggles@.len() == 2,
            old(self).place_body_options.toggles@[0].text@ == "Square"@,
            old(self).place_body_options.toggles@[1].text@ == "Circle"@,
            input.wf(),
            dt <= DT_LIMIT,
        ensures
            final(self).bodies_panel.wf(),
            final(self).bodies_id.wf(),
            final(self).place_body_options.wf(),
            final(self).place_body_options.toggles@.len() == 2,
            final(self).place_body_options.toggles@[0].text@ == "Square"@,
            final(self).place_body_options.toggles@[1].text@ == "Circle"@,
            *final(self) == (AppUI {
                bodies_panel: final(self).bodies_panel,
                bodies_id: final(self).bodies_id,
                place_body_options: final(self).place_body_options,
                new_body_id: final(self).new_body_id,
                ..*old(self)
            }),
            !final(self).bodies_id.updated ==> final(self).new_body_id == old(self).new_body_id,
            final(self).bodies_id.updated ==> final(self).new_body_id
                == final(self).bodies_id.content,
            // A hidden bodies panel freezes its widgets.
            old(self).bodies_panel.hidden ==> final(self).bodies_id == old(self).bodies_id
                && final(self).place_body_options == old(self).place_body_options,
            final(self).bodies_panel.hidden == (match old(self).place_bodies.on_toggle {
                Some(s) => s@ != "Bodies"@,
                None => true,
            }),
    {
        let ghost po0 = self.place_body_options;
        self.bodies_panel.render(input, out);
        self.bodies_panel.drag_start(input);
        self.bodies_panel.drag_end(input);
        self.bodies_panel.display_text_input(&mut self.bodies_id, input, dt, out);
        let ghost bp1 = self.bodies_panel;
        self.bodies_panel.display_group(&mut self.place_body_options, input, out);
        proof {
            crate::panel::lemma_group_step_preserves_labels(po0.toggles@, *input, bp1);
        }
        if self.bodies_id.updated() {
            self.new_body_id = self.bodies_id.get_value();
        }
        self.bodies_panel.hidden = match self.place_bodies.active_toggle() {
            Some(name) => !str_eq(name.as_str(), "Bodies"),
            None => true,
        };
    }

    /// Click in empty space: place a body of the selected shape under the
    /// pointer, with a collision-free identifier, and regenerate the
    /// identifier field.
    fn place_body_click(&mut self, world: &mut World, input: &FrameInput)
        requires
            old(self).main_panel.wf(),
            old(self).bodies_panel.wf(),
            old(world).wf(),
            input.wf(),
        ensures
            final(world).wf(),
            *final(self) == (AppUI { bodies_id: final(self).bodies_id, ..*old(self) }),
            final(self).bodies_id == (TextInput {
                content: final(self).bodies_id.content,
                ..old(self).bodies_id
            }),
            final(world).constraints == old(world).constraints,
            old(world).bodies@.len() <= final(world).bodies@.len() <= old(world).bodies@.len()
                + 1,
            forall|i: int|
                0 <= i < old(world).bodies@.len() ==> #[trigger] final(world).bodies@[i] == old(world).bodies@[i],
            !input.left_pressed ==> final(world).bodies@.len() == old(world).bodies@.len(),
            (final(world).bodies@.len() == old(world).bodies@.len() + 1) <==> (input.left_pressed
                && first_over(
                seq![old(self).main_panel, old(self).bodies_panel],
                input.mouse_x as int,
                input.mouse_y as int,
            ) == -1 && (match old(self).place_body_options.on_toggle {
                Some(s) => s@ == "Circle"@ || s@ == "Square"@,
                None => false,
            })),
            final(world).bodies@.len() == old(world).bodies@.len() + 1 ==> {
                let nb = final(world).bodies@.last();
                &&& !has_body_id(final(world).bodies@.drop_last(), nb.id@)
                &&& nb.id@.len() > 0
                &&& nb.body.position_x.value() == input.mouse_x * 1000
                &&& nb.body.position_y.value() == input.mouse_y * 1000
                &&& nb.body.is_static == old(self).static_body.state_or_held
                &&& (match old(self).place_body_options.on_toggle {
                    Some(s) => (s@ == "Circle"@ ==> (nb.body.shape matches BodyShape::Circle {
                        radius,
                    } && radius.value() == 30_000)) && ((s@ == "Square"@ && s@ != "Circle"@) ==> (
                    nb.body.shape matches BodyShape::Square { half_w, half_h } && half_w.value()
                        == 30_000 && half_h.value() == 30_000)),
                    None => false,
                })
            },
    {
        let mx = input.mouse_x;
        let my = input.mouse_y;
        let over = mouse_over_panel(vec![&self.main_panel, &self.bodies_panel], mx, my);
        proof {
            assert(seq![&self.main_panel, &self.bodies_panel].map_values(|p: &Panel| *p)
                =~= seq![self.main_panel, self.bodies_panel]);
        }
        match over {
            None => {
                if input.left_pressed {
                    let seed = self.bodies_id.get_value();
                    let new_id = world.fresh_body_id(seed.as_str());
                    match self.place_body_options.active_toggle() {
                        Some(name) => {
                            if let Some(kind) = place_body_kind(name.as_str()) {
                                let px = Num::from_milli((mx as i64) * 1000);
                                let py = Num::from_milli((my as i64) * 1000);
                                let b = match kind {
                                    UIPlaceBodyType::Circle => Body::new_circle(
                                        px,
                                        py,
                                        Num::zero(),
                                        Num::from_milli(30_000),
                                        self.static_body.on(),
                                    ),
                                    UIPlaceBodyType::Square => Body::new_square(
                                        px,
                                        py,
                                        Num::zero(),
                                        Num::from_milli(30_000),
                                        Num::from_milli(30_000),
                                        self.static_body.on(),
                                    ),
                                };
                                let ghost wpre = world.bodies@;
                                world.add_body(new_id.as_str(), b);
                                proof {
                                    assert(forall|t: int|
                                        0 <= t < wpre.len() ==> #[trigger] world.bodies@[t]
                                            == world.bodies@.drop_last()[t]);
                                }
                                self.bodies_id.set_value(crate::idgen::unique_id());
                            }
                        },
                        None => {},
                    }
                }
            },
            Some(_) => {},
        }
    }
}

} // verus!
