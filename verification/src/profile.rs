//! Profiles: the ordered collection of (controller identity, binding
//! table) pairs owned by the application context, with at most one table
//! per identity.
//!
//! The broadcast operations (`*_to_all`) exist because independent
//! per-controller binding editing is not offered yet; they apply one
//! change to every table in the profile and are isolated here so they can
//! be replaced without touching the resolver or the loop.

use vstd::prelude::*;

use crate::action::{Key, MouseButton, MouseButtonOrKey};
use crate::action::{spec_key_for_editor_key, key_for_editor_key, EditorKey};
use crate::binding::BindingTable;
use crate::identity::ControllerIdentity;
use crate::input::{Button, Joystick};

verus! {

/// Whether `id` occurs in `ids`.
pub open spec fn among(ids: Seq<ControllerIdentity>, id: ControllerIdentity) -> bool {
    exists|j: int| 0 <= j < ids.len() && ids[j] == id
}

/// An ordered collection of (identity, binding table) pairs; at most one
/// table per identity.
pub struct Profile {
    entries: Vec<(ControllerIdentity, BindingTable)>,
}

impl Default for Profile {
    /// The profile the application starts from: as `new`.
    fn default() -> (r: Profile)
        ensures
            r.wf(),
            r.pairs().len() == 1,
            r.pairs()[0].0.descriptor == 0,
            r.pairs()[0].1@ == Map::<Button, MouseButtonOrKey>::empty(),
    {
        Profile::new()
    }
}

impl Profile {
    /// The pairs the profile holds, in order.
    pub closed spec fn pairs(&self) -> Seq<(ControllerIdentity, BindingTable)> {
        self.entries@
    }

    /// Descriptors are pairwise distinct and every table is well formed.
    pub open spec fn wf(&self) -> bool {
        &&& forall|i: int, j: int|
            0 <= i < j < self.pairs().len() ==> (#[trigger] self.pairs()[i]).0.descriptor != (
            #[trigger] self.pairs()[j]).0.descriptor
        &&& forall|i: int| 0 <= i < self.pairs().len() ==> (#[trigger] self.pairs()[i]).1.wf()
    }

    /// Whether some pair carries the given hardware descriptor.
    pub open spec fn contains_descriptor(&self, d: u128) -> bool {
        exists|i: int|
            0 <= i < self.pairs().len() && (#[trigger] self.pairs()[i]).0.descriptor == d
    }

    /// The binding table of the controller with descriptor `d`, if that
    /// identity is known to the profile.
    pub open spec fn spec_table_for(&self, d: u128) -> Option<BindingTable> {
        if self.contains_descriptor(d) {
            let i = choose|i: int|
                0 <= i < self.pairs().len() && (#[trigger] self.pairs()[i]).0.descriptor == d;
            Some(self.pairs()[i].1)
        } else {
            None
        }
    }

    /// A profile that knows no controller: a single placeholder pair with
    /// an empty binding table, so the editing surface always has
    /// something to show.
    pub fn new() -> (r: Profile)
        ensures
            r.wf(),
            r.pairs().len() == 1,
            r.pairs()[0].0.descriptor == 0,
            r.pairs()[0].0.name@ == Seq::<char>::empty(),
            r.pairs()[0].1@ == Map::<Button, MouseButtonOrKey>::empty(),
            !r.pairs()[0].1.left_stick_mouse(),
            !r.pairs()[0].1.right_stick_mouse(),
    {
        let mut entries: Vec<(ControllerIdentity, BindingTable)> = Vec::new();
        entries.push((ControllerIdentity::from_descriptor(0, String::new()), BindingTable::new()));
        Profile { entries }
    }

    /// How many controllers the profile knows.
    pub fn len(&self) -> (r: usize)
        ensures
            r == self.pairs().len(),
    {
        self.entries.len()
    }

    /// The identity of the `i`-th pair.
    pub fn identity_at(&self, i: usize) -> (r: &ControllerIdentity)
        requires
            i < self.pairs().len(),
        ensures
            *r == self.pairs()[i as int].0,
    {
        &self.entries[i].0
    }

    /// The binding table of the `i`-th pair.
    pub fn table_at(&self, i: usize) -> (r: &BindingTable)
        requires
            i < self.pairs().len(),
        ensures
            *r == self.pairs()[i as int].1,
    {
        &self.entries[i].1
    }

    /// The first binding table: what a single-controller editing surface
    /// shows.
    pub fn get_first_gamepad_config(&self) -> (r: &BindingTable)
        requires
            self.pairs().len() >= 1,
        ensures
            *r == self.pairs()[0].1,
    {
        &self.entries[0].1
    }

    /// The position of the pair carrying descriptor `d`, if any.
    pub fn find_table_index(&self, d: u128) -> (r: Option<usize>)
        ensures
            match r {
                Some(i) => i < self.pairs().len() && self.pairs()[i as int].0.descriptor == d,
                None => !self.contains_descriptor(d),
            },
    {
        let mut i: usize = 0;
        while i < self.entries.len()
            invariant
                i <= self.pairs().len(),
                forall|j: int| 0 <= j < i ==> (#[trigger] self.pairs()[j]).0.descriptor != d,
            decreases self.pairs().len() - i,
        {
            if self.entries[i].0.descriptor == d {
                return Some(i);
            }
            i = i + 1;
        }
        None
    }

    /// In a well-formed profile, the table found at a matching position
    /// is the table `spec_table_for` denotes.
    pub proof fn lemma_table_for(&self, d: u128, i: int)
        requires
            self.wf(),
            0 <= i < self.pairs().len(),
            self.pairs()[i].0.descriptor == d,
        ensures
            self.spec_table_for(d) == Some(self.pairs()[i].1),
    {
        assert(self.contains_descriptor(d));
        let j = choose|j: int|
            0 <= j < self.pairs().len() && (#[trigger] self.pairs()[j]).0.descriptor == d;
        assert(j == i);
    }

    /// Makes the identity known: if its descriptor is absent, a pair with
    /// an empty binding table (no bindings, both stick flags off) is
    /// appended; if it is already present the profile is unchanged.
    pub fn ensure_identity(&mut self, id: ControllerIdentity)
        requires
            old(self).wf(),
        ensures
            final(self).wf(),
            final(self).contains_descriptor(id.descriptor),
            old(self).contains_descriptor(id.descriptor) ==> final(self).pairs() == old(self).pairs(),
            !old(self).contains_descriptor(id.descriptor) ==> final(self).pairs().len() == old(self).pairs().len() + 1,
            !old(self).contains_descriptor(id.descriptor) ==> final(self).pairs().last().0 == id,
            !old(self).contains_descriptor(id.descriptor) ==> final(self).pairs().last().1@
                == Map::<Button, MouseButtonOrKey>::empty(),
            !old(self).contains_descriptor(id.descriptor) ==> (!final(self).pairs().last().1.left_stick_mouse() && !final(self).pairs().last().1.right_stick_mouse()),
            forall|i: int|
                0 <= i < old(self).pairs().len() ==> (#[trigger] final(self).pairs()[i]) == old(self).pairs()[i],
    {
        match self.find_table_index(id.descriptor) {
            Some(i) => {
                proof {
                    assert(self.pairs()[i as int].0.descriptor == id.descriptor);
                }
            },
            None => {
                self.entries.push((id, BindingTable::new()));
                proof {
                    let n = self.pairs().len() - 1;
                    assert(self.pairs()[n].0.descriptor == id.descriptor);
                }
            },
        }
    }

    /// Makes every identity in `ids` known, in order: each one absent
    /// from the profile is appended with an empty binding table; pairs
    /// already present are untouched.
    pub fn ensure_identities(&mut self, ids: &Vec<ControllerIdentity>)
        requires
            old(self).wf(),
        ensures
            final(self).wf(),
            final(self).pairs().len() >= old(self).pairs().len(),
            forall|i: int|
                0 <= i < old(self).pairs().len() ==> (#[trigger] final(self).pairs()[i]) == old(self).pairs()[i],
            forall|j: int|
                0 <= j < ids@.len() ==> final(self).contains_descriptor(
                    (#[trigger] ids@[j]).descriptor,
                ),
            forall|k: int|
                old(self).pairs().len() <= k < final(self).pairs().len() ==> among(
                    ids@,
                    (#[trigger] final(self).pairs()[k]).0,
                ),
            forall|k: int|
                old(self).pairs().len() <= k < final(self).pairs().len() ==> (
                #[trigger] final(self).pairs()[k]).1@ == Map::<Button, MouseButtonOrKey>::empty()
                    && !final(self).pairs()[k].1.left_stick_mouse() && !final(self).pairs()[k].1.right_stick_mouse(),
    {
        let ghost n0 = self.pairs().len() as int;
        let mut idx: usize = 0;
        while idx < ids.len()
            invariant
                self.wf(),
                idx <= ids@.len(),
                n0 == old(self).pairs().len(),
                self.pairs().len() >= n0,
                forall|i: int|
                    0 <= i < n0 ==> (#[trigger] self.pairs()[i]) == old(self).pairs()[i],
                forall|j: int|
                    0 <= j < idx ==> self.contains_descriptor((#[trigger] ids@[j]).descriptor),
                forall|k: int|
                    n0 <= k < self.pairs().len() ==> among(
                        ids@,
                        (#[trigger] self.pairs()[k]).0,
                    ),
                forall|k: int|
                    n0 <= k < self.pairs().len() ==> (#[trigger] self.pairs()[k]).1@ == Map::<
                        Button,
                        MouseButtonOrKey,
                    >::empty() && !self.pairs()[k].1.left_stick_mouse() && !self.pairs()[
                        k
                    ].1.right_stick_mouse(),
            decreases ids@.len() - idx,
        {
            let id = ids[idx].duplicate();
            let ghost before = self.pairs();
            self.ensure_identity(id);
            proof {
                assert forall|j: int| 0 <= j < idx + 1 implies self.contains_descriptor(
                    (#[trigger] ids@[j]).descriptor,
                ) by {
                    if j < idx {
                        let w = choose|w: int|
                            0 <= w < before.len() && (#[trigger] before[w]).0.descriptor
                                == ids@[j].descriptor;
                        assert(self.pairs()[w].0.descriptor == ids@[j].descriptor);
                    }
                }
                assert forall|k: int|
                    n0 <= k < self.pairs().len() implies among(
                    ids@,
                    (#[trigger] self.pairs()[k]).0,
                ) by {
                    if k < before.len() {
                        assert(self.pairs()[k] == before[k]);
                    } else {
                        assert(self.pairs()[k].0 == ids@[idx as int]);
                    }
                }
            }
            idx = idx + 1;
        }
    }

    /// A profile over the given identities, all with empty binding
    /// tables: what a load yields for stored identities before their
    /// bindings are replayed. With no identities at all, the single
    /// placeholder pair is created instead, as in `new`.
    pub fn from_identities(ids: &Vec<ControllerIdentity>) -> (r: Profile)
        ensures
            r.wf(),
            r.pairs().len() >= 1,
            forall|j: int|
                0 <= j < ids@.len() ==> r.contains_descriptor((#[trigger] ids@[j]).descriptor),
            ids@.len() == 0 ==> r.pairs().len() == 1 && r.pairs()[0].0.descriptor == 0,
            ids@.len() > 0 ==> forall|k: int|
                0 <= k < r.pairs().len() ==> among(ids@, (#[trigger] r.pairs()[k]).0),
            forall|k: int|
                0 <= k < r.pairs().len() ==> (#[trigger] r.pairs()[k]).1@ == Map::<
                    Button,
                    MouseButtonOrKey,
                >::empty() && !r.pairs()[k].1.left_stick_mouse() && !r.pairs()[
                    k
                ].1.right_stick_mouse(),
    {
        let mut p = Profile { entries: Vec::new() };
        p.ensure_identities(ids);
        proof {
            if ids@.len() > 0 {
                assert(p.contains_descriptor(ids@[0].descriptor));
                let w = choose|w: int|
                    0 <= w < p.pairs().len() && (#[trigger] p.pairs()[w]).0.descriptor
                        == ids@[0].descriptor;
                assert(p.pairs().len() > 0);
            } else if p.pairs().len() > 0 {
                assert(among(ids@, p.pairs()[0].0));
                let j = choose|j: int| 0 <= j < ids@.len() && ids@[j] == p.pairs()[0].0;
                assert(false);
            }
        }
        if p.len() == 0 {
            p.ensure_identity(ControllerIdentity::from_descriptor(0, String::new()));
        }
        p
    }

    fn apply_at(&mut self, i: usize, b: Button, a: Option<MouseButtonOrKey>)
        requires
            old(self).wf(),
            i < old(self).pairs().len(),
        ensures
            final(self).wf(),
            final(self).pairs().len() == old(self).pairs().len(),
            forall|j: int|
                0 <= j < old(self).pairs().len() && j != i ==> (#[trigger] final(self).pairs()[j]) == old(self).pairs()[j],
            final(self).pairs()[i as int].0 == old(self).pairs()[i as int].0,
            final(self).pairs()[i as int].1@ == (match a {
                Some(a) => old(self).pairs()[i as int].1@.insert(b, a),
                None => old(self).pairs()[i as int].1@.remove(b),
            }),
            final(self).pairs()[i as int].1.left_stick_mouse() == old(self).pairs()[i as int].1.left_stick_mouse(),
            final(self).pairs()[i as int].1.right_stick_mouse() == old(self).pairs()[i as int].1.right_stick_mouse(),
    {
        let ghost before = self.pairs();
        let (id, mut t) = self.entries.remove(i);
        match a {
            Some(a) => t.insert_action(b, a),
            None => t.remove(b),
        }
        self.entries.insert(i, (id, t));
        proof {
            assert(self.pairs() =~= before.update(i as int, self.pairs()[i as int]));
        }
    }

    /// Binds `b` to the action `a` in every table of the profile,
    /// overwriting any existing binding for `b`. Identities, the order of
    /// pairs and the stick flags are untouched.
    pub fn insert_action_to_all(&mut self, b: Button, a: MouseButtonOrKey)
        requires
            old(self).wf(),
        ensures
            final(self).wf(),
            final(self).pairs().len() == old(self).pairs().len(),
            forall|i: int|
                0 <= i < old(self).pairs().len() ==> (#[trigger] final(self).pairs()[i]).0 == old(self).pairs()[i].0 && final(self).pairs()[i].1@ == old(self).pairs()[i].1@.insert(b, a)
                    && final(self).pairs()[i].1.left_stick_mouse() == old(self).pairs()[i].1.left_stick_mouse() && final(self).pairs()[i].1.right_stick_mouse()
                    == old(self).pairs()[i].1.right_stick_mouse(),
    {
        let mut i: usize = 0;
        while i < self.entries.len()
            invariant
                self.wf(),
                self.pairs().len() == old(self).pairs().len(),
                i <= self.pairs().len(),
                forall|j: int|
                    i <= j < self.pairs().len() ==> (#[trigger] self.pairs()[j]) == old(self).pairs()[j],
                forall|j: int|
                    0 <= j < i ==> (#[trigger] self.pairs()[j]).0 == old(self).pairs()[j].0
                        && self.pairs()[j].1@ == old(self).pairs()[j].1@.insert(b, a)
                        && self.pairs()[j].1.left_stick_mouse() == old(self).pairs()[j].1.left_stick_mouse() && self.pairs()[j].1.right_stick_mouse()
                        == old(self).pairs()[j].1.right_stick_mouse(),
            decreases self.pairs().len() - i,
        {
            self.apply_at(i, b, Some(a));
            i = i + 1;
        }
    }

    /// Binds `b` to the synthetic key `k` in every table.
    pub fn insert_key_to_all(&mut self, b: Button, k: Key)
        requires
            old(self).wf(),
        ensures
            final(self).wf(),
            final(self).pairs().len() == old(self).pairs().len(),
            forall|i: int|
                0 <= i < old(self).pairs().len() ==> (#[trigger] final(self).pairs()[i]).0 == old(self).pairs()[i].0 && final(self).pairs()[i].1@ == old(self).pairs()[i].1@.insert(
                    b,
                    MouseButtonOrKey::Key(k),
                ) && final(self).pairs()[i].1.left_stick_mouse() == old(self).pairs()[i].1.left_stick_mouse() && final(self).pairs()[i].1.right_stick_mouse()
                    == old(self).pairs()[i].1.right_stick_mouse(),
    {
        self.insert_action_to_all(b, MouseButtonOrKey::Key(k));
    }

    /// Binds `b` to the synthetic mouse button `m` in every table.
    pub fn insert_mouse_button_to_all(&mut self, b: Button, m: MouseButton)
        requires
            old(self).wf(),
        ensures
            final(self).wf(),
            final(self).pairs().len() == old(self).pairs().len(),
            forall|i: int|
                0 <= i < old(self).pairs().len() ==> (#[trigger] final(self).pairs()[i]).0 == old(self).pairs()[i].0 && final(self).pairs()[i].1@ == old(self).pairs()[i].1@.insert(
                    b,
                    MouseButtonOrKey::MouseButton(m),
                ) && final(self).pairs()[i].1.left_stick_mouse() == old(self).pairs()[i].1.left_stick_mouse() && final(self).pairs()[i].1.right_stick_mouse()
                    == old(self).pairs()[i].1.right_stick_mouse(),
    {
        self.insert_action_to_all(b, MouseButtonOrKey::MouseButton(m));
    }

    /// Deletes the binding for `b` from every table; tables without one
    /// are untouched.
    pub fn unset_key_to_all(&mut self, b: Button)
        requires
            old(self).wf(),
        ensures
            final(self).wf(),
            final(self).pairs().len() == old(self).pairs().len(),
            forall|i: int|
                0 <= i < old(self).pairs().len() ==> (#[trigger] final(self).pairs()[i]).0 == old(self).pairs()[i].0 && final(self).pairs()[i].1@ == old(self).pairs()[i].1@.remove(b)
                    && final(self).pairs()[i].1.left_stick_mouse() == old(self).pairs()[i].1.left_stick_mouse() && final(self).pairs()[i].1.right_stick_mouse()
                    == old(self).pairs()[i].1.right_stick_mouse(),
    {
        let mut i: usize = 0;
        while i < self.entries.len()
            invariant
                self.wf(),
                self.pairs().len() == old(self).pairs().len(),
                i <= self.pairs().len(),
                forall|j: int|
                    i <= j < self.pairs().len() ==> (#[trigger] self.pairs()[j]) == old(self).pairs()[j],
                forall|j: int|
                    0 <= j < i ==> (#[trigger] self.pairs()[j]).0 == old(self).pairs()[j].0
                        && self.pairs()[j].1@ == old(self).pairs()[j].1@.remove(b)
                        && self.pairs()[j].1.left_stick_mouse() == old(self).pairs()[j].1.left_stick_mouse() && self.pairs()[j].1.right_stick_mouse()
                        == old(self).pairs()[j].1.right_stick_mouse(),
            decreases self.pairs().len() - i,
        {
            self.apply_at(i, b, None);
            i = i + 1;
        }
    }

    /// Flips whether the given stick drives the mouse, in every table.
    pub fn toggle_stick_mouse_to_all(&mut self, j: Joystick)
        requires
            old(self).wf(),
        ensures
            final(self).wf(),
            final(self).pairs().len() == old(self).pairs().len(),
            forall|i: int|
                0 <= i < old(self).pairs().len() ==> (#[trigger] final(self).pairs()[i]).0 == old(self).pairs()[i].0 && final(self).pairs()[i].1@ == old(self).pairs()[i].1@ && final(self).pairs()[i].1.left_stick_mouse() == (if j is Left {
                    !old(self).pairs()[i].1.left_stick_mouse()
                } else {
                    old(self).pairs()[i].1.left_stick_mouse()
                }) && final(self).pairs()[i].1.right_stick_mouse() == (if j is Right {
                    !old(self).pairs()[i].1.right_stick_mouse()
                } else {
                    old(self).pairs()[i].1.right_stick_mouse()
                }),
    {
        let mut i: usize = 0;
        while i < self.entries.len()
            invariant
                self.wf(),
                self.pairs().len() == old(self).pairs().len(),
                i <= self.pairs().len(),
                forall|k: int|
                    i <= k < self.pairs().len() ==> (#[trigger] self.pairs()[k]) == old(self).pairs()[k],
                forall|k: int|
                    0 <= k < i ==> (#[trigger] self.pairs()[k]).0 == old(self).pairs()[k].0
                        && self.pairs()[k].1@ == old(self).pairs()[k].1@ && self.pairs()[
                        k
                    ].1.left_stick_mouse() == (if j is Left {
                        !old(self).pairs()[k].1.left_stick_mouse()
                    } else {
                        old(self).pairs()[k].1.left_stick_mouse()
                    }) && self.pairs()[k].1.right_stick_mouse() == (if j is Right {
                        !old(self).pairs()[k].1.right_stick_mouse()
                    } else {
                        old(self).pairs()[k].1.right_stick_mouse()
                    }),
            decreases self.pairs().len() - i,
        {
            let ghost before = self.pairs();
            let (id, mut t) = self.entries.remove(i);
            t.toggle_stick_mouse(j);
            self.entries.insert(i, (id, t));
            proof {
                assert(self.pairs() =~= before.update(i as int, self.pairs()[i as int]));
            }
            i = i + 1;
        }
    }

    /// Sets a single binding in the `i`-th table; the editing surface for
    /// one controller, and the path by which a stored profile is rebuilt.
    pub fn insert_action_at(&mut self, i: usize, b: Button, a: MouseButtonOrKey)
        requires
            old(self).wf(),
            i < old(self).pairs().len(),
        ensures
            final(self).wf(),
            final(self).pairs().len() == old(self).pairs().len(),
            forall|j: int|
                0 <= j < old(self).pairs().len() && j != i ==> (#[trigger] final(self).pairs()[j]) == old(self).pairs()[j],
            final(self).pairs()[i as int].0 == old(self).pairs()[i as int].0,
            final(self).pairs()[i as int].1@ == old(self).pairs()[i as int].1@.insert(b, a),
            final(self).pairs()[i as int].1.left_stick_mouse() == old(self).pairs()[i as int].1.left_stick_mouse(),
            final(self).pairs()[i as int].1.right_stick_mouse() == old(self).pairs()[i as int].1.right_stick_mouse(),
    {
        self.apply_at(i, b, Some(a));
    }

    /// Sets the stick flag in the `i`-th table.
    pub fn set_stick_mouse_at(&mut self, i: usize, j: Joystick, on: bool)
        requires
            old(self).wf(),
            i < old(self).pairs().len(),
        ensures
            final(self).wf(),
            final(self).pairs().len() == old(self).pairs().len(),
            forall|k: int|
                0 <= k < old(self).pairs().len() && k != i ==> (#[trigger] final(self).pairs()[k]) == old(self).pairs()[k],
            final(self).pairs()[i as int].0 == old(self).pairs()[i as int].0,
            final(self).pairs()[i as int].1@ == old(self).pairs()[i as int].1@,
            final(self).pairs()[i as int].1.left_stick_mouse() == (if j is Left {
                on
            } else {
                old(self).pairs()[i as int].1.left_stick_mouse()
            }),
            final(self).pairs()[i as int].1.right_stick_mouse() == (if j is Right {
                on
            } else {
                old(self).pairs()[i as int].1.right_stick_mouse()
            }),
    {
        let ghost before = self.pairs();
        let (id, mut t) = self.entries.remove(i);
        t.set_stick_mouse(j, on);
        self.entries.insert(i, (id, t));
        proof {
            assert(self.pairs() =~= before.update(i as int, self.pairs()[i as int]));
        }
    }

    /// Handles a key pressed in the editor while a button is being bound:
    /// if the editor key stands for a synthetic key, that key is bound to
    /// `b` in every table and `true` is returned; otherwise the profile
    /// is unchanged and `false` is returned.
    pub fn assign_editor_key_to_all(&mut self, b: Button, k: EditorKey) -> (r: bool)
        requires
            old(self).wf(),
        ensures
            final(self).wf(),
            r == (spec_key_for_editor_key(k) is Some),
            spec_key_for_editor_key(k) is None ==> final(self).pairs() == old(self).pairs(),
            final(self).pairs().len() == old(self).pairs().len(),
            forall|i: int|
                0 <= i < old(self).pairs().len() ==> (#[trigger] final(self).pairs()[i]).0 == old(self).pairs()[i].0 && final(self).pairs()[i].1@ == (match spec_key_for_editor_key(k) {
                    Some(key) => old(self).pairs()[i].1@.insert(b, MouseButtonOrKey::Key(key)),
                    None => old(self).pairs()[i].1@,
                }) && final(self).pairs()[i].1.left_stick_mouse() == old(self).pairs()[i].1.left_stick_mouse() && final(self).pairs()[i].1.right_stick_mouse()
                    == old(self).pairs()[i].1.right_stick_mouse(),
    {
        match key_for_editor_key(k) {
            Some(key) => {
                self.insert_key_to_all(b, key);
                true
            },
            None => false,
        }
    }
}

} // verus!
