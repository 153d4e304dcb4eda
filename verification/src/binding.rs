//! Binding tables: the per-controller mapping from digital buttons to
//! synthetic actions, plus the two flags that wire a stick to the mouse.
//!
//! A table is modelled as the `Map` from bound buttons to their actions;
//! the entry list underneath keeps at most one entry per button.

use vstd::prelude::*;

use crate::action::{Key, MouseButton, MouseButtonOrKey};
use crate::input::{Button, Joystick};

verus! {

/// The mapping an entry list denotes: later entries win, though a
/// well-formed table never holds two entries for one button.
pub open spec fn table_map(s: Seq<(Button, MouseButtonOrKey)>) -> Map<Button, MouseButtonOrKey>
    decreases s.len(),
{
    if s.len() == 0 {
        Map::empty()
    } else {
        table_map(s.drop_last()).insert(s.last().0, s.last().1)
    }
}

/// What a lookup in a table with mapping `m` yields for button `b`.
pub open spec fn spec_table_get(m: Map<Button, MouseButtonOrKey>, b: Button) -> Option<
    MouseButtonOrKey,
> {
    if m.contains_key(b) {
        Some(m[b])
    } else {
        None
    }
}

proof fn lemma_table_map_contains(s: Seq<(Button, MouseButtonOrKey)>, b: Button)
    ensures
        table_map(s).contains_key(b) <==> exists|i: int| 0 <= i < s.len() && s[i].0 == b,
    decreases s.len(),
{
    if s.len() == 0 {
    } else {
        lemma_table_map_contains(s.drop_last(), b);
        if table_map(s).contains_key(b) {
            if s.last().0 == b {
                assert(s[s.len() - 1].0 == b);
            } else {
                let i = choose|i: int|
                    0 <= i < s.drop_last().len() && s.drop_last()[i].0 == b;
                assert(s[i].0 == b);
            }
        }
        if exists|i: int| 0 <= i < s.len() && s[i].0 == b {
            let i = choose|i: int| 0 <= i < s.len() && s[i].0 == b;
            if i < s.len() - 1 {
                assert(s.drop_last()[i].0 == b);
            }
        }
    }
}

proof fn lemma_table_map_get(s: Seq<(Button, MouseButtonOrKey)>, b: Button, i: int)
    requires
        0 <= i < s.len(),
        s[i].0 == b,
        forall|j: int| i < j < s.len() ==> (#[trigger] s[j]).0 != b,
    ensures
        table_map(s).contains_key(b),
        table_map(s)[b] == s[i].1,
    decreases s.len(),
{
    if i == s.len() - 1 {
    } else {
        assert(s[s.len() - 1].0 != b);
        assert(s.drop_last()[i].0 == b);
        assert(forall|j: int|
            i < j < s.drop_last().len() ==> (#[trigger] s.drop_last()[j]).0 != b);
        lemma_table_map_get(s.drop_last(), b, i);
    }
}

proof fn lemma_table_map_remove(s: Seq<(Button, MouseButtonOrKey)>, i: int)
    requires
        0 <= i < s.len(),
        forall|j: int| 0 <= j < s.len() && j != i ==> (#[trigger] s[j]).0 != s[i].0,
    ensures
        table_map(s.remove(i)) == table_map(s).remove(s[i].0),
    decreases s.len(),
{
    let b = s[i].0;
    if i == s.len() - 1 {
        assert(s.remove(i) =~= s.drop_last());
        lemma_table_map_contains(s.drop_last(), b);
        assert(forall|j: int|
            0 <= j < s.drop_last().len() ==> (#[trigger] s.drop_last()[j]).0 != b);
        assert(table_map(s.remove(i)) =~= table_map(s).remove(b));
    } else {
        assert(s.remove(i).drop_last() =~= s.drop_last().remove(i));
        assert(forall|j: int|
            0 <= j < s.drop_last().len() && j != i ==> (#[trigger] s.drop_last()[j]).0
                == s[j].0);
        lemma_table_map_remove(s.drop_last(), i);
        assert(s.remove(i).last() == s.last());
        assert(s[s.len() - 1].0 != b);
        assert(table_map(s.remove(i)) =~= table_map(s).remove(b));
    }
}

proof fn lemma_table_map_push(s: Seq<(Button, MouseButtonOrKey)>, p: (Button, MouseButtonOrKey))
    ensures
        table_map(s.push(p)) == table_map(s).insert(p.0, p.1),
{
    assert(s.push(p).drop_last() =~= s);
    assert(s.push(p).last() == p);
}

/// A per-controller binding table: at most one synthetic action per
/// digital button, plus the flags selecting whether the left and/or right
/// stick drive mouse motion. A new table has no bindings and both flags
/// off.
pub struct BindingTable {
    entries: Vec<(Button, MouseButtonOrKey)>,
    left_mouse: bool,
    right_mouse: bool,
}

impl View for BindingTable {
    type V = Map<Button, MouseButtonOrKey>;

    closed spec fn view(&self) -> Map<Button, MouseButtonOrKey> {
        table_map(self.entries@)
    }
}

impl BindingTable {
    /// Whether the left stick drives the mouse cursor.
    pub closed spec fn left_stick_mouse(&self) -> bool {
        self.left_mouse
    }

    /// Whether the right stick drives the mouse cursor.
    pub closed spec fn right_stick_mouse(&self) -> bool {
        self.right_mouse
    }

    /// Whether the given stick drives the mouse cursor.
    pub open spec fn stick_mouse(&self, j: Joystick) -> bool {
        match j {
            Joystick::Left => self.left_stick_mouse(),
            Joystick::Right => self.right_stick_mouse(),
        }
    }

    /// Reads whether the left stick drives the mouse cursor.
    pub fn use_left_stick_mouse(&self) -> (r: bool)
        ensures
            r == self.left_stick_mouse(),
    {
        self.left_mouse
    }

    /// Reads whether the right stick drives the mouse cursor.
    pub fn use_right_stick_mouse(&self) -> (r: bool)
        ensures
            r == self.right_stick_mouse(),
    {
        self.right_mouse
    }

    /// Keys are unique: no button owns two entries.
    pub closed spec fn wf(&self) -> bool {
        forall|i: int, j: int|
            0 <= i < j < self.entries@.len() ==> (#[trigger] self.entries@[i]).0 != (
            #[trigger] self.entries@[j]).0
    }

    /// An empty table: no bindings, neither stick wired to the mouse.
    pub fn new() -> (r: BindingTable)
        ensures
            r.wf(),
            r@ == Map::<Button, MouseButtonOrKey>::empty(),
            !r.left_stick_mouse(),
            !r.right_stick_mouse(),
    {
        BindingTable { entries: Vec::new(), left_mouse: false, right_mouse: false }
    }

    fn find_index(&self, b: Button) -> (r: Option<usize>)
        ensures
            match r {
                Some(i) => i < self.entries@.len() && self.entries@[i as int].0 == b,
                None => forall|j: int|
                    0 <= j < self.entries@.len() ==> (#[trigger] self.entries@[j]).0 != b,
            },
    {
        let mut i: usize = 0;
        while i < self.entries.len()
            invariant
                i <= self.entries@.len(),
                forall|j: int| 0 <= j < i ==> (#[trigger] self.entries@[j]).0 != b,
            decreases self.entries@.len() - i,
        {
            if self.entries[i].0 == b {
                return Some(i);
            }
            i = i + 1;
        }
        None
    }

    /// The action bound to `b`, if any. Looking up an unbound input
    /// yields nothing; it is not an error.
    pub fn get(&self, b: Button) -> (r: Option<MouseButtonOrKey>)
        requires
            self.wf(),
        ensures
            r == spec_table_get(self@, b),
    {
        match self.find_index(b) {
            Some(i) => {
                proof {
                    lemma_table_map_get(self.entries@, b, i as int);
                }
                Some(self.entries[i].1)
            },
            None => {
                proof {
                    lemma_table_map_contains(self.entries@, b);
                }
                None
            },
        }
    }

    /// Binds `b` to the action `a`, overwriting any existing binding for
    /// `b`: one slot per input, last write wins.
    pub fn insert_action(&mut self, b: Button, a: MouseButtonOrKey)
        requires
            old(self).wf(),
        ensures
            final(self).wf(),
            final(self)@ == old(self)@.insert(b, a),
            final(self).left_stick_mouse() == old(self).left_stick_mouse(),
            final(self).right_stick_mouse() == old(self).right_stick_mouse(),
    {
        let ghost s0 = self.entries@;
        match self.find_index(b) {
            Some(i) => {
                proof {
                    lemma_table_map_remove(s0, i as int);
                }
                self.entries.remove(i);
                proof {
                    assert forall|p: int, q: int|
                        0 <= p < q < self.entries@.len() implies (#[trigger] self.entries@[p]).0
                        != (#[trigger] self.entries@[q]).0 by {
                        if q < i {
                            assert(self.entries@[p] == s0[p] && self.entries@[q] == s0[q]);
                        } else if p < i {
                            assert(self.entries@[p] == s0[p] && self.entries@[q] == s0[q + 1]);
                        } else {
                            assert(self.entries@[p] == s0[p + 1] && self.entries@[q] == s0[q
                                + 1]);
                        }
                    }
                }
            },
            None => {
                proof {
                    lemma_table_map_contains(s0, b);
                    assert(table_map(self.entries@) =~= table_map(s0).remove(b));
                }
            },
        }
        let ghost s1 = self.entries@;
        proof {
            assert(table_map(s1) == table_map(s0).remove(b));
            lemma_table_map_contains(s1, b);
        }
        self.entries.push((b, a));
        proof {
            lemma_table_map_push(s1, (b, a));
            assert(table_map(self.entries@) =~= table_map(s0).insert(b, a));
            assert forall|p: int, q: int|
                0 <= p < q < self.entries@.len() implies (#[trigger] self.entries@[p]).0 != (
            #[trigger] self.entries@[q]).0 by {
                if q == self.entries@.len() - 1 {
                    assert(self.entries@[p] == s1[p]);
                    assert(self.entries@[q].0 == b);
                }
            }
        }
    }

    /// Binds `b` to the synthetic key `k`.
    pub fn insert_key(&mut self, b: Button, k: Key)
        requires
            old(self).wf(),
        ensures
            final(self).wf(),
            final(self)@ == old(self)@.insert(b, MouseButtonOrKey::Key(k)),
            final(self).left_stick_mouse() == old(self).left_stick_mouse(),
            final(self).right_stick_mouse() == old(self).right_stick_mouse(),
    {
        self.insert_action(b, MouseButtonOrKey::Key(k));
    }

    /// Binds `b` to the synthetic mouse button `m`.
    pub fn insert_mouse_button(&mut self, b: Button, m: MouseButton)
        requires
            old(self).wf(),
        ensures
            final(self).wf(),
            final(self)@ == old(self)@.insert(b, MouseButtonOrKey::MouseButton(m)),
            final(self).left_stick_mouse() == old(self).left_stick_mouse(),
            final(self).right_stick_mouse() == old(self).right_stick_mouse(),
    {
        self.insert_action(b, MouseButtonOrKey::MouseButton(m));
    }

    /// Deletes the binding for `b` if present; removing an unbound input
    /// is a no-op, not an error.
    pub fn remove(&mut self, b: Button)
        requires
            old(self).wf(),
        ensures
            final(self).wf(),
            final(self)@ == old(self)@.remove(b),
            final(self).left_stick_mouse() == old(self).left_stick_mouse(),
            final(self).right_stick_mouse() == old(self).right_stick_mouse(),
    {
        let ghost s0 = self.entries@;
        match self.find_index(b) {
            Some(i) => {
                proof {
                    lemma_table_map_remove(s0, i as int);
                }
                self.entries.remove(i);
                proof {
                    assert forall|p: int, q: int|
                        0 <= p < q < self.entries@.len() implies (#[trigger] self.entries@[p]).0
                        != (#[trigger] self.entries@[q]).0 by {
                        if q < i {
                            assert(self.entries@[p] == s0[p] && self.entries@[q] == s0[q]);
                        } else if p < i {
                            assert(self.entries@[p] == s0[p] && self.entries@[q] == s0[q + 1]);
                        } else {
                            assert(self.entries@[p] == s0[p + 1] && self.entries@[q] == s0[q
                                + 1]);
                        }
                    }
                }
            },
            None => {
                proof {
                    lemma_table_map_contains(s0, b);
                    assert(table_map(self.entries@) =~= table_map(s0).remove(b));
                }
            },
        }
    }

    /// Sets whether the given stick drives the mouse.
    pub fn set_stick_mouse(&mut self, j: Joystick, on: bool)
        ensures
            final(self)@ == old(self)@,
            final(self).wf() == old(self).wf(),
            final(self).left_stick_mouse() == (if j is Left {
                on
            } else {
                old(self).left_stick_mouse()
            }),
            final(self).right_stick_mouse() == (if j is Right {
                on
            } else {
                old(self).right_stick_mouse()
            }),
    {
        match j {
            Joystick::Left => {
                self.left_mouse = on;
            },
            Joystick::Right => {
                self.right_mouse = on;
            },
        }
    }

    /// Flips whether the given stick drives the mouse.
    pub fn toggle_stick_mouse(&mut self, j: Joystick)
        ensures
            final(self)@ == old(self)@,
            final(self).wf() == old(self).wf(),
            final(self).left_stick_mouse() == (if j is Left {
                !old(self).left_stick_mouse()
            } else {
                old(self).left_stick_mouse()
            }),
            final(self).right_stick_mouse() == (if j is Right {
                !old(self).right_stick_mouse()
            } else {
                old(self).right_stick_mouse()
            }),
    {
        match j {
            Joystick::Left => {
                self.left_mouse = !self.left_mouse;
            },
            Joystick::Right => {
                self.right_mouse = !self.right_mouse;
            },
        }
    }
}

/// Removal is final regardless of prior state: after removing input `p`
/// from a table in any state `m`, a lookup of `p` yields nothing.
pub proof fn lemma_remove_then_get(m: Map<Button, MouseButtonOrKey>, p: Button)
    ensures
        spec_table_get(m.remove(p), p) == None::<MouseButtonOrKey>,
{
}

/// A single slot per input, last write wins: after binding `p` to the key
/// `k`, a lookup of `p` yields exactly that key; a subsequent mouse-button
/// binding for `p` overwrites it, so a lookup then yields exactly that
/// mouse button.
pub proof fn lemma_insert_overwrites(
    m: Map<Button, MouseButtonOrKey>,
    p: Button,
    k: Key,
    mb: MouseButton,
)
    ensures
        spec_table_get(m.insert(p, MouseButtonOrKey::Key(k)), p) == Some(
            MouseButtonOrKey::Key(k),
        ),
        spec_table_get(
            m.insert(p, MouseButtonOrKey::Key(k)).insert(p, MouseButtonOrKey::MouseButton(mb)),
            p,
        ) == Some(MouseButtonOrKey::MouseButton(mb)),
{
}

} // verus!
