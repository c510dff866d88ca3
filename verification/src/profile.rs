//! A player's binding profile: the actions that binding asks for, in
//! order, and the four direction keys that it binds to the d-pad at the end.

use vstd::prelude::*;
use crate::config::{Controls, named_view};

verus! {

/// The key of the first entry called `name`, if any.
pub open spec fn find_named<K>(v: Seq<(Seq<char>, K)>, name: Seq<char>) -> Option<K>
    decreases v.len(),
{
    if v.len() == 0 {
        None
    } else if v[0].0 == name {
        Some(v[0].1)
    } else {
        find_named(v.drop_first(), name)
    }
}

/// Whether some entry is called `name`.
pub open spec fn has_name<K>(v: Seq<(Seq<char>, K)>, name: Seq<char>) -> bool {
    exists|j: int| 0 <= j < v.len() && #[trigger] v[j].0 == name
}

/// No two entries share a name, as in a map from names to keys.
pub open spec fn distinct_names<K>(v: Seq<(Seq<char>, K)>) -> bool {
    forall|i: int, j: int| 0 <= i < j < v.len() ==> #[trigger] v[i].0 != #[trigger] v[j].0
}

/// An entry is found by a name exactly when some entry has that name; where
/// names are distinct, it is the key of the one entry of that name.
pub proof fn lemma_find_named<K>(v: Seq<(Seq<char>, K)>, name: Seq<char>)
    ensures
        find_named(v, name) is Some <==> has_name(v, name),
        distinct_names(v) ==> forall|j: int|
            0 <= j < v.len() && #[trigger] v[j].0 == name ==> find_named(v, name) == Some(v[j].1),
    decreases v.len(),
{
    if v.len() > 0 {
        let rest = v.drop_first();
        lemma_find_named(rest, name);
        if has_name(v, name) && v[0].0 != name {
            let j = choose|j: int| 0 <= j < v.len() && #[trigger] v[j].0 == name;
            assert(rest[j - 1].0 == name);
        }
        if has_name(rest, name) {
            let j = choose|j: int| 0 <= j < rest.len() && #[trigger] rest[j].0 == name;
            assert(v[j + 1].0 == name);
        }
        if distinct_names(v) {
            assert forall|i: int, j: int| 0 <= i < j < rest.len() implies #[trigger] rest[i].0 != #[trigger] rest[j].0 by {
                assert(v[i + 1].0 != v[j + 1].0);
            }
            assert forall|j: int| 0 <= j < v.len() && #[trigger] v[j].0 == name implies find_named(v, name) == Some(v[j].1) by {
                if j > 0 {
                    assert(v[0].0 != v[j].0);
                    assert(rest[j - 1] == v[j]);
                }
            }
        }
    }
}

pub struct Profile<K> {
    /// The actions, each with its name and key, in the order asked for.
    pub actions: Vec<(String, K)>,
    pub up: K,
    pub down: K,
    pub left: K,
    pub right: K,
}

/// The key of the first entry of `v` called `name`, if any.
pub fn find_key<K: Copy>(v: &Vec<(String, K)>, name: &str) -> (r: Option<K>)
    ensures
        r == find_named(named_view(v@), name@),
{
    let wanted = name.to_owned();
    let ghost full = named_view(v@);
    let mut i: usize = 0;
    assert(full.subrange(0, full.len() as int) =~= full);
    while i < v.len()
        invariant
            i <= v@.len(),
            full == named_view(v@),
            wanted@ == name@,
            find_named(full, name@) == find_named(full.subrange(i as int, full.len() as int), name@),
        decreases v@.len() - i,
    {
        let ghost rest = full.subrange(i as int, full.len() as int);
        assert(rest[0] == (v@[i as int].0@, v@[i as int].1));
        assert(rest.drop_first() =~= full.subrange(i + 1, full.len() as int));
        if v[i].0 == wanted {
            return Some(v[i].1);
        }
        i = i + 1;
    }
    None
}

impl<K: Copy> Profile<K> {
    /// The profile of a player's controls: all of its actions, and the
    /// first keys called "Up", "Down", "Left" and "Right". There is none
    /// where one of those four names is missing.
    pub fn from_controls(controls: Controls<K>) -> (r: Option<Profile<K>>)
        ensures
            ({
                let dirs = named_view(controls.directions@);
                match r {
                    Some(p) => {
                        &&& find_named(dirs, "Up"@) == Some(p.up)
                        &&& find_named(dirs, "Down"@) == Some(p.down)
                        &&& find_named(dirs, "Left"@) == Some(p.left)
                        &&& find_named(dirs, "Right"@) == Some(p.right)
                        &&& p.actions@ == controls.actions@
                    },
                    None => {
                        ||| find_named(dirs, "Up"@) is None
                        ||| find_named(dirs, "Down"@) is None
                        ||| find_named(dirs, "Left"@) is None
                        ||| find_named(dirs, "Right"@) is None
                    },
                }
            }),
            ({
                let dirs = named_view(controls.directions@);
                r is None <==> !(has_name(dirs, "Up"@) && has_name(dirs, "Down"@) && has_name(dirs, "Left"@)
                    && has_name(dirs, "Right"@))
            }),
            ({
                let dirs = named_view(controls.directions@);
                distinct_names(dirs) && r is Some ==> forall|j: int|
                    0 <= j < dirs.len() ==> {
                        &&& #[trigger] dirs[j].0 == "Up"@ ==> dirs[j].1 == r->0.up
                        &&& dirs[j].0 == "Down"@ ==> dirs[j].1 == r->0.down
                        &&& dirs[j].0 == "Left"@ ==> dirs[j].1 == r->0.left
                        &&& dirs[j].0 == "Right"@ ==> dirs[j].1 == r->0.right
                    }
            }),
    {
        proof {
            let dirs = named_view(controls.directions@);
            lemma_find_named(dirs, "Up"@);
            lemma_find_named(dirs, "Down"@);
            lemma_find_named(dirs, "Left"@);
            lemma_find_named(dirs, "Right"@);
        }
        let up = find_key(&controls.directions, "Up");
        let down = find_key(&controls.directions, "Down");
        let left = find_key(&controls.directions, "Left");
        let right = find_key(&controls.directions, "Right");
        match (up, down, left, right) {
            (Some(up), Some(down), Some(left), Some(right)) => Some(
                Profile { actions: controls.actions, up, down, left, right },
            ),
            _ => None,
        }
    }

    /// The number of actions that binding asks for.
    pub fn action_count(&self) -> (n: usize)
        ensures
            n == self.actions@.len(),
    {
        self.actions.len()
    }

    /// The name of action `index`.
    pub fn action_name(&self, index: usize) -> (name: &str)
        requires
            index < self.actions@.len(),
        ensures
            name@ == self.actions@[index as int].0@,
    {
        self.actions[index].0.as_str()
    }
}

} // verus!
