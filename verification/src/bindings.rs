//! The binding table: for each of the two players, which keyboard key each
//! input of each controller stands for.

use std::collections::HashMap;
use vstd::prelude::*;
use crate::input::{ControllerInput, input_code, lemma_input_code_injective};

verus! {

broadcast use vstd::std_specs::hash::group_hash_axioms;

/// A place in the binding table: a player (0 or 1), a controller id and an
/// input of that controller.
pub type Slot = (int, u32, ControllerInput);

/// The key that one player's table files under controller `c` and input `i`.
pub open spec fn player_entry<K>(m: Map<u32, HashMap<u32, K>>, c: u32, i: ControllerInput) -> Option<K> {
    if m.contains_key(c) && m[c]@.contains_key(input_code(i)) {
        Some(m[c]@[input_code(i)])
    } else {
        None
    }
}

/// Keys bound for the two players. Each player's part maps a controller id
/// to a map from input codes to keys.
pub struct BindingTable<K> {
    first: HashMap<u32, HashMap<u32, K>>,
    second: HashMap<u32, HashMap<u32, K>>,
}

impl<K> BindingTable<K> {
    pub closed spec fn entry(self, s: Slot) -> Option<K> {
        if s.0 == 0 {
            player_entry(self.first@, s.1, s.2)
        } else if s.0 == 1 {
            player_entry(self.second@, s.1, s.2)
        } else {
            None
        }
    }
}

impl<K> View for BindingTable<K> {
    type V = Map<Slot, K>;

    /// Every bound slot with its key.
    open spec fn view(&self) -> Map<Slot, K> {
        Map::new(|s: Slot| self.entry(s) is Some, |s: Slot| self.entry(s).unwrap())
    }
}

/// The table after a bind of `k` at slot `s`: a slot that is taken keeps
/// its key; a free slot takes `k`.
pub open spec fn bind_result<K>(m: Map<Slot, K>, s: Slot, k: K) -> (Map<Slot, K>, bool) {
    if m.contains_key(s) {
        (m, false)
    } else {
        (m.insert(s, k), true)
    }
}

/// The key of one slot, as a sequence of zero or one keys.
pub open spec fn slot_keys<K>(m: Map<Slot, K>, s: Slot) -> Seq<K> {
    if m.contains_key(s) {
        seq![m[s]]
    } else {
        seq![]
    }
}

/// The keys that an input of a controller stands for: the first player's
/// key, if any, then the second player's.
pub open spec fn pressed_keys<K>(m: Map<Slot, K>, c: u32, i: ControllerInput) -> Seq<K> {
    slot_keys(m, (0, c, i)) + slot_keys(m, (1, c, i))
}

/// The table without any of player `p`'s bindings.
pub open spec fn without_player<K>(m: Map<Slot, K>, p: int) -> Map<Slot, K> {
    m.restrict(m.dom().filter(|s: Slot| s.0 != p))
}

/// Binds `k` in one player's part; succeeds only where the slot is free.
fn bind_in<K>(m: &mut HashMap<u32, HashMap<u32, K>>, c: u32, input: ControllerInput, k: K) -> (r: bool)
    ensures
        r == (player_entry(old(m)@, c, input) is None),
        forall|c2: u32, i2: ControllerInput|
            #[trigger] player_entry(final(m)@, c2, i2) == if r && c2 == c && i2 == input {
                Some(k)
            } else {
                player_entry(old(m)@, c2, i2)
            },
{
    let code = input.code();
    proof {
        assert forall|i2: ControllerInput| input_code(i2) == code <==> i2 == input by {
            lemma_input_code_injective(i2, input);
        }
    }
    match m.remove(&c) {
        Some(mut inner) => {
            if inner.contains_key(&code) {
                m.insert(c, inner);
                assert(m@ =~= old(m)@);
                false
            } else {
                inner.insert(code, k);
                m.insert(c, inner);
                true
            }
        },
        None => {
            let mut inner: HashMap<u32, K> = HashMap::new();
            inner.insert(code, k);
            m.insert(c, inner);
            true
        },
    }
}

impl<K> BindingTable<K> {
    /// A table with nothing bound.
    pub fn new() -> (t: Self)
        ensures
            t@ == Map::<Slot, K>::empty(),
    {
        let t = BindingTable { first: HashMap::new(), second: HashMap::new() };
        assert(t@ =~= Map::<Slot, K>::empty());
        t
    }

    /// Drops every binding of player `p`; the other player's stay.
    pub fn clear_player(&mut self, p: usize)
        requires
            p < 2,
        ensures
            final(self)@ == without_player(old(self)@, p as int),
    {
        if p == 0 {
            self.first.clear();
        } else {
            self.second.clear();
        }
        assert(self@ =~= without_player(old(self)@, p as int));
    }
}

/// Binds key `k` to input `input` of controller `c_idx` for player `p_idx`,
/// unless that player already has a key there. Returns whether it bound.
pub fn bind<K>(bindings: &mut BindingTable<K>, p_idx: usize, c_idx: u32, input: ControllerInput, k: K) -> (r: bool)
    requires
        p_idx < 2,
    ensures
        (final(bindings)@, r) == bind_result(old(bindings)@, (p_idx as int, c_idx, input), k),
{
    let ghost s: Slot = (p_idx as int, c_idx, input);
    let r = if p_idx == 0 {
        bind_in(&mut bindings.first, c_idx, input, k)
    } else {
        bind_in(&mut bindings.second, c_idx, input, k)
    };
    proof {
        assert(r == !old(bindings)@.contains_key(s));
        if r {
            assert(bindings@ =~= old(bindings)@.insert(s, k));
        } else {
            assert(bindings@ =~= old(bindings)@);
        }
    }
    r
}

/// The key one player's part files under controller `c` and input `input`.
fn lookup_in<K: Copy>(m: &HashMap<u32, HashMap<u32, K>>, c: u32, input: ControllerInput) -> (r: Option<K>)
    ensures
        r == player_entry(m@, c, input),
{
    match m.get(&c) {
        Some(inner) => match inner.get(&input.code()) {
            Some(k) => Some(*k),
            None => None,
        },
        None => None,
    }
}

impl<K: Copy> BindingTable<K> {
    /// The key that player `p` has bound to input `input` of controller `c`.
    pub fn lookup(&self, p: usize, c: u32, input: ControllerInput) -> (r: Option<K>)
        requires
            p < 2,
        ensures
            r == if self@.contains_key((p as int, c, input)) {
                Some(self@[(p as int, c, input)])
            } else {
                None
            },
    {
        if p == 0 {
            lookup_in(&self.first, c, input)
        } else {
            lookup_in(&self.second, c, input)
        }
    }
}

/// The keys that input `input` of controller `c_idx` stands for, the first
/// player's before the second's. These are the keys to press or release
/// when that input goes down or up.
pub fn press<K: Copy>(bindings: &BindingTable<K>, c_idx: u32, input: ControllerInput) -> (keys: Vec<K>)
    ensures
        keys@ == pressed_keys(bindings@, c_idx, input),
{
    let mut keys: Vec<K> = Vec::new();
    match lookup_in(&bindings.first, c_idx, input) {
        Some(k) => keys.push(k),
        None => {},
    }
    match lookup_in(&bindings.second, c_idx, input) {
        Some(k) => keys.push(k),
        None => {},
    }
    assert(bindings@.contains_key((0, c_idx, input)) == (bindings.entry((0, c_idx, input)) is Some));
    assert(bindings@.contains_key((1, c_idx, input)) == (bindings.entry((1, c_idx, input)) is Some));
    assert(keys@ =~= pressed_keys(bindings@, c_idx, input));
    keys
}

} // verus!
