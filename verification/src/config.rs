//! Command-line options, the binding configuration of a game, and the
//! per-player profile that binding runs from.

use vstd::prelude::*;

verus! {

/// The program's command-line options.
pub struct Args {
    /// Output all events.
    pub debug: bool,
    /// The configuration file to load.
    pub file: String,
}

/// One player's controls: the keys for the four stick directions, found by
/// the names "Up", "Down", "Left" and "Right", and the actions in the order
/// in which binding asks for them.
pub struct Controls<K> {
    pub directions: Vec<(String, K)>,
    pub actions: Vec<(String, K)>,
}

/// A game's binding configuration: its name and the controls of each
/// player, the first player's first.
pub struct Config<K> {
    pub name: String,
    pub controls: Vec<Controls<K>>,
}

/// The keyboard keys that the built-in configuration names.
#[derive(Clone, Copy, Debug, PartialEq, Eq, Structural)]
pub enum KeyCode {
    Unicode(char),
    Escape,
    Numpad2,
    Numpad4,
    Numpad6,
    Numpad8,
}

/// A list of named keys, with each name taken as its characters.
pub open spec fn named_view<K>(v: Seq<(String, K)>) -> Seq<(Seq<char>, K)> {
    v.map_values(|e: (String, K)| (e.0@, e.1))
}

/// The direction keys of player `p` in the built-in configuration.
pub open spec fn wonderful_world_directions(p: int) -> Seq<(Seq<char>, KeyCode)> {
    if p == 0 {
        seq![
            ("Up"@, KeyCode::Unicode('t')),
            ("Down"@, KeyCode::Unicode('b')),
            ("Left"@, KeyCode::Unicode('f')),
            ("Right"@, KeyCode::Unicode('h')),
        ]
    } else {
        seq![
            ("Up"@, KeyCode::Numpad8),
            ("Down"@, KeyCode::Numpad2),
            ("Left"@, KeyCode::Numpad4),
            ("Right"@, KeyCode::Numpad6),
        ]
    }
}

/// The action keys of player `p` in the built-in configuration.
pub open spec fn wonderful_world_actions(p: int) -> Seq<(Seq<char>, KeyCode)> {
    if p == 0 {
        seq![
            ("Punch"@, KeyCode::Unicode('a')),
            ("Kick"@, KeyCode::Unicode('s')),
            ("Slash"@, KeyCode::Unicode('d')),
            ("Heavy Slash"@, KeyCode::Unicode('q')),
            ("Original Action"@, KeyCode::Unicode('w')),
            ("Special Action"@, KeyCode::Unicode('e')),
            ("Pause"@, KeyCode::Escape),
        ]
    } else {
        seq![
            ("Punch"@, KeyCode::Unicode('j')),
            ("Kick"@, KeyCode::Unicode('k')),
            ("Slash"@, KeyCode::Unicode('l')),
            ("Heavy Slash"@, KeyCode::Unicode('i')),
            ("Original Action"@, KeyCode::Unicode('o')),
            ("Special Action"@, KeyCode::Unicode('p')),
            ("Pause"@, KeyCode::Escape),
        ]
    }
}

fn push_named<K>(v: &mut Vec<(String, K)>, name: &str, k: K)
    ensures
        named_view(final(v)@) == named_view(old(v)@).push((name@, k)),
{
    v.push((name.to_owned(), k));
    assert(named_view(v@) =~= named_view(old(v)@).push((name@, k)));
}

fn wonderful_world_controls(p: usize) -> (c: Controls<KeyCode>)
    requires
        p < 2,
    ensures
        named_view(c.directions@) == wonderful_world_directions(p as int),
        named_view(c.actions@) == wonderful_world_actions(p as int),
{
    let mut directions: Vec<(String, KeyCode)> = Vec::new();
    let mut actions: Vec<(String, KeyCode)> = Vec::new();
    assert(named_view(directions@) =~= Seq::<(Seq<char>, KeyCode)>::empty());
    assert(named_view(actions@) =~= Seq::<(Seq<char>, KeyCode)>::empty());
    if p == 0 {
        push_named(&mut directions, "Up", KeyCode::Unicode('t'));
        push_named(&mut directions, "Down", KeyCode::Unicode('b'));
        push_named(&mut directions, "Left", KeyCode::Unicode('f'));
        push_named(&mut directions, "Right", KeyCode::Unicode('h'));
        push_named(&mut actions, "Punch", KeyCode::Unicode('a'));
        push_named(&mut actions, "Kick", KeyCode::Unicode('s'));
        push_named(&mut actions, "Slash", KeyCode::Unicode('d'));
        push_named(&mut actions, "Heavy Slash", KeyCode::Unicode('q'));
        push_named(&mut actions, "Original Action", KeyCode::Unicode('w'));
        push_named(&mut actions, "Special Action", KeyCode::Unicode('e'));
        push_named(&mut actions, "Pause", KeyCode::Escape);
    } else {
        push_named(&mut directions, "Up", KeyCode::Numpad8);
        push_named(&mut directions, "Down", KeyCode::Numpad2);
        push_named(&mut directions, "Left", KeyCode::Numpad4);
        push_named(&mut directions, "Right", KeyCode::Numpad6);
        push_named(&mut actions, "Punch", KeyCode::Unicode('j'));
        push_named(&mut actions, "Kick", KeyCode::Unicode('k'));
        push_named(&mut actions, "Slash", KeyCode::Unicode('l'));
        push_named(&mut actions, "Heavy Slash", KeyCode::Unicode('i'));
        push_named(&mut actions, "Original Action", KeyCode::Unicode('o'));
        push_named(&mut actions, "Special Action", KeyCode::Unicode('p'));
        push_named(&mut actions, "Pause", KeyCode::Escape);
    }
    assert(named_view(directions@) =~= wonderful_world_directions(p as int));
    assert(named_view(actions@) =~= wonderful_world_actions(p as int));
    Controls { directions, actions }
}

/// The configuration used when no configuration file can be opened: the
/// bindings of Wonderful World for two players.
pub fn default_config() -> (c: Config<KeyCode>)
    ensures
        c.name@ == "Wonderful World"@,
        c.controls@.len() == 2,
        forall|p: int|
            0 <= p < 2 ==> {
                &&& named_view(#[trigger] c.controls@[p].directions@) == wonderful_world_directions(p)
                &&& named_view(c.controls@[p].actions@) == wonderful_world_actions(p)
            },
{
    let mut controls: Vec<Controls<KeyCode>> = Vec::new();
    controls.push(wonderful_world_controls(0));
    controls.push(wonderful_world_controls(1));
    Config { name: "Wonderful World".to_owned(), controls }
}

} // verus!
