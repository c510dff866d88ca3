//! The binder as a state machine: what it does with each controller event,
//! in normal play and while a player is binding buttons.

use std::collections::HashMap;
use vstd::prelude::*;
use crate::input::{Axis, Button, ControllerInput, KeyDirection, is_pushed, axis_pushed};
use crate::bindings::{BindingTable, Slot, bind, bind_result, press, pressed_keys, without_player};
use crate::profile::Profile;

verus! {

broadcast use vstd::std_specs::hash::group_hash_axioms;

/// Whether each tracked axis of a controller is currently pushed.
#[derive(Clone, Copy, Debug, PartialEq, Eq, Structural)]
pub struct AnalogState {
    pub right_trigger: bool,
    pub left_trigger: bool,
    pub stick_x: bool,
    pub stick_y: bool,
}

/// The axes whose pushed state is tracked: both triggers and the left stick.
pub open spec fn is_tracked(a: Axis) -> bool {
    a is TriggerRight || a is TriggerLeft || a is LeftX || a is LeftY
}

pub open spec fn is_trigger(a: Axis) -> bool {
    a is TriggerRight || a is TriggerLeft
}

pub open spec fn analog_get(s: AnalogState, a: Axis) -> bool {
    match a {
        Axis::TriggerRight => s.right_trigger,
        Axis::TriggerLeft => s.left_trigger,
        Axis::LeftX => s.stick_x,
        Axis::LeftY => s.stick_y,
        _ => false,
    }
}

pub open spec fn analog_set(s: AnalogState, a: Axis, v: bool) -> AnalogState {
    match a {
        Axis::TriggerRight => AnalogState { right_trigger: v, ..s },
        Axis::TriggerLeft => AnalogState { left_trigger: v, ..s },
        Axis::LeftX => AnalogState { stick_x: v, ..s },
        Axis::LeftY => AnalogState { stick_y: v, ..s },
        _ => s,
    }
}

impl AnalogState {
    /// Nothing pushed: the state of a newly opened controller.
    pub fn released() -> (s: AnalogState)
        ensures
            !s.right_trigger && !s.left_trigger && !s.stick_x && !s.stick_y,
    {
        AnalogState { right_trigger: false, left_trigger: false, stick_x: false, stick_y: false }
    }

    pub fn get(&self, a: Axis) -> (v: bool)
        ensures
            v == analog_get(*self, a),
    {
        match a {
            Axis::TriggerRight => self.right_trigger,
            Axis::TriggerLeft => self.left_trigger,
            Axis::LeftX => self.stick_x,
            Axis::LeftY => self.stick_y,
            _ => false,
        }
    }

    pub fn set(&mut self, a: Axis, v: bool)
        ensures
            *final(self) == analog_set(*old(self), a, v),
    {
        match a {
            Axis::TriggerRight => self.right_trigger = v,
            Axis::TriggerLeft => self.left_trigger = v,
            Axis::LeftX => self.stick_x = v,
            Axis::LeftY => self.stick_y = v,
            _ => {},
        }
    }
}

/// What the binder is doing: passing inputs on as keys, or recording the
/// bindings of `player`, where `next` is the action it waits for and
/// `controller` the controller that last pressed a button.
#[derive(Clone, Copy, Debug, PartialEq, Eq, Structural)]
pub enum Mode {
    Idle,
    Binding { player: usize, next: usize, controller: u32 },
}

/// An event that the binder reacts to.
#[derive(Clone, Copy, Debug, PartialEq, Eq, Structural)]
pub enum Event {
    ButtonDown { which: u32, button: Button },
    ButtonUp { which: u32, button: Button },
    AxisMotion { which: u32, axis: Axis, value: i16 },
    /// The number typed at the prompt, less one.
    PlayerChosen { code: i32 },
    /// A controller was opened under id `id`.
    ControllerOpened { id: u32 },
    ControllerRemoved { which: u32 },
    Quit,
}

/// What the binder asks its surroundings to do.
#[derive(Debug, PartialEq, Eq)]
pub enum Output<K> {
    /// Send a key event.
    Key { key: K, direction: KeyDirection },
    /// Ask which player to bind ("Please enter either 1 or 2.").
    AskForPlayer,
    /// Announce that `player` (counted from 0) is being bound.
    BindingStarted { player: usize },
    /// Ask for the input of action `index` of `player`.
    AskForAction { player: usize, index: usize },
    /// Announce that binding is done.
    BindingFinished,
    /// Stop.
    Quit,
}

#[verifier::ext_equal]
/// A profile as the state machine uses it: the action names and keys in
/// order and the four direction keys.
pub struct ProfileView<K> {
    pub names: Seq<Seq<char>>,
    pub actions: Seq<K>,
    pub up: K,
    pub down: K,
    pub left: K,
    pub right: K,
}

pub open spec fn profile_view<K>(p: Profile<K>) -> ProfileView<K> {
    ProfileView {
        names: p.actions@.map_values(|e: (String, K)| e.0@),
        actions: p.actions@.map_values(|e: (String, K)| e.1),
        up: p.up,
        down: p.down,
        left: p.left,
        right: p.right,
    }
}

#[verifier::ext_equal]
/// The state of the binder.
pub struct SessionView<K> {
    pub bindings: Map<Slot, K>,
    pub analog: Map<u32, AnalogState>,
    pub mode: Mode,
    pub profiles: Seq<ProfileView<K>>,
}

impl<K> SessionView<K> {
    pub open spec fn with_bindings(self, b: Map<Slot, K>) -> Self {
        SessionView { bindings: b, ..self }
    }

    pub open spec fn with_analog(self, a: Map<u32, AnalogState>) -> Self {
        SessionView { analog: a, ..self }
    }

    pub open spec fn with_mode(self, m: Mode) -> Self {
        SessionView { mode: m, ..self }
    }

    /// Two profiles, and while binding, a player and an action that exist.
    pub open spec fn wf(self) -> bool {
        &&& self.profiles.len() == 2
        &&& match self.mode {
            Mode::Idle => true,
            Mode::Binding { player, next, .. } => player < 2 && next < self.profiles[player as int].actions.len(),
        }
    }
}

/// One key event for each key.
pub open spec fn key_outputs<K>(keys: Seq<K>, d: KeyDirection) -> Seq<Output<K>> {
    keys.map_values(|k: K| Output::Key { key: k, direction: d })
}

/// The key events for input `i` of controller `c` going down or up.
pub open spec fn press_outputs<K>(b: Map<Slot, K>, c: u32, i: ControllerInput, d: KeyDirection) -> Seq<Output<K>> {
    key_outputs(pressed_keys(b, c, i), d)
}

/// The table after binding the four directions of a profile to the d-pad
/// of controller `c` for player `p`; each takes only a free slot.
pub open spec fn bind_directions<K>(b: Map<Slot, K>, p: int, c: u32, prof: ProfileView<K>) -> Map<Slot, K> {
    let b1 = bind_result(b, (p, c, ControllerInput::Digital(Button::DPadUp)), prof.up).0;
    let b2 = bind_result(b1, (p, c, ControllerInput::Digital(Button::DPadDown)), prof.down).0;
    let b3 = bind_result(b2, (p, c, ControllerInput::Digital(Button::DPadLeft)), prof.left).0;
    bind_result(b3, (p, c, ControllerInput::Digital(Button::DPadRight)), prof.right).0
}

/// The end of binding: the d-pad gets the direction keys, and the binder
/// goes back to normal play.
pub open spec fn finish_binding<K>(s: SessionView<K>, p: usize, c: u32) -> (SessionView<K>, Seq<Output<K>>) {
    (
        s.with_bindings(bind_directions(s.bindings, p as int, c, s.profiles[p as int])).with_mode(Mode::Idle),
        seq![Output::BindingFinished, Output::AskForPlayer],
    )
}

/// After action `k` of player `p` was bound: ask for the next action, or
/// finish when it was the last.
pub open spec fn advance<K>(s: SessionView<K>, p: usize, k: usize, c: u32) -> (SessionView<K>, Seq<Output<K>>) {
    if k + 1 >= s.profiles[p as int].actions.len() {
        finish_binding(s, p, c)
    } else {
        (
            s.with_mode(Mode::Binding { player: p, next: (k + 1) as usize, controller: c }),
            seq![Output::AskForAction { player: p, index: (k + 1) as usize }],
        )
    }
}

/// Start binding player `p`: forget that player's bindings and ask for the
/// first action.
pub open spec fn start_binding<K>(s: SessionView<K>, p: usize) -> (SessionView<K>, Seq<Output<K>>) {
    let cleared = s.with_bindings(without_player(s.bindings, p as int));
    if s.profiles[p as int].actions.len() == 0 {
        let (t, out) = finish_binding(cleared, p, 0);
        (t, seq![Output::BindingStarted { player: p }] + out)
    } else {
        (
            cleared.with_mode(Mode::Binding { player: p, next: 0, controller: 0 }),
            seq![Output::BindingStarted { player: p }, Output::AskForAction { player: p, index: 0 }],
        )
    }
}

/// The key events for a move of a tracked axis in normal play, when its
/// pushed state changes to `pushed`. A trigger stands for itself; the left
/// stick stands for the d-pad: pushed, for the direction it points to;
/// released, for both directions of that axis.
pub open spec fn axis_outputs<K>(b: Map<Slot, K>, c: u32, a: Axis, value: i16, pushed: bool) -> Seq<Output<K>> {
    if is_trigger(a) {
        press_outputs(b, c, ControllerInput::Analog(a), if pushed { KeyDirection::Press } else { KeyDirection::Release })
    } else {
        let (plus, minus) = if a is LeftX { (Button::DPadRight, Button::DPadLeft) } else { (Button::DPadDown, Button::DPadUp) };
        if pushed {
            press_outputs(b, c, ControllerInput::Digital(if value > 0 { plus } else { minus }), KeyDirection::Press)
        } else {
            press_outputs(b, c, ControllerInput::Digital(plus), KeyDirection::Release)
                + press_outputs(b, c, ControllerInput::Digital(minus), KeyDirection::Release)
        }
    }
}

/// Whether `next` is defined on `s` and `e`: an axis whose state is read
/// belongs to an opened controller, and a player chosen in normal play is
/// not below the first.
pub open spec fn accepts<K>(s: SessionView<K>, e: Event) -> bool {
    &&& s.wf()
    &&& match e {
        Event::AxisMotion { which, axis, .. } => (is_trigger(axis) || (s.mode is Idle && is_tracked(axis)))
            ==> s.analog.contains_key(which),
        Event::PlayerChosen { code } => s.mode is Idle ==> code >= 0,
        _ => true,
    }
}

/// What the binder does with event `e` in state `s`: the next state and
/// what it asks to be done, in order.
pub open spec fn next<K>(s: SessionView<K>, e: Event) -> (SessionView<K>, Seq<Output<K>>) {
    match e {
        Event::ControllerOpened { id } => (
            s.with_analog(s.analog.insert(id, AnalogState { right_trigger: false, left_trigger: false, stick_x: false, stick_y: false })),
            seq![],
        ),
        Event::ControllerRemoved { which } => (s.with_analog(s.analog.remove(which)), seq![]),
        Event::Quit => (s, seq![Output::Quit]),
        _ => match s.mode {
            Mode::Idle => match e {
                Event::ButtonDown { which, button } =>
                    (s, press_outputs(s.bindings, which, ControllerInput::Digital(button), KeyDirection::Press)),
                Event::ButtonUp { which, button } =>
                    (s, press_outputs(s.bindings, which, ControllerInput::Digital(button), KeyDirection::Release)),
                Event::AxisMotion { which, axis, value } => {
                    if is_tracked(axis) && analog_get(s.analog[which], axis) != is_pushed(value) {
                        (
                            s.with_analog(s.analog.insert(which, analog_set(s.analog[which], axis, is_pushed(value)))),
                            axis_outputs(s.bindings, which, axis, value, is_pushed(value)),
                        )
                    } else {
                        (s, seq![])
                    }
                },
                Event::PlayerChosen { code } => {
                    if code > 1 {
                        (s, seq![Output::AskForPlayer])
                    } else {
                        start_binding(s, code as usize)
                    }
                },
                _ => (s, seq![]),
            },
            Mode::Binding { player, next, controller } => {
                let key = s.profiles[player as int].actions[next as int];
                match e {
                    Event::ButtonDown { which, button } => {
                        let (b, ok) = bind_result(s.bindings, (player as int, which, ControllerInput::Digital(button)), key);
                        let t = s.with_bindings(b);
                        if ok {
                            advance(t, player, next, which)
                        } else {
                            (t.with_mode(Mode::Binding { player, next, controller: which }), seq![])
                        }
                    },
                    Event::AxisMotion { which, axis, value } => {
                        if is_trigger(axis) && analog_get(s.analog[which], axis) != is_pushed(value) {
                            let t = s.with_analog(s.analog.insert(which, analog_set(s.analog[which], axis, is_pushed(value))));
                            if is_pushed(value) {
                                let (b, ok) = bind_result(t.bindings, (player as int, which, ControllerInput::Analog(axis)), key);
                                if ok {
                                    advance(t.with_bindings(b), player, next, controller)
                                } else {
                                    (t, seq![])
                                }
                            } else {
                                (t, seq![])
                            }
                        } else {
                            (s, seq![])
                        }
                    },
                    _ => (s, seq![]),
                }
            },
        },
    }
}

/// The binder: the binding table, the pushed state of each opened
/// controller's tracked axes, the mode, and the two players' profiles.
pub struct Session<K> {
    bindings: BindingTable<K>,
    analog: HashMap<u32, AnalogState>,
    mode: Mode,
    first: Profile<K>,
    second: Profile<K>,
}

impl<K> View for Session<K> {
    type V = SessionView<K>;

    closed spec fn view(&self) -> SessionView<K> {
        SessionView {
            bindings: self.bindings@,
            analog: self.analog@,
            mode: self.mode,
            profiles: seq![profile_view(self.first), profile_view(self.second)],
        }
    }
}


/// The d-pad button that a stick axis pointing to the plus
/// (right, down) or minus (left, up) side stands for.
fn stick_button(a: Axis, plus: bool) -> (b: Button)
    ensures
        b == if a is LeftX {
            if plus { Button::DPadRight } else { Button::DPadLeft }
        } else {
            if plus { Button::DPadDown } else { Button::DPadUp }
        },
{
    match a {
        Axis::LeftX => if plus { Button::DPadRight } else { Button::DPadLeft },
        _ => if plus { Button::DPadDown } else { Button::DPadUp },
    }
}

fn is_trigger_exec(a: Axis) -> (r: bool)
    ensures
        r == is_trigger(a),
{
    match a {
        Axis::TriggerRight | Axis::TriggerLeft => true,
        _ => false,
    }
}

fn is_tracked_exec(a: Axis) -> (r: bool)
    ensures
        r == is_tracked(a),
{
    match a {
        Axis::TriggerRight | Axis::TriggerLeft | Axis::LeftX | Axis::LeftY => true,
        _ => false,
    }
}

impl<K: Copy> Session<K> {
    /// A binder in normal play with nothing bound and no controller open.
    pub fn new(first: Profile<K>, second: Profile<K>) -> (s: Self)
        ensures
            s@.bindings == Map::<Slot, K>::empty(),
            s@.analog == Map::<u32, AnalogState>::empty(),
            s@.mode == Mode::Idle,
            s@.profiles == seq![profile_view(first), profile_view(second)],
            s@.wf(),
    {
        Session { bindings: BindingTable::new(), analog: HashMap::new(), mode: Mode::Idle, first, second }
    }

    pub fn mode(&self) -> (m: Mode)
        ensures
            m == self@.mode,
    {
        self.mode
    }

    pub fn bindings(&self) -> (b: &BindingTable<K>)
        ensures
            b@ == self@.bindings,
    {
        &self.bindings
    }

    /// The profile of player `p`.
    pub fn profile(&self, p: usize) -> (r: &Profile<K>)
        requires
            p < 2,
        ensures
            profile_view(*r) == self@.profiles[p as int],
    {
        if p == 0 {
            &self.first
        } else {
            &self.second
        }
    }

    /// The number of actions in player `p`'s profile.
    fn action_count(&self, p: usize) -> (n: usize)
        requires
            p < 2,
        ensures
            n == self@.profiles[p as int].actions.len(),
    {
        let r = self.profile(p);
        r.actions.len()
    }

    /// The key of action `k` of player `p`.
    fn action_key(&self, p: usize, k: usize) -> (key: K)
        requires
            p < 2,
            k < self@.profiles[p as int].actions.len(),
        ensures
            key == self@.profiles[p as int].actions[k as int],
    {
        let r = self.profile(p);
        r.actions[k].1
    }

    /// Whether controller `which` is open, so that its axes are tracked.
    pub fn is_open(&self, which: u32) -> (r: bool)
        ensures
            r == self@.analog.contains_key(which),
    {
        self.analog.contains_key(&which)
    }

    /// The pushed state of the tracked axes of controller `which`, if open.
    pub fn analog_state(&self, which: u32) -> (r: Option<AnalogState>)
        ensures
            r == if self@.analog.contains_key(which) {
                Some(self@.analog[which])
            } else {
                None
            },
    {
        match self.analog.get(&which) {
            Some(a) => Some(*a),
            None => None,
        }
    }

    /// Whether `step` may be called with `e`.
    pub fn accepts(&self, e: &Event) -> (r: bool)
        ensures
            r == accepts(self@, *e),
    {
        let wf = match self.mode {
            Mode::Idle => true,
            Mode::Binding { player, next, .. } => player < 2 && next < self.action_count(player),
        };
        if !wf {
            return false;
        }
        let idle = match self.mode {
            Mode::Idle => true,
            _ => false,
        };
        match *e {
            Event::AxisMotion { which, axis, .. } => {
                if is_trigger_exec(axis) || (idle && is_tracked_exec(axis)) {
                    self.is_open(which)
                } else {
                    true
                }
            },
            Event::PlayerChosen { code } => !idle || code >= 0,
            _ => true,
        }
    }

    /// Appends the key events for input `input` of controller `c`.
    fn push_keys(&self, c: u32, input: ControllerInput, d: KeyDirection, out: &mut Vec<Output<K>>)
        ensures
            final(out)@ == old(out)@ + press_outputs(self@.bindings, c, input, d),
    {
        let keys = press(&self.bindings, c, input);
        let ghost start = out@;
        let mut i: usize = 0;
        while i < keys.len()
            invariant
                i <= keys@.len(),
                keys@ == pressed_keys(self@.bindings, c, input),
                out@ == start + key_outputs(keys@.take(i as int), d),
            decreases keys@.len() - i,
        {
            out.push(Output::Key { key: keys[i], direction: d });
            assert(keys@.take(i + 1) =~= keys@.take(i as int).push(keys@[i as int]));
            assert(key_outputs(keys@.take(i + 1), d) =~= key_outputs(keys@.take(i as int), d).push(
                Output::Key { key: keys@[i as int], direction: d },
            ));
            i = i + 1;
        }
        assert(keys@.take(keys@.len() as int) =~= keys@);
    }

    /// Records the new pushed state of a tracked axis of an open controller.
    /// Returns whether it changed; nothing changes where it did not.
    fn update_axis(&mut self, which: u32, axis: Axis, value: i16) -> (changed: bool)
        requires
            old(self)@.analog.contains_key(which),
        ensures
            changed == (analog_get(old(self)@.analog[which], axis) != is_pushed(value)),
            final(self)@ == if changed {
                old(self)@.with_analog(
                    old(self)@.analog.insert(which, analog_set(old(self)@.analog[which], axis, is_pushed(value))),
                )
            } else {
                old(self)@
            },
    {
        let pushed = axis_pushed(value);
        let mut state = *self.analog.get(&which).unwrap();
        if state.get(axis) != pushed {
            state.set(axis, pushed);
            self.analog.insert(which, state);
            true
        } else {
            false
        }
    }

    /// Binds the four direction keys of player `p` to the d-pad of
    /// controller `c` and goes back to normal play.
    fn finish_binding(&mut self, p: usize, c: u32, out: &mut Vec<Output<K>>)
        requires
            p < 2,
            old(self)@.profiles.len() == 2,
        ensures
            final(self)@ == finish_binding(old(self)@, p, c).0,
            final(out)@ == old(out)@ + finish_binding(old(self)@, p, c).1,
            final(self)@.wf(),
    {
        let (up, down, left, right) = if p == 0 {
            (self.first.up, self.first.down, self.first.left, self.first.right)
        } else {
            (self.second.up, self.second.down, self.second.left, self.second.right)
        };
        bind(&mut self.bindings, p, c, ControllerInput::Digital(Button::DPadUp), up);
        bind(&mut self.bindings, p, c, ControllerInput::Digital(Button::DPadDown), down);
        bind(&mut self.bindings, p, c, ControllerInput::Digital(Button::DPadLeft), left);
        bind(&mut self.bindings, p, c, ControllerInput::Digital(Button::DPadRight), right);
        self.mode = Mode::Idle;
        out.push(Output::BindingFinished);
        out.push(Output::AskForPlayer);
        assert(out@ =~= old(out)@ + finish_binding(old(self)@, p, c).1);
    }

    /// After action `k` of player `p` was bound on controller `c`: asks for
    /// the next action, or finishes after the last.
    fn advance(&mut self, p: usize, k: usize, c: u32, out: &mut Vec<Output<K>>)
        requires
            p < 2,
            old(self)@.profiles.len() == 2,
            k < old(self)@.profiles[p as int].actions.len(),
        ensures
            final(self)@ == advance(old(self)@, p, k, c).0,
            final(out)@ == old(out)@ + advance(old(self)@, p, k, c).1,
            final(self)@.wf(),
    {
        let n = self.action_count(p);
        if k + 1 >= n {
            self.finish_binding(p, c, out);
        } else {
            self.mode = Mode::Binding { player: p, next: k + 1, controller: c };
            out.push(Output::AskForAction { player: p, index: k + 1 });
            assert(out@ =~= old(out)@ + advance(old(self)@, p, k, c).1);
        }
    }

    /// Starts binding player `p`.
    fn start_binding(&mut self, p: usize, out: &mut Vec<Output<K>>)
        requires
            p < 2,
            old(self)@.profiles.len() == 2,
        ensures
            final(self)@ == start_binding(old(self)@, p).0,
            final(out)@ == old(out)@ + start_binding(old(self)@, p).1,
            final(self)@.wf(),
    {
        self.bindings.clear_player(p);
        out.push(Output::BindingStarted { player: p });
        if self.action_count(p) == 0 {
            self.finish_binding(p, 0, out);
            assert(out@ =~= old(out)@ + start_binding(old(self)@, p).1);
        } else {
            self.mode = Mode::Binding { player: p, next: 0, controller: 0 };
            out.push(Output::AskForAction { player: p, index: 0 });
            assert(out@ =~= old(out)@ + start_binding(old(self)@, p).1);
        }
    }

    /// Reacts to `e` in normal play.
    fn step_idle(&mut self, e: Event, out: &mut Vec<Output<K>>)
        requires
            accepts(old(self)@, e),
            old(self)@.mode is Idle,
            !(e is ControllerOpened || e is ControllerRemoved || e is Quit),
            old(out)@.len() == 0,
        ensures
            (final(self)@, final(out)@) == next(old(self)@, e),
            final(self)@.wf(),
    {
        match e {
            Event::ButtonDown { which, button } => {
                self.push_keys(which, ControllerInput::Digital(button), KeyDirection::Press, out);
                assert(out@ =~= next(old(self)@, e).1);
            },
            Event::ButtonUp { which, button } => {
                self.push_keys(which, ControllerInput::Digital(button), KeyDirection::Release, out);
                assert(out@ =~= next(old(self)@, e).1);
            },
            Event::AxisMotion { which, axis, value } => {
                if is_tracked_exec(axis) {
                    if self.update_axis(which, axis, value) {
                        let pushed = axis_pushed(value);
                        if is_trigger_exec(axis) {
                            let d = if pushed { KeyDirection::Press } else { KeyDirection::Release };
                            self.push_keys(which, ControllerInput::Analog(axis), d, out);
                        } else if pushed {
                            let b = stick_button(axis, value > 0);
                            self.push_keys(which, ControllerInput::Digital(b), KeyDirection::Press, out);
                        } else {
                            let plus = stick_button(axis, true);
                            let minus = stick_button(axis, false);
                            self.push_keys(which, ControllerInput::Digital(plus), KeyDirection::Release, out);
                            self.push_keys(which, ControllerInput::Digital(minus), KeyDirection::Release, out);
                        }
                        assert(out@ =~= next(old(self)@, e).1);
                    } else {
                        assert(out@ =~= next(old(self)@, e).1);
                    }
                } else {
                    assert(out@ =~= next(old(self)@, e).1);
                }
            },
            Event::PlayerChosen { code } => {
                if code > 1 {
                    out.push(Output::AskForPlayer);
                    assert(out@ =~= next(old(self)@, e).1);
                } else {
                    self.start_binding(code as usize, out);
                    assert(out@ =~= next(old(self)@, e).1);
                }
            },
            _ => {
                assert(out@ =~= next(old(self)@, e).1);
            },
        }
    }

    /// Reacts to `e` while binding action `k` of player `p`.
    fn step_binding(&mut self, e: Event, p: usize, k: usize, c: u32, out: &mut Vec<Output<K>>)
        requires
            accepts(old(self)@, e),
            old(self)@.mode == (Mode::Binding { player: p, next: k, controller: c }),
            !(e is ControllerOpened || e is ControllerRemoved || e is Quit),
            old(out)@.len() == 0,
        ensures
            (final(self)@, final(out)@) == next(old(self)@, e),
            final(self)@.wf(),
    {
        let key = self.action_key(p, k);
        match e {
            Event::ButtonDown { which, button } => {
                if bind(&mut self.bindings, p, which, ControllerInput::Digital(button), key) {
                    self.advance(p, k, which, out);
                } else {
                    self.mode = Mode::Binding { player: p, next: k, controller: which };
                }
                assert(out@ =~= next(old(self)@, e).1);
            },
            Event::AxisMotion { which, axis, value } => {
                if is_trigger_exec(axis) {
                    if self.update_axis(which, axis, value) {
                        if axis_pushed(value) {
                            if bind(&mut self.bindings, p, which, ControllerInput::Analog(axis), key) {
                                self.advance(p, k, c, out);
                            }
                        }
                    }
                }
                assert(out@ =~= next(old(self)@, e).1);
            },
            _ => {
                assert(out@ =~= next(old(self)@, e).1);
            },
        }
    }

    /// Reacts to event `e`: updates the binder's state and returns what it
    /// asks to be done, in order.
    pub fn step(&mut self, e: Event) -> (out: Vec<Output<K>>)
        requires
            accepts(old(self)@, e),
        ensures
            (final(self)@, out@) == next(old(self)@, e),
            final(self)@.wf(),
    {
        let mut out: Vec<Output<K>> = Vec::new();
        match e {
            Event::ControllerOpened { id } => {
                self.analog.insert(id, AnalogState::released());
            },
            Event::ControllerRemoved { which } => {
                self.analog.remove(&which);
            },
            Event::Quit => {
                out.push(Output::Quit);
            },
            _ => match self.mode {
                Mode::Idle => self.step_idle(e, &mut out),
                Mode::Binding { player, next, controller } => self.step_binding(e, player, next, controller, &mut out),
            },
        }
        assert(out@ =~= next(old(self)@, e).1);
        out
    }
}

} // verus!
