//! Properties of the binder that span operations.

use vstd::prelude::*;
use crate::input::{Axis, Button, ControllerInput, KeyDirection, is_pushed};
use crate::bindings::{Slot, bind_result, pressed_keys};
use crate::session::{
    AnalogState, Event, Mode, Output, SessionView, accepts, analog_get, analog_set, is_trigger, is_tracked,
    key_outputs, next, press_outputs,
};
use crate::config::{KeyCode, wonderful_world_actions, wonderful_world_directions};

verus! {

/// Once a bind succeeds, the input presses the bound key, in the place of
/// the player it was bound for.
pub proof fn law_bind_then_press<K>(m: Map<Slot, K>, p: int, c: u32, i: ControllerInput, k: K)
    requires
        p == 0 || p == 1,
    ensures
        bind_result(m, (p, c, i), k).1 ==> pressed_keys(bind_result(m, (p, c, i), k).0, c, i).contains(k),
        bind_result(m, (p, c, i), k).1 ==> pressed_keys(bind_result(m, (p, c, i), k).0, c, i)[
            if p == 0 { 0 } else { pressed_keys(m, c, i).len() as int }] == k,
{
    let m2 = bind_result(m, (p, c, i), k).0;
    if bind_result(m, (p, c, i), k).1 {
        let ks = pressed_keys(m2, c, i);
        if p == 0 {
            assert(ks[0] == k);
        } else {
            assert(ks[pressed_keys(m, c, i).len() as int] == k);
        }
    }
}

/// The first binding of a slot wins: binding the same slot again fails and
/// changes nothing.
pub proof fn law_first_binding_wins<K>(m: Map<Slot, K>, s: Slot, k1: K, k2: K)
    ensures
        bind_result(bind_result(m, s, k1).0, s, k2) == (bind_result(m, s, k1).0, false),
        bind_result(bind_result(m, s, k1).0, s, k2).0[s] == if m.contains_key(s) { m[s] } else { k1 },
{
}

/// Every accepted event leaves the binder well formed.
pub proof fn law_step_keeps_wf<K>(s: SessionView<K>, e: Event)
    requires
        accepts(s, e),
    ensures
        next(s, e).0.wf(),
        next(s, e).0.profiles == s.profiles,
{
}

/// An event never forgets an open controller, except its removal.
pub proof fn law_open_controllers_stay<K>(s: SessionView<K>, e: Event, w: u32)
    requires
        accepts(s, e),
        s.analog.contains_key(w),
        e != (Event::ControllerRemoved { which: w }),
    ensures
        next(s, e).0.analog.contains_key(w),
{
}

/// Axis events act on changes only: the same axis reading twice in a row
/// does nothing the second time.
pub proof fn law_repeated_axis_reading_is_ignored<K>(s: SessionView<K>, w: u32, a: Axis, v: i16)
    requires
        accepts(s, Event::AxisMotion { which: w, axis: a, value: v }),
    ensures
        accepts(next(s, Event::AxisMotion { which: w, axis: a, value: v }).0, Event::AxisMotion { which: w, axis: a, value: v }),
        next(next(s, Event::AxisMotion { which: w, axis: a, value: v }).0, Event::AxisMotion { which: w, axis: a, value: v })
            == (next(s, Event::AxisMotion { which: w, axis: a, value: v }).0, Seq::<Output<K>>::empty()),
{
    let e = Event::AxisMotion { which: w, axis: a, value: v };
    let t = next(s, e).0;
    law_step_keeps_wf(s, e);
    if s.analog.contains_key(w) {
        assert(t.analog.contains_key(w));
    }
    assert(next(t, e).1 =~= Seq::<Output<K>>::empty());
}

/// In normal play, only choosing a player changes the bindings.
pub proof fn law_play_keeps_bindings<K>(s: SessionView<K>, e: Event)
    requires
        accepts(s, e),
        s.mode is Idle,
        !(e is PlayerChosen),
    ensures
        next(s, e).0.bindings == s.bindings,
        next(s, e).0.mode is Idle,
{
}

/// While binding, no key is sent.
pub proof fn law_binding_sends_no_keys<K>(s: SessionView<K>, e: Event)
    requires
        accepts(s, e),
        s.mode is Binding,
    ensures
        forall|j: int| 0 <= j < next(s, e).1.len() ==> !(#[trigger] next(s, e).1[j] is Key),
{
}

/// Binding a player leaves the other player's bindings as they were.
pub proof fn law_binding_spares_other_player<K>(s: SessionView<K>, e: Event, q: int, c: u32, i: ControllerInput)
    requires
        accepts(s, e),
        s.mode matches Mode::Binding { player, .. } && player != q,
    ensures
        next(s, e).0.bindings.contains_key((q, c, i)) == s.bindings.contains_key((q, c, i)),
        s.bindings.contains_key((q, c, i)) ==> next(s, e).0.bindings[(q, c, i)] == s.bindings[(q, c, i)],
{
}

/// Choosing a player to bind forgets all of that player's bindings, keeps
/// the other player's, and then waits for that player's first action.
pub proof fn law_choosing_player_starts_afresh<K>(s: SessionView<K>, p: i32, q: int, c: u32, i: ControllerInput)
    requires
        accepts(s, Event::PlayerChosen { code: p }),
        s.mode is Idle,
        p == 0 || p == 1,
        s.profiles[p as int].actions.len() > 0,
    ensures
        next(s, Event::PlayerChosen { code: p }).0.mode == (Mode::Binding { player: p as usize, next: 0, controller: 0 }),
        next(s, Event::PlayerChosen { code: p }).1 == seq![
            Output::<K>::BindingStarted { player: p as usize },
            Output::AskForAction { player: p as usize, index: 0 },
        ],
        !next(s, Event::PlayerChosen { code: p }).0.bindings.contains_key((p as int, c, i)),
        q != p ==> next(s, Event::PlayerChosen { code: p }).0.bindings.contains_key((q, c, i))
            == s.bindings.contains_key((q, c, i)),
        q != p && s.bindings.contains_key((q, c, i)) ==> next(s, Event::PlayerChosen { code: p }).0.bindings[(q, c, i)]
            == s.bindings[(q, c, i)],
{
}

/// A controller that is removed and opened again starts with nothing pushed.
pub proof fn law_reopened_controller_is_released<K>(s: SessionView<K>, w: u32)
    requires
        s.wf(),
    ensures
        next(next(s, Event::ControllerRemoved { which: w }).0, Event::ControllerOpened { id: w }).0.analog[w]
            == (AnalogState { right_trigger: false, left_trigger: false, stick_x: false, stick_y: false }),
{
}

/// In normal play, a trigger that is pushed and then let go releases
/// exactly the keys that it pressed, in the same order.
pub proof fn law_trigger_releases_what_it_pressed<K>(s: SessionView<K>, w: u32, a: Axis, v1: i16, v2: i16)
    requires
        accepts(s, Event::AxisMotion { which: w, axis: a, value: v1 }),
        s.mode is Idle,
        is_trigger(a),
        !analog_get(s.analog[w], a),
        is_pushed(v1),
        !is_pushed(v2),
    ensures
        ({
            let (t, pressed) = next(s, Event::AxisMotion { which: w, axis: a, value: v1 });
            let released = next(t, Event::AxisMotion { which: w, axis: a, value: v2 }).1;
            let keys = pressed_keys(s.bindings, w, ControllerInput::Analog(a));
            &&& pressed == key_outputs(keys, KeyDirection::Press)
            &&& released == key_outputs(keys, KeyDirection::Release)
        }),
{
}

/// In normal play, every key that the left stick presses is released when
/// the stick comes back to the middle.
pub proof fn law_stick_releases_what_it_pressed<K>(s: SessionView<K>, w: u32, a: Axis, v1: i16, v2: i16, k: K)
    requires
        accepts(s, Event::AxisMotion { which: w, axis: a, value: v1 }),
        s.mode is Idle,
        a is LeftX || a is LeftY,
        !analog_get(s.analog[w], a),
        is_pushed(v1),
        !is_pushed(v2),
        next(s, Event::AxisMotion { which: w, axis: a, value: v1 }).1.contains(Output::Key { key: k, direction: KeyDirection::Press }),
    ensures
        next(next(s, Event::AxisMotion { which: w, axis: a, value: v1 }).0, Event::AxisMotion { which: w, axis: a, value: v2 }).1.contains(
            Output::Key { key: k, direction: KeyDirection::Release },
        ),
{
    let e1 = Event::AxisMotion { which: w, axis: a, value: v1 };
    let e2 = Event::AxisMotion { which: w, axis: a, value: v2 };
    let (t, pressed) = next(s, e1);
    let released = next(t, e2).1;
    let (plus, minus) = if a is LeftX { (Button::DPadRight, Button::DPadLeft) } else { (Button::DPadDown, Button::DPadUp) };
    let bt = if v1 > 0 { plus } else { minus };
    let keys = pressed_keys(s.bindings, w, ControllerInput::Digital(bt));
    assert(pressed == key_outputs(keys, KeyDirection::Press));
    let j = choose|j: int| 0 <= j < pressed.len() && pressed[j] == Output::Key { key: k, direction: KeyDirection::Press };
    assert(keys[j] == k);
    let rp = press_outputs(s.bindings, w, ControllerInput::Digital(plus), KeyDirection::Release);
    let rm = press_outputs(s.bindings, w, ControllerInput::Digital(minus), KeyDirection::Release);
    assert(released == rp + rm);
    if v1 > 0 {
        assert(released[j] == Output::Key { key: k, direction: KeyDirection::Release });
    } else {
        assert(released[rp.len() + j] == Output::Key { key: k, direction: KeyDirection::Release });
    }
}

/// While binding action `k` of player `p`, a button that is free for that
/// player takes the action's key, and binding moves on to the next action,
/// or ends after the last one.
pub proof fn law_free_button_takes_action_key<K>(s: SessionView<K>, w: u32, b: Button)
    requires
        accepts(s, Event::ButtonDown { which: w, button: b }),
        s.mode matches Mode::Binding { player, .. } && !s.bindings.contains_key((player as int, w, ControllerInput::Digital(b))),
    ensures
        ({
            let (player, k) = match s.mode {
                Mode::Binding { player, next, .. } => (player, next),
                _ => (0usize, 0usize),
            };
            let t = next(s, Event::ButtonDown { which: w, button: b }).0;
            &&& t.bindings.contains_key((player as int, w, ControllerInput::Digital(b)))
            &&& t.bindings[(player as int, w, ControllerInput::Digital(b))] == s.profiles[player as int].actions[k as int]
            &&& if k + 1 < s.profiles[player as int].actions.len() {
                &&& t.mode == Mode::Binding { player, next: (k + 1) as usize, controller: w }
                &&& next(s, Event::ButtonDown { which: w, button: b }).1
                    == seq![Output::<K>::AskForAction { player, index: (k + 1) as usize }]
            } else {
                &&& t.mode is Idle
                &&& next(s, Event::ButtonDown { which: w, button: b }).1
                    == seq![Output::<K>::BindingFinished, Output::AskForPlayer]
            }
        }),
{
}

/// While binding, a button that the player already bound on that
/// controller is refused: nothing is bound, the same action is still
/// awaited, nothing is asked, and the controller is remembered for the
/// d-pad.
pub proof fn law_taken_button_is_refused<K>(s: SessionView<K>, w: u32, b: Button)
    requires
        accepts(s, Event::ButtonDown { which: w, button: b }),
        s.mode matches Mode::Binding { player, .. } && s.bindings.contains_key((player as int, w, ControllerInput::Digital(b))),
    ensures
        ({
            let (player, k) = match s.mode {
                Mode::Binding { player, next, .. } => (player, next),
                _ => (0usize, 0usize),
            };
            next(s, Event::ButtonDown { which: w, button: b })
                == (s.with_mode(Mode::Binding { player, next: k, controller: w }), Seq::<Output<K>>::empty())
        }),
{
}

/// While binding, pushing a trigger from rest onto a free slot binds the
/// awaited action's key to the trigger and moves on as a button does, but
/// the d-pad stays with the controller that last pressed a button.
pub proof fn law_free_trigger_takes_action_key<K>(s: SessionView<K>, w: u32, a: Axis, v: i16)
    requires
        accepts(s, Event::AxisMotion { which: w, axis: a, value: v }),
        is_trigger(a),
        is_pushed(v),
        !analog_get(s.analog[w], a),
        s.mode matches Mode::Binding { player, .. } && !s.bindings.contains_key((player as int, w, ControllerInput::Analog(a))),
    ensures
        ({
            let (player, k, c) = match s.mode {
                Mode::Binding { player, next, controller } => (player, next, controller),
                _ => (0usize, 0usize, 0u32),
            };
            let (t, out) = next(s, Event::AxisMotion { which: w, axis: a, value: v });
            &&& t.bindings.contains_key((player as int, w, ControllerInput::Analog(a)))
            &&& t.bindings[(player as int, w, ControllerInput::Analog(a))] == s.profiles[player as int].actions[k as int]
            &&& analog_get(t.analog[w], a)
            &&& if k + 1 < s.profiles[player as int].actions.len() {
                &&& t.mode == Mode::Binding { player, next: (k + 1) as usize, controller: c }
                &&& out == seq![Output::<K>::AskForAction { player, index: (k + 1) as usize }]
            } else {
                &&& t.mode is Idle
                &&& out == seq![Output::<K>::BindingFinished, Output::AskForPlayer]
                &&& !s.bindings.contains_key((player as int, c, ControllerInput::Digital(Button::DPadUp)))
                    ==> t.bindings.contains_key((player as int, c, ControllerInput::Digital(Button::DPadUp)))
                    && t.bindings[(player as int, c, ControllerInput::Digital(Button::DPadUp))] == s.profiles[player as int].up
                &&& !s.bindings.contains_key((player as int, c, ControllerInput::Digital(Button::DPadRight)))
                    ==> t.bindings.contains_key((player as int, c, ControllerInput::Digital(Button::DPadRight)))
                    && t.bindings[(player as int, c, ControllerInput::Digital(Button::DPadRight))] == s.profiles[player as int].right
            }
        }),
{
}

/// While binding, button releases, player choices and moves of axes other
/// than the triggers change nothing and ask nothing.
pub proof fn law_binding_ignores_other_events<K>(s: SessionView<K>, e: Event)
    requires
        accepts(s, e),
        s.mode is Binding,
        e is ButtonUp || e is PlayerChosen || (e matches Event::AxisMotion { axis, .. } && !is_trigger(axis)),
    ensures
        next(s, e) == (s, Seq::<Output<K>>::empty()),
{
}

/// In normal play, a player number beyond the second is answered by asking
/// again, and changes nothing.
pub proof fn law_unknown_player_is_asked_again<K>(s: SessionView<K>, code: i32)
    requires
        s.wf(),
        s.mode is Idle,
        code > 1,
    ensures
        next(s, Event::PlayerChosen { code }) == (s, seq![Output::<K>::AskForPlayer]),
{
}

/// Quitting is answered by a stop and changes nothing, in any mode.
pub proof fn law_quit_stops<K>(s: SessionView<K>)
    ensures
        next(s, Event::Quit) == (s, seq![Output::<K>::Quit]),
{
}

/// A removed controller is no longer tracked; the bindings and the mode
/// stay as they were, and nothing is asked.
pub proof fn law_removed_controller_is_closed<K>(s: SessionView<K>, w: u32)
    ensures
        !next(s, Event::ControllerRemoved { which: w }).0.analog.contains_key(w),
        next(s, Event::ControllerRemoved { which: w }).0.bindings == s.bindings,
        next(s, Event::ControllerRemoved { which: w }).0.mode == s.mode,
        next(s, Event::ControllerRemoved { which: w }).1.len() == 0,
{
}

/// An axis counts as pushed beyond half of `i16::MAX` either way: 16383 is
/// not pushed and 16384 is; the sign does not matter, and a reading further
/// from the middle than a pushed one is pushed too.
pub proof fn law_push_threshold(v1: i16, v2: i16)
    ensures
        !is_pushed(16383),
        is_pushed(16384),
        !is_pushed(-16383i16),
        is_pushed(-16384i16),
        !is_pushed(0),
        is_pushed(i16::MIN),
        v1 > i16::MIN ==> is_pushed(v1) == is_pushed((-v1) as i16),
        is_pushed(v1) && (v2 >= v1 > 0 || v2 <= v1 < 0) ==> is_pushed(v2),
{
}

/// One key event for each player who bound input `i` of controller `c`,
/// the first player's first.
pub open spec fn player_key_events<K>(m: Map<Slot, K>, c: u32, i: ControllerInput, d: KeyDirection) -> Seq<Output<K>> {
    (if m.contains_key((0, c, i)) { seq![Output::Key { key: m[(0, c, i)], direction: d }] } else { seq![] })
        + (if m.contains_key((1, c, i)) { seq![Output::Key { key: m[(1, c, i)], direction: d }] } else { seq![] })
}

proof fn lemma_press_outputs_per_player<K>(m: Map<Slot, K>, c: u32, i: ControllerInput, d: KeyDirection)
    ensures
        press_outputs(m, c, i, d) == player_key_events(m, c, i, d),
{
    assert(press_outputs(m, c, i, d) =~= player_key_events(m, c, i, d));
}

/// The d-pad button that the left stick stands for when axis `a` is pushed
/// to the side of the sign of `v`: right or left for the x axis, down or up
/// for the y axis.
pub open spec fn stick_direction(a: Axis, v: i16) -> Button {
    if a is LeftX {
        if v > 0 { Button::DPadRight } else { Button::DPadLeft }
    } else {
        if v > 0 { Button::DPadDown } else { Button::DPadUp }
    }
}

/// In normal play, a button going down presses, and going up releases, the
/// key of every player who bound it, the first player's first; nothing
/// else changes.
pub proof fn law_buttons_reach_every_player<K>(s: SessionView<K>, w: u32, b: Button)
    requires
        s.wf(),
        s.mode is Idle,
    ensures
        next(s, Event::ButtonDown { which: w, button: b }) == (s, player_key_events(s.bindings, w, ControllerInput::Digital(b), KeyDirection::Press)),
        next(s, Event::ButtonUp { which: w, button: b }) == (s, player_key_events(s.bindings, w, ControllerInput::Digital(b), KeyDirection::Release)),
{
    lemma_press_outputs_per_player(s.bindings, w, ControllerInput::Digital(b), KeyDirection::Press);
    lemma_press_outputs_per_player(s.bindings, w, ControllerInput::Digital(b), KeyDirection::Release);
}

/// In normal play, a button going up releases exactly the keys that it
/// pressed going down, in the same order.
pub proof fn law_button_up_releases_what_down_pressed<K>(s: SessionView<K>, w: u32, b: Button)
    requires
        s.wf(),
        s.mode is Idle,
    ensures
        ({
            let down = next(s, Event::ButtonDown { which: w, button: b }).1;
            let up = next(s, Event::ButtonUp { which: w, button: b }).1;
            &&& up.len() == down.len()
            &&& forall|j: int| 0 <= j < down.len() ==> (#[trigger] down[j] matches Output::Key { key, direction }
                && direction == KeyDirection::Press && up[j] == Output::Key { key, direction: KeyDirection::Release })
        }),
{
    law_buttons_reach_every_player(s, w, b);
}

/// In normal play, pushing the left stick from rest presses the same keys
/// as pressing the d-pad button it points to, for every player; letting it
/// come back to the middle releases the keys of both d-pad buttons of that
/// axis, the plus side (right, down) first.
pub proof fn law_stick_acts_as_dpad<K>(s: SessionView<K>, w: u32, a: Axis, v: i16)
    requires
        accepts(s, Event::AxisMotion { which: w, axis: a, value: v }),
        s.mode is Idle,
        a is LeftX || a is LeftY,
    ensures
        !analog_get(s.analog[w], a) && is_pushed(v) ==> {
            &&& next(s, Event::AxisMotion { which: w, axis: a, value: v }).1
                == next(s, Event::ButtonDown { which: w, button: stick_direction(a, v) }).1
            &&& next(s, Event::AxisMotion { which: w, axis: a, value: v }).1
                == player_key_events(s.bindings, w, ControllerInput::Digital(stick_direction(a, v)), KeyDirection::Press)
        },
        analog_get(s.analog[w], a) && !is_pushed(v) ==> next(s, Event::AxisMotion { which: w, axis: a, value: v }).1
            == player_key_events(s.bindings, w, ControllerInput::Digital(stick_direction(a, 1i16)), KeyDirection::Release)
                + player_key_events(s.bindings, w, ControllerInput::Digital(stick_direction(a, -1i16)), KeyDirection::Release),
{
    lemma_press_outputs_per_player(s.bindings, w, ControllerInput::Digital(stick_direction(a, v)), KeyDirection::Press);
    lemma_press_outputs_per_player(s.bindings, w, ControllerInput::Digital(stick_direction(a, 1i16)), KeyDirection::Release);
    lemma_press_outputs_per_player(s.bindings, w, ControllerInput::Digital(stick_direction(a, -1i16)), KeyDirection::Release);
}

/// In normal play, pushing a trigger from rest presses the key of every
/// player who bound it, and letting it go releases them.
pub proof fn law_trigger_reaches_every_player<K>(s: SessionView<K>, w: u32, a: Axis, v: i16)
    requires
        accepts(s, Event::AxisMotion { which: w, axis: a, value: v }),
        s.mode is Idle,
        is_trigger(a),
    ensures
        !analog_get(s.analog[w], a) && is_pushed(v) ==> next(s, Event::AxisMotion { which: w, axis: a, value: v }).1
            == player_key_events(s.bindings, w, ControllerInput::Analog(a), KeyDirection::Press),
        analog_get(s.analog[w], a) && !is_pushed(v) ==> next(s, Event::AxisMotion { which: w, axis: a, value: v }).1
            == player_key_events(s.bindings, w, ControllerInput::Analog(a), KeyDirection::Release),
{
    lemma_press_outputs_per_player(s.bindings, w, ControllerInput::Analog(a), KeyDirection::Press);
    lemma_press_outputs_per_player(s.bindings, w, ControllerInput::Analog(a), KeyDirection::Release);
}

/// The tracked axes are kept apart: setting one gives it that value and
/// leaves every other tracked axis as it was.
pub proof fn law_tracked_axes_are_independent(st: AnalogState, a: Axis, b: Axis, v: bool)
    requires
        is_tracked(a),
        is_tracked(b),
    ensures
        analog_get(analog_set(st, a, v), a) == v,
        a != b ==> analog_get(analog_set(st, a, v), b) == analog_get(st, b),
{
}

/// An axis event changes the pushed state of that axis of that controller
/// only: every other tracked axis, and every other controller, keeps its
/// state.
pub proof fn law_axis_event_touches_only_its_axis<K>(s: SessionView<K>, w: u32, a: Axis, v: i16, b: Axis, w2: u32)
    requires
        accepts(s, Event::AxisMotion { which: w, axis: a, value: v }),
        is_tracked(b),
        s.analog.contains_key(w2),
        w2 != w || b != a,
    ensures
        next(s, Event::AxisMotion { which: w, axis: a, value: v }).0.analog.contains_key(w2),
        analog_get(next(s, Event::AxisMotion { which: w, axis: a, value: v }).0.analog[w2], b)
            == analog_get(s.analog[w2], b),
{
    if w2 == w && is_tracked(a) {
        law_tracked_axes_are_independent(s.analog[w], a, b, is_pushed(v));
    }
}

/// When binding ends for player `p` on controller `w`, each d-pad button of
/// `w` that was free for that player, and was not the one just bound, takes
/// player `p`'s own direction key; one already bound keeps its key.
pub proof fn law_finished_binding_fills_dpad_with_own_directions<K>(s: SessionView<K>, w: u32, b: Button)
    requires
        accepts(s, Event::ButtonDown { which: w, button: b }),
        s.mode matches Mode::Binding { player, next, .. } && next + 1 == s.profiles[player as int].actions.len()
            && !s.bindings.contains_key((player as int, w, ControllerInput::Digital(b))),
    ensures
        ({
            let p = s.mode->player;
            let prof = s.profiles[p as int];
            let t = next(s, Event::ButtonDown { which: w, button: b }).0;
            &&& t.mode is Idle
            &&& s.bindings.contains_key((p as int, w, ControllerInput::Digital(Button::DPadUp)))
                ==> t.bindings[(p as int, w, ControllerInput::Digital(Button::DPadUp))]
                == s.bindings[(p as int, w, ControllerInput::Digital(Button::DPadUp))]
            &&& b != Button::DPadUp && !s.bindings.contains_key((p as int, w, ControllerInput::Digital(Button::DPadUp)))
                ==> t.bindings.contains_key((p as int, w, ControllerInput::Digital(Button::DPadUp)))
                && t.bindings[(p as int, w, ControllerInput::Digital(Button::DPadUp))] == prof.up
            &&& b != Button::DPadDown && !s.bindings.contains_key((p as int, w, ControllerInput::Digital(Button::DPadDown)))
                ==> t.bindings.contains_key((p as int, w, ControllerInput::Digital(Button::DPadDown)))
                && t.bindings[(p as int, w, ControllerInput::Digital(Button::DPadDown))] == prof.down
            &&& b != Button::DPadLeft && !s.bindings.contains_key((p as int, w, ControllerInput::Digital(Button::DPadLeft)))
                ==> t.bindings.contains_key((p as int, w, ControllerInput::Digital(Button::DPadLeft)))
                && t.bindings[(p as int, w, ControllerInput::Digital(Button::DPadLeft))] == prof.left
            &&& b != Button::DPadRight && !s.bindings.contains_key((p as int, w, ControllerInput::Digital(Button::DPadRight)))
                ==> t.bindings.contains_key((p as int, w, ControllerInput::Digital(Button::DPadRight)))
                && t.bindings[(p as int, w, ControllerInput::Digital(Button::DPadRight))] == prof.right
        }),
{
}

/// The built-in layout asks both players for the same actions in the same
/// order, and gives the second player the keys j, k, l, i, o, p and Escape
/// for Punch, Kick, Slash, Heavy Slash, Original Action, Special Action and
/// Pause, with the numpad arrows 8, 2, 4, 6 for Up, Down, Left, Right; the
/// first player has a, s, d, q, w, e, Escape and t, b, f, h.
pub proof fn law_wonderful_world_layout()
    ensures
        wonderful_world_actions(0).len() == wonderful_world_actions(1).len(),
        forall|j: int| 0 <= j < wonderful_world_actions(0).len()
            ==> #[trigger] wonderful_world_actions(0)[j].0 == wonderful_world_actions(1)[j].0,
        wonderful_world_actions(1) == seq![
            ("Punch"@, KeyCode::Unicode('j')),
            ("Kick"@, KeyCode::Unicode('k')),
            ("Slash"@, KeyCode::Unicode('l')),
            ("Heavy Slash"@, KeyCode::Unicode('i')),
            ("Original Action"@, KeyCode::Unicode('o')),
            ("Special Action"@, KeyCode::Unicode('p')),
            ("Pause"@, KeyCode::Escape),
        ],
        wonderful_world_actions(0) == seq![
            ("Punch"@, KeyCode::Unicode('a')),
            ("Kick"@, KeyCode::Unicode('s')),
            ("Slash"@, KeyCode::Unicode('d')),
            ("Heavy Slash"@, KeyCode::Unicode('q')),
            ("Original Action"@, KeyCode::Unicode('w')),
            ("Special Action"@, KeyCode::Unicode('e')),
            ("Pause"@, KeyCode::Escape),
        ],
        wonderful_world_directions(0) == seq![
            ("Up"@, KeyCode::Unicode('t')),
            ("Down"@, KeyCode::Unicode('b')),
            ("Left"@, KeyCode::Unicode('f')),
            ("Right"@, KeyCode::Unicode('h')),
        ],
        wonderful_world_directions(1) == seq![
            ("Up"@, KeyCode::Numpad8),
            ("Down"@, KeyCode::Numpad2),
            ("Left"@, KeyCode::Numpad4),
            ("Right"@, KeyCode::Numpad6),
        ],
{
}

} // verus!
