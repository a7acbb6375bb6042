//! The keymap, the action dispatcher and the event router.

use vstd::prelude::*;
use vstd::std_specs::hash::group_hash_axioms;
use std::collections::HashMap;
use crate::fixed::{magnitude, normalized, turned, DEADZONE_LOW, HALF_UNIT};
use crate::mouse::{MotionAxis, MouseMoverHandle};

verus! {

broadcast use group_hash_axioms;

/// A button of the gamepad.
#[derive(Clone, Copy, Debug, PartialEq, Eq, Hash, Structural)]
pub enum Button {
    South,
    East,
    North,
    West,
    C,
    Z,
    LeftTrigger,
    LeftTrigger2,
    RightTrigger,
    RightTrigger2,
    Select,
    Start,
    Mode,
    LeftThumb,
    RightThumb,
    DPadUp,
    DPadDown,
    DPadLeft,
    DPadRight,
    Unknown,
}

/// An analog axis of the gamepad.
#[derive(Clone, Copy, Debug, PartialEq, Eq, Hash, Structural)]
pub enum Axis {
    LeftStickX,
    LeftStickY,
    LeftZ,
    RightStickX,
    RightStickY,
    RightZ,
    DPadX,
    DPadY,
    Unknown,
}

/// A key of the keyboard that a button can stand for.
#[derive(Clone, Copy, Debug, PartialEq, Eq, Hash, Structural)]
pub enum Key {
    Return,
    UpArrow,
    RightArrow,
    DownArrow,
    LeftArrow,
    Meta,
    Escape,
    Space,
    Tab,
    Backspace,
    Shift,
    Control,
    Alt,
}

/// A button of the pointer that a gamepad button can stand for.
#[derive(Clone, Copy, Debug, PartialEq, Eq, Hash, Structural)]
pub enum PointerButton {
    Left,
    Middle,
    Right,
    Back,
    Forward,
}

/// How a gamepad button is mapped.
#[derive(Clone, Copy, Debug, PartialEq, Eq, Structural)]
pub enum Binding {
    /// One press-and-release of the key each time the button goes down;
    /// nothing when it comes up.
    Momentary(Key),
    /// The key is held for as long as the button is.
    HeldKey(Key),
    /// The pointer button is held for as long as the button is.
    HeldButton(PointerButton),
    /// The pointer button follows the button's analog value: down from half
    /// way, up below.
    Trigger(PointerButton),
}

/// What the gamepad reported of one button.
#[derive(Clone, Copy, Debug, PartialEq, Eq, Structural)]
pub enum ButtonInput {
    Pressed,
    Released,
    /// The analog value of the button, from zero to one unit.
    Level(i64),
}

/// A key or pointer-button action to synthesize.
#[derive(Clone, Copy, Debug, PartialEq, Eq, Structural)]
pub enum Action {
    /// Press the key, then release it.
    Click(Key),
    KeyPress(Key),
    KeyRelease(Key),
    ButtonPress(PointerButton),
    ButtonRelease(PointerButton),
}

/// The number of buttons.
pub const BUTTON_COUNT: usize = 20;

/// The place of a button among all buttons, from zero.
pub open spec fn button_index(button: Button) -> int {
    match button {
        Button::South => 0,
        Button::East => 1,
        Button::North => 2,
        Button::West => 3,
        Button::C => 4,
        Button::Z => 5,
        Button::LeftTrigger => 6,
        Button::LeftTrigger2 => 7,
        Button::RightTrigger => 8,
        Button::RightTrigger2 => 9,
        Button::Select => 10,
        Button::Start => 11,
        Button::Mode => 12,
        Button::LeftThumb => 13,
        Button::RightThumb => 14,
        Button::DPadUp => 15,
        Button::DPadDown => 16,
        Button::DPadLeft => 17,
        Button::DPadRight => 18,
        Button::Unknown => 19,
    }
}

/// The action that `input` on a button with this binding calls for, if any:
/// an unmapped button calls for none, and each binding answers only to the
/// inputs named for it.
pub open spec fn action_for(binding: Option<Binding>, input: ButtonInput) -> Option<Action> {
    match (binding, input) {
        (Some(Binding::Momentary(key)), ButtonInput::Pressed) => Some(Action::Click(key)),
        (Some(Binding::HeldKey(key)), ButtonInput::Pressed) => Some(Action::KeyPress(key)),
        (Some(Binding::HeldKey(key)), ButtonInput::Released) => Some(Action::KeyRelease(key)),
        (Some(Binding::HeldButton(b)), ButtonInput::Pressed) => Some(Action::ButtonPress(b)),
        (Some(Binding::HeldButton(b)), ButtonInput::Released) => Some(Action::ButtonRelease(b)),
        (Some(Binding::Trigger(b)), ButtonInput::Level(value)) => if value >= HALF_UNIT {
            Some(Action::ButtonPress(b))
        } else {
            Some(Action::ButtonRelease(b))
        },
        _ => None,
    }
}

/// The binding of each button in the default keymap.
pub open spec fn default_binding(button: Button) -> Option<Binding> {
    match button {
        Button::LeftTrigger => Some(Binding::HeldButton(PointerButton::Back)),
        Button::LeftTrigger2 => Some(Binding::Trigger(PointerButton::Left)),
        Button::RightTrigger => Some(Binding::HeldButton(PointerButton::Forward)),
        Button::RightTrigger2 => Some(Binding::Trigger(PointerButton::Right)),
        Button::South => Some(Binding::HeldKey(Key::Return)),
        Button::DPadUp => Some(Binding::Momentary(Key::UpArrow)),
        Button::DPadRight => Some(Binding::Momentary(Key::RightArrow)),
        Button::DPadDown => Some(Binding::Momentary(Key::DownArrow)),
        Button::DPadLeft => Some(Binding::Momentary(Key::LeftArrow)),
        Button::Start => Some(Binding::HeldKey(Key::Meta)),
        _ => None,
    }
}

impl Button {
    /// The place of this button among all buttons, from zero.
    pub fn index(self) -> (i: usize)
        ensures
            i == button_index(self),
            i < BUTTON_COUNT,
    {
        match self {
            Button::South => 0,
            Button::East => 1,
            Button::North => 2,
            Button::West => 3,
            Button::C => 4,
            Button::Z => 5,
            Button::LeftTrigger => 6,
            Button::LeftTrigger2 => 7,
            Button::RightTrigger => 8,
            Button::RightTrigger2 => 9,
            Button::Select => 10,
            Button::Start => 11,
            Button::Mode => 12,
            Button::LeftThumb => 13,
            Button::RightThumb => 14,
            Button::DPadUp => 15,
            Button::DPadDown => 16,
            Button::DPadLeft => 17,
            Button::DPadRight => 18,
            Button::Unknown => 19,
        }
    }
}

/// The mapping from gamepad buttons to bindings, keyed by the place of the
/// button. A button without an entry is not mapped.
pub struct Keymap {
    pub bindings: HashMap<u64, Binding>,
}

impl Keymap {
    /// The binding of `button`, if it is mapped.
    pub open spec fn binding(self, button: Button) -> Option<Binding> {
        if self.bindings@.contains_key(button_index(button) as u64) {
            Some(self.bindings@[button_index(button) as u64])
        } else {
            None
        }
    }

    /// A keymap in which no button is mapped.
    pub fn empty() -> (keymap: Keymap)
        ensures
            forall|button: Button| #[trigger] keymap.binding(button) == None::<Binding>,
    {
        Keymap { bindings: HashMap::new() }
    }

    /// The default keymap: the shoulder buttons and triggers drive the pointer
    /// buttons, the directional pad the arrow keys, the south button Return
    /// and the start button Meta.
    pub fn default() -> (keymap: Keymap)
        ensures
            forall|button: Button| #[trigger] keymap.binding(button) == default_binding(button),
    {
        let mut keymap = Keymap::empty();
        keymap.bind(Button::LeftTrigger, Binding::HeldButton(PointerButton::Back));
        keymap.bind(Button::LeftTrigger2, Binding::Trigger(PointerButton::Left));
        keymap.bind(Button::RightTrigger, Binding::HeldButton(PointerButton::Forward));
        keymap.bind(Button::RightTrigger2, Binding::Trigger(PointerButton::Right));
        keymap.bind(Button::South, Binding::HeldKey(Key::Return));
        keymap.bind(Button::DPadUp, Binding::Momentary(Key::UpArrow));
        keymap.bind(Button::DPadRight, Binding::Momentary(Key::RightArrow));
        keymap.bind(Button::DPadDown, Binding::Momentary(Key::DownArrow));
        keymap.bind(Button::DPadLeft, Binding::Momentary(Key::LeftArrow));
        keymap.bind(Button::Start, Binding::HeldKey(Key::Meta));
        keymap
    }

    /// Maps `button` to `binding`; the other buttons keep theirs.
    pub fn bind(&mut self, button: Button, binding: Binding)
        ensures
            final(self).binding(button) == Some(binding),
            forall|other: Button|
                other != button ==> #[trigger] final(self).binding(other) == old(self).binding(
                    other,
                ),
    {
        let place: u64 = button.index() as u64;
        self.bindings.insert(place, binding);
    }

    /// The binding of `button`, if it is mapped.
    pub fn get(&self, button: Button) -> (found: Option<Binding>)
        ensures
            found == self.binding(button),
    {
        let place: u64 = button.index() as u64;
        match self.bindings.get(&place) {
            Some(binding) => Some(*binding),
            None => None,
        }
    }

    /// The action that `input` on `button` calls for under this keymap, if
    /// any.
    pub fn handle_event(&self, button: Button, input: ButtonInput) -> (action: Option<Action>)
        ensures
            action == action_for(self.binding(button), input),
    {
        match (self.get(button), input) {
            (Some(Binding::Momentary(key)), ButtonInput::Pressed) => Some(Action::Click(key)),
            (Some(Binding::HeldKey(key)), ButtonInput::Pressed) => Some(Action::KeyPress(key)),
            (Some(Binding::HeldKey(key)), ButtonInput::Released) => Some(Action::KeyRelease(key)),
            (Some(Binding::HeldButton(b)), ButtonInput::Pressed) => Some(Action::ButtonPress(b)),
            (Some(Binding::HeldButton(b)), ButtonInput::Released) => Some(Action::ButtonRelease(b)),
            (Some(Binding::Trigger(b)), ButtonInput::Level(value)) => {
                if value >= HALF_UNIT {
                    Some(Action::ButtonPress(b))
                } else {
                    Some(Action::ButtonRelease(b))
                }
            },
            _ => None,
        }
    }
}

/// The stick that drives the pointer.
#[derive(Clone, Copy, Debug, PartialEq, Eq, Structural)]
pub enum Stick {
    Left,
    Right,
}

/// The pointer axis that `axis` drives when `stick` is the pointer's stick, if
/// it drives one.
pub open spec fn pointer_axis(stick: Stick, axis: Axis) -> Option<MotionAxis> {
    match (stick, axis) {
        (Stick::Left, Axis::LeftStickX) => Some(MotionAxis::X),
        (Stick::Right, Axis::RightStickX) => Some(MotionAxis::X),
        (Stick::Left, Axis::LeftStickY) => Some(MotionAxis::Y),
        (Stick::Right, Axis::RightStickY) => Some(MotionAxis::Y),
        _ => None,
    }
}

/// The handle after a sample `value` of the pointer axis `moved`, or as it was
/// where the sample is of no pointer axis.
pub open spec fn handle_after(
    handle: MouseMoverHandle,
    moved: Option<MotionAxis>,
    value: i64,
) -> MouseMoverHandle {
    match moved {
        Some(MotionAxis::X) => MouseMoverHandle {
            last_x: normalized(value as int, handle.last_x as int) as i64,
            last_y: handle.last_y,
        },
        Some(MotionAxis::Y) => MouseMoverHandle {
            last_x: handle.last_x,
            last_y: turned(normalized(value as int, handle.last_y as int)) as i64,
        },
        None => handle,
    }
}

impl Stick {
    /// The pointer axis that `axis` drives under this stick, if any.
    pub fn axis_of(self, axis: Axis) -> (moved: Option<MotionAxis>)
        ensures
            moved == pointer_axis(self, axis),
    {
        match (self, axis) {
            (Stick::Left, Axis::LeftStickX) => Some(MotionAxis::X),
            (Stick::Right, Axis::RightStickX) => Some(MotionAxis::X),
            (Stick::Left, Axis::LeftStickY) => Some(MotionAxis::Y),
            (Stick::Right, Axis::RightStickY) => Some(MotionAxis::Y),
            _ => None,
        }
    }

    /// Feeds a sample of `axis` to the handle where the axis belongs to this
    /// stick, and returns the pair of velocities to hand over; otherwise
    /// leaves the handle as it was and returns nothing.
    pub fn handle_event(self, axis: Axis, value: i64, mouse: &mut MouseMoverHandle) -> (sent: Option<
        (i64, i64),
    >)
        ensures
            *final(mouse) == handle_after(*old(mouse), pointer_axis(self, axis), value),
            sent == match pointer_axis(self, axis) {
                Some(_) => Some((final(mouse).last_x, final(mouse).last_y)),
                None => None,
            },
    {
        match self.axis_of(axis) {
            Some(MotionAxis::X) => Some(mouse.move_x(value)),
            Some(MotionAxis::Y) => Some(mouse.move_y(value)),
            None => None,
        }
    }
}

/// An event of a gamepad.
#[derive(Clone, Copy, Debug, PartialEq, Eq, Structural)]
pub enum PadEvent {
    /// An axis moved to this value, between minus one unit and one unit.
    AxisChanged(Axis, i64),
    ButtonPressed(Button),
    ButtonReleased(Button),
    /// The analog value of a button changed to this value.
    ButtonChanged(Button, i64),
}

/// Where the router sends an event.
#[derive(Clone, Copy, Debug, PartialEq, Eq, Structural)]
pub enum Routed {
    /// The event is of another gamepad, or nothing is mapped to it.
    Ignored,
    /// The terminate button went down: shut down.
    Terminate,
    /// Synthesize this key or pointer-button action.
    Act(Action),
    /// Hand this pair of velocities to the smoother.
    Motion(i64, i64),
}

/// The button whose press ends the program.
pub open spec fn terminate_button() -> Button {
    Button::Select
}

/// The router: the selected gamepad, its keymap, the stick that drives the
/// pointer and the handle that feeds the smoother.
pub struct Config {
    pub gamepad: usize,
    pub keymap: Keymap,
    pub mouse_stick: Stick,
    pub mouse: MouseMoverHandle,
}

impl Config {
    /// Where an event `event` of gamepad `id` is sent.
    pub open spec fn routed(self, id: usize, event: PadEvent) -> Routed {
        if id != self.gamepad {
            Routed::Ignored
        } else {
            match event {
                PadEvent::ButtonPressed(button) => if button == terminate_button() {
                    Routed::Terminate
                } else {
                    routed_action(action_for(self.keymap.binding(button), ButtonInput::Pressed))
                },
                PadEvent::ButtonReleased(button) => routed_action(
                    action_for(self.keymap.binding(button), ButtonInput::Released),
                ),
                PadEvent::ButtonChanged(button, value) => routed_action(
                    action_for(self.keymap.binding(button), ButtonInput::Level(value)),
                ),
                PadEvent::AxisChanged(axis, value) => match pointer_axis(self.mouse_stick, axis) {
                    Some(moved) => {
                        let handle = handle_after(self.mouse, Some(moved), value);
                        Routed::Motion(handle.last_x, handle.last_y)
                    },
                    None => Routed::Ignored,
                },
            }
        }
    }

    /// The handle once an event `event` of gamepad `id` has been routed: only a
    /// sample of a pointer axis of the selected gamepad changes it.
    pub open spec fn mouse_after(self, id: usize, event: PadEvent) -> MouseMoverHandle {
        match event {
            PadEvent::AxisChanged(axis, value) if id == self.gamepad => handle_after(
                self.mouse,
                pointer_axis(self.mouse_stick, axis),
                value,
            ),
            _ => self.mouse,
        }
    }

    /// A router for the gamepad `gamepad_id`.
    pub fn new(
        gamepad_id: usize,
        keymap: Keymap,
        mouse_stick: Stick,
        mouse_mover_handle: MouseMoverHandle,
    ) -> (config: Config)
        ensures
            config.gamepad == gamepad_id,
            config.keymap == keymap,
            config.mouse_stick == mouse_stick,
            config.mouse == mouse_mover_handle,
    {
        Config { gamepad: gamepad_id, keymap, mouse_stick, mouse: mouse_mover_handle }
    }

    /// Routes one event of gamepad `id`: an event of another gamepad is
    /// ignored, a press of the terminate button asks for shutdown, any other
    /// button event goes through the keymap, and a sample of an axis of the
    /// pointer's stick goes through the handle.
    pub fn handle(&mut self, id: usize, event: &PadEvent) -> (routed: Routed)
        ensures
            routed == old(self).routed(id, *event),
            final(self).mouse == old(self).mouse_after(id, *event),
            final(self).gamepad == old(self).gamepad,
            final(self).keymap == old(self).keymap,
            final(self).mouse_stick == old(self).mouse_stick,
    {
        if id != self.gamepad {
            return Routed::Ignored;
        }
        match *event {
            PadEvent::ButtonPressed(button) => {
                if button == Button::Select {
                    Routed::Terminate
                } else {
                    route_action(self.keymap.handle_event(button, ButtonInput::Pressed))
                }
            },
            PadEvent::ButtonReleased(button) => route_action(
                self.keymap.handle_event(button, ButtonInput::Released),
            ),
            PadEvent::ButtonChanged(button, value) => route_action(
                self.keymap.handle_event(button, ButtonInput::Level(value)),
            ),
            PadEvent::AxisChanged(axis, value) => {
                match self.mouse_stick.handle_event(axis, value, &mut self.mouse) {
                    Some((x, y)) => Routed::Motion(x, y),
                    None => Routed::Ignored,
                }
            },
        }
    }
}

/// Where the outcome of the keymap is sent: an action to the synthesizer,
/// none nowhere.
pub open spec fn routed_action(action: Option<Action>) -> Routed {
    match action {
        Some(a) => Routed::Act(a),
        None => Routed::Ignored,
    }
}

fn route_action(action: Option<Action>) -> (routed: Routed)
    ensures
        routed == routed_action(action),
{
    match action {
        Some(a) => Routed::Act(a),
        None => Routed::Ignored,
    }
}

/// A momentary button that goes down and comes up again gives exactly one
/// press-and-release of its key: the press gives the click, the release
/// gives nothing, and no analog value of the button gives anything.
pub proof fn lemma_momentary_clicks_once(key: Key, value: i64)
    ensures
        action_for(Some(Binding::Momentary(key)), ButtonInput::Pressed) == Some(Action::Click(key)),
        action_for(Some(Binding::Momentary(key)), ButtonInput::Released) == None::<Action>,
        action_for(Some(Binding::Momentary(key)), ButtonInput::Level(value)) == None::<Action>,
{
}

/// A trigger presses its pointer button exactly from half a unit up, and
/// releases it below.
pub proof fn lemma_trigger_threshold(button: PointerButton, value: i64)
    ensures
        action_for(Some(Binding::Trigger(button)), ButtonInput::Level(value)) == Some(
            Action::ButtonPress(button),
        ) <==> value >= HALF_UNIT,
        action_for(Some(Binding::Trigger(button)), ButtonInput::Level(value)) == Some(
            Action::ButtonRelease(button),
        ) <==> value < HALF_UNIT,
{
}

/// An unmapped button calls for no action, whatever it reports.
pub proof fn lemma_unmapped_is_ignored(input: ButtonInput)
    ensures
        action_for(None, input) == None::<Action>,
{
}

/// Deadzone at the router: a sample of a pointer axis whose magnitude is under
/// the low threshold hands a zero for that axis to the smoother, whatever was
/// handed over before, and leaves the other axis as it was.
pub proof fn lemma_router_deadzone(config: Config, axis: Axis, value: i64)
    requires
        magnitude(value as int) < DEADZONE_LOW,
    ensures
        pointer_axis(config.mouse_stick, axis) == Some(MotionAxis::X) ==> config.routed(
            config.gamepad,
            PadEvent::AxisChanged(axis, value),
        ) == Routed::Motion(0, config.mouse.last_y),
        pointer_axis(config.mouse_stick, axis) == Some(MotionAxis::Y) ==> config.routed(
            config.gamepad,
            PadEvent::AxisChanged(axis, value),
        ) == Routed::Motion(config.mouse.last_x, 0),
{
}

/// An event of a gamepad other than the selected one changes nothing and is
/// sent nowhere.
pub proof fn lemma_other_gamepad_ignored(config: Config, id: usize, event: PadEvent)
    requires
        id != config.gamepad,
    ensures
        config.routed(id, event) == Routed::Ignored,
        config.mouse_after(id, event) == config.mouse,
{
}

/// Shutdown comes from one event only: a press of the terminate button on the
/// selected gamepad.
pub proof fn lemma_only_terminate_button_terminates(config: Config, id: usize, event: PadEvent)
    ensures
        config.routed(id, event) == Routed::Terminate <==> id == config.gamepad && event
            == PadEvent::ButtonPressed(terminate_button()),
{
}

} // verus!
