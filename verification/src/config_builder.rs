//! Building a router for the first connected gamepad.

use vstd::prelude::*;
use crate::config::{default_binding, Button, Config, Keymap, Stick};
use crate::mouse::MouseMoverHandle;

verus! {

/// What is known of one gamepad: its identifier and whether it is connected.
#[derive(Clone, Copy, Debug, PartialEq, Eq, Structural)]
pub struct GamepadInfo {
    pub id: usize,
    pub connected: bool,
}

/// `i` is the place of the first connected gamepad in `gamepads`.
pub open spec fn is_first_connected(gamepads: Seq<GamepadInfo>, i: int) -> bool {
    &&& 0 <= i < gamepads.len()
    &&& gamepads[i].connected
    &&& forall|j: int| 0 <= j < i ==> !gamepads[j].connected
}

/// The parts of a router that are chosen before it runs.
pub struct ConfigBuilder {
    pub gamepad: usize,
    pub keymap: Keymap,
    /// The stick that drives the pointer.
    pub mouse_stick: Stick,
}

impl ConfigBuilder {
    /// A builder with the default keymap and the left stick for the first
    /// connected gamepad of `gamepads`; none where no gamepad is connected.
    pub fn default(gamepads: &Vec<GamepadInfo>) -> (builder: Option<ConfigBuilder>)
        ensures
            builder is None <==> forall|i: int| 0 <= i < gamepads@.len() ==> !gamepads@[i].connected,
            match builder {
                Some(b) => {
                    &&& exists|i: int|
                        is_first_connected(gamepads@, i) && b.gamepad == gamepads@[i].id
                    &&& b.mouse_stick == Stick::Left
                    &&& forall|button: Button| #[trigger]
                        b.keymap.binding(button) == default_binding(button)
                },
                None => true,
            },
    {
        let mut i: usize = 0;
        while i < gamepads.len()
            invariant
                i <= gamepads@.len(),
                forall|j: int| 0 <= j < i ==> !gamepads@[j].connected,
            decreases gamepads@.len() - i,
        {
            if gamepads[i].connected {
                assert(is_first_connected(gamepads@, i as int));
                return Some(
                    ConfigBuilder {
                        gamepad: gamepads[i].id,
                        keymap: Keymap::default(),
                        mouse_stick: Stick::Left,
                    },
                );
            }
            i = i + 1;
        }
        None
    }

    /// The router that this builder describes, with a handle that has handed
    /// over nothing yet.
    pub fn build(self) -> (config: Config)
        ensures
            config.gamepad == self.gamepad,
            config.keymap == self.keymap,
            config.mouse_stick == self.mouse_stick,
            config.mouse.last_x == 0,
            config.mouse.last_y == 0,
    {
        Config::new(self.gamepad, self.keymap, self.mouse_stick, MouseMoverHandle::new())
    }
}

} // verus!
