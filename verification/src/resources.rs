use vstd::prelude::*;

verus! {

/// Whether a key or button went down or came up.
#[derive(Clone, Copy, Debug, PartialEq, Eq, Structural)]
pub enum ElementState {
    Pressed,
    Released,
}

/// A key of the keyboard: the keys the engine itself reacts to, and every
/// other key by its code.
#[derive(Clone, Copy, Debug, PartialEq, Eq, Structural)]
pub enum KeyCode {
    W,
    A,
    S,
    D,
    Up,
    Down,
    Left,
    Right,
    Space,
    LShift,
    Escape,
    Other(u32),
}

/// A button of the mouse.
#[derive(Clone, Copy, Debug, PartialEq, Eq, Structural)]
pub enum MouseButton {
    Left,
    Right,
    Middle,
    Other(u16),
}

/// Where a mouse button stands within the current frame.
#[derive(Clone, Copy, Debug, PartialEq, Eq, Structural)]
pub enum MouseClickType {
    /// Went down during this frame.
    Clicked,
    /// Went down in an earlier frame and has not come up.
    Held,
    /// Came up during this frame.
    Released,
    /// Is up.
    NotHeld,
}

impl MouseClickType {
    /// What a button event makes of a button: pressed, it counts as
    /// clicked; anything else, as released.
    pub open spec fn after(state: ElementState) -> MouseClickType {
        if state == ElementState::Pressed {
            MouseClickType::Clicked
        } else {
            MouseClickType::Released
        }
    }

    /// What a button's state is one frame later, if no event touches it: a
    /// click turns into a hold, a release into not held.
    pub open spec fn aged(self) -> MouseClickType {
        match self {
            MouseClickType::Clicked => MouseClickType::Held,
            MouseClickType::Released => MouseClickType::NotHeld,
            other => other,
        }
    }

    /// Whether the state changes from one frame to the next.
    pub open spec fn ages(self) -> bool {
        self == MouseClickType::Clicked || self == MouseClickType::Released
    }
}

/// The input the window received, as gameplay code sees it.
///
/// Positions, the aspect ratio and the ray direction are IEEE-754
/// single-precision bit patterns.
#[derive(Debug)]
pub struct WindowEvents {
    /// The key events of the current frame, oldest first.
    pub keys_pressed: Vec<(KeyCode, ElementState)>,
    pub screen_mouse_pos: [u32; 2],
    pub world_mouse_pos: [u32; 2],
    pub left_mouse: MouseClickType,
    pub right_mouse: MouseClickType,
    pub middle_mouse: MouseClickType,
    pub aspect_ratio: u32,
    pub mouse_ray_direction: [u32; 3],
}

/// The state that the first event of `key` in `keys` reports, if there is one.
pub open spec fn first_event(keys: Seq<(KeyCode, ElementState)>, key: KeyCode) -> Option<
    ElementState,
>
    decreases keys.len(),
{
    if keys.len() == 0 {
        None
    } else if keys[0].0 == key {
        Some(keys[0].1)
    } else {
        first_event(keys.drop_first(), key)
    }
}

/// The left button's state after a frame ends.
///
/// The left button ages; then, where the right button's state ages, the
/// left button takes the right button's aged state, and likewise for the
/// middle button after it.
pub open spec fn left_after_frame(
    left: MouseClickType,
    right: MouseClickType,
    middle: MouseClickType,
) -> MouseClickType {
    if middle.ages() {
        middle.aged()
    } else if right.ages() {
        right.aged()
    } else {
        left.aged()
    }
}

impl WindowEvents {
    /// Whether `key` counts as pressed in this frame.
    ///
    /// Only the frame's first event of `key` is looked at. Without a
    /// `press_type` any event of the key counts; with one, the first event
    /// must report that state.
    pub open spec fn key_pressed(self, key: KeyCode, press_type: Option<ElementState>) -> bool {
        match first_event(self.keys_pressed@, key) {
            None => false,
            Some(state) => press_type is None || press_type == Some(state),
        }
    }

    /// Whether `key` counts as pressed in this frame.
    pub fn is_key_pressed(&self, key: KeyCode, press_type: Option<ElementState>) -> (pressed: bool)
        ensures
            pressed == self.key_pressed(key, press_type),
    {
        let mut i: usize = 0;
        assert(self.keys_pressed@.skip(0) =~= self.keys_pressed@);
        while i < self.keys_pressed.len()
            invariant
                i <= self.keys_pressed@.len(),
                first_event(self.keys_pressed@, key) == first_event(
                    self.keys_pressed@.skip(i as int),
                    key,
                ),
            decreases self.keys_pressed@.len() - i,
        {
            let (key_pressed, pressed_type) = self.keys_pressed[i];
            proof {
                let rest = self.keys_pressed@.skip(i as int);
                assert(rest[0] == self.keys_pressed@[i as int]);
                assert(rest.drop_first() =~= self.keys_pressed@.skip(i + 1));
            }
            if key_pressed == key {
                return match press_type {
                    None => true,
                    Some(wanted) => pressed_type == wanted,
                };
            }
            i += 1;
        }
        false
    }

    /// Whether the left button went down during this frame.
    pub fn left_clicked(&self) -> (clicked: bool)
        ensures
            clicked == (self.left_mouse == MouseClickType::Clicked),
    {
        match self.left_mouse {
            MouseClickType::Clicked => true,
            _ => false,
        }
    }

    /// Whether the left button has been down since an earlier frame.
    pub fn left_held(&self) -> (held: bool)
        ensures
            held == (self.left_mouse == MouseClickType::Held),
    {
        match self.left_mouse {
            MouseClickType::Held => true,
            _ => false,
        }
    }

    /// Ends the frame: forgets its key events and ages the left button.
    /// The right and middle buttons keep their state.
    pub fn next_frame(&mut self)
        ensures
            final(self).keys_pressed@ == Seq::<(KeyCode, ElementState)>::empty(),
            final(self).left_mouse == left_after_frame(
                old(self).left_mouse,
                old(self).right_mouse,
                old(self).middle_mouse,
            ),
            final(self).right_mouse == old(self).right_mouse,
            final(self).middle_mouse == old(self).middle_mouse,
            final(self).screen_mouse_pos == old(self).screen_mouse_pos,
            final(self).world_mouse_pos == old(self).world_mouse_pos,
            final(self).aspect_ratio == old(self).aspect_ratio,
            final(self).mouse_ray_direction == old(self).mouse_ray_direction,
    {
        self.keys_pressed = Vec::new();
        match self.left_mouse {
            MouseClickType::Clicked => self.left_mouse = MouseClickType::Held,
            MouseClickType::Released => self.left_mouse = MouseClickType::NotHeld,
            _ => {},
        }
        match self.right_mouse {
            MouseClickType::Clicked => self.left_mouse = MouseClickType::Held,
            MouseClickType::Released => self.left_mouse = MouseClickType::NotHeld,
            _ => {},
        }
        match self.middle_mouse {
            MouseClickType::Clicked => self.left_mouse = MouseClickType::Held,
            MouseClickType::Released => self.left_mouse = MouseClickType::NotHeld,
            _ => {},
        }
    }

    /// Records a key event of the current frame.
    pub fn key_input(&mut self, key: KeyCode, state: ElementState)
        ensures
            final(self).keys_pressed@ == old(self).keys_pressed@.push((key, state)),
            final(self).left_mouse == old(self).left_mouse,
            final(self).right_mouse == old(self).right_mouse,
            final(self).middle_mouse == old(self).middle_mouse,
            final(self).screen_mouse_pos == old(self).screen_mouse_pos,
            final(self).world_mouse_pos == old(self).world_mouse_pos,
            final(self).aspect_ratio == old(self).aspect_ratio,
            final(self).mouse_ray_direction == old(self).mouse_ray_direction,
    {
        self.keys_pressed.push((key, state));
    }

    /// Records a mouse button event: the left, right or middle button
    /// counts as clicked when pressed and as released otherwise; other
    /// buttons are ignored.
    pub fn mouse_input(&mut self, button: MouseButton, state: ElementState)
        ensures
            final(self).left_mouse == if button == MouseButton::Left {
                MouseClickType::after(state)
            } else {
                old(self).left_mouse
            },
            final(self).right_mouse == if button == MouseButton::Right {
                MouseClickType::after(state)
            } else {
                old(self).right_mouse
            },
            final(self).middle_mouse == if button == MouseButton::Middle {
                MouseClickType::after(state)
            } else {
                old(self).middle_mouse
            },
            final(self).keys_pressed == old(self).keys_pressed,
            final(self).screen_mouse_pos == old(self).screen_mouse_pos,
            final(self).world_mouse_pos == old(self).world_mouse_pos,
            final(self).aspect_ratio == old(self).aspect_ratio,
            final(self).mouse_ray_direction == old(self).mouse_ray_direction,
    {
        let click = match state {
            ElementState::Pressed => MouseClickType::Clicked,
            ElementState::Released => MouseClickType::Released,
        };
        match button {
            MouseButton::Left => self.left_mouse = click,
            MouseButton::Right => self.right_mouse = click,
            MouseButton::Middle => self.middle_mouse = click,
            MouseButton::Other(_) => {},
        }
    }
}

/// Nanoseconds in a second.
pub const NANOS_PER_SECOND: i128 = 1_000_000_000;

/// The least number of nanoseconds a timer can have left: a second count
/// of `i64::MIN` and 999,999,999 nanoseconds below it.
pub const MIN_TIME_LEFT: i128 = -9_223_372_036_854_775_808_999_999_999;

/// Counts a span of time down, below zero if it is ticked further.
#[derive(Clone, Copy, Debug, PartialEq, Eq, Structural)]
pub struct Timer {
    /// Nanoseconds left; zero or less once the timer has run out.
    pub time_left: i128,
}

impl Timer {
    /// The nanoseconds in a span of whole seconds and nanoseconds.
    pub open spec fn nanos(secs: int, subsec_nanos: int) -> int {
        secs * NANOS_PER_SECOND + subsec_nanos
    }

    /// A second count read as a signed 64-bit number: counts above
    /// `i64::MAX` wrap around to the negative ones.
    pub open spec fn signed(secs: u64) -> int {
        if secs <= i64::MAX {
            secs as int
        } else {
            secs - 0x1_0000_0000_0000_0000
        }
    }

    /// Whether the timer can be ticked by the given span: the span's
    /// seconds fit a signed 64-bit number and the time left stays in range.
    pub open spec fn can_tick(self, secs: u64, subsec_nanos: u32) -> bool {
        secs <= i64::MAX && self.time_left - Timer::nanos(secs as int, subsec_nanos as int)
            >= MIN_TIME_LEFT
    }

    /// Whether the time has run out.
    pub fn finished(&self) -> (done: bool)
        ensures
            done == (self.time_left <= 0),
    {
        self.time_left <= 0
    }

    /// Takes a span of `secs` seconds and `subsec_nanos` nanoseconds off
    /// the time left.
    pub fn tick(&mut self, secs: u64, subsec_nanos: u32)
        requires
            old(self).can_tick(secs, subsec_nanos),
        ensures
            final(self).time_left == old(self).time_left - Timer::nanos(
                secs as int,
                subsec_nanos as int,
            ),
    {
        let delta: i128 = secs as i128 * NANOS_PER_SECOND + subsec_nanos as i128;
        self.time_left = self.time_left - delta;
    }

    /// Ticks if the timer can be ticked by the given span, and says
    /// whether it did; otherwise the timer is left as it was.
    pub fn try_tick(&mut self, secs: u64, subsec_nanos: u32) -> (ticked: bool)
        ensures
            ticked == old(self).can_tick(secs, subsec_nanos),
            ticked ==> final(self).time_left == old(self).time_left - Timer::nanos(
                secs as int,
                subsec_nanos as int,
            ),
            !ticked ==> *final(self) == *old(self),
    {
        if secs > i64::MAX as u64 {
            return false;
        }
        let delta: i128 = secs as i128 * NANOS_PER_SECOND + subsec_nanos as i128;
        if self.time_left < MIN_TIME_LEFT + delta {
            return false;
        }
        self.tick(secs, subsec_nanos);
        true
    }

    /// A timer over a span of `secs` seconds and `subsec_nanos`
    /// nanoseconds, the seconds read as a signed 64-bit number.
    pub fn new(secs: u64, subsec_nanos: u32) -> (timer: Timer)
        ensures
            timer.time_left == Timer::nanos(Timer::signed(secs), subsec_nanos as int),
    {
        let seconds: i128 = if secs <= i64::MAX as u64 {
            secs as i128
        } else {
            secs as i128 - 0x1_0000_0000_0000_0000
        };
        Timer { time_left: seconds * NANOS_PER_SECOND + subsec_nanos as i128 }
    }
}

} // verus!
