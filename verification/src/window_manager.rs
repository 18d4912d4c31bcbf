//! Window behaviour and state: geometry, always-on-top, focus mode,
//! maximize, and a bounded history of window positions. Loading and saving
//! the state file, and moving the real window, is the host's job; it hands
//! loaded state in and reads the state to persist back out.

use vstd::prelude::*;

verus! {

/// Persisted window geometry and flags.
#[derive(Clone, Copy, Debug, PartialEq, Eq, Structural)]
pub struct WindowState {
    pub width: i32,
    pub height: i32,
    pub x: i32,
    pub y: i32,
    pub maximized: bool,
    pub always_on_top: bool,
    pub focus_mode: bool,
}

impl Default for WindowState {
    /// 1200x800, centered (x and y of -1), all flags off.
    fn default() -> (r: Self)
        ensures
            r == (WindowState {
                width: 1200,
                height: 800,
                x: -1i32,
                y: -1i32,
                maximized: false,
                always_on_top: false,
                focus_mode: false,
            }),
    {
        WindowState {
            width: 1200,
            height: 800,
            x: -1,
            y: -1,
            maximized: false,
            always_on_top: false,
            focus_mode: false,
        }
    }
}

/// One remembered window position.
#[derive(Clone, Copy, Debug, PartialEq, Eq, Structural)]
pub struct PositionHistory {
    pub timestamp: u64,
    pub x: i32,
    pub y: i32,
}

/// How many positions the history keeps.
pub const POSITION_HISTORY_LIMIT: usize = 100;

/// Owns the window state and the bounded position history.
pub struct WindowManager {
    pub window_state: WindowState,
    pub default_window_state: WindowState,
    pub saved_positions: Vec<PositionHistory>,
}

impl WindowManager {
    /// A manager starting from the default window state.
    pub fn new() -> (r: Self)
        ensures
            r.window_state == WindowState::default_spec(),
            r.default_window_state == WindowState::default_spec(),
            r.saved_positions@.len() == 0,
    {
        WindowManager {
            window_state: WindowState::default(),
            default_window_state: WindowState::default(),
            saved_positions: Vec::new(),
        }
    }

    /// Seeds the manager from a state the host loaded from disk.
    pub fn restore_window_state(&mut self, state: WindowState) -> (r: WindowState)
        ensures
            final(self).window_state == state,
            final(self).default_window_state == state,
            final(self).saved_positions@.len() == 0,
            r == state,
    {
        self.window_state = state;
        self.default_window_state = state;
        self.saved_positions = Vec::new();
        state
    }

    /// Replaces the window state, keeping history and defaults.
    pub fn update_window_state(&mut self, update: WindowState)
        ensures
            final(self).window_state == update,
            final(self).default_window_state == old(self).default_window_state,
            final(self).saved_positions == old(self).saved_positions,
    {
        self.window_state = update;
    }

    /// Flips always-on-top and reports the new value.
    pub fn toggle_always_on_top(&mut self) -> (r: bool)
        ensures
            r == !old(self).window_state.always_on_top,
            final(self).window_state == (WindowState {
                always_on_top: r,
                ..old(self).window_state
            }),
            final(self).default_window_state == old(self).default_window_state,
            final(self).saved_positions == old(self).saved_positions,
    {
        let new_value = !self.window_state.always_on_top;
        self.window_state.always_on_top = new_value;
        new_value
    }

    /// Sets always-on-top.
    pub fn set_always_on_top(&mut self, enabled: bool)
        ensures
            final(self).window_state == (WindowState {
                always_on_top: enabled,
                ..old(self).window_state
            }),
            final(self).default_window_state == old(self).default_window_state,
            final(self).saved_positions == old(self).saved_positions,
    {
        self.window_state.always_on_top = enabled;
    }

    /// Whether the window is always on top.
    pub fn is_always_on_top(&self) -> (r: bool)
        ensures
            r == self.window_state.always_on_top,
    {
        self.window_state.always_on_top
    }

    /// Flips focus mode and reports the new value.
    pub fn toggle_focus_mode(&mut self) -> (r: bool)
        ensures
            r == !old(self).window_state.focus_mode,
            final(self).window_state == (WindowState { focus_mode: r, ..old(self).window_state }),
            final(self).default_window_state == old(self).default_window_state,
            final(self).saved_positions == old(self).saved_positions,
    {
        let new_value = !self.window_state.focus_mode;
        self.window_state.focus_mode = new_value;
        new_value
    }

    /// Sets focus mode.
    pub fn set_focus_mode(&mut self, enabled: bool)
        ensures
            final(self).window_state == (WindowState {
                focus_mode: enabled,
                ..old(self).window_state
            }),
            final(self).default_window_state == old(self).default_window_state,
            final(self).saved_positions == old(self).saved_positions,
    {
        self.window_state.focus_mode = enabled;
    }

    /// Whether focus mode is on.
    pub fn is_in_focus_mode(&self) -> (r: bool)
        ensures
            r == self.window_state.focus_mode,
    {
        self.window_state.focus_mode
    }

    /// Flips the maximize flag and reports the new value.
    pub fn toggle_maximize(&mut self) -> (r: bool)
        ensures
            r == !old(self).window_state.maximized,
            final(self).window_state == (WindowState { maximized: r, ..old(self).window_state }),
            final(self).default_window_state == old(self).default_window_state,
            final(self).saved_positions == old(self).saved_positions,
    {
        let new_value = !self.window_state.maximized;
        self.window_state.maximized = new_value;
        new_value
    }

    /// Sets the maximize flag.
    pub fn set_maximized(&mut self, maximized: bool)
        ensures
            final(self).window_state == (WindowState {
                maximized: maximized,
                ..old(self).window_state
            }),
            final(self).default_window_state == old(self).default_window_state,
            final(self).saved_positions == old(self).saved_positions,
    {
        self.window_state.maximized = maximized;
    }

    /// Whether the window is maximized.
    pub fn is_maximized(&self) -> (r: bool)
        ensures
            r == self.window_state.maximized,
    {
        self.window_state.maximized
    }

    /// Moves the window and remembers the position, keeping only the most
    /// recent `POSITION_HISTORY_LIMIT` positions.
    pub fn set_position(&mut self, x: i32, y: i32, timestamp: u64)
        ensures
            final(self).window_state == (WindowState { x: x, y: y, ..old(self).window_state }),
            final(self).default_window_state == old(self).default_window_state,
            ({
                let full = old(self).saved_positions@.push(
                    PositionHistory { timestamp, x, y },
                );
                final(self).saved_positions@ == if full.len() <= POSITION_HISTORY_LIMIT as int {
                    full
                } else {
                    full.skip(full.len() - POSITION_HISTORY_LIMIT as int)
                }
            }),
    {
        self.window_state.x = x;
        self.window_state.y = y;
        self.saved_positions.push(PositionHistory { timestamp, x, y });
        proof {
            assert(self.saved_positions@.skip(0) =~= self.saved_positions@);
        }
        let ghost full = self.saved_positions@;
        let ghost mut dropped: int = 0;
        while self.saved_positions.len() > POSITION_HISTORY_LIMIT
            invariant
                0 <= dropped <= full.len(),
                self.saved_positions@ == full.skip(dropped),
                dropped > 0 ==> full.len() - dropped >= POSITION_HISTORY_LIMIT as int,
                self.window_state == (WindowState { x: x, y: y, ..old(self).window_state }),
                self.default_window_state == old(self).default_window_state,
            decreases self.saved_positions@.len(),
        {
            self.saved_positions.remove(0);
            proof {
                dropped = dropped + 1;
                assert(full.skip(dropped - 1).remove(0) =~= full.skip(dropped));
            }
        }
        proof {
            if full.len() <= POSITION_HISTORY_LIMIT as int {
                assert(dropped == 0);
                assert(full.skip(0) =~= full);
            }
        }
    }

    /// Resizes the window.
    pub fn set_size(&mut self, width: i32, height: i32)
        ensures
            final(self).window_state == (WindowState {
                width: width,
                height: height,
                ..old(self).window_state
            }),
            final(self).default_window_state == old(self).default_window_state,
            final(self).saved_positions == old(self).saved_positions,
    {
        self.window_state.width = width;
        self.window_state.height = height;
    }

    /// The current window state; also what the host persists.
    pub fn get_window_state(&self) -> (r: WindowState)
        ensures
            r == self.window_state,
    {
        self.window_state
    }

    /// Resets everything to the built-in default state.
    pub fn reset_to_default(&mut self) -> (r: WindowState)
        ensures
            r == WindowState::default_spec(),
            final(self).window_state == r,
            final(self).default_window_state == r,
            final(self).saved_positions@.len() == 0,
    {
        let default = WindowState::default();
        self.window_state = default;
        self.default_window_state = default;
        self.saved_positions = Vec::new();
        default
    }
}

impl WindowState {
    /// The default window state, for use in contracts.
    pub open spec fn default_spec() -> WindowState {
        WindowState {
            width: 1200,
            height: 800,
            x: -1i32,
            y: -1i32,
            maximized: false,
            always_on_top: false,
            focus_mode: false,
        }
    }
}

} // verus!
