//! The window options record and the calls on the window that it stands for.

use vstd::prelude::*;

verus! {

/// What the application wants of its window. Applied once per frame.
#[derive(Clone, Copy, PartialEq, Eq, Structural, Debug)]
pub struct WindowOptions {
    pub fullscreen: bool,
    pub grab_cursor: bool,
    pub show_cursor: bool,
}

/// How the window fills the screen.
#[derive(Clone, Copy, PartialEq, Eq, Structural, Debug)]
pub enum FullscreenMode {
    /// Borderless fullscreen on the window's current monitor.
    Borderless,
    /// An ordinary window.
    Windowed,
}

/// How the cursor is held.
#[derive(Clone, Copy, PartialEq, Eq, Structural, Debug)]
pub enum CursorGrab {
    /// The cursor is locked in place and reports motion only.
    Locked,
    /// The cursor moves freely.
    Free,
}

/// One call on the window.
#[derive(Clone, Copy, PartialEq, Eq, Structural, Debug)]
pub enum WindowCommand {
    SetFullscreen(FullscreenMode),
    /// A window that cannot grab the cursor ignores this.
    SetCursorGrab(CursorGrab),
    SetCursorVisible(bool),
}

impl WindowOptions {
    /// Fullscreen, with the cursor grabbed and hidden.
    pub open spec fn spec_default() -> WindowOptions {
        WindowOptions { fullscreen: true, grab_cursor: true, show_cursor: false }
    }

    /// The calls that bring a window in line with these options, in the order
    /// in which they are made.
    pub open spec fn spec_commands(self) -> Seq<WindowCommand> {
        seq![
            WindowCommand::SetFullscreen(
                if self.fullscreen {
                    FullscreenMode::Borderless
                } else {
                    FullscreenMode::Windowed
                },
            ),
            WindowCommand::SetCursorGrab(
                if self.grab_cursor {
                    CursorGrab::Locked
                } else {
                    CursorGrab::Free
                },
            ),
            WindowCommand::SetCursorVisible(self.show_cursor),
        ]
    }

    /// The default options.
    pub fn new() -> (options: Self)
        ensures
            options == WindowOptions::spec_default(),
    {
        WindowOptions { fullscreen: true, grab_cursor: true, show_cursor: false }
    }

    /// The calls that bring a window in line with these options: fullscreen
    /// mode first, then the cursor grab, then the cursor's visibility.
    pub fn apply_to(&self) -> (commands: [WindowCommand; 3])
        ensures
            commands@ == self.spec_commands(),
    {
        broadcast use vstd::array::group_array_axioms;

        let fullscreen = if self.fullscreen {
            FullscreenMode::Borderless
        } else {
            FullscreenMode::Windowed
        };
        let grab = if self.grab_cursor {
            CursorGrab::Locked
        } else {
            CursorGrab::Free
        };
        let commands = [
            WindowCommand::SetFullscreen(fullscreen),
            WindowCommand::SetCursorGrab(grab),
            WindowCommand::SetCursorVisible(self.show_cursor),
        ];
        assert(commands@ =~= self.spec_commands());
        commands
    }

    /// Replaces all options at once.
    pub fn set_options(&mut self, options: Self)
        ensures
            *final(self) == options,
    {
        *self = options;
    }

    /// Sets whether the cursor is grabbed and leaves the rest as it was.
    pub fn set_cursor_grab(&mut self, grab: bool)
        ensures
            *final(self) == (WindowOptions { grab_cursor: grab, ..*old(self) }),
    {
        self.grab_cursor = grab;
    }

    /// Applying the same options twice makes the same calls: nothing depends
    /// on what was applied before.
    pub proof fn commands_depend_on_options_only(a: WindowOptions, b: WindowOptions)
        ensures
            a == b <==> a.spec_commands() == b.spec_commands(),
    {
        if a.spec_commands() == b.spec_commands() {
            assert(a.spec_commands()[0] == b.spec_commands()[0]);
            assert(a.spec_commands()[1] == b.spec_commands()[1]);
            assert(a.spec_commands()[2] == b.spec_commands()[2]);
        }
    }
}

impl Default for WindowOptions {
    fn default() -> (options: Self)
        ensures
            options == WindowOptions::spec_default(),
    {
        WindowOptions::new()
    }
}

} // verus!
