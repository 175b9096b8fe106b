use vstd::prelude::*;

verus! {

/// Which screen the user is on.
#[derive(Clone, Copy, PartialEq, Eq, Structural, Debug)]
pub enum Screen {
    Forecast,
    Menu,
    Hourly,
    Options,
}

/// A key press as the state machine reads it: a printable character, the
/// enter key, or anything it does not react to.
#[derive(Clone, Copy, PartialEq, Eq, Structural, Debug)]
pub enum InputKey {
    Char(char),
    Enter,
    Other,
}

/// What the frame driver does after a key is handled: draw the next frame,
/// or exit the program.
#[derive(Clone, Copy, PartialEq, Eq, Structural, Debug)]
pub enum Transition {
    Continue,
    Quit,
}

/// The number of entries in the menu list.
pub const MENU_LEN: usize = 3;

/// The state the main loop owns: the current screen and, for the menu, the
/// selection cursor. The cursor is unset only before a first selection is
/// made; it always stays inside the menu list.
#[derive(Clone, Copy, PartialEq, Eq, Debug)]
pub struct AppState {
    pub screen: Screen,
    pub cursor: Option<usize>,
}

/// Moving the menu selection down: one step forward, wrapping modulo the
/// menu length; with no selection yet, the first entry is selected.
pub open spec fn menu_down(cursor: Option<usize>) -> Option<usize> {
    match cursor {
        Some(i) => Some(((i as int + 1) % 3) as usize),
        None => Some(0usize),
    }
}

/// Moving the menu selection up: one step back, wrapping modulo the menu
/// length; with no selection yet, the last entry is selected.
pub open spec fn menu_up(cursor: Option<usize>) -> Option<usize> {
    match cursor {
        Some(i) => if i == 0 {
            Some(2usize)
        } else {
            Some((i - 1) as usize)
        },
        None => Some(2usize),
    }
}

/// The screen the enter key moves to from the menu: the screens in menu
/// order, with an out-of-range cursor falling back to the forecast screen
/// and no selection leaving the screen as it is.
pub open spec fn menu_target(cursor: Option<usize>, current: Screen) -> Screen {
    match cursor {
        Some(i) => if i == 1 {
            Screen::Hourly
        } else if i == 2 {
            Screen::Options
        } else {
            Screen::Forecast
        },
        None => current,
    }
}

/// Whether a key press asks the program to quit; it does so from every
/// screen.
pub open spec fn is_quit_key(key: InputKey) -> bool {
    key == InputKey::Char('q')
}

/// The transition table of the screen state machine: the state after one key
/// press. Every key the table does not name leaves the state unchanged.
pub open spec fn next_state(s: AppState, key: InputKey) -> AppState {
    match s.screen {
        Screen::Forecast => if key == InputKey::Char('m') {
            AppState { screen: Screen::Menu, ..s }
        } else {
            s
        },
        Screen::Menu => if key == InputKey::Char('j') {
            AppState { cursor: menu_down(s.cursor), ..s }
        } else if key == InputKey::Char('k') {
            AppState { cursor: menu_up(s.cursor), ..s }
        } else if key == InputKey::Enter {
            AppState { screen: menu_target(s.cursor, s.screen), ..s }
        } else {
            s
        },
        Screen::Hourly => s,
        Screen::Options => s,
    }
}

impl AppState {
    /// The selection cursor, when set, points at a menu entry.
    pub open spec fn wf(self) -> bool {
        match self.cursor {
            Some(i) => i < MENU_LEN,
            None => true,
        }
    }

    /// The state the dashboard starts in: the forecast screen, with the
    /// first menu entry selected.
    pub fn new() -> (s: AppState)
        ensures
            s == (AppState { screen: Screen::Forecast, cursor: Some(0usize) }),
            s.wf(),
    {
        AppState { screen: Screen::Forecast, cursor: Some(0) }
    }

    /// Interprets one key press: steps to the next state of the transition
    /// table and says whether the program is to quit. Quitting never changes
    /// the state.
    pub fn handle_key(&mut self, key: InputKey) -> (t: Transition)
        requires
            old(self).wf(),
        ensures
            *final(self) == next_state(*old(self), key),
            t == Transition::Quit <==> is_quit_key(key),
            final(self).wf(),
    {
        match key {
            InputKey::Char(c) => {
                if c == 'q' {
                    return Transition::Quit;
                }
                match self.screen {
                    Screen::Forecast => {
                        if c == 'm' {
                            self.screen = Screen::Menu;
                        }
                    },
                    Screen::Menu => {
                        if c == 'j' {
                            self.cursor = match self.cursor {
                                Some(i) => Some((i + 1) % MENU_LEN),
                                None => Some(0),
                            };
                        } else if c == 'k' {
                            self.cursor = match self.cursor {
                                Some(i) => if i == 0 {
                                    Some(MENU_LEN - 1)
                                } else {
                                    Some(i - 1)
                                },
                                None => Some(MENU_LEN - 1),
                            };
                        }
                    },
                    Screen::Hourly => {},
                    Screen::Options => {},
                }
                Transition::Continue
            },
            InputKey::Enter => {
                match self.screen {
                    Screen::Menu => {
                        match self.cursor {
                            Some(i) => {
                                self.screen = if i == 1 {
                                    Screen::Hourly
                                } else if i == 2 {
                                    Screen::Options
                                } else {
                                    Screen::Forecast
                                };
                            },
                            None => {},
                        }
                    },
                    _ => {},
                }
                Transition::Continue
            },
            InputKey::Other => Transition::Continue,
        }
    }
}

/// Quit is reachable and terminal from every state: the `q` key signals
/// termination and has no other effect on the state.
pub proof fn lemma_quit_from_every_state(s: AppState)
    ensures
        is_quit_key(InputKey::Char('q')),
        next_state(s, InputKey::Char('q')) == s,
{
}

/// Menu cursor wraparound: moving the selection down three times returns it
/// to where it began, and moving up from the top entry wraps to the bottom
/// one.
pub proof fn lemma_menu_cursor_wraparound(s: AppState)
    requires
        s.wf(),
        s.screen == Screen::Menu,
        s.cursor is Some,
    ensures
        next_state(
            next_state(next_state(s, InputKey::Char('j')), InputKey::Char('j')),
            InputKey::Char('j'),
        ) == s,
        s.cursor == Some(0usize) ==> next_state(s, InputKey::Char('k')).cursor == Some(2usize),
{
}

} // verus!
