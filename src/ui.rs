//! The state machine behind the login and search screens.
//!
//! The event loop hands each input event to [`Screen::handle_event`], which
//! updates the text fields, the focus and the menu mode, and says what the
//! loop must do next: go on, stop, show a status line, or send a request.
use vstd::prelude::*;
use vstd::string::*;
use crate::text::{joined, pop_char};

verus! {

/// The text field that receives keystrokes.
#[derive(Clone, Copy, Debug, PartialEq, Eq, Structural)]
pub enum Focus {
    Unfocused,
    Username,
    Password,
    Search,
}

/// The panel shown below the top menu.
#[derive(Clone, Copy, Debug, PartialEq, Eq, Structural)]
pub enum MenuMode {
    /// No panel chosen yet: a hint is shown.
    Home,
    Login,
    Search,
}

/// An axis-aligned rectangle on screen: `x`, `y` its top-left corner.
#[derive(Clone, Copy, Debug, PartialEq, Eq, Structural)]
pub struct Rect {
    pub x: i32,
    pub y: i32,
    pub w: u32,
    pub h: u32,
}

impl Rect {
    pub fn new(x: i32, y: i32, w: u32, h: u32) -> (r: Rect)
        ensures
            r == (Rect { x, y, w, h }),
    {
        Rect { x, y, w, h }
    }

    /// The point lies in the rectangle, its right and bottom edges excluded.
    pub open spec fn holds(self, px: int, py: int) -> bool {
        &&& self.x <= px < self.x + self.w
        &&& self.y <= py < self.y + self.h
    }

    pub fn contains_point(&self, px: i32, py: i32) -> (r: bool)
        ensures
            r == self.holds(px as int, py as int),
    {
        let right = self.x as i64 + self.w as i64;
        let bottom = self.y as i64 + self.h as i64;
        self.x as i64 <= px as i64 && (px as i64) < right && self.y as i64 <= py as i64
            && (py as i64) < bottom
    }
}

/// Where the menu entries, fields and buttons stand.
#[derive(Clone, Copy, Debug, PartialEq, Eq, Structural)]
pub struct Layout {
    pub menu_login: Rect,
    pub menu_search: Rect,
    pub username_box: Rect,
    pub password_box: Rect,
    pub login_button: Rect,
    pub register_button: Rect,
    pub search_box: Rect,
    pub search_button: Rect,
}

impl Layout {
    /// The layout of the client's window.
    pub fn standard() -> (r: Layout)
        ensures
            r.menu_login == (Rect { x: 20, y: 20, w: 120, h: 28 }),
            r.menu_search == (Rect { x: 160, y: 20, w: 140, h: 28 }),
            r.username_box == (Rect { x: 20, y: 120, w: 420, h: 36 }),
            r.password_box == (Rect { x: 20, y: 180, w: 420, h: 36 }),
            r.login_button == (Rect { x: 40, y: 240, w: 120, h: 40 }),
            r.register_button == (Rect { x: 180, y: 240, w: 140, h: 40 }),
            r.search_box == (Rect { x: 20, y: 80, w: 420, h: 36 }),
            r.search_button == (Rect { x: 460, y: 80, w: 120, h: 36 }),
    {
        Layout {
            menu_login: Rect::new(20, 20, 120, 28),
            menu_search: Rect::new(160, 20, 140, 28),
            username_box: Rect::new(20, 120, 420, 36),
            password_box: Rect::new(20, 180, 420, 36),
            login_button: Rect::new(40, 240, 120, 40),
            register_button: Rect::new(180, 240, 140, 40),
            search_box: Rect::new(20, 80, 420, 36),
            search_button: Rect::new(460, 80, 120, 36),
        }
    }
}

/// What a click lands on.
#[derive(Clone, Copy, Debug, PartialEq, Eq, Structural)]
pub enum Target {
    MenuLogin,
    MenuSearch,
    SearchBox,
    SearchButton,
    UsernameBox,
    PasswordBox,
    LoginButton,
    RegisterButton,
    Nothing,
}

/// The target of a click: the menu entries first, then the controls of the
/// panel shown; a control of another panel is not hit.
pub open spec fn target_at(l: Layout, mode: MenuMode, px: int, py: int) -> Target {
    if l.menu_login.holds(px, py) {
        Target::MenuLogin
    } else if l.menu_search.holds(px, py) {
        Target::MenuSearch
    } else if mode == MenuMode::Search && l.search_box.holds(px, py) {
        Target::SearchBox
    } else if mode == MenuMode::Search && l.search_button.holds(px, py) {
        Target::SearchButton
    } else if mode == MenuMode::Login && l.username_box.holds(px, py) {
        Target::UsernameBox
    } else if mode == MenuMode::Login && l.password_box.holds(px, py) {
        Target::PasswordBox
    } else if mode == MenuMode::Login && l.login_button.holds(px, py) {
        Target::LoginButton
    } else if mode == MenuMode::Login && l.register_button.holds(px, py) {
        Target::RegisterButton
    } else {
        Target::Nothing
    }
}

/// Finds what a click at (`px`, `py`) lands on.
pub fn hit_target(l: &Layout, mode: MenuMode, px: i32, py: i32) -> (r: Target)
    ensures
        r == target_at(*l, mode, px as int, py as int),
{
    if l.menu_login.contains_point(px, py) {
        Target::MenuLogin
    } else if l.menu_search.contains_point(px, py) {
        Target::MenuSearch
    } else if mode == MenuMode::Search && l.search_box.contains_point(px, py) {
        Target::SearchBox
    } else if mode == MenuMode::Search && l.search_button.contains_point(px, py) {
        Target::SearchButton
    } else if mode == MenuMode::Login && l.username_box.contains_point(px, py) {
        Target::UsernameBox
    } else if mode == MenuMode::Login && l.password_box.contains_point(px, py) {
        Target::PasswordBox
    } else if mode == MenuMode::Login && l.login_button.contains_point(px, py) {
        Target::LoginButton
    } else if mode == MenuMode::Login && l.register_button.contains_point(px, py) {
        Target::RegisterButton
    } else {
        Target::Nothing
    }
}

/// An input event, as the event loop sees it.
pub enum UiEvent {
    /// The window was closed.
    Quit,
    /// The Escape key was pressed.
    Escape,
    /// The Backspace key was pressed.
    Backspace,
    /// The Return key was pressed.
    Return,
    /// Text was typed.
    TextInput(String),
    /// A mouse button was pressed at this position.
    MouseDown { x: i32, y: i32 },
    /// Any other event.
    Other,
}

/// What the event loop must do after an event.
pub enum UiAction {
    /// Nothing more.
    Continue,
    /// Leave the loop.
    Exit,
    /// Show this status line.
    SetStatus(String),
    /// Send a search for this ticker.
    Search { query: String },
    /// Send a login with these credentials.
    Login { username: String, password: String },
    /// Send a registration with these credentials.
    Register { username: String, password: String },
}

/// The model of an input event.
pub enum EventModel {
    Quit,
    Escape,
    Backspace,
    Return,
    TextInput(Seq<char>),
    MouseDown { x: int, y: int },
    Other,
}

/// The model of an action.
pub enum ActionModel {
    Continue,
    Exit,
    SetStatus(Seq<char>),
    Search { query: Seq<char> },
    Login { username: Seq<char>, password: Seq<char> },
    Register { username: Seq<char>, password: Seq<char> },
}

impl View for UiEvent {
    type V = EventModel;

    open spec fn view(&self) -> EventModel {
        match self {
            UiEvent::Quit => EventModel::Quit,
            UiEvent::Escape => EventModel::Escape,
            UiEvent::Backspace => EventModel::Backspace,
            UiEvent::Return => EventModel::Return,
            UiEvent::TextInput(t) => EventModel::TextInput(t@),
            UiEvent::MouseDown { x, y } => EventModel::MouseDown { x: *x as int, y: *y as int },
            UiEvent::Other => EventModel::Other,
        }
    }
}

impl View for UiAction {
    type V = ActionModel;

    open spec fn view(&self) -> ActionModel {
        match self {
            UiAction::Continue => ActionModel::Continue,
            UiAction::Exit => ActionModel::Exit,
            UiAction::SetStatus(s) => ActionModel::SetStatus(s@),
            UiAction::Search { query } => ActionModel::Search { query: query@ },
            UiAction::Login { username, password } => ActionModel::Login {
                username: username@,
                password: password@,
            },
            UiAction::Register { username, password } => ActionModel::Register {
                username: username@,
                password: password@,
            },
        }
    }
}

/// The text fields, focus and menu mode of the client.
pub struct Screen {
    pub username: String,
    pub password: String,
    pub search_input: String,
    pub focus: Focus,
    pub mode: MenuMode,
}

/// The model of a screen.
pub struct ScreenModel {
    pub username: Seq<char>,
    pub password: Seq<char>,
    pub search_input: Seq<char>,
    pub focus: Focus,
    pub mode: MenuMode,
}

impl View for Screen {
    type V = ScreenModel;

    open spec fn view(&self) -> ScreenModel {
        ScreenModel {
            username: self.username@,
            password: self.password@,
            search_input: self.search_input@,
            focus: self.focus,
            mode: self.mode,
        }
    }
}

/// A text without its last character; an empty text stays empty.
pub open spec fn backspaced(t: Seq<char>) -> Seq<char> {
    if t.len() > 0 {
        t.drop_last()
    } else {
        t
    }
}

/// The screen and action after a click on `target`.
pub open spec fn click(s: ScreenModel, target: Target) -> (ScreenModel, ActionModel) {
    match target {
        Target::MenuLogin => (
            ScreenModel { mode: MenuMode::Login, focus: Focus::Unfocused, ..s },
            ActionModel::Continue,
        ),
        Target::MenuSearch => (
            ScreenModel { mode: MenuMode::Search, focus: Focus::Unfocused, ..s },
            ActionModel::Continue,
        ),
        Target::SearchBox => (ScreenModel { focus: Focus::Search, ..s }, ActionModel::Continue),
        Target::UsernameBox => (ScreenModel { focus: Focus::Username, ..s }, ActionModel::Continue),
        Target::PasswordBox => (ScreenModel { focus: Focus::Password, ..s }, ActionModel::Continue),
        Target::SearchButton => (s, ActionModel::Search { query: s.search_input }),
        Target::LoginButton => (
            s,
            ActionModel::Login { username: s.username, password: s.password },
        ),
        Target::RegisterButton => (
            s,
            ActionModel::Register { username: s.username, password: s.password },
        ),
        Target::Nothing => (ScreenModel { focus: Focus::Unfocused, ..s }, ActionModel::Continue),
    }
}

/// The screen and action after one event.
pub open spec fn step(s: ScreenModel, l: Layout, e: EventModel) -> (ScreenModel, ActionModel) {
    match e {
        EventModel::Quit => (s, ActionModel::Exit),
        EventModel::Escape => (s, ActionModel::Exit),
        EventModel::Backspace => match s.focus {
            Focus::Username => (
                ScreenModel { username: backspaced(s.username), ..s },
                ActionModel::Continue,
            ),
            Focus::Password => (
                ScreenModel { password: backspaced(s.password), ..s },
                ActionModel::Continue,
            ),
            Focus::Search => (
                ScreenModel { search_input: backspaced(s.search_input), ..s },
                ActionModel::Continue,
            ),
            Focus::Unfocused => (s, ActionModel::Continue),
        },
        EventModel::Return => match s.focus {
            Focus::Username => (
                ScreenModel { focus: Focus::Unfocused, ..s },
                ActionModel::SetStatus("Username set: "@ + s.username),
            ),
            Focus::Password => (
                ScreenModel { focus: Focus::Unfocused, ..s },
                ActionModel::SetStatus("Password set"@),
            ),
            Focus::Search => (
                ScreenModel { focus: Focus::Unfocused, ..s },
                ActionModel::SetStatus("Search set: "@ + s.search_input),
            ),
            Focus::Unfocused => (s, ActionModel::Continue),
        },
        EventModel::TextInput(t) => match s.focus {
            Focus::Username => (
                ScreenModel { username: s.username + t, ..s },
                ActionModel::Continue,
            ),
            Focus::Password => (
                ScreenModel { password: s.password + t, ..s },
                ActionModel::Continue,
            ),
            Focus::Search => (
                ScreenModel { search_input: s.search_input + t, ..s },
                ActionModel::Continue,
            ),
            Focus::Unfocused => (s, ActionModel::Continue),
        },
        EventModel::MouseDown { x, y } => click(s, target_at(l, s.mode, x, y)),
        EventModel::Other => (s, ActionModel::Continue),
    }
}

impl Screen {
    /// A screen with empty fields, nothing focused and no panel chosen.
    pub fn new() -> (r: Screen)
        ensures
            r@.username.len() == 0,
            r@.password.len() == 0,
            r@.search_input.len() == 0,
            r@.focus == Focus::Unfocused,
            r@.mode == MenuMode::Home,
    {
        Screen {
            username: String::new(),
            password: String::new(),
            search_input: String::new(),
            focus: Focus::Unfocused,
            mode: MenuMode::Home,
        }
    }

    fn on_click(&mut self, target: Target) -> (r: UiAction)
        ensures
            (final(self)@, r@) == click(old(self)@, target),
    {
        match target {
            Target::MenuLogin => {
                self.mode = MenuMode::Login;
                self.focus = Focus::Unfocused;
                UiAction::Continue
            },
            Target::MenuSearch => {
                self.mode = MenuMode::Search;
                self.focus = Focus::Unfocused;
                UiAction::Continue
            },
            Target::SearchBox => {
                self.focus = Focus::Search;
                UiAction::Continue
            },
            Target::UsernameBox => {
                self.focus = Focus::Username;
                UiAction::Continue
            },
            Target::PasswordBox => {
                self.focus = Focus::Password;
                UiAction::Continue
            },
            Target::SearchButton => UiAction::Search { query: self.search_input.clone() },
            Target::LoginButton => UiAction::Login {
                username: self.username.clone(),
                password: self.password.clone(),
            },
            Target::RegisterButton => UiAction::Register {
                username: self.username.clone(),
                password: self.password.clone(),
            },
            Target::Nothing => {
                self.focus = Focus::Unfocused;
                UiAction::Continue
            },
        }
    }

    /// Applies one input event and says what the event loop must do next.
    pub fn handle_event(&mut self, layout: &Layout, event: &UiEvent) -> (r: UiAction)
        ensures
            (final(self)@, r@) == step(old(self)@, *layout, event@),
    {
        match event {
            UiEvent::Quit => UiAction::Exit,
            UiEvent::Escape => UiAction::Exit,
            UiEvent::Backspace => {
                match self.focus {
                    Focus::Username => {
                        pop_char(&mut self.username);
                    },
                    Focus::Password => {
                        pop_char(&mut self.password);
                    },
                    Focus::Search => {
                        pop_char(&mut self.search_input);
                    },
                    Focus::Unfocused => {},
                }
                UiAction::Continue
            },
            UiEvent::Return => match self.focus {
                Focus::Username => {
                    self.focus = Focus::Unfocused;
                    UiAction::SetStatus(joined("Username set: ", self.username.as_str()))
                },
                Focus::Password => {
                    self.focus = Focus::Unfocused;
                    UiAction::SetStatus(String::from_str("Password set"))
                },
                Focus::Search => {
                    self.focus = Focus::Unfocused;
                    UiAction::SetStatus(joined("Search set: ", self.search_input.as_str()))
                },
                Focus::Unfocused => UiAction::Continue,
            },
            UiEvent::TextInput(t) => {
                match self.focus {
                    Focus::Username => self.username.append(t.as_str()),
                    Focus::Password => self.password.append(t.as_str()),
                    Focus::Search => self.search_input.append(t.as_str()),
                    Focus::Unfocused => {},
                }
                UiAction::Continue
            },
            UiEvent::MouseDown { x, y } => {
                let target = hit_target(layout, self.mode, *x, *y);
                self.on_click(target)
            },
            UiEvent::Other => UiAction::Continue,
        }
    }
}

} // verus!
