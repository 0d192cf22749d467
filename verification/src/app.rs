use vstd::prelude::*;

pub mod search_results;
pub mod search_tab;

use crate::text::{
    byte_index, byte_len, byte_offset, char_count, char_width, lemma_byte_len_at_least_char_count,
    lemma_byte_len_concat, string_insert, without_char,
};

verus! {

/// The pages of the application, in the order of the tab bar.
#[derive(Debug, Clone, Copy, PartialEq, Eq, Structural)]
pub enum Screen {
    Home,
    Search,
    Playlists,
}

/// The pages in tab-bar order.
pub open spec fn screen_order() -> Seq<Screen> {
    seq![Screen::Home, Screen::Search, Screen::Playlists]
}

/// Where a page stands in the tab bar.
pub open spec fn screen_position(v: Screen) -> int {
    match v {
        Screen::Home => 0,
        Screen::Search => 1,
        Screen::Playlists => 2,
    }
}

impl Screen {
    /// All pages in tab-bar order.
    pub fn all() -> (v: Vec<Screen>)
        ensures
            v@ == screen_order(),
    {
        vec![Screen::Home, Screen::Search, Screen::Playlists]
    }

    /// The page's title in the tab bar, its name.
    pub fn title(self) -> (s: &'static str)
        ensures
            s@ == match self {
                Screen::Home => "Home"@,
                Screen::Search => "Search"@,
                Screen::Playlists => "Playlists"@,
            },
    {
        match self {
            Screen::Home => "Home",
            Screen::Search => "Search",
            Screen::Playlists => "Playlists",
        }
    }

    /// Where the page stands in the tab bar, the tab to highlight.
    pub fn index(self) -> (i: usize)
        ensures
            i == screen_position(self),
    {
        match self {
            Screen::Home => 0,
            Screen::Search => 1,
            Screen::Playlists => 2,
        }
    }
}

/// The tab bar lists every page once, at the position `index` reports.
pub proof fn lemma_screen_positions(v: Screen)
    ensures
        screen_order().len() == 3,
        0 <= screen_position(v) < 3,
        screen_order()[screen_position(v)] == v,
        forall|i: int, j: int| 0 <= i < j < 3 ==> screen_order()[i] != screen_order()[j],
{
}

/// Whether keys move around the application or edit the search query.
#[derive(Debug, Clone, Copy, PartialEq, Eq, Structural)]
pub enum InputMode {
    Normal,
    Editing,
}

/// The keys the application tells apart.
#[derive(Debug, Clone, Copy, PartialEq, Eq, Structural)]
pub enum KeyCode {
    Char(char),
    Enter,
    Backspace,
    Left,
    Right,
    Up,
    Down,
    Esc,
    Other,
}

/// Whether a key went down, is repeating, or went up.
#[derive(Debug, Clone, Copy, PartialEq, Eq, Structural)]
pub enum KeyEventKind {
    Press,
    Repeat,
    Release,
}

/// The modifier keys held with a key.
#[derive(Debug, Clone, Copy, PartialEq, Eq, Structural)]
pub struct KeyModifiers {
    pub shift: bool,
    pub control: bool,
    pub alt: bool,
}

impl KeyModifiers {
    /// No modifier held.
    pub fn none() -> (m: KeyModifiers)
        ensures
            !m.shift && !m.control && !m.alt,
    {
        KeyModifiers { shift: false, control: false, alt: false }
    }

    /// Only Control held.
    pub fn control() -> (m: KeyModifiers)
        ensures
            !m.shift && m.control && !m.alt,
    {
        KeyModifiers { shift: false, control: true, alt: false }
    }
}

/// One key event from the terminal.
#[derive(Debug, Clone, Copy, PartialEq, Eq, Structural)]
pub struct KeyEvent {
    pub code: KeyCode,
    pub modifiers: KeyModifiers,
    pub kind: KeyEventKind,
}

impl KeyEvent {
    /// A key press with the given modifiers.
    pub fn new(code: KeyCode, modifiers: KeyModifiers) -> (e: KeyEvent)
        ensures
            e.code == code,
            e.modifiers == modifiers,
            e.kind == KeyEventKind::Press,
    {
        KeyEvent { code, modifiers, kind: KeyEventKind::Press }
    }
}

/// A terminal event: a key, or anything else (mouse, resize, focus, paste).
#[derive(Debug, Clone, Copy, PartialEq, Eq, Structural)]
pub enum Event {
    Key(KeyEvent),
    Other,
}

/// The abstract state of the application.
pub struct AppState {
    pub exit: bool,
    pub view: Screen,
    pub mode: InputMode,
    /// The characters of the search query.
    pub query: Seq<char>,
    /// The cursor, counted in characters from the start of the query.
    pub cursor: int,
    pub username: Option<Seq<char>>,
}

/// The state right after start-up.
pub open spec fn initial_state(username: Option<Seq<char>>) -> AppState {
    AppState {
        exit: false,
        view: Screen::Home,
        mode: InputMode::Normal,
        query: Seq::empty(),
        cursor: 0,
        username,
    }
}

/// A key in normal mode: quit, start editing on the search page, or switch page.
pub open spec fn normal_step(s: AppState, key: KeyEvent) -> AppState {
    match key.code {
        KeyCode::Char(c) => {
            if c == 'q' || (c == 'c' && key.modifiers.control) {
                AppState { exit: true, ..s }
            } else if c == 'i' && s.view == Screen::Search {
                AppState { mode: InputMode::Editing, ..s }
            } else if c == '1' {
                AppState { view: Screen::Home, ..s }
            } else if c == '2' {
                AppState { view: Screen::Search, ..s }
            } else if c == '3' {
                AppState { view: Screen::Playlists, ..s }
            } else {
                s
            }
        },
        _ => s,
    }
}

/// Cursor one character to the left, stopping at the start.
pub open spec fn cursor_left(s: AppState) -> AppState {
    AppState { cursor: if s.cursor > 0 { s.cursor - 1 } else { 0 }, ..s }
}

/// Cursor one character to the right, stopping at the end of the query.
pub open spec fn cursor_right(s: AppState) -> AppState {
    AppState { cursor: if s.cursor < s.query.len() { s.cursor + 1 } else { s.query.len() as int }, ..s }
}

/// Where any cursor lands on moving left: one character back, stopping at the
/// start, and never past the end of a query of `len` characters.
pub open spec fn cursor_after_left(cursor: int, len: int) -> int {
    let back = if cursor > 0 { cursor - 1 } else { 0 };
    if back <= len { back } else { len }
}

/// Where any cursor lands on moving right: one character on (saturating at
/// `usize::MAX`), never past the end of a query of `len` characters.
pub open spec fn cursor_after_right(cursor: int, len: int) -> int {
    let on = if cursor < usize::MAX { cursor + 1 } else { usize::MAX as int };
    if on <= len { on } else { len }
}

/// `c` typed at the cursor; the cursor moves past it.
pub open spec fn typed(s: AppState, c: char) -> AppState {
    AppState { query: s.query.insert(s.cursor, c), cursor: s.cursor + 1, ..s }
}

/// The character before the cursor removed, if there is one.
pub open spec fn erased(s: AppState) -> AppState {
    if s.cursor != 0 {
        AppState { query: s.query.remove(s.cursor - 1), cursor: s.cursor - 1, ..s }
    } else {
        s
    }
}

/// The query submitted: it is cleared and the cursor goes back to the start.
pub open spec fn submitted(s: AppState) -> AppState {
    AppState { query: Seq::empty(), cursor: 0, ..s }
}

/// A key in editing mode: edit the query, move the cursor, submit, or leave editing.
pub open spec fn editing_step(s: AppState, key: KeyEvent) -> AppState {
    match key.code {
        KeyCode::Enter => submitted(s),
        KeyCode::Char(c) => typed(s, c),
        KeyCode::Backspace => erased(s),
        KeyCode::Left => cursor_left(s),
        KeyCode::Right => cursor_right(s),
        KeyCode::Esc => AppState { mode: InputMode::Normal, ..s },
        _ => s,
    }
}

/// What a key does to the state.
pub open spec fn key_step(s: AppState, key: KeyEvent) -> AppState {
    match s.mode {
        InputMode::Normal => normal_step(s, key),
        InputMode::Editing => editing_step(s, key),
    }
}

/// What a terminal event does to the state: only key presses count.
pub open spec fn event_step(s: AppState, event: Event) -> AppState {
    match event {
        Event::Key(key) => if key.kind == KeyEventKind::Press {
            key_step(s, key)
        } else {
            s
        },
        Event::Other => s,
    }
}

/// The query stays within what a `String` can hold after the key.
pub open spec fn key_fits(s: AppState, key: KeyEvent) -> bool {
    match (s.mode, key.code) {
        (InputMode::Editing, KeyCode::Char(c)) => byte_len(s.query) + char_width(c) <= isize::MAX,
        _ => true,
    }
}

/// The query stays within what a `String` can hold after the event.
pub open spec fn event_fits(s: AppState, event: Event) -> bool {
    match event {
        Event::Key(key) => key.kind == KeyEventKind::Press ==> key_fits(s, key),
        Event::Other => true,
    }
}

/// `Ord::clamp` on `usize`: `v` limited to the interval from `lo` to `hi`.
/// std panics when `lo > hi`.
#[verifier::external_body]
fn clamp_usize(v: usize, lo: usize, hi: usize) -> (r: usize)
    requires
        lo <= hi,
    ensures
        r == if v < lo {
            lo
        } else if v > hi {
            hi
        } else {
            v
        },
{
    v.clamp(lo, hi)
}

/// The application: current page, input mode, search query with its cursor.
#[derive(Debug)]
pub struct App {
    exit: bool,
    username: Option<String>,
    current_view: Screen,
    input_mode: InputMode,
    search_query: String,
    character_index: usize,
}

impl View for App {
    type V = AppState;

    closed spec fn view(&self) -> AppState {
        AppState {
            exit: self.exit,
            view: self.current_view,
            mode: self.input_mode,
            query: self.search_query@,
            cursor: self.character_index as int,
            username: match self.username {
                Some(u) => Some(u@),
                None => None,
            },
        }
    }
}

impl App {
    /// The cursor is within the query, and the query fits in a `String`.
    pub closed spec fn wf(&self) -> bool {
        &&& self.character_index <= self.search_query@.len()
        &&& byte_len(self.search_query@) <= isize::MAX
    }

    /// In every well-formed state the cursor lies within the query.
    pub proof fn lemma_cursor_within_query(&self)
        requires
            self.wf(),
        ensures
            0 <= self@.cursor <= self@.query.len(),
            byte_len(self@.query) <= isize::MAX,
    {
    }

    /// A fresh application for the given user.
    pub fn new(username: Option<String>) -> (app: App)
        ensures
            app.wf(),
            app@ == initial_state(
                match username {
                    Some(u) => Some(u@),
                    None => None,
                },
            ),
    {
        let app = App {
            exit: false,
            username,
            current_view: Screen::Home,
            input_mode: InputMode::Normal,
            search_query: String::new(),
            character_index: 0,
        };
        proof {
            assert(byte_len(app.search_query@) == 0);
        }
        app
    }

    /// Whether the application has been asked to quit.
    pub fn exit_requested(&self) -> (b: bool)
        ensures
            b == self@.exit,
    {
        self.exit
    }

    /// The query is submitted: it is cleared and the cursor returns to the start.
    fn search(&mut self)
        requires
            old(self).wf(),
        ensures
            final(self).wf(),
            final(self)@ == submitted(old(self)@),
    {
        self.character_index = 0;
        self.search_query = String::new();
        proof {
            assert(byte_len(self.search_query@) == 0);
        }
    }

    fn move_cursor_left(&mut self)
        requires
            byte_len(old(self).search_query@) <= isize::MAX,
        ensures
            final(self)@ == (AppState { cursor: cursor_after_left(old(self).character_index as int, old(self)@.query.len() as int), ..old(self)@ }),
            final(self).wf(),
    {
        let cursor_moved_left = self.character_index.saturating_sub(1);
        self.character_index = self.clamp_cursor(cursor_moved_left);
    }

    fn move_cursor_right(&mut self)
        requires
            byte_len(old(self).search_query@) <= isize::MAX,
        ensures
            final(self)@ == (AppState { cursor: cursor_after_right(old(self).character_index as int, old(self)@.query.len() as int), ..old(self)@ }),
            final(self).wf(),
    {
        let cursor_moved_right = self.character_index.saturating_add(1);
        self.character_index = self.clamp_cursor(cursor_moved_right);
    }

    fn enter_char(&mut self, new_char: char)
        requires
            old(self).wf(),
            byte_len(old(self)@.query) + char_width(new_char) <= isize::MAX,
        ensures
            final(self).wf(),
            final(self)@ == typed(old(self)@, new_char),
    {
        let ghost q = self.search_query@;
        let ghost k = self.character_index as int;
        let index = self.byte_index();
        proof {
            if k == q.len() {
                assert(q.take(k) =~= q);
            }
            assert(byte_offset(q, k) == index);
        }
        string_insert(&mut self.search_query, index, new_char);
        proof {
            assert(self.search_query@ == q.insert(k, new_char));
            assert(q.insert(k, new_char) =~= q.take(k) + seq![new_char] + q.skip(k));
            assert(q =~= q.take(k) + q.skip(k));
            lemma_byte_len_concat(q.take(k), q.skip(k));
            lemma_byte_len_concat(q.take(k) + seq![new_char], q.skip(k));
            lemma_byte_len_concat(q.take(k), seq![new_char]);
            lemma_byte_len_at_least_char_count(self.search_query@);
        }
        self.move_cursor_right();
    }

    /// Byte position in the query of the character under the cursor.
    fn byte_index(&self) -> (b: usize)
        requires
            self.wf(),
        ensures
            self@.cursor < self@.query.len() ==> b == byte_offset(self@.query, self@.cursor),
            self@.cursor >= self@.query.len() ==> b == byte_len(self@.query),
    {
        byte_index(self.search_query.as_str(), self.character_index)
    }

    fn delete_char(&mut self)
        requires
            old(self).wf(),
        ensures
            final(self).wf(),
            final(self)@ == erased(old(self)@),
    {
        if self.character_index != 0 {
            let current_index = self.character_index;
            let from_left_to_current_index = current_index - 1;
            let ghost q = self.search_query@;
            self.search_query = without_char(self.search_query.as_str(), from_left_to_current_index);
            proof {
                let j = from_left_to_current_index as int;
                assert(q =~= q.take(j) + seq![q[j]] + q.skip(j + 1));
                assert(q.remove(j) =~= q.take(j) + q.skip(j + 1));
                lemma_byte_len_concat(q.take(j) + seq![q[j]], q.skip(j + 1));
                lemma_byte_len_concat(q.take(j), seq![q[j]]);
                lemma_byte_len_concat(q.take(j), q.skip(j + 1));
            }
            self.move_cursor_left();
        }
    }

    /// `new_cursor_pos` limited to the number of characters in the query.
    fn clamp_cursor(&self, new_cursor_pos: usize) -> (c: usize)
        requires
            byte_len(self.search_query@) <= isize::MAX,
        ensures
            c == if new_cursor_pos <= self@.query.len() { new_cursor_pos as int } else { self@.query.len() as int },
    {
        clamp_usize(new_cursor_pos, 0, char_count(self.search_query.as_str()))
    }

    /// The name of the signed-in user, if known.
    pub fn username(&self) -> (u: Option<&str>)
        ensures
            match u {
                Some(name) => self@.username == Some(name@),
                None => self@.username is None,
            },
    {
        match &self.username {
            Some(name) => Some(name.as_str()),
            None => None,
        }
    }

    /// The current input mode.
    pub fn current_input_mode(&self) -> (m: InputMode)
        ensures
            m == self@.mode,
    {
        self.input_mode
    }

    /// A copy of the search query.
    pub fn search_query(&self) -> (q: String)
        ensures
            q@ == self@.query,
    {
        self.search_query.clone()
    }

    /// The cursor position, counted in characters.
    pub fn character_index(&self) -> (i: usize)
        ensures
            i == self@.cursor,
    {
        self.character_index
    }

    /// The page on display.
    pub fn current_view(&self) -> (v: Screen)
        ensures
            v == self@.view,
    {
        self.current_view
    }

    fn exit(&mut self)
        ensures
            final(self)@ == (AppState { exit: true, ..old(self)@ }),
            final(self).wf() == old(self).wf(),
    {
        self.exit = true;
    }

    fn change_view(&mut self, view: Screen)
        ensures
            final(self)@ == (AppState { view, ..old(self)@ }),
            final(self).wf() == old(self).wf(),
    {
        self.current_view = view;
    }

    fn change_input(&mut self, input_mode: InputMode)
        ensures
            final(self)@ == (AppState { mode: input_mode, ..old(self)@ }),
            final(self).wf() == old(self).wf(),
    {
        self.input_mode = input_mode
    }

    /// Reacts to a terminal event: key presses are handled, everything else
    /// is ignored.
    pub fn handle_events(&mut self, event: Event)
        requires
            old(self).wf(),
            event_fits(old(self)@, event),
        ensures
            final(self).wf(),
            final(self)@ == event_step(old(self)@, event),
    {
        match event {
            Event::Key(key_event) => {
                if key_event.kind == KeyEventKind::Press {
                    self.handle_key_event(key_event);
                }
            },
            _ => {},
        }
    }

    /// Reacts to a key: in normal mode it quits, switches page or starts
    /// editing; in editing mode it edits the query and moves the cursor.
    pub fn handle_key_event(&mut self, key_event: KeyEvent)
        requires
            old(self).wf(),
            key_fits(old(self)@, key_event),
        ensures
            final(self).wf(),
            final(self)@ == key_step(old(self)@, key_event),
    {
        proof {
            lemma_byte_len_at_least_char_count(self.search_query@);
        }
        match self.input_mode {
            InputMode::Normal => {
                match key_event.code {
                    KeyCode::Char('q') => self.exit(),
                    KeyCode::Char('c') if key_event.modifiers.control => self.exit(),
                    KeyCode::Char('i') if self.current_view == Screen::Search
                        && self.input_mode == InputMode::Normal => {
                        self.change_input(InputMode::Editing)
                    },
                    KeyCode::Char('1') => self.change_view(Screen::Home),
                    KeyCode::Char('2') => self.change_view(Screen::Search),
                    KeyCode::Char('3') => self.change_view(Screen::Playlists),
                    _ => {},
                };
            },
            InputMode::Editing => {
                match key_event.code {
                    KeyCode::Enter => {
                        self.search();
                    },
                    KeyCode::Char(new_char) => {
                        self.enter_char(new_char);
                    },
                    KeyCode::Backspace => {
                        self.delete_char();
                    },
                    KeyCode::Left => {
                        self.move_cursor_left();
                    },
                    KeyCode::Right => {
                        self.move_cursor_right();
                    },
                    KeyCode::Esc => {
                        self.change_input(InputMode::Normal);
                    },
                    _ => {},
                };
            },
        }
    }
}

/// Backspace right after typing a character removes it again: the query and
/// the cursor are back where they were.
pub proof fn lemma_erase_undoes_typing(s: AppState, c: char)
    requires
        0 <= s.cursor <= s.query.len(),
    ensures
        erased(typed(s, c)) == s,
{
    assert(s.query.insert(s.cursor, c).remove(s.cursor) =~= s.query);
}

/// Moving the cursor left and then right, or right and then left, returns it
/// to where it was, unless it stood at the start or the end respectively.
pub proof fn lemma_cursor_moves_undo(s: AppState)
    requires
        0 <= s.cursor <= s.query.len(),
    ensures
        s.cursor > 0 ==> cursor_right(cursor_left(s)) == s,
        s.cursor < s.query.len() ==> cursor_left(cursor_right(s)) == s,
{
}

/// Every key keeps the cursor within the query.
pub proof fn lemma_key_keeps_cursor_in_query(s: AppState, key: KeyEvent)
    requires
        0 <= s.cursor <= s.query.len(),
    ensures
        0 <= key_step(s, key).cursor <= key_step(s, key).query.len(),
{
}

/// Once the application has been asked to quit, no key takes that back.
pub proof fn lemma_exit_is_kept(s: AppState, key: KeyEvent)
    requires
        s.exit,
    ensures
        key_step(s, key).exit,
{
}

/// While editing, no key quits the application or changes the page: `q` and
/// the digits are typed into the query like any other character.
pub proof fn lemma_editing_keeps_page_and_exit(s: AppState, key: KeyEvent)
    requires
        s.mode == InputMode::Editing,
    ensures
        key_step(s, key).exit == s.exit,
        key_step(s, key).view == s.view,
        key_step(s, key).username == s.username,
{
}

/// In normal mode no key touches the query or the cursor.
pub proof fn lemma_normal_keeps_query(s: AppState, key: KeyEvent)
    requires
        s.mode == InputMode::Normal,
    ensures
        key_step(s, key).query == s.query,
        key_step(s, key).cursor == s.cursor,
        key_step(s, key).username == s.username,
{
}

/// Editing starts only from the search page.
pub proof fn lemma_editing_starts_on_search(s: AppState, key: KeyEvent)
    requires
        s.mode == InputMode::Normal,
        key_step(s, key).mode == InputMode::Editing,
    ensures
        s.view == Screen::Search,
        key_step(s, key).view == Screen::Search,
{
}

/// Events other than key presses change nothing.
pub proof fn lemma_only_presses_count(s: AppState, event: Event)
    requires
        !(event matches Event::Key(k) && k.kind == KeyEventKind::Press),
    ensures
        event_step(s, event) == s,
{
}

/// A key press handled as a terminal event does exactly what handling the
/// key itself does.
pub proof fn lemma_press_event_is_key(s: AppState, key: KeyEvent)
    requires
        key.kind == KeyEventKind::Press,
    ensures
        event_step(s, Event::Key(key)) == key_step(s, key),
        event_fits(s, Event::Key(key)) == key_fits(s, key),
{
}

/// While editing, pressing Backspace right after typing any character gives
/// back the query and the cursor from before, wherever the cursor was.
pub proof fn lemma_backspace_undoes_typed_key(s: AppState, c: char, typed_key: KeyEvent, backspace: KeyEvent)
    requires
        s.mode == InputMode::Editing,
        0 <= s.cursor <= s.query.len(),
        typed_key.code == KeyCode::Char(c),
        backspace.code == KeyCode::Backspace,
    ensures
        key_step(key_step(s, typed_key), backspace) == s,
{
    lemma_erase_undoes_typing(s, c);
}

/// The keys of normal mode, stated on the resulting state: `q` quits from
/// every page, Control-C quits, the digits 1, 2 and 3 open Home, Search and
/// Playlists, and `i` on the search page starts editing. Nothing else quits,
/// changes page, or starts editing, and the query and cursor stay as they were.
pub proof fn lemma_normal_mode_keys(s: AppState, key: KeyEvent)
    requires
        s.mode == InputMode::Normal,
    ensures
        key.code == KeyCode::Char('q') ==> key_step(s, key).exit,
        key.code == KeyCode::Char('c') && key.modifiers.control ==> key_step(s, key).exit,
        key_step(s, key).exit ==> s.exit || key.code == KeyCode::Char('q') || (key.code
            == KeyCode::Char('c') && key.modifiers.control),
        key.code == KeyCode::Char('1') ==> key_step(s, key).view == Screen::Home,
        key.code == KeyCode::Char('2') ==> key_step(s, key).view == Screen::Search,
        key.code == KeyCode::Char('3') ==> key_step(s, key).view == Screen::Playlists,
        key_step(s, key).view != s.view ==> key.code == KeyCode::Char('1') || key.code
            == KeyCode::Char('2') || key.code == KeyCode::Char('3'),
        key.code == KeyCode::Char('i') && s.view == Screen::Search ==> key_step(s, key).mode
            == InputMode::Editing,
        key_step(s, key).mode == InputMode::Editing ==> key.code == KeyCode::Char('i')
            && s.view == Screen::Search,
        key_step(s, key).query == s.query,
        key_step(s, key).cursor == s.cursor,
        key_step(s, key).username == s.username,
{
}

/// The keys of editing mode, stated on the resulting query and cursor: a
/// character goes in at the cursor, which moves past it; Backspace removes
/// the character before the cursor; Left and Right move one character within
/// the query; Enter leaves an empty query with the cursor at the start, wherever
/// the cursor stood; Esc returns to normal mode. No key quits or changes page.
pub proof fn lemma_editing_mode_keys(s: AppState, key: KeyEvent)
    requires
        s.mode == InputMode::Editing,
        0 <= s.cursor <= s.query.len(),
    ensures
        key.code == KeyCode::Enter ==> key_step(s, key).query == Seq::<char>::empty()
            && key_step(s, key).cursor == 0 && key_step(s, key).mode == InputMode::Editing,
        forall|c: char|
            key.code == KeyCode::Char(c) ==> key_step(s, key).query == s.query.take(s.cursor)
                + seq![c] + s.query.skip(s.cursor) && key_step(s, key).cursor == s.cursor + 1,
        key.code == KeyCode::Backspace && s.cursor > 0 ==> key_step(s, key).query
            == s.query.take(s.cursor - 1) + s.query.skip(s.cursor) && key_step(s, key).cursor
            == s.cursor - 1,
        key.code == KeyCode::Backspace && s.cursor == 0 ==> key_step(s, key) == s,
        key.code == KeyCode::Left ==> key_step(s, key).query == s.query && key_step(s, key).cursor
            == (if s.cursor == 0 { 0 } else { s.cursor - 1 }),
        key.code == KeyCode::Right ==> key_step(s, key).query == s.query && key_step(s, key).cursor
            == (if s.cursor == s.query.len() { s.cursor } else { s.cursor + 1 }),
        key.code == KeyCode::Esc ==> key_step(s, key).mode == InputMode::Normal
            && key_step(s, key).query == s.query && key_step(s, key).cursor == s.cursor,
        key.code != KeyCode::Esc ==> key_step(s, key).mode == InputMode::Editing,
        key_step(s, key).exit == s.exit,
        key_step(s, key).view == s.view,
        key_step(s, key).username == s.username,
{
    assert forall|c: char| key.code == KeyCode::Char(c) implies key_step(s, key).query
        == s.query.take(s.cursor) + seq![c] + s.query.skip(s.cursor) by {
        assert(s.query.insert(s.cursor, c) =~= s.query.take(s.cursor) + seq![c] + s.query.skip(
            s.cursor,
        ));
    }
    if key.code == KeyCode::Backspace && s.cursor > 0 {
        assert(s.query.remove(s.cursor - 1) =~= s.query.take(s.cursor - 1) + s.query.skip(
            s.cursor,
        ));
    }
}

/// A fresh application shows Home in normal mode with an empty query, the
/// cursor at the start, no request to quit, and the given user.
pub proof fn lemma_initial_state(username: Option<Seq<char>>)
    ensures
        initial_state(username).view == Screen::Home,
        initial_state(username).mode == InputMode::Normal,
        initial_state(username).query == Seq::<char>::empty(),
        initial_state(username).cursor == 0,
        !initial_state(username).exit,
        initial_state(username).username == username,
{
}

/// The tab bar shows Home, Search and Playlists in that order.
pub proof fn lemma_screen_order()
    ensures
        screen_order() == seq![Screen::Home, Screen::Search, Screen::Playlists],
{
}

} // verus!
