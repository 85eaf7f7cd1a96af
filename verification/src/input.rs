//! Vim-style keyboard navigation.
//!
//! Modal input handling: Normal, Insert, Command, Search, Follow modes.
//! Every key is a transition of [`InputState`] that also yields a
//! [`BrowserAction`]; the transitions are stated by [`key_step`] and
//! [`special_step`].
use vstd::prelude::*;
use crate::text::{
    chars_of, eq_str, find_char, find_char_exec, is_ascii_alnum, is_ascii_alnum_spec,
    lemma_find_char, push_chars, rfind_char, rfind_char_exec, slice_chars, string_from_chars,
    trim, trim_chars, is_ws_spec, ws_prefix_len, trim_start, trim_end, add_byte_len, byte_len, sat_usize, lemma_prefix_char_boundary,
    lemma_trim_clean, lemma_trim_ends,
};

verus! {

/// Input mode for the browser.
#[derive(Debug, Clone, Copy, PartialEq, Eq, Structural)]
pub enum Mode {
    /// Page navigation: scrolling, link following, tab management.
    Normal,
    /// Text input: address bar, form fields.
    Insert,
    /// `:` prefixed commands (`:open`, `:tabopen`, etc.).
    Command,
    /// `/` forward search or `?` backward search.
    Search,
    /// `f` link hint labels displayed.
    Follow,
}

/// Actions that the browser can perform.  The parameter is the type of the
/// command text; the browser uses `String`, and contracts use `Seq<char>`.
#[derive(Debug, Clone, PartialEq)]
pub enum BrowserAction<S = String> {
    ScrollDown(u32),
    ScrollUp(u32),
    ScrollLeft(u32),
    ScrollRight(u32),
    HalfPageDown,
    HalfPageUp,
    PageDown,
    PageUp,
    ScrollToTop,
    ScrollToBottom,
    GoBack,
    GoForward,
    Reload,
    Stop,
    FollowLink,
    FollowLinkNewTab,
    OpenUrl,
    OpenUrlNewTab,
    NewTab,
    CloseTab,
    NextTab,
    PrevTab,
    GotoTab(usize),
    CopyUrl,
    OpenFromClipboard,
    SearchForward,
    SearchBackward,
    NextMatch,
    PrevMatch,
    EnterCommandMode,
    ExecuteCommand(S),
    EnterInsertMode,
    ExitToNormal,
    InsertChar(char),
    DeleteBack,
    DeleteForward,
    MoveCursorLeft,
    MoveCursorRight,
    MoveCursorHome,
    MoveCursorEnd,
    SubmitInput,
    CancelInput,
    ToggleBookmark,
    ShowBookmarks,
    ShowHistory,
    Quit,
    Help,
    Noop,
}

/// An action as contracts see it: command text as a character sequence.
pub type ActionView = BrowserAction<Seq<char>>;

impl<S: View> View for BrowserAction<S> {
    type V = BrowserAction<S::V>;

    open spec fn view(&self) -> BrowserAction<S::V> {
        match self {
            BrowserAction::ScrollDown(n) => BrowserAction::ScrollDown(*n),
            BrowserAction::ScrollUp(n) => BrowserAction::ScrollUp(*n),
            BrowserAction::ScrollLeft(n) => BrowserAction::ScrollLeft(*n),
            BrowserAction::ScrollRight(n) => BrowserAction::ScrollRight(*n),
            BrowserAction::HalfPageDown => BrowserAction::HalfPageDown,
            BrowserAction::HalfPageUp => BrowserAction::HalfPageUp,
            BrowserAction::PageDown => BrowserAction::PageDown,
            BrowserAction::PageUp => BrowserAction::PageUp,
            BrowserAction::ScrollToTop => BrowserAction::ScrollToTop,
            BrowserAction::ScrollToBottom => BrowserAction::ScrollToBottom,
            BrowserAction::GoBack => BrowserAction::GoBack,
            BrowserAction::GoForward => BrowserAction::GoForward,
            BrowserAction::Reload => BrowserAction::Reload,
            BrowserAction::Stop => BrowserAction::Stop,
            BrowserAction::FollowLink => BrowserAction::FollowLink,
            BrowserAction::FollowLinkNewTab => BrowserAction::FollowLinkNewTab,
            BrowserAction::OpenUrl => BrowserAction::OpenUrl,
            BrowserAction::OpenUrlNewTab => BrowserAction::OpenUrlNewTab,
            BrowserAction::NewTab => BrowserAction::NewTab,
            BrowserAction::CloseTab => BrowserAction::CloseTab,
            BrowserAction::NextTab => BrowserAction::NextTab,
            BrowserAction::PrevTab => BrowserAction::PrevTab,
            BrowserAction::GotoTab(i) => BrowserAction::GotoTab(*i),
            BrowserAction::CopyUrl => BrowserAction::CopyUrl,
            BrowserAction::OpenFromClipboard => BrowserAction::OpenFromClipboard,
            BrowserAction::SearchForward => BrowserAction::SearchForward,
            BrowserAction::SearchBackward => BrowserAction::SearchBackward,
            BrowserAction::NextMatch => BrowserAction::NextMatch,
            BrowserAction::PrevMatch => BrowserAction::PrevMatch,
            BrowserAction::EnterCommandMode => BrowserAction::EnterCommandMode,
            BrowserAction::ExecuteCommand(s) => BrowserAction::ExecuteCommand(s@),
            BrowserAction::EnterInsertMode => BrowserAction::EnterInsertMode,
            BrowserAction::ExitToNormal => BrowserAction::ExitToNormal,
            BrowserAction::InsertChar(c) => BrowserAction::InsertChar(*c),
            BrowserAction::DeleteBack => BrowserAction::DeleteBack,
            BrowserAction::DeleteForward => BrowserAction::DeleteForward,
            BrowserAction::MoveCursorLeft => BrowserAction::MoveCursorLeft,
            BrowserAction::MoveCursorRight => BrowserAction::MoveCursorRight,
            BrowserAction::MoveCursorHome => BrowserAction::MoveCursorHome,
            BrowserAction::MoveCursorEnd => BrowserAction::MoveCursorEnd,
            BrowserAction::SubmitInput => BrowserAction::SubmitInput,
            BrowserAction::CancelInput => BrowserAction::CancelInput,
            BrowserAction::ToggleBookmark => BrowserAction::ToggleBookmark,
            BrowserAction::ShowBookmarks => BrowserAction::ShowBookmarks,
            BrowserAction::ShowHistory => BrowserAction::ShowHistory,
            BrowserAction::Quit => BrowserAction::Quit,
            BrowserAction::Help => BrowserAction::Help,
            BrowserAction::Noop => BrowserAction::Noop,
        }
    }
}

/// Special (non-character) keys.
#[derive(Debug, Clone, Copy, PartialEq, Eq, Structural)]
pub enum SpecialKey {
    Enter,
    Escape,
    Backspace,
    Delete,
    Tab,
    Left,
    Right,
    Up,
    Down,
    Home,
    End,
    PageUp,
    PageDown,
}

/// The abstract state of an [`InputHandler`]: the mode, the pending key
/// sequence, the command line with its cursor (a character index), and the
/// search direction.
pub struct InputState {
    pub mode: Mode,
    pub pending: Seq<char>,
    pub buffer: Seq<char>,
    pub cursor: nat,
    pub search_forward: bool,
}

/// The cursor never goes past the end of the command line.
pub open spec fn input_wf(s: InputState) -> bool {
    s.cursor <= s.buffer.len()
}

/// Tracks pending key sequences (e.g., "gg", "gt").
#[derive(Debug)]
pub struct InputHandler {
    mode: Mode,
    /// Pending key buffer for multi-key sequences.
    pending: Vec<char>,
    /// Command line buffer (for : and / modes).
    command_buffer: Vec<char>,
    /// Cursor position in the command buffer (in characters).
    cursor_pos: usize,
    /// Whether search is forward (/) or backward (?).
    search_forward: bool,
}

impl View for InputHandler {
    type V = InputState;

    closed spec fn view(&self) -> InputState {
        InputState {
            mode: self.mode,
            pending: self.pending@,
            buffer: self.command_buffer@,
            cursor: self.cursor_pos as nat,
            search_forward: self.search_forward,
        }
    }
}

/// Action of a Ctrl chord in Normal mode.
pub open spec fn ctrl_normal_action(key: char) -> ActionView {
    if key == 't' {
        BrowserAction::NewTab
    } else if key == 'w' {
        BrowserAction::CloseTab
    } else if key == 'd' {
        BrowserAction::HalfPageDown
    } else if key == 'u' {
        BrowserAction::HalfPageUp
    } else if key == 'f' {
        BrowserAction::PageDown
    } else if key == 'b' {
        BrowserAction::PageUp
    } else if key == 'c' {
        BrowserAction::Stop
    } else if key == 'q' {
        BrowserAction::Quit
    } else {
        BrowserAction::Noop
    }
}

/// Action that completes a two-key sequence.
pub open spec fn sequence_action(seq: Seq<char>) -> ActionView {
    if seq == seq!['g', 'g'] {
        BrowserAction::ScrollToTop
    } else if seq == seq!['g', 't'] {
        BrowserAction::NextTab
    } else if seq == seq!['g', 'T'] {
        BrowserAction::PrevTab
    } else if seq == seq!['y', 'y'] {
        BrowserAction::CopyUrl
    } else {
        BrowserAction::Noop
    }
}

/// Single-key action in Normal mode that does not change the state.
pub open spec fn plain_normal_action(key: char, shift: bool) -> ActionView {
    if key == 'j' {
        BrowserAction::ScrollDown(3)
    } else if key == 'k' {
        BrowserAction::ScrollUp(3)
    } else if key == 'h' {
        BrowserAction::ScrollLeft(3)
    } else if key == 'l' {
        BrowserAction::ScrollRight(3)
    } else if key == 'd' {
        BrowserAction::HalfPageDown
    } else if key == 'u' {
        BrowserAction::HalfPageUp
    } else if key == 'G' {
        BrowserAction::ScrollToBottom
    } else if key == 'H' {
        BrowserAction::GoBack
    } else if key == 'L' {
        BrowserAction::GoForward
    } else if key == 'r' {
        BrowserAction::Reload
    } else if key == 't' {
        BrowserAction::NewTab
    } else if key == 'x' {
        BrowserAction::CloseTab
    } else if key == 'n' {
        BrowserAction::NextMatch
    } else if key == 'N' {
        BrowserAction::PrevMatch
    } else if key == 'p' {
        BrowserAction::OpenFromClipboard
    } else if key == 'b' && shift {
        BrowserAction::ShowBookmarks
    } else if key == 'B' {
        BrowserAction::ToggleBookmark
    } else {
        BrowserAction::Noop
    }
}

/// Enter `mode` with an empty command line.
pub open spec fn enter_with_empty_line(s: InputState, mode: Mode) -> InputState {
    InputState { mode: mode, buffer: seq![], cursor: 0, ..s }
}

/// A key pressed in Normal mode.
pub open spec fn normal_step(s: InputState, key: char, ctrl: bool, shift: bool) -> (
    InputState,
    ActionView,
) {
    if ctrl {
        (s, ctrl_normal_action(key))
    } else if s.pending.len() > 0 {
        (InputState { pending: seq![], ..s }, sequence_action(s.pending.push(key)))
    } else if key == 'g' || key == 'y' {
        (InputState { pending: seq![key], ..s }, BrowserAction::Noop)
    } else if key == 'f' {
        (InputState { mode: Mode::Follow, ..s }, BrowserAction::FollowLink)
    } else if key == 'F' {
        (InputState { mode: Mode::Follow, ..s }, BrowserAction::FollowLinkNewTab)
    } else if key == 'o' {
        (enter_with_empty_line(s, Mode::Insert), BrowserAction::OpenUrl)
    } else if key == 'O' {
        (enter_with_empty_line(s, Mode::Insert), BrowserAction::OpenUrlNewTab)
    } else if key == 'i' {
        (InputState { mode: Mode::Insert, ..s }, BrowserAction::EnterInsertMode)
    } else if key == '/' {
        (
            InputState { search_forward: true, ..enter_with_empty_line(s, Mode::Search) },
            BrowserAction::SearchForward,
        )
    } else if key == '?' {
        (
            InputState { search_forward: false, ..enter_with_empty_line(s, Mode::Search) },
            BrowserAction::SearchBackward,
        )
    } else if key == ':' {
        (enter_with_empty_line(s, Mode::Command), BrowserAction::EnterCommandMode)
    } else {
        (s, plain_normal_action(key, shift))
    }
}

/// Cursor position after deleting the word before the cursor (Ctrl-W):
/// just after the last space before the cursor, or the start of the line.
pub open spec fn word_start(s: InputState) -> nat {
    match rfind_char(s.buffer.take(s.cursor as int), ' ') {
        Some(p) => (p + 1) as nat,
        None => 0,
    }
}

/// A key typed on the command line (Insert, Command and Search modes).
pub open spec fn insert_step(s: InputState, key: char, ctrl: bool) -> (InputState, ActionView) {
    if ctrl {
        if key == 'c' || key == '[' {
            (InputState { mode: Mode::Normal, ..s }, BrowserAction::CancelInput)
        } else if key == 'a' {
            (InputState { cursor: 0, ..s }, BrowserAction::MoveCursorHome)
        } else if key == 'e' {
            (InputState { cursor: s.buffer.len(), ..s }, BrowserAction::MoveCursorEnd)
        } else if key == 'w' {
            let p = word_start(s);
            (
                InputState {
                    buffer: s.buffer.take(p as int) + s.buffer.skip(s.cursor as int),
                    cursor: p,
                    ..s
                },
                BrowserAction::Noop,
            )
        } else {
            (s, BrowserAction::Noop)
        }
    } else {
        (
            InputState {
                buffer: s.buffer.insert(s.cursor as int, key),
                cursor: s.cursor + 1,
                ..s
            },
            BrowserAction::InsertChar(key),
        )
    }
}

/// A key pressed in Follow mode: hint characters accumulate, anything else
/// leaves the mode.
pub open spec fn follow_step(s: InputState, key: char) -> (InputState, ActionView) {
    if is_ascii_alnum_spec(key) {
        (InputState { pending: s.pending.push(key), ..s }, BrowserAction::Noop)
    } else {
        (InputState { mode: Mode::Normal, pending: seq![], ..s }, BrowserAction::ExitToNormal)
    }
}

/// A character key in any mode.
pub open spec fn key_step(s: InputState, key: char, ctrl: bool, shift: bool) -> (
    InputState,
    ActionView,
) {
    match s.mode {
        Mode::Normal => normal_step(s, key, ctrl, shift),
        Mode::Follow => follow_step(s, key),
        _ => insert_step(s, key, ctrl),
    }
}

/// The command text that Enter submits from Search mode: the direction
/// marker followed by the query.
pub open spec fn search_command(s: InputState) -> Seq<char> {
    (if s.search_forward {
        seq!['/']
    } else {
        seq!['?']
    }) + s.buffer
}

/// A special key on the command line.
pub open spec fn line_special_step(s: InputState, key: SpecialKey) -> (InputState, ActionView) {
    match key {
        SpecialKey::Escape => (enter_with_empty_line(s, Mode::Normal), BrowserAction::CancelInput),
        SpecialKey::Enter => {
            let next = enter_with_empty_line(s, Mode::Normal);
            if s.mode == Mode::Command {
                (next, BrowserAction::ExecuteCommand(s.buffer))
            } else if s.mode == Mode::Search {
                (next, BrowserAction::ExecuteCommand(search_command(s)))
            } else {
                (next, BrowserAction::SubmitInput)
            }
        },
        SpecialKey::Backspace => if s.cursor > 0 {
            (
                InputState {
                    buffer: s.buffer.remove(s.cursor - 1),
                    cursor: (s.cursor - 1) as nat,
                    ..s
                },
                BrowserAction::DeleteBack,
            )
        } else {
            (s, BrowserAction::DeleteBack)
        },
        SpecialKey::Delete => if s.cursor < s.buffer.len() {
            (InputState { buffer: s.buffer.remove(s.cursor as int), ..s }, BrowserAction::DeleteForward)
        } else {
            (s, BrowserAction::DeleteForward)
        },
        SpecialKey::Left => if s.cursor > 0 {
            (InputState { cursor: (s.cursor - 1) as nat, ..s }, BrowserAction::MoveCursorLeft)
        } else {
            (s, BrowserAction::MoveCursorLeft)
        },
        SpecialKey::Right => if s.cursor < s.buffer.len() {
            (InputState { cursor: s.cursor + 1, ..s }, BrowserAction::MoveCursorRight)
        } else {
            (s, BrowserAction::MoveCursorRight)
        },
        SpecialKey::Home => (InputState { cursor: 0, ..s }, BrowserAction::MoveCursorHome),
        SpecialKey::End => (InputState { cursor: s.buffer.len(), ..s }, BrowserAction::MoveCursorEnd),
        _ => (s, BrowserAction::Noop),
    }
}

/// A special key in any mode.
pub open spec fn special_step(s: InputState, key: SpecialKey) -> (InputState, ActionView) {
    match s.mode {
        Mode::Normal => (
            InputState { pending: seq![], ..s },
            if key == SpecialKey::Escape {
                BrowserAction::ExitToNormal
            } else {
                BrowserAction::Noop
            },
        ),
        Mode::Follow => (
            if key == SpecialKey::Escape {
                InputState { mode: Mode::Normal, pending: seq![], ..s }
            } else {
                s
            },
            BrowserAction::ExitToNormal,
        ),
        _ => line_special_step(s, key),
    }
}

/// The status-bar label of a state.
pub open spec fn mode_label(s: InputState) -> Seq<char> {
    match s.mode {
        Mode::Normal => "NORMAL"@,
        Mode::Insert => "INSERT"@,
        Mode::Command => "COMMAND"@,
        Mode::Search => if s.search_forward {
            "SEARCH /"@
        } else {
            "SEARCH ?"@
        },
        Mode::Follow => "FOLLOW"@,
    }
}

/// `v` holds exactly the two characters `a`, `b`.
fn is_pair(v: &Vec<char>, a: char, b: char) -> (r: bool)
    ensures
        r == (v@ == seq![a, b]),
{
    if v.len() == 2 && v[0] == a && v[1] == b {
        assert(v@ =~= seq![a, b]);
        true
    } else {
        proof {
            if v@ == seq![a, b] {
                assert(v@.len() == 2 && v@[0] == a && v@[1] == b);
            }
        }
        false
    }
}

impl InputHandler {
    /// The cursor never goes past the end of the command line.
    pub open spec fn wf(&self) -> bool {
        input_wf(self@)
    }

    /// Create a new input handler in Normal mode.
    pub fn new() -> (r: Self)
        ensures
            r.wf(),
            r@ == (InputState {
                mode: Mode::Normal,
                pending: seq![],
                buffer: seq![],
                cursor: 0,
                search_forward: true,
            }),
    {
        Self {
            mode: Mode::Normal,
            pending: Vec::new(),
            command_buffer: Vec::new(),
            cursor_pos: 0,
            search_forward: true,
        }
    }

    /// Get the current mode.
    pub fn mode(&self) -> (r: Mode)
        ensures
            r == self@.mode,
    {
        self.mode
    }

    /// Get the current command buffer content.
    pub fn command_buffer(&self) -> (r: String)
        ensures
            r@ == self@.buffer,
    {
        string_from_chars(self.command_buffer.as_slice())
    }

    /// The cursor position as a byte offset into the command buffer: the
    /// UTF-8 length of the characters before the cursor, so always at a
    /// character boundary.
    pub fn cursor_pos(&self) -> (r: usize)
        requires
            self.wf(),
        ensures
            r == sat_usize(byte_len(self@.buffer.take(self@.cursor as int))),
    {
        let r = add_byte_len(0, self.command_buffer.as_slice(), 0, self.cursor_pos);
        assert(sat_usize(0) == 0);
        assert(self@.buffer.subrange(0, self@.cursor as int) =~= self@.buffer.take(self@.cursor as int));
        r
    }

    /// Get the mode indicator string for the status bar.
    pub fn mode_indicator(&self) -> (r: &'static str)
        ensures
            r@ == mode_label(self@),
    {
        match self.mode {
            Mode::Normal => "NORMAL",
            Mode::Insert => "INSERT",
            Mode::Command => "COMMAND",
            Mode::Search => if self.search_forward {
                "SEARCH /"
            } else {
                "SEARCH ?"
            },
            Mode::Follow => "FOLLOW",
        }
    }

    fn clear_line(&mut self)
        ensures
            final(self)@ == (InputState { buffer: seq![], cursor: 0, ..old(self)@ }),
    {
        self.command_buffer.clear();
        self.cursor_pos = 0;
    }

    /// Process a key input and return the resulting action.
    pub fn handle_key(&mut self, key: char, ctrl: bool, shift: bool) -> (r: BrowserAction)
        requires
            old(self).wf(),
            old(self)@.buffer.len() < usize::MAX,
        ensures
            final(self).wf(),
            (final(self)@, r@) == key_step(old(self)@, key, ctrl, shift),
    {
        match self.mode {
            Mode::Normal => self.handle_normal(key, ctrl, shift),
            Mode::Insert => self.handle_insert(key, ctrl),
            Mode::Command => self.handle_command(key, ctrl),
            Mode::Search => self.handle_search(key, ctrl),
            Mode::Follow => self.handle_follow(key),
        }
    }

    /// Process a special key (Enter, Escape, Backspace, etc.).
    pub fn handle_special_key(&mut self, key: SpecialKey) -> (r: BrowserAction)
        requires
            old(self).wf(),
        ensures
            final(self).wf(),
            (final(self)@, r@) == special_step(old(self)@, key),
    {
        match self.mode {
            Mode::Normal => self.handle_normal_special(key),
            Mode::Insert | Mode::Command | Mode::Search => self.handle_input_special(key),
            Mode::Follow => {
                if key == SpecialKey::Escape {
                    self.mode = Mode::Normal;
                    self.pending.clear();
                }
                BrowserAction::ExitToNormal
            },
        }
    }

    fn handle_normal(&mut self, key: char, ctrl: bool, shift: bool) -> (r: BrowserAction)
        requires
            old(self).wf(),
            old(self)@.mode == Mode::Normal,
        ensures
            final(self).wf(),
            (final(self)@, r@) == normal_step(old(self)@, key, ctrl, shift),
    {
        if ctrl {
            return match key {
                't' => BrowserAction::NewTab,
                'w' => BrowserAction::CloseTab,
                'd' => BrowserAction::HalfPageDown,
                'u' => BrowserAction::HalfPageUp,
                'f' => BrowserAction::PageDown,
                'b' => BrowserAction::PageUp,
                'c' => BrowserAction::Stop,
                'q' => BrowserAction::Quit,
                _ => BrowserAction::Noop,
            };
        }
        if self.pending.len() > 0 {
            self.pending.push(key);
            let r = if is_pair(&self.pending, 'g', 'g') {
                BrowserAction::ScrollToTop
            } else if is_pair(&self.pending, 'g', 't') {
                BrowserAction::NextTab
            } else if is_pair(&self.pending, 'g', 'T') {
                BrowserAction::PrevTab
            } else if is_pair(&self.pending, 'y', 'y') {
                BrowserAction::CopyUrl
            } else {
                BrowserAction::Noop
            };
            self.pending.clear();
            return r;
        }
        let r = match key {
            'j' => BrowserAction::ScrollDown(3),
            'k' => BrowserAction::ScrollUp(3),
            'h' => BrowserAction::ScrollLeft(3),
            'l' => BrowserAction::ScrollRight(3),
            'd' => BrowserAction::HalfPageDown,
            'u' => BrowserAction::HalfPageUp,
            'G' => BrowserAction::ScrollToBottom,
            'g' => {
                self.pending.push('g');
                assert(self.pending@ =~= seq!['g']);
                BrowserAction::Noop
            },
            'y' => {
                self.pending.push('y');
                assert(self.pending@ =~= seq!['y']);
                BrowserAction::Noop
            },
            'f' => {
                self.mode = Mode::Follow;
                BrowserAction::FollowLink
            },
            'F' => {
                self.mode = Mode::Follow;
                BrowserAction::FollowLinkNewTab
            },
            'o' => {
                self.mode = Mode::Insert;
                self.clear_line();
                BrowserAction::OpenUrl
            },
            'O' => {
                self.mode = Mode::Insert;
                self.clear_line();
                BrowserAction::OpenUrlNewTab
            },
            'H' => BrowserAction::GoBack,
            'L' => BrowserAction::GoForward,
            'r' => BrowserAction::Reload,
            't' => BrowserAction::NewTab,
            'x' => BrowserAction::CloseTab,
            'n' => BrowserAction::NextMatch,
            'N' => BrowserAction::PrevMatch,
            'p' => BrowserAction::OpenFromClipboard,
            'i' => {
                self.mode = Mode::Insert;
                BrowserAction::EnterInsertMode
            },
            '/' => {
                self.mode = Mode::Search;
                self.search_forward = true;
                self.clear_line();
                BrowserAction::SearchForward
            },
            '?' => {
                self.mode = Mode::Search;
                self.search_forward = false;
                self.clear_line();
                BrowserAction::SearchBackward
            },
            ':' => {
                self.mode = Mode::Command;
                self.clear_line();
                BrowserAction::EnterCommandMode
            },
            'b' => if shift {
                BrowserAction::ShowBookmarks
            } else {
                BrowserAction::Noop
            },
            'B' => BrowserAction::ToggleBookmark,
            _ => BrowserAction::Noop,
        };
        r
    }

    fn handle_normal_special(&mut self, key: SpecialKey) -> (r: BrowserAction)
        requires
            old(self).wf(),
            old(self)@.mode == Mode::Normal,
        ensures
            final(self).wf(),
            (final(self)@, r@) == special_step(old(self)@, key),
    {
        self.pending.clear();
        match key {
            SpecialKey::Escape => BrowserAction::ExitToNormal,
            _ => BrowserAction::Noop,
        }
    }

    fn handle_insert(&mut self, key: char, ctrl: bool) -> (r: BrowserAction)
        requires
            old(self).wf(),
            old(self)@.buffer.len() < usize::MAX,
        ensures
            final(self).wf(),
            (final(self)@, r@) == insert_step(old(self)@, key, ctrl),
    {
        if ctrl {
            return match key {
                'c' | '[' => {
                    self.mode = Mode::Normal;
                    BrowserAction::CancelInput
                },
                'a' => {
                    self.cursor_pos = 0;
                    BrowserAction::MoveCursorHome
                },
                'e' => {
                    self.cursor_pos = self.command_buffer.len();
                    BrowserAction::MoveCursorEnd
                },
                'w' => {
                    let pos = self.cursor_pos;
                    let new_pos = match rfind_char_exec(self.command_buffer.as_slice(), pos, ' ') {
                        Some(p) => p + 1,
                        None => 0,
                    };
                    let mut line = slice_chars(self.command_buffer.as_slice(), 0, new_pos);
                    let after = slice_chars(
                        self.command_buffer.as_slice(),
                        pos,
                        self.command_buffer.len(),
                    );
                    push_chars(&mut line, after.as_slice());
                    proof {
                        let b = old(self)@.buffer;
                        assert(b.subrange(0, new_pos as int) =~= b.take(new_pos as int));
                        assert(b.subrange(pos as int, b.len() as int) =~= b.skip(pos as int));
                    }
                    self.command_buffer = line;
                    self.cursor_pos = new_pos;
                    BrowserAction::Noop
                },
                _ => BrowserAction::Noop,
            };
        }
        self.command_buffer.insert(self.cursor_pos, key);
        self.cursor_pos = self.cursor_pos + 1;
        BrowserAction::InsertChar(key)
    }

    fn handle_input_special(&mut self, key: SpecialKey) -> (r: BrowserAction)
        requires
            old(self).wf(),
            old(self)@.mode != Mode::Normal,
            old(self)@.mode != Mode::Follow,
        ensures
            final(self).wf(),
            (final(self)@, r@) == line_special_step(old(self)@, key),
    {
        match key {
            SpecialKey::Escape => {
                self.mode = Mode::Normal;
                self.clear_line();
                BrowserAction::CancelInput
            },
            SpecialKey::Enter => {
                let cmd = self.command_buffer.clone();
                self.clear_line();
                if self.mode == Mode::Command {
                    self.mode = Mode::Normal;
                    BrowserAction::ExecuteCommand(string_from_chars(cmd.as_slice()))
                } else if self.mode == Mode::Search {
                    self.mode = Mode::Normal;
                    let mut text: Vec<char> = Vec::new();
                    if self.search_forward {
                        text.push('/');
                    } else {
                        text.push('?');
                    }
                    push_chars(&mut text, cmd.as_slice());
                    BrowserAction::ExecuteCommand(string_from_chars(text.as_slice()))
                } else {
                    self.mode = Mode::Normal;
                    BrowserAction::SubmitInput
                }
            },
            SpecialKey::Backspace => {
                if self.cursor_pos > 0 {
                    self.cursor_pos = self.cursor_pos - 1;
                    self.command_buffer.remove(self.cursor_pos);
                }
                BrowserAction::DeleteBack
            },
            SpecialKey::Delete => {
                if self.cursor_pos < self.command_buffer.len() {
                    self.command_buffer.remove(self.cursor_pos);
                }
                BrowserAction::DeleteForward
            },
            SpecialKey::Left => {
                if self.cursor_pos > 0 {
                    self.cursor_pos = self.cursor_pos - 1;
                }
                BrowserAction::MoveCursorLeft
            },
            SpecialKey::Right => {
                if self.cursor_pos < self.command_buffer.len() {
                    self.cursor_pos = self.cursor_pos + 1;
                }
                BrowserAction::MoveCursorRight
            },
            SpecialKey::Home => {
                self.cursor_pos = 0;
                BrowserAction::MoveCursorHome
            },
            SpecialKey::End => {
                self.cursor_pos = self.command_buffer.len();
                BrowserAction::MoveCursorEnd
            },
            _ => BrowserAction::Noop,
        }
    }

    fn handle_command(&mut self, key: char, ctrl: bool) -> (r: BrowserAction)
        requires
            old(self).wf(),
            old(self)@.buffer.len() < usize::MAX,
        ensures
            final(self).wf(),
            (final(self)@, r@) == insert_step(old(self)@, key, ctrl),
    {
        self.handle_insert(key, ctrl)
    }

    fn handle_search(&mut self, key: char, ctrl: bool) -> (r: BrowserAction)
        requires
            old(self).wf(),
            old(self)@.buffer.len() < usize::MAX,
        ensures
            final(self).wf(),
            (final(self)@, r@) == insert_step(old(self)@, key, ctrl),
    {
        self.handle_insert(key, ctrl)
    }

    fn handle_follow(&mut self, key: char) -> (r: BrowserAction)
        requires
            old(self).wf(),
        ensures
            final(self).wf(),
            (final(self)@, r@) == follow_step(old(self)@, key),
    {
        if is_ascii_alnum(key) {
            self.pending.push(key);
            BrowserAction::Noop
        } else {
            self.mode = Mode::Normal;
            self.pending.clear();
            BrowserAction::ExitToNormal
        }
    }

    /// Get the follow-mode pending hint label.
    pub fn follow_hint(&self) -> (r: String)
        ensures
            r@ == self@.pending,
    {
        string_from_chars(self.pending.as_slice())
    }

    /// Set the input buffer contents (e.g., pre-fill with current URL); the
    /// cursor goes to the end.
    pub fn set_buffer(&mut self, content: &str)
        requires
            old(self).wf(),
        ensures
            final(self).wf(),
            final(self)@ == (InputState {
                buffer: content@,
                cursor: content@.len(),
                ..old(self)@
            }),
    {
        self.command_buffer = chars_of(content);
        self.cursor_pos = self.command_buffer.len();
    }

    /// Force mode change; any pending keys are dropped.
    pub fn set_mode(&mut self, mode: Mode)
        requires
            old(self).wf(),
        ensures
            final(self).wf(),
            final(self)@ == (InputState { mode: mode, pending: seq![], ..old(self)@ }),
    {
        self.mode = mode;
        self.pending.clear();
    }
}

impl Default for InputHandler {
    fn default() -> (r: Self)
        ensures
            r.wf(),
            r@ == (InputState {
                mode: Mode::Normal,
                pending: seq![],
                buffer: seq![],
                cursor: 0,
                search_forward: true,
            }),
    {
        Self::new()
    }
}

/// The command word and its argument: the trimmed text split at its first
/// space.
pub open spec fn command_parts(cmd: Seq<char>) -> (Seq<char>, Seq<char>) {
    let t = trim(cmd);
    match find_char(t, ' ') {
        Some(i) => (t.take(i), t.skip(i + 1)),
        None => (t, seq![]),
    }
}

/// The action a `:` command names.
pub open spec fn command_action(cmd: Seq<char>) -> ActionView {
    let (c, arg) = command_parts(cmd);
    if c == "open"@ || c == "o"@ {
        if arg.len() == 0 {
            BrowserAction::OpenUrl
        } else {
            BrowserAction::ExecuteCommand("open "@ + arg)
        }
    } else if c == "tabopen"@ || c == "topen"@ || c == "to"@ {
        if arg.len() == 0 {
            BrowserAction::OpenUrlNewTab
        } else {
            BrowserAction::ExecuteCommand("tabopen "@ + arg)
        }
    } else if c == "bookmark"@ || c == "bm"@ {
        BrowserAction::ToggleBookmark
    } else if c == "bookmarks"@ || c == "bmarks"@ {
        BrowserAction::ShowBookmarks
    } else if c == "history"@ || c == "hist"@ {
        BrowserAction::ShowHistory
    } else if c == "quit"@ || c == "q"@ {
        BrowserAction::Quit
    } else if c == "reload"@ || c == "r"@ {
        BrowserAction::Reload
    } else if c == "back"@ {
        BrowserAction::GoBack
    } else if c == "forward"@ {
        BrowserAction::GoForward
    } else if c == "help"@ || c == "h"@ {
        BrowserAction::Help
    } else {
        BrowserAction::Noop
    }
}

/// Split command text into its command word and argument.
pub fn split_command(cmd: &str) -> (r: (Vec<char>, Vec<char>))
    ensures
        (r.0@, r.1@) == command_parts(cmd@),
{
    let all = chars_of(cmd);
    let t = trim_chars(all.as_slice());
    match find_char_exec(t.as_slice(), ' ') {
        Some(i) => {
            proof {
                lemma_find_char(t@, ' ');
            }
            let n = t.len();
            assert(i < n);
            let c = slice_chars(t.as_slice(), 0, i);
            let a = slice_chars(t.as_slice(), i + 1, n);
            assert(c@ =~= t@.take(i as int));
            assert(a@ =~= t@.skip(i + 1));
            (c, a)
        },
        None => (t, Vec::new()),
    }
}

/// Parse a command string into an action.
pub fn parse_command(cmd: &str) -> (r: BrowserAction)
    ensures
        r@ == command_action(cmd@),
{
    let (c, arg) = split_command(cmd);
    let c = c.as_slice();
    if eq_str(c, "open") || eq_str(c, "o") {
        if arg.len() == 0 {
            BrowserAction::OpenUrl
        } else {
            let mut text = chars_of("open ");
            push_chars(&mut text, arg.as_slice());
            BrowserAction::ExecuteCommand(string_from_chars(text.as_slice()))
        }
    } else if eq_str(c, "tabopen") || eq_str(c, "topen") || eq_str(c, "to") {
        if arg.len() == 0 {
            BrowserAction::OpenUrlNewTab
        } else {
            let mut text = chars_of("tabopen ");
            push_chars(&mut text, arg.as_slice());
            BrowserAction::ExecuteCommand(string_from_chars(text.as_slice()))
        }
    } else if eq_str(c, "bookmark") || eq_str(c, "bm") {
        BrowserAction::ToggleBookmark
    } else if eq_str(c, "bookmarks") || eq_str(c, "bmarks") {
        BrowserAction::ShowBookmarks
    } else if eq_str(c, "history") || eq_str(c, "hist") {
        BrowserAction::ShowHistory
    } else if eq_str(c, "quit") || eq_str(c, "q") {
        BrowserAction::Quit
    } else if eq_str(c, "reload") || eq_str(c, "r") {
        BrowserAction::Reload
    } else if eq_str(c, "back") {
        BrowserAction::GoBack
    } else if eq_str(c, "forward") {
        BrowserAction::GoForward
    } else if eq_str(c, "help") || eq_str(c, "h") {
        BrowserAction::Help
    } else {
        BrowserAction::Noop
    }
}

/// The letters hint labels are written with.
pub open spec fn hint_letters() -> Seq<char> {
    seq![
        'a', 'b', 'c', 'd', 'e', 'f', 'g', 'h', 'i', 'j', 'k', 'l', 'm', 'n', 'o', 'p', 'q', 'r',
        's', 't', 'u', 'v', 'w', 'x', 'y', 'z',
    ]
}

/// The `i`-th hint label: a, b, ..., z, aa, ab, ..., az, ba, ..., zz, aaa,
/// ... (the number `i + 1` in bijective base 26).
pub open spec fn hint_label(i: nat) -> Seq<char>
    decreases i,
{
    if i < 26 {
        seq![hint_letters()[i as int]]
    } else {
        hint_label((i / 26 - 1) as nat).push(hint_letters()[(i % 26) as int])
    }
}

fn hint_label_exec(i: usize, letters: &Vec<char>) -> (r: Vec<char>)
    requires
        letters@ == hint_letters(),
    ensures
        r@ == hint_label(i as nat),
    decreases i,
{
    if i < 26 {
        let mut v: Vec<char> = Vec::new();
        v.push(letters[i]);
        assert(v@ =~= hint_label(i as nat));
        v
    } else {
        let mut p = hint_label_exec(i / 26 - 1, letters);
        p.push(letters[i % 26]);
        p
    }
}

/// Generate hint labels for a given number of links (a, b, ..., z, aa,
/// ab, ...).
pub fn generate_hint_labels(count: usize) -> (r: Vec<String>)
    ensures
        r@.len() == count,
        forall|i: int| 0 <= i < count ==> (#[trigger] r@[i])@ == hint_label(i as nat),
{
    let letters: Vec<char> = vec![
        'a', 'b', 'c', 'd', 'e', 'f', 'g', 'h', 'i', 'j', 'k', 'l', 'm', 'n', 'o', 'p', 'q', 'r',
        's', 't', 'u', 'v', 'w', 'x', 'y', 'z',
    ];
    assert(letters@ =~= hint_letters());
    let mut labels: Vec<String> = Vec::new();
    let mut i: usize = 0;
    while i < count
        invariant
            i <= count,
            letters@ == hint_letters(),
            labels@.len() == i,
            forall|k: int| 0 <= k < i ==> (#[trigger] labels@[k])@ == hint_label(k as nat),
        decreases count - i,
    {
        let label = hint_label_exec(i, &letters);
        labels.push(string_from_chars(label.as_slice()));
        i = i + 1;
    }
    labels
}

// ---------------------------------------------------------------------------
// Laws
// ---------------------------------------------------------------------------

/// Escape always ends in Normal mode, whatever mode it is pressed in.
pub proof fn law_escape_returns_to_normal(s: InputState)
    ensures
        special_step(s, SpecialKey::Escape).0.mode == Mode::Normal,
{
}

/// On the command line, typing a character and then pressing Backspace
/// leaves the line, the cursor and the mode as they were.
pub proof fn law_backspace_undoes_typing(s: InputState, c: char, shift: bool)
    requires
        input_wf(s),
        s.mode == Mode::Insert || s.mode == Mode::Command || s.mode == Mode::Search,
    ensures
        special_step(key_step(s, c, false, shift).0, SpecialKey::Backspace).0 == s,
{
    let t = key_step(s, c, false, shift).0;
    assert(t.buffer == s.buffer.insert(s.cursor as int, c));
    assert(t.buffer.remove(s.cursor as int) =~= s.buffer);
}

/// Every transition keeps the cursor within the command line.
pub proof fn law_steps_keep_cursor_in_line(s: InputState, c: char, ctrl: bool, shift: bool, k: SpecialKey)
    requires
        input_wf(s),
    ensures
        input_wf(key_step(s, c, ctrl, shift).0),
        input_wf(special_step(s, k).0),
{
    if s.mode != Mode::Normal && s.mode != Mode::Follow && ctrl && c == 'w' {
        let p = word_start(s);
        let pre = s.buffer.take(s.cursor as int);
        crate::text::lemma_rfind_char(pre, ' ');
    }
}

/// The cursor of a handler, as a byte offset (what `cursor_pos` reports),
/// never passes the end of the command line's UTF-8 bytes and always falls
/// on a character boundary of them. Every call keeps a handler
/// well-formed, so this holds after any sequence of calls.
pub proof fn law_cursor_on_char_boundary(h: InputHandler)
    requires
        h.wf(),
    ensures
        byte_len(h@.buffer.take(h@.cursor as int)) <= byte_len(h@.buffer),
        vstd::utf8::is_char_boundary(
            vstd::utf8::encode_utf8(h@.buffer),
            byte_len(h@.buffer.take(h@.cursor as int)) as int,
        ),
{
    lemma_prefix_char_boundary(h@.buffer, h@.cursor as int);
}

/// Editing the command line (Insert, Command and Search modes): a typed
/// character goes in at the cursor, which moves past it; Backspace and
/// Delete remove the character before and at the cursor; the arrows, Home
/// and End (and Ctrl-A, Ctrl-E) move the cursor within the line; Ctrl-W
/// deletes back to just after the last space before the cursor; Escape
/// cancels, Ctrl-C and Ctrl-[ too; the mode stays as it was otherwise.
pub proof fn law_line_editing(s: InputState, c: char, shift: bool)
    requires
        input_wf(s),
        s.mode == Mode::Insert || s.mode == Mode::Command || s.mode == Mode::Search,
    ensures
        ({
            let (t, a) = key_step(s, c, false, shift);
            &&& t.buffer == s.buffer.take(s.cursor as int) + seq![c] + s.buffer.skip(s.cursor as int)
            &&& t.cursor == s.cursor + 1
            &&& t.mode == s.mode
            &&& a == ActionView::InsertChar(c)
        }),
        ({
            let (t, a) = special_step(s, SpecialKey::Backspace);
            &&& s.cursor > 0 ==> t.buffer == s.buffer.take(s.cursor - 1) + s.buffer.skip(s.cursor as int)
                && t.cursor == s.cursor - 1
            &&& s.cursor == 0 ==> t == s
            &&& a == ActionView::DeleteBack
        }),
        ({
            let (t, a) = special_step(s, SpecialKey::Delete);
            &&& s.cursor < s.buffer.len() ==> t.buffer == s.buffer.take(s.cursor as int) + s.buffer.skip(
                (s.cursor + 1) as int,
            ) && t.cursor == s.cursor
            &&& s.cursor == s.buffer.len() ==> t == s
            &&& a == ActionView::DeleteForward
        }),
        special_step(s, SpecialKey::Left) == (
            InputState { cursor: if s.cursor > 0 { (s.cursor - 1) as nat } else { 0 }, ..s },
            ActionView::MoveCursorLeft,
        ),
        special_step(s, SpecialKey::Right) == (
            InputState { cursor: if s.cursor < s.buffer.len() { s.cursor + 1 } else { s.cursor }, ..s },
            ActionView::MoveCursorRight,
        ),
        special_step(s, SpecialKey::Home) == (InputState { cursor: 0, ..s }, ActionView::MoveCursorHome),
        special_step(s, SpecialKey::End) == (
            InputState { cursor: s.buffer.len(), ..s },
            ActionView::MoveCursorEnd,
        ),
        key_step(s, 'a', true, shift) == (InputState { cursor: 0, ..s }, ActionView::MoveCursorHome),
        key_step(s, 'e', true, shift) == (
            InputState { cursor: s.buffer.len(), ..s },
            ActionView::MoveCursorEnd,
        ),
        special_step(s, SpecialKey::Escape) == (
            InputState { mode: Mode::Normal, buffer: seq![], cursor: 0, ..s },
            ActionView::CancelInput,
        ),
        key_step(s, 'c', true, shift) == (InputState { mode: Mode::Normal, ..s }, ActionView::CancelInput),
        key_step(s, '[', true, shift) == (InputState { mode: Mode::Normal, ..s }, ActionView::CancelInput),
        ({
            let (t, a) = key_step(s, 'w', true, shift);
            let p = t.cursor;
            &&& p <= s.cursor
            &&& t.buffer == s.buffer.take(p as int) + s.buffer.skip(s.cursor as int)
            &&& (p == 0 || s.buffer[p - 1] == ' ')
            &&& forall|j: int| p <= j < s.cursor ==> #[trigger] s.buffer[j] != ' '
            &&& t.mode == s.mode
            &&& a == ActionView::Noop
        }),
{
    assert(s.buffer.insert(s.cursor as int, c) =~= s.buffer.take(s.cursor as int) + seq![c] + s.buffer.skip(
        s.cursor as int,
    ));
    if s.cursor > 0 {
        assert(s.buffer.remove(s.cursor - 1) =~= s.buffer.take(s.cursor - 1) + s.buffer.skip(s.cursor as int));
    }
    if s.cursor < s.buffer.len() {
        assert(s.buffer.remove(s.cursor as int) =~= s.buffer.take(s.cursor as int) + s.buffer.skip((s.cursor + 1) as int));
    }
    let pre = s.buffer.take(s.cursor as int);
    crate::text::lemma_rfind_char(pre, ' ');
    assert forall|j: int| 0 <= j < s.cursor implies #[trigger] s.buffer[j] == pre[j] by {}
}

/// Enter submits the command line and goes back to Normal mode with an empty
/// line: Command mode runs the line as a command, Search mode runs it as a
/// search (`/` or `?` in front, by direction), Insert mode submits it.
pub proof fn law_enter_submits(s: InputState)
    requires
        s.mode == Mode::Insert || s.mode == Mode::Command || s.mode == Mode::Search,
    ensures
        special_step(s, SpecialKey::Enter).0 == (InputState { mode: Mode::Normal, buffer: seq![], cursor: 0, ..s }),
        s.mode == Mode::Command ==> special_step(s, SpecialKey::Enter).1 == ActionView::ExecuteCommand(s.buffer),
        s.mode == Mode::Search && s.search_forward ==> special_step(s, SpecialKey::Enter).1
            == ActionView::ExecuteCommand(seq!['/'] + s.buffer),
        s.mode == Mode::Search && !s.search_forward ==> special_step(s, SpecialKey::Enter).1
            == ActionView::ExecuteCommand(seq!['?'] + s.buffer),
        s.mode == Mode::Insert ==> special_step(s, SpecialKey::Enter).1 == ActionView::SubmitInput,
{
}

/// The text of the command `w` with the argument `arg`: the word alone, or
/// the word, a space and the argument.
pub open spec fn command_text(w: Seq<char>, arg: Seq<char>) -> Seq<char> {
    if arg.len() == 0 {
        w
    } else {
        w + seq![' '] + arg
    }
}

proof fn lemma_command_parts(w: Seq<char>, arg: Seq<char>)
    requires
        w.len() > 0,
        forall|k: int| 0 <= k < w.len() ==> !is_ws_spec(#[trigger] w[k]),
        trim(arg) == arg,
    ensures
        command_parts(command_text(w, arg)) == (w, arg),
{
    let t = command_text(w, arg);
    lemma_trim_ends(arg);
    assert(t[0] == w[0]);
    if arg.len() > 0 {
        assert(t.last() == arg.last());
    }
    lemma_trim_clean(t);
    lemma_find_char(t, ' ');
    assert(is_ws_spec(' '));
    if arg.len() == 0 {
        if find_char(t, ' ') is Some {
            let i = find_char(t, ' ').unwrap();
            assert(t[i] == w[i]);
        }
    } else {
        assert(t[w.len() as int] == ' ');
        let i = find_char(t, ' ').unwrap();
        if i < w.len() {
            assert(t[i] == w[i]);
        }
        assert(t.take(i) =~= w);
        assert(t.skip(i + 1) =~= arg);
    }
}

/// The commands typed after `:` and what each gives, for any argument
/// without surrounding whitespace: `open`/`o` and `tabopen`/`topen`/`to`
/// open the argument (in a new tab for the second), or ask for a URL when
/// there is none; the others name their action whatever follows them.
pub proof fn law_commands(arg: Seq<char>)
    requires
        trim(arg) == arg,
    ensures
        arg.len() == 0 ==> command_action(command_text("open"@, arg)) == ActionView::OpenUrl,
        arg.len() > 0 ==> command_action(command_text("open"@, arg)) == ActionView::ExecuteCommand(
            "open "@ + arg,
        ),
        arg.len() == 0 ==> command_action(command_text("o"@, arg)) == ActionView::OpenUrl,
        arg.len() > 0 ==> command_action(command_text("o"@, arg)) == ActionView::ExecuteCommand(
            "open "@ + arg,
        ),
        arg.len() == 0 ==> command_action(command_text("tabopen"@, arg)) == ActionView::OpenUrlNewTab,
        arg.len() > 0 ==> command_action(command_text("tabopen"@, arg)) == ActionView::ExecuteCommand(
            "tabopen "@ + arg,
        ),
        arg.len() == 0 ==> command_action(command_text("topen"@, arg)) == ActionView::OpenUrlNewTab,
        arg.len() > 0 ==> command_action(command_text("topen"@, arg)) == ActionView::ExecuteCommand(
            "tabopen "@ + arg,
        ),
        arg.len() == 0 ==> command_action(command_text("to"@, arg)) == ActionView::OpenUrlNewTab,
        arg.len() > 0 ==> command_action(command_text("to"@, arg)) == ActionView::ExecuteCommand(
            "tabopen "@ + arg,
        ),
        command_action(command_text("bookmark"@, arg)) == ActionView::ToggleBookmark,
        command_action(command_text("bm"@, arg)) == ActionView::ToggleBookmark,
        command_action(command_text("bookmarks"@, arg)) == ActionView::ShowBookmarks,
        command_action(command_text("bmarks"@, arg)) == ActionView::ShowBookmarks,
        command_action(command_text("history"@, arg)) == ActionView::ShowHistory,
        command_action(command_text("hist"@, arg)) == ActionView::ShowHistory,
        command_action(command_text("quit"@, arg)) == ActionView::Quit,
        command_action(command_text("q"@, arg)) == ActionView::Quit,
        command_action(command_text("reload"@, arg)) == ActionView::Reload,
        command_action(command_text("r"@, arg)) == ActionView::Reload,
        command_action(command_text("back"@, arg)) == ActionView::GoBack,
        command_action(command_text("forward"@, arg)) == ActionView::GoForward,
        command_action(command_text("help"@, arg)) == ActionView::Help,
        command_action(command_text("h"@, arg)) == ActionView::Help,
{
    reveal_strlit("open ");
    reveal_strlit("tabopen ");
    assert(command_parts(command_text("open"@, arg)) == ("open"@, arg)) by {
        reveal_strlit("open");
        assert forall|k: int| 0 <= k < "open"@.len() implies !is_ws_spec(#[trigger] "open"@[k]) by {
            if k == 0 {} else if k == 1 {} else if k == 2 {} else if k == 3 {}
        }
        lemma_command_parts("open"@, arg);
    }
    assert(command_parts(command_text("o"@, arg)) == ("o"@, arg)) by {
        reveal_strlit("o");
        assert forall|k: int| 0 <= k < "o"@.len() implies !is_ws_spec(#[trigger] "o"@[k]) by {
            if k == 0 {}
        }
        lemma_command_parts("o"@, arg);
    }
    assert(forall|u: Seq<char>| #![trigger u.len()] u == "o"@ ==> u != "open"@) by {
        reveal_strlit("open");
        reveal_strlit("o");
        assert("o"@.len() != "open"@.len());
    }
    assert(command_parts(command_text("tabopen"@, arg)) == ("tabopen"@, arg)) by {
        reveal_strlit("tabopen");
        assert forall|k: int| 0 <= k < "tabopen"@.len() implies !is_ws_spec(#[trigger] "tabopen"@[k]) by {
            if k == 0 {} else if k == 1 {} else if k == 2 {} else if k == 3 {} else if k == 4 {} else if k == 5 {} else if k == 6 {}
        }
        lemma_command_parts("tabopen"@, arg);
    }
    assert(forall|u: Seq<char>| #![trigger u.len()] u == "tabopen"@ ==> u != "open"@ && u != "o"@) by {
        reveal_strlit("open");
        reveal_strlit("o");
        reveal_strlit("tabopen");
        assert("tabopen"@.len() != "open"@.len());
        assert("tabopen"@.len() != "o"@.len());
    }
    assert(command_parts(command_text("topen"@, arg)) == ("topen"@, arg)) by {
        reveal_strlit("topen");
        assert forall|k: int| 0 <= k < "topen"@.len() implies !is_ws_spec(#[trigger] "topen"@[k]) by {
            if k == 0 {} else if k == 1 {} else if k == 2 {} else if k == 3 {} else if k == 4 {}
        }
        lemma_command_parts("topen"@, arg);
    }
    assert(forall|u: Seq<char>| #![trigger u.len()] u == "topen"@ ==> u != "open"@ && u != "o"@ && u != "tabopen"@) by {
        reveal_strlit("open");
        reveal_strlit("o");
        reveal_strlit("tabopen");
        reveal_strlit("topen");
        assert("topen"@.len() != "open"@.len());
        assert("topen"@.len() != "o"@.len());
        assert("topen"@.len() != "tabopen"@.len());
    }
    assert(command_parts(command_text("to"@, arg)) == ("to"@, arg)) by {
        reveal_strlit("to");
        assert forall|k: int| 0 <= k < "to"@.len() implies !is_ws_spec(#[trigger] "to"@[k]) by {
            if k == 0 {} else if k == 1 {}
        }
        lemma_command_parts("to"@, arg);
    }
    assert(forall|u: Seq<char>| #![trigger u.len()] u == "to"@ ==> u != "open"@ && u != "o"@ && u != "tabopen"@ && u != "topen"@) by {
        reveal_strlit("open");
        reveal_strlit("o");
        reveal_strlit("tabopen");
        reveal_strlit("topen");
        reveal_strlit("to");
        assert("to"@.len() != "open"@.len());
        assert("to"@.len() != "o"@.len());
        assert("to"@.len() != "tabopen"@.len());
        assert("to"@.len() != "topen"@.len());
    }
    assert(command_parts(command_text("bookmark"@, arg)) == ("bookmark"@, arg)) by {
        reveal_strlit("bookmark");
        assert forall|k: int| 0 <= k < "bookmark"@.len() implies !is_ws_spec(#[trigger] "bookmark"@[k]) by {
            if k == 0 {} else if k == 1 {} else if k == 2 {} else if k == 3 {} else if k == 4 {} else if k == 5 {} else if k == 6 {} else if k == 7 {}
        }
        lemma_command_parts("bookmark"@, arg);
    }
    assert(forall|u: Seq<char>| #![trigger u.len()] u == "bookmark"@ ==> u != "open"@ && u != "o"@ && u != "tabopen"@ && u != "topen"@ && u != "to"@) by {
        reveal_strlit("open");
        reveal_strlit("o");
        reveal_strlit("tabopen");
        reveal_strlit("topen");
        reveal_strlit("to");
        reveal_strlit("bookmark");
        assert("bookmark"@.len() != "open"@.len());
        assert("bookmark"@.len() != "o"@.len());
        assert("bookmark"@.len() != "tabopen"@.len());
        assert("bookmark"@.len() != "topen"@.len());
        assert("bookmark"@.len() != "to"@.len());
    }
    assert(command_parts(command_text("bm"@, arg)) == ("bm"@, arg)) by {
        reveal_strlit("bm");
        assert forall|k: int| 0 <= k < "bm"@.len() implies !is_ws_spec(#[trigger] "bm"@[k]) by {
            if k == 0 {} else if k == 1 {}
        }
        lemma_command_parts("bm"@, arg);
    }
    assert(forall|u: Seq<char>| #![trigger u.len()] u == "bm"@ ==> u != "open"@ && u != "o"@ && u != "tabopen"@ && u != "topen"@ && u != "to"@ && u != "bookmark"@) by {
        reveal_strlit("open");
        reveal_strlit("o");
        reveal_strlit("tabopen");
        reveal_strlit("topen");
        reveal_strlit("to");
        reveal_strlit("bookmark");
        reveal_strlit("bm");
        assert("bm"@.len() != "open"@.len());
        assert("bm"@.len() != "o"@.len());
        assert("bm"@.len() != "tabopen"@.len());
        assert("bm"@.len() != "topen"@.len());
        assert("bm"@[0] != "to"@[0]);
        assert("bm"@.len() != "bookmark"@.len());
    }
    assert(command_parts(command_text("bookmarks"@, arg)) == ("bookmarks"@, arg)) by {
        reveal_strlit("bookmarks");
        assert forall|k: int| 0 <= k < "bookmarks"@.len() implies !is_ws_spec(#[trigger] "bookmarks"@[k]) by {
            if k == 0 {} else if k == 1 {} else if k == 2 {} else if k == 3 {} else if k == 4 {} else if k == 5 {} else if k == 6 {} else if k == 7 {} else if k == 8 {}
        }
        lemma_command_parts("bookmarks"@, arg);
    }
    assert(forall|u: Seq<char>| #![trigger u.len()] u == "bookmarks"@ ==> u != "open"@ && u != "o"@ && u != "tabopen"@ && u != "topen"@ && u != "to"@ && u != "bookmark"@ && u != "bm"@) by {
        reveal_strlit("open");
        reveal_strlit("o");
        reveal_strlit("tabopen");
        reveal_strlit("topen");
        reveal_strlit("to");
        reveal_strlit("bookmark");
        reveal_strlit("bm");
        reveal_strlit("bookmarks");
        assert("bookmarks"@.len() != "open"@.len());
        assert("bookmarks"@.len() != "o"@.len());
        assert("bookmarks"@.len() != "tabopen"@.len());
        assert("bookmarks"@.len() != "topen"@.len());
        assert("bookmarks"@.len() != "to"@.len());
        assert("bookmarks"@.len() != "bookmark"@.len());
        assert("bookmarks"@.len() != "bm"@.len());
    }
    assert(command_parts(command_text("bmarks"@, arg)) == ("bmarks"@, arg)) by {
        reveal_strlit("bmarks");
        assert forall|k: int| 0 <= k < "bmarks"@.len() implies !is_ws_spec(#[trigger] "bmarks"@[k]) by {
            if k == 0 {} else if k == 1 {} else if k == 2 {} else if k == 3 {} else if k == 4 {} else if k == 5 {}
        }
        lemma_command_parts("bmarks"@, arg);
    }
    assert(forall|u: Seq<char>| #![trigger u.len()] u == "bmarks"@ ==> u != "open"@ && u != "o"@ && u != "tabopen"@ && u != "topen"@ && u != "to"@ && u != "bookmark"@ && u != "bm"@ && u != "bookmarks"@) by {
        reveal_strlit("open");
        reveal_strlit("o");
        reveal_strlit("tabopen");
        reveal_strlit("topen");
        reveal_strlit("to");
        reveal_strlit("bookmark");
        reveal_strlit("bm");
        reveal_strlit("bookmarks");
        reveal_strlit("bmarks");
        assert("bmarks"@.len() != "open"@.len());
        assert("bmarks"@.len() != "o"@.len());
        assert("bmarks"@.len() != "tabopen"@.len());
        assert("bmarks"@.len() != "topen"@.len());
        assert("bmarks"@.len() != "to"@.len());
        assert("bmarks"@.len() != "bookmark"@.len());
        assert("bmarks"@.len() != "bm"@.len());
        assert("bmarks"@.len() != "bookmarks"@.len());
    }
    assert(command_parts(command_text("history"@, arg)) == ("history"@, arg)) by {
        reveal_strlit("history");
        assert forall|k: int| 0 <= k < "history"@.len() implies !is_ws_spec(#[trigger] "history"@[k]) by {
            if k == 0 {} else if k == 1 {} else if k == 2 {} else if k == 3 {} else if k == 4 {} else if k == 5 {} else if k == 6 {}
        }
        lemma_command_parts("history"@, arg);
    }
    assert(forall|u: Seq<char>| #![trigger u.len()] u == "history"@ ==> u != "open"@ && u != "o"@ && u != "tabopen"@ && u != "topen"@ && u != "to"@ && u != "bookmark"@ && u != "bm"@ && u != "bookmarks"@ && u != "bmarks"@) by {
        reveal_strlit("open");
        reveal_strlit("o");
        reveal_strlit("tabopen");
        reveal_strlit("topen");
        reveal_strlit("to");
        reveal_strlit("bookmark");
        reveal_strlit("bm");
        reveal_strlit("bookmarks");
        reveal_strlit("bmarks");
        reveal_strlit("history");
        assert("history"@.len() != "open"@.len());
        assert("history"@.len() != "o"@.len());
        assert("history"@[0] != "tabopen"@[0]);
        assert("history"@.len() != "topen"@.len());
        assert("history"@.len() != "to"@.len());
        assert("history"@.len() != "bookmark"@.len());
        assert("history"@.len() != "bm"@.len());
        assert("history"@.len() != "bookmarks"@.len());
        assert("history"@.len() != "bmarks"@.len());
    }
    assert(command_parts(command_text("hist"@, arg)) == ("hist"@, arg)) by {
        reveal_strlit("hist");
        assert forall|k: int| 0 <= k < "hist"@.len() implies !is_ws_spec(#[trigger] "hist"@[k]) by {
            if k == 0 {} else if k == 1 {} else if k == 2 {} else if k == 3 {}
        }
        lemma_command_parts("hist"@, arg);
    }
    assert(forall|u: Seq<char>| #![trigger u.len()] u == "hist"@ ==> u != "open"@ && u != "o"@ && u != "tabopen"@ && u != "topen"@ && u != "to"@ && u != "bookmark"@ && u != "bm"@ && u != "bookmarks"@ && u != "bmarks"@ && u != "history"@) by {
        reveal_strlit("open");
        reveal_strlit("o");
        reveal_strlit("tabopen");
        reveal_strlit("topen");
        reveal_strlit("to");
        reveal_strlit("bookmark");
        reveal_strlit("bm");
        reveal_strlit("bookmarks");
        reveal_strlit("bmarks");
        reveal_strlit("history");
        reveal_strlit("hist");
        assert("hist"@[0] != "open"@[0]);
        assert("hist"@.len() != "o"@.len());
        assert("hist"@.len() != "tabopen"@.len());
        assert("hist"@.len() != "topen"@.len());
        assert("hist"@.len() != "to"@.len());
        assert("hist"@.len() != "bookmark"@.len());
        assert("hist"@.len() != "bm"@.len());
        assert("hist"@.len() != "bookmarks"@.len());
        assert("hist"@.len() != "bmarks"@.len());
        assert("hist"@.len() != "history"@.len());
    }
    assert(command_parts(command_text("quit"@, arg)) == ("quit"@, arg)) by {
        reveal_strlit("quit");
        assert forall|k: int| 0 <= k < "quit"@.len() implies !is_ws_spec(#[trigger] "quit"@[k]) by {
            if k == 0 {} else if k == 1 {} else if k == 2 {} else if k == 3 {}
        }
        lemma_command_parts("quit"@, arg);
    }
    assert(forall|u: Seq<char>| #![trigger u.len()] u == "quit"@ ==> u != "open"@ && u != "o"@ && u != "tabopen"@ && u != "topen"@ && u != "to"@ && u != "bookmark"@ && u != "bm"@ && u != "bookmarks"@ && u != "bmarks"@ && u != "history"@ && u != "hist"@) by {
        reveal_strlit("open");
        reveal_strlit("o");
        reveal_strlit("tabopen");
        reveal_strlit("topen");
        reveal_strlit("to");
        reveal_strlit("bookmark");
        reveal_strlit("bm");
        reveal_strlit("bookmarks");
        reveal_strlit("bmarks");
        reveal_strlit("history");
        reveal_strlit("hist");
        reveal_strlit("quit");
        assert("quit"@[0] != "open"@[0]);
        assert("quit"@.len() != "o"@.len());
        assert("quit"@.len() != "tabopen"@.len());
        assert("quit"@.len() != "topen"@.len());
        assert("quit"@.len() != "to"@.len());
        assert("quit"@.len() != "bookmark"@.len());
        assert("quit"@.len() != "bm"@.len());
        assert("quit"@.len() != "bookmarks"@.len());
        assert("quit"@.len() != "bmarks"@.len());
        assert("quit"@.len() != "history"@.len());
        assert("quit"@[0] != "hist"@[0]);
    }
    assert(command_parts(command_text("q"@, arg)) == ("q"@, arg)) by {
        reveal_strlit("q");
        assert forall|k: int| 0 <= k < "q"@.len() implies !is_ws_spec(#[trigger] "q"@[k]) by {
            if k == 0 {}
        }
        lemma_command_parts("q"@, arg);
    }
    assert(forall|u: Seq<char>| #![trigger u.len()] u == "q"@ ==> u != "open"@ && u != "o"@ && u != "tabopen"@ && u != "topen"@ && u != "to"@ && u != "bookmark"@ && u != "bm"@ && u != "bookmarks"@ && u != "bmarks"@ && u != "history"@ && u != "hist"@ && u != "quit"@) by {
        reveal_strlit("open");
        reveal_strlit("o");
        reveal_strlit("tabopen");
        reveal_strlit("topen");
        reveal_strlit("to");
        reveal_strlit("bookmark");
        reveal_strlit("bm");
        reveal_strlit("bookmarks");
        reveal_strlit("bmarks");
        reveal_strlit("history");
        reveal_strlit("hist");
        reveal_strlit("quit");
        reveal_strlit("q");
        assert("q"@.len() != "open"@.len());
        assert("q"@[0] != "o"@[0]);
        assert("q"@.len() != "tabopen"@.len());
        assert("q"@.len() != "topen"@.len());
        assert("q"@.len() != "to"@.len());
        assert("q"@.len() != "bookmark"@.len());
        assert("q"@.len() != "bm"@.len());
        assert("q"@.len() != "bookmarks"@.len());
        assert("q"@.len() != "bmarks"@.len());
        assert("q"@.len() != "history"@.len());
        assert("q"@.len() != "hist"@.len());
        assert("q"@.len() != "quit"@.len());
    }
    assert(command_parts(command_text("reload"@, arg)) == ("reload"@, arg)) by {
        reveal_strlit("reload");
        assert forall|k: int| 0 <= k < "reload"@.len() implies !is_ws_spec(#[trigger] "reload"@[k]) by {
            if k == 0 {} else if k == 1 {} else if k == 2 {} else if k == 3 {} else if k == 4 {} else if k == 5 {}
        }
        lemma_command_parts("reload"@, arg);
    }
    assert(forall|u: Seq<char>| #![trigger u.len()] u == "reload"@ ==> u != "open"@ && u != "o"@ && u != "tabopen"@ && u != "topen"@ && u != "to"@ && u != "bookmark"@ && u != "bm"@ && u != "bookmarks"@ && u != "bmarks"@ && u != "history"@ && u != "hist"@ && u != "quit"@ && u != "q"@) by {
        reveal_strlit("open");
        reveal_strlit("o");
        reveal_strlit("tabopen");
        reveal_strlit("topen");
        reveal_strlit("to");
        reveal_strlit("bookmark");
        reveal_strlit("bm");
        reveal_strlit("bookmarks");
        reveal_strlit("bmarks");
        reveal_strlit("history");
        reveal_strlit("hist");
        reveal_strlit("quit");
        reveal_strlit("q");
        reveal_strlit("reload");
        assert("reload"@.len() != "open"@.len());
        assert("reload"@.len() != "o"@.len());
        assert("reload"@.len() != "tabopen"@.len());
        assert("reload"@.len() != "topen"@.len());
        assert("reload"@.len() != "to"@.len());
        assert("reload"@.len() != "bookmark"@.len());
        assert("reload"@.len() != "bm"@.len());
        assert("reload"@.len() != "bookmarks"@.len());
        assert("reload"@[0] != "bmarks"@[0]);
        assert("reload"@.len() != "history"@.len());
        assert("reload"@.len() != "hist"@.len());
        assert("reload"@.len() != "quit"@.len());
        assert("reload"@.len() != "q"@.len());
    }
    assert(command_parts(command_text("r"@, arg)) == ("r"@, arg)) by {
        reveal_strlit("r");
        assert forall|k: int| 0 <= k < "r"@.len() implies !is_ws_spec(#[trigger] "r"@[k]) by {
            if k == 0 {}
        }
        lemma_command_parts("r"@, arg);
    }
    assert(forall|u: Seq<char>| #![trigger u.len()] u == "r"@ ==> u != "open"@ && u != "o"@ && u != "tabopen"@ && u != "topen"@ && u != "to"@ && u != "bookmark"@ && u != "bm"@ && u != "bookmarks"@ && u != "bmarks"@ && u != "history"@ && u != "hist"@ && u != "quit"@ && u != "q"@ && u != "reload"@) by {
        reveal_strlit("open");
        reveal_strlit("o");
        reveal_strlit("tabopen");
        reveal_strlit("topen");
        reveal_strlit("to");
        reveal_strlit("bookmark");
        reveal_strlit("bm");
        reveal_strlit("bookmarks");
        reveal_strlit("bmarks");
        reveal_strlit("history");
        reveal_strlit("hist");
        reveal_strlit("quit");
        reveal_strlit("q");
        reveal_strlit("reload");
        reveal_strlit("r");
        assert("r"@.len() != "open"@.len());
        assert("r"@[0] != "o"@[0]);
        assert("r"@.len() != "tabopen"@.len());
        assert("r"@.len() != "topen"@.len());
        assert("r"@.len() != "to"@.len());
        assert("r"@.len() != "bookmark"@.len());
        assert("r"@.len() != "bm"@.len());
        assert("r"@.len() != "bookmarks"@.len());
        assert("r"@.len() != "bmarks"@.len());
        assert("r"@.len() != "history"@.len());
        assert("r"@.len() != "hist"@.len());
        assert("r"@.len() != "quit"@.len());
        assert("r"@[0] != "q"@[0]);
        assert("r"@.len() != "reload"@.len());
    }
    assert(command_parts(command_text("back"@, arg)) == ("back"@, arg)) by {
        reveal_strlit("back");
        assert forall|k: int| 0 <= k < "back"@.len() implies !is_ws_spec(#[trigger] "back"@[k]) by {
            if k == 0 {} else if k == 1 {} else if k == 2 {} else if k == 3 {}
        }
        lemma_command_parts("back"@, arg);
    }
    assert(forall|u: Seq<char>| #![trigger u.len()] u == "back"@ ==> u != "open"@ && u != "o"@ && u != "tabopen"@ && u != "topen"@ && u != "to"@ && u != "bookmark"@ && u != "bm"@ && u != "bookmarks"@ && u != "bmarks"@ && u != "history"@ && u != "hist"@ && u != "quit"@ && u != "q"@ && u != "reload"@ && u != "r"@) by {
        reveal_strlit("open");
        reveal_strlit("o");
        reveal_strlit("tabopen");
        reveal_strlit("topen");
        reveal_strlit("to");
        reveal_strlit("bookmark");
        reveal_strlit("bm");
        reveal_strlit("bookmarks");
        reveal_strlit("bmarks");
        reveal_strlit("history");
        reveal_strlit("hist");
        reveal_strlit("quit");
        reveal_strlit("q");
        reveal_strlit("reload");
        reveal_strlit("r");
        reveal_strlit("back");
        assert("back"@[0] != "open"@[0]);
        assert("back"@.len() != "o"@.len());
        assert("back"@.len() != "tabopen"@.len());
        assert("back"@.len() != "topen"@.len());
        assert("back"@.len() != "to"@.len());
        assert("back"@.len() != "bookmark"@.len());
        assert("back"@.len() != "bm"@.len());
        assert("back"@.len() != "bookmarks"@.len());
        assert("back"@.len() != "bmarks"@.len());
        assert("back"@.len() != "history"@.len());
        assert("back"@[0] != "hist"@[0]);
        assert("back"@[0] != "quit"@[0]);
        assert("back"@.len() != "q"@.len());
        assert("back"@.len() != "reload"@.len());
        assert("back"@.len() != "r"@.len());
    }
    assert(command_parts(command_text("forward"@, arg)) == ("forward"@, arg)) by {
        reveal_strlit("forward");
        assert forall|k: int| 0 <= k < "forward"@.len() implies !is_ws_spec(#[trigger] "forward"@[k]) by {
            if k == 0 {} else if k == 1 {} else if k == 2 {} else if k == 3 {} else if k == 4 {} else if k == 5 {} else if k == 6 {}
        }
        lemma_command_parts("forward"@, arg);
    }
    assert(forall|u: Seq<char>| #![trigger u.len()] u == "forward"@ ==> u != "open"@ && u != "o"@ && u != "tabopen"@ && u != "topen"@ && u != "to"@ && u != "bookmark"@ && u != "bm"@ && u != "bookmarks"@ && u != "bmarks"@ && u != "history"@ && u != "hist"@ && u != "quit"@ && u != "q"@ && u != "reload"@ && u != "r"@ && u != "back"@) by {
        reveal_strlit("open");
        reveal_strlit("o");
        reveal_strlit("tabopen");
        reveal_strlit("topen");
        reveal_strlit("to");
        reveal_strlit("bookmark");
        reveal_strlit("bm");
        reveal_strlit("bookmarks");
        reveal_strlit("bmarks");
        reveal_strlit("history");
        reveal_strlit("hist");
        reveal_strlit("quit");
        reveal_strlit("q");
        reveal_strlit("reload");
        reveal_strlit("r");
        reveal_strlit("back");
        reveal_strlit("forward");
        assert("forward"@.len() != "open"@.len());
        assert("forward"@.len() != "o"@.len());
        assert("forward"@[0] != "tabopen"@[0]);
        assert("forward"@.len() != "topen"@.len());
        assert("forward"@.len() != "to"@.len());
        assert("forward"@.len() != "bookmark"@.len());
        assert("forward"@.len() != "bm"@.len());
        assert("forward"@.len() != "bookmarks"@.len());
        assert("forward"@.len() != "bmarks"@.len());
        assert("forward"@[0] != "history"@[0]);
        assert("forward"@.len() != "hist"@.len());
        assert("forward"@.len() != "quit"@.len());
        assert("forward"@.len() != "q"@.len());
        assert("forward"@.len() != "reload"@.len());
        assert("forward"@.len() != "r"@.len());
        assert("forward"@.len() != "back"@.len());
    }
    assert(command_parts(command_text("help"@, arg)) == ("help"@, arg)) by {
        reveal_strlit("help");
        assert forall|k: int| 0 <= k < "help"@.len() implies !is_ws_spec(#[trigger] "help"@[k]) by {
            if k == 0 {} else if k == 1 {} else if k == 2 {} else if k == 3 {}
        }
        lemma_command_parts("help"@, arg);
    }
    assert(forall|u: Seq<char>| #![trigger u.len()] u == "help"@ ==> u != "open"@ && u != "o"@ && u != "tabopen"@ && u != "topen"@ && u != "to"@ && u != "bookmark"@ && u != "bm"@ && u != "bookmarks"@ && u != "bmarks"@ && u != "history"@ && u != "hist"@ && u != "quit"@ && u != "q"@ && u != "reload"@ && u != "r"@ && u != "back"@ && u != "forward"@) by {
        reveal_strlit("open");
        reveal_strlit("o");
        reveal_strlit("tabopen");
        reveal_strlit("topen");
        reveal_strlit("to");
        reveal_strlit("bookmark");
        reveal_strlit("bm");
        reveal_strlit("bookmarks");
        reveal_strlit("bmarks");
        reveal_strlit("history");
        reveal_strlit("hist");
        reveal_strlit("quit");
        reveal_strlit("q");
        reveal_strlit("reload");
        reveal_strlit("r");
        reveal_strlit("back");
        reveal_strlit("forward");
        reveal_strlit("help");
        assert("help"@[0] != "open"@[0]);
        assert("help"@.len() != "o"@.len());
        assert("help"@.len() != "tabopen"@.len());
        assert("help"@.len() != "topen"@.len());
        assert("help"@.len() != "to"@.len());
        assert("help"@.len() != "bookmark"@.len());
        assert("help"@.len() != "bm"@.len());
        assert("help"@.len() != "bookmarks"@.len());
        assert("help"@.len() != "bmarks"@.len());
        assert("help"@.len() != "history"@.len());
        assert("help"@[1] != "hist"@[1]);
        assert("help"@[0] != "quit"@[0]);
        assert("help"@.len() != "q"@.len());
        assert("help"@.len() != "reload"@.len());
        assert("help"@.len() != "r"@.len());
        assert("help"@[0] != "back"@[0]);
        assert("help"@.len() != "forward"@.len());
    }
    assert(command_parts(command_text("h"@, arg)) == ("h"@, arg)) by {
        reveal_strlit("h");
        assert forall|k: int| 0 <= k < "h"@.len() implies !is_ws_spec(#[trigger] "h"@[k]) by {
            if k == 0 {}
        }
        lemma_command_parts("h"@, arg);
    }
    assert(forall|u: Seq<char>| #![trigger u.len()] u == "h"@ ==> u != "open"@ && u != "o"@ && u != "tabopen"@ && u != "topen"@ && u != "to"@ && u != "bookmark"@ && u != "bm"@ && u != "bookmarks"@ && u != "bmarks"@ && u != "history"@ && u != "hist"@ && u != "quit"@ && u != "q"@ && u != "reload"@ && u != "r"@ && u != "back"@ && u != "forward"@ && u != "help"@) by {
        reveal_strlit("open");
        reveal_strlit("o");
        reveal_strlit("tabopen");
        reveal_strlit("topen");
        reveal_strlit("to");
        reveal_strlit("bookmark");
        reveal_strlit("bm");
        reveal_strlit("bookmarks");
        reveal_strlit("bmarks");
        reveal_strlit("history");
        reveal_strlit("hist");
        reveal_strlit("quit");
        reveal_strlit("q");
        reveal_strlit("reload");
        reveal_strlit("r");
        reveal_strlit("back");
        reveal_strlit("forward");
        reveal_strlit("help");
        reveal_strlit("h");
        assert("h"@.len() != "open"@.len());
        assert("h"@[0] != "o"@[0]);
        assert("h"@.len() != "tabopen"@.len());
        assert("h"@.len() != "topen"@.len());
        assert("h"@.len() != "to"@.len());
        assert("h"@.len() != "bookmark"@.len());
        assert("h"@.len() != "bm"@.len());
        assert("h"@.len() != "bookmarks"@.len());
        assert("h"@.len() != "bmarks"@.len());
        assert("h"@.len() != "history"@.len());
        assert("h"@.len() != "hist"@.len());
        assert("h"@.len() != "quit"@.len());
        assert("h"@[0] != "q"@[0]);
        assert("h"@.len() != "reload"@.len());
        assert("h"@[0] != "r"@[0]);
        assert("h"@.len() != "back"@.len());
        assert("h"@.len() != "forward"@.len());
        assert("h"@.len() != "help"@.len());
    }
}

/// Follow mode: a letter or digit extends the typed hint; any other key
/// leaves for Normal mode, dropping the hint. Escape leaves too; other
/// special keys keep the state. Every special key answers ExitToNormal.
pub proof fn law_follow_keys(s: InputState, c: char, k: SpecialKey)
    requires
        s.mode == Mode::Follow,
    ensures
        ('a' <= c <= 'z' || 'A' <= c <= 'Z' || '0' <= c <= '9') ==> key_step(s, c, false, false) == (
            InputState { pending: s.pending.push(c), ..s },
            ActionView::Noop,
        ),
        !('a' <= c <= 'z' || 'A' <= c <= 'Z' || '0' <= c <= '9') ==> key_step(s, c, false, false) == (
            InputState { mode: Mode::Normal, pending: seq![], ..s },
            ActionView::ExitToNormal,
        ),
        special_step(s, SpecialKey::Escape) == (
            InputState { mode: Mode::Normal, pending: seq![], ..s },
            ActionView::ExitToNormal,
        ),
        k != SpecialKey::Escape ==> special_step(s, k) == (s, ActionView::ExitToNormal),
{
}

/// In Normal mode a special key drops any pending key; Escape answers
/// ExitToNormal and the others nothing.
pub proof fn law_normal_special_keys(s: InputState, k: SpecialKey)
    requires
        s.mode == Mode::Normal,
    ensures
        special_step(s, k).0 == (InputState { pending: seq![], ..s }),
        special_step(s, k).1 == if k == SpecialKey::Escape {
            ActionView::ExitToNormal
        } else {
            ActionView::Noop
        },
{
}

/// The status-bar label names the mode, and in Search mode the direction.
pub proof fn law_mode_labels(s: InputState)
    ensures
        s.mode == Mode::Normal ==> mode_label(s) == "NORMAL"@,
        s.mode == Mode::Insert ==> mode_label(s) == "INSERT"@,
        s.mode == Mode::Command ==> mode_label(s) == "COMMAND"@,
        s.mode == Mode::Search && s.search_forward ==> mode_label(s) == "SEARCH /"@,
        s.mode == Mode::Search && !s.search_forward ==> mode_label(s) == "SEARCH ?"@,
        s.mode == Mode::Follow ==> mode_label(s) == "FOLLOW"@,
{
}

/// The Normal-mode key map, with nothing pending: each single key gives its
/// own action (`j`/`k`/`h`/`l` scroll by three, `G` to the bottom, `H`/`L`
/// go back and forward, ...), leaving the state as it was, and the keys that
/// open a mode enter it, with an empty line where one is typed.
pub proof fn law_normal_keys(s: InputState, shift: bool)
    requires
        s.mode == Mode::Normal,
        s.pending.len() == 0,
    ensures
        key_step(s, 'j', false, shift) == (s, ActionView::ScrollDown(3)),
        key_step(s, 'k', false, shift) == (s, ActionView::ScrollUp(3)),
        key_step(s, 'h', false, shift) == (s, ActionView::ScrollLeft(3)),
        key_step(s, 'l', false, shift) == (s, ActionView::ScrollRight(3)),
        key_step(s, 'd', false, shift) == (s, ActionView::HalfPageDown),
        key_step(s, 'u', false, shift) == (s, ActionView::HalfPageUp),
        key_step(s, 'G', false, shift) == (s, ActionView::ScrollToBottom),
        key_step(s, 'H', false, shift) == (s, ActionView::GoBack),
        key_step(s, 'L', false, shift) == (s, ActionView::GoForward),
        key_step(s, 'r', false, shift) == (s, ActionView::Reload),
        key_step(s, 't', false, shift) == (s, ActionView::NewTab),
        key_step(s, 'x', false, shift) == (s, ActionView::CloseTab),
        key_step(s, 'n', false, shift) == (s, ActionView::NextMatch),
        key_step(s, 'N', false, shift) == (s, ActionView::PrevMatch),
        key_step(s, 'p', false, shift) == (s, ActionView::OpenFromClipboard),
        key_step(s, 'B', false, shift) == (s, ActionView::ToggleBookmark),
        key_step(s, 'b', false, true) == (s, ActionView::ShowBookmarks),
        key_step(s, 'b', false, false) == (s, ActionView::Noop),
        key_step(s, 'f', false, shift) == (InputState { mode: Mode::Follow, ..s }, ActionView::FollowLink),
        key_step(s, 'F', false, shift) == (InputState { mode: Mode::Follow, ..s }, ActionView::FollowLinkNewTab),
        key_step(s, 'i', false, shift) == (InputState { mode: Mode::Insert, ..s }, ActionView::EnterInsertMode),
        key_step(s, 'o', false, shift) == (
            InputState { mode: Mode::Insert, buffer: seq![], cursor: 0, ..s },
            ActionView::OpenUrl,
        ),
        key_step(s, 'O', false, shift) == (
            InputState { mode: Mode::Insert, buffer: seq![], cursor: 0, ..s },
            ActionView::OpenUrlNewTab,
        ),
        key_step(s, ':', false, shift) == (
            InputState { mode: Mode::Command, buffer: seq![], cursor: 0, ..s },
            ActionView::EnterCommandMode,
        ),
        key_step(s, '/', false, shift) == (
            InputState { mode: Mode::Search, buffer: seq![], cursor: 0, search_forward: true, ..s },
            ActionView::SearchForward,
        ),
        key_step(s, '?', false, shift) == (
            InputState { mode: Mode::Search, buffer: seq![], cursor: 0, search_forward: false, ..s },
            ActionView::SearchBackward,
        ),
        key_step(s, 'g', false, shift) == (InputState { pending: seq!['g'], ..s }, ActionView::Noop),
        key_step(s, 'y', false, shift) == (InputState { pending: seq!['y'], ..s }, ActionView::Noop),
{
}

/// With Ctrl held, Normal-mode keys give their own actions whatever is
/// pending, and change nothing.
pub proof fn law_normal_ctrl_keys(s: InputState, shift: bool)
    requires
        s.mode == Mode::Normal,
    ensures
        key_step(s, 't', true, shift) == (s, ActionView::NewTab),
        key_step(s, 'w', true, shift) == (s, ActionView::CloseTab),
        key_step(s, 'd', true, shift) == (s, ActionView::HalfPageDown),
        key_step(s, 'u', true, shift) == (s, ActionView::HalfPageUp),
        key_step(s, 'f', true, shift) == (s, ActionView::PageDown),
        key_step(s, 'b', true, shift) == (s, ActionView::PageUp),
        key_step(s, 'c', true, shift) == (s, ActionView::Stop),
        key_step(s, 'q', true, shift) == (s, ActionView::Quit),
{
}

/// Two-key sequences: `gg` goes to the top, `gt`/`gT` switch tabs, `yy`
/// copies the URL; any other second key does nothing. Either way the state
/// afterwards is the one before the first key.
pub proof fn law_two_key_sequences(s: InputState, sh1: bool, sh2: bool)
    requires
        s.mode == Mode::Normal,
        s.pending.len() == 0,
    ensures
        key_step(key_step(s, 'g', false, sh1).0, 'g', false, sh2) == (s, ActionView::ScrollToTop),
        key_step(key_step(s, 'g', false, sh1).0, 't', false, sh2) == (s, ActionView::NextTab),
        key_step(key_step(s, 'g', false, sh1).0, 'T', false, sh2) == (s, ActionView::PrevTab),
        key_step(key_step(s, 'y', false, sh1).0, 'y', false, sh2) == (s, ActionView::CopyUrl),
        key_step(key_step(s, 'g', false, sh1).0, 'j', false, sh2) == (s, ActionView::Noop),
        key_step(key_step(s, 'y', false, sh1).0, 'g', false, sh2) == (s, ActionView::Noop),
{
    assert(seq!['g'].push('g') =~= seq!['g', 'g']);
    assert(seq!['g'].push('t') =~= seq!['g', 't']);
    assert(seq!['g'].push('T') =~= seq!['g', 'T']);
    assert(seq!['y'].push('y') =~= seq!['y', 'y']);
    assert(seq!['g'].push('j') =~= seq!['g', 'j']);
    assert(seq!['y'].push('g') =~= seq!['y', 'g']);
    assert(s.pending =~= seq![]);
}

proof fn lemma_hint_letters()
    ensures
        hint_letters().len() == 26,
        forall|i: int| 0 <= i < 26 ==> #[trigger] hint_letters()[i] as u32 == 97 + i,
{
    assert forall|i: int| 0 <= i < 26 implies #[trigger] hint_letters()[i] as u32 == 97 + i by {
        if i == 0 {} else if i == 1 {} else if i == 2 {} else if i == 3 {} else if i == 4 {} else if i == 5 {} else if i == 6 {} else if i == 7 {} else if i == 8 {} else if i == 9 {} else if i == 10 {} else if i == 11 {} else if i == 12 {} else if i == 13 {} else if i == 14 {} else if i == 15 {} else if i == 16 {} else if i == 17 {} else if i == 18 {} else if i == 19 {} else if i == 20 {} else if i == 21 {} else if i == 22 {} else if i == 23 {} else if i == 24 {} else if i == 25 {}
    }
}

/// Hint labels count in letters: the first 26 are the single letters `a`
/// to `z` in order, and after them the label of `26 * (j + 1) + k` is the
/// label of `j` followed by the `k`-th letter (so `aa`, `ab`, ..., `az`,
/// `ba`, ...).
pub proof fn law_hint_label_order(i: nat, j: nat, k: nat)
    requires
        k < 26,
    ensures
        i < 26 ==> hint_label(i).len() == 1 && hint_label(i)[0] as u32 == 97 + i,
        hint_label(26 * (j + 1) + k) == hint_label(j).push(hint_label(k)[0]),
{
    lemma_hint_letters();
    let n = 26 * (j + 1) + k;
    assert(n / 26 - 1 == j && n % 26 == k) by (nonlinear_arith)
        requires
            n == 26 * (j + 1) + k,
            k < 26,
    ;
}

proof fn lemma_hint_label_len(i: nat)
    ensures
        hint_label(i).len() >= 1,
        i >= 26 ==> hint_label(i).len() >= 2,
    decreases i,
{
    if i >= 26 {
        lemma_hint_label_len((i / 26 - 1) as nat);
    }
}

/// Hint labels are pairwise distinct: every link gets its own label.
pub proof fn law_hint_labels_distinct(i: nat, j: nat)
    requires
        i != j,
    ensures
        hint_label(i) != hint_label(j),
    decreases i + j,
{
    let h = hint_letters();
    assert(forall|a: int, b: int| 0 <= a < 26 && 0 <= b < 26 && a != b ==> h[a] != h[b]);
    lemma_hint_label_len(i);
    lemma_hint_label_len(j);
    if i < 26 && j < 26 {
        assert(hint_label(i)[0] != hint_label(j)[0]);
    } else if i >= 26 && j >= 26 {
        let pi = (i / 26 - 1) as nat;
        let pj = (j / 26 - 1) as nat;
        let li = hint_label(i);
        let lj = hint_label(j);
        if i % 26 != j % 26 {
            assert(li[li.len() - 1] != lj[lj.len() - 1]);
        } else {
            assert(pi != pj);
            law_hint_labels_distinct(pi, pj);
            if li == lj {
                assert(li.drop_last() =~= hint_label(pi));
                assert(lj.drop_last() =~= hint_label(pj));
            }
        }
    }
}

/// A command line that is a single word is that command with no argument.
pub proof fn lemma_command_parts_word(w: Seq<char>)
    requires
        forall|i: int| 0 <= i < w.len() ==> !is_ws_spec(#[trigger] w[i]),
    ensures
        command_parts(w) == (w, Seq::<char>::empty()),
{
    assert(ws_prefix_len(w) == 0);
    assert(trim_start(w) =~= w);
    assert(trim_end(w) == w);
    crate::text::lemma_find_char(w, ' ');
    assert(find_char(w, ' ') is None) by {
        if find_char(w, ' ') is Some {
            let k = find_char(w, ' ')->0;
            assert(w[k] == ' ');
            assert(is_ws_spec(w[k]));
        }
    }
}

} // verus!
