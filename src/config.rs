//! Key bindings: key names as a configuration file writes them, the keys they
//! stand for, and the action each bound key triggers.
use vstd::prelude::*;

verus! {

/// A key press.
#[derive(Clone, Copy, Debug, PartialEq, Eq, Structural)]
pub enum Key {
    Backspace,
    Left,
    Right,
    Up,
    Down,
    Home,
    End,
    PageUp,
    PageDown,
    Delete,
    Insert,
    F(u8),
    Char(char),
    Alt(char),
    Ctrl(char),
    Null,
    Esc,
}

/// What the input loop waits for: a key press, or the tick that repaints.
#[derive(Clone, Copy, Debug, PartialEq, Eq)]
pub enum Event<I> {
    Input(I),
    Tick,
}

/// The key bound to each action.
#[derive(Clone, Copy, Debug, PartialEq, Eq, Structural)]
pub struct Keybinds {
    pub quit: Key,
    pub move_left: Key,
    pub move_right: Key,
    pub move_down: Key,
    pub move_up: Key,
    pub submit_entry: Key,
    pub back: Key,
    pub open_selection: Key,
    pub search: Key,
    pub play_pause: Key,
    pub audio_only: Key,
    pub queue_video: Key,
    pub queue_audio: Key,
    pub home_view: Key,
    pub search_view: Key,
    pub loop_audio: Key,
    pub copy_url: Key,
    pub seek_audio_forward: Key,
    pub seek_audio_backward: Key,
}

/// The key names of each action, as a configuration file gives them.
#[derive(Clone, Debug)]
pub struct KeybindsAsStr {
    pub quit: String,
    pub move_left: String,
    pub move_right: String,
    pub move_down: String,
    pub move_up: String,
    pub submit_entry: String,
    pub back: String,
    pub open_selection: String,
    pub search: String,
    pub play_pause: String,
    pub audio_only: String,
    pub queue_video: String,
    pub queue_audio: String,
    pub home_view: String,
    pub search_view: String,
    pub loop_audio: String,
    pub copy_url: String,
    pub seek_audio_forward: String,
    pub seek_audio_backward: String,
}

/// `a` is `b` up to the case of ASCII letters (`b` is written in lower case).
pub open spec fn char_matches(a: char, b: char) -> bool {
    a == b || ('A' <= a && a <= 'Z' && a as u32 + 32 == b as u32)
}

/// `s` spells the lower-case name `name`, ignoring ASCII case.
pub open spec fn name_matches(s: Seq<char>, name: Seq<char>) -> bool {
    s.len() == name.len() && forall|i: int| 0 <= i < s.len() ==> char_matches(s[i], name[i])
}

pub open spec fn is_digit(c: char) -> bool {
    '0' <= c && c <= '9'
}

/// A key written as a character with an optional modifier: `x`, `ctrl-x`,
/// `alt-x`, or a function key `f1` to `f9`.
pub open spec fn modified_key_spec(s: Seq<char>) -> Key {
    if s.len() == 0 {
        Key::Null
    } else {
        let c = s.last();
        let rest = s.drop_last();
        if rest.len() == 0 {
            Key::Char(c)
        } else if name_matches(rest, "ctrl-"@) {
            Key::Ctrl(c)
        } else if name_matches(rest, "alt-"@) {
            Key::Alt(c)
        } else if is_digit(c) && name_matches(rest, "f"@) {
            Key::F((c as u32 - '0' as u32) as u8)
        } else {
            Key::Null
        }
    }
}

/// The key a name stands for: a named key, else a modified character.
pub open spec fn key_spec(s: Seq<char>) -> Key {
    if name_matches(s, "enter"@) {
        Key::Char('\n')
    } else if name_matches(s, "backspace"@) {
        Key::Backspace
    } else if name_matches(s, "left"@) {
        Key::Left
    } else if name_matches(s, "right"@) {
        Key::Right
    } else if name_matches(s, "up"@) {
        Key::Up
    } else if name_matches(s, "down"@) {
        Key::Down
    } else if name_matches(s, "home"@) {
        Key::Home
    } else if name_matches(s, "end"@) {
        Key::End
    } else if name_matches(s, "page-up"@) {
        Key::PageUp
    } else if name_matches(s, "page-down"@) {
        Key::PageDown
    } else if name_matches(s, "delete"@) {
        Key::Delete
    } else if name_matches(s, "insert"@) {
        Key::Insert
    } else if name_matches(s, "esc"@) {
        Key::Esc
    } else if name_matches(s, "space"@) {
        Key::Char(' ')
    } else {
        modified_key_spec(s)
    }
}

/// Whether `s` spells `name` (given in lower case), ignoring ASCII case.
pub fn matches_name(s: &str, name: &str) -> (r: bool)
    ensures
        r == name_matches(s@, name@),
{
    let n = s.unicode_len();
    if n != name.unicode_len() {
        return false;
    }
    let mut i: usize = 0;
    while i < n
        invariant
            n == s@.len(),
            n == name@.len(),
            i <= n,
            forall|k: int| 0 <= k < i ==> char_matches(s@[k], name@[k]),
        decreases n - i,
    {
        let a = s.get_char(i);
        let b = name.get_char(i);
        let same = a == b || ('A' <= a && a <= 'Z' && (a as u32) + 32 == (b as u32));
        if !same {
            return false;
        }
        i = i + 1;
    }
    true
}

/// The key of a name with an optional modifier.
pub fn modified_keys(key: &str) -> (r: Key)
    ensures
        r == modified_key_spec(key@),
{
    let n = key.unicode_len();
    if n == 0 {
        return Key::Null;
    }
    let c = key.get_char(n - 1);
    let rest = key.substring_char(0, n - 1);
    assert(rest@ =~= key@.drop_last());
    if n - 1 == 0 {
        Key::Char(c)
    } else if matches_name(rest, "ctrl-") {
        Key::Ctrl(c)
    } else if matches_name(rest, "alt-") {
        Key::Alt(c)
    } else if '0' <= c && c <= '9' && matches_name(rest, "f") {
        Key::F(((c as u32) - ('0' as u32)) as u8)
    } else {
        Key::Null
    }
}

/// The key a configured name stands for.
pub fn str_to_key(key: &str) -> (r: Key)
    ensures
        r == key_spec(key@),
{
    if matches_name(key, "enter") {
        Key::Char('\n')
    } else if matches_name(key, "backspace") {
        Key::Backspace
    } else if matches_name(key, "left") {
        Key::Left
    } else if matches_name(key, "right") {
        Key::Right
    } else if matches_name(key, "up") {
        Key::Up
    } else if matches_name(key, "down") {
        Key::Down
    } else if matches_name(key, "home") {
        Key::Home
    } else if matches_name(key, "end") {
        Key::End
    } else if matches_name(key, "page-up") {
        Key::PageUp
    } else if matches_name(key, "page-down") {
        Key::PageDown
    } else if matches_name(key, "delete") {
        Key::Delete
    } else if matches_name(key, "insert") {
        Key::Insert
    } else if matches_name(key, "esc") {
        Key::Esc
    } else if matches_name(key, "space") {
        Key::Char(' ')
    } else {
        modified_keys(key)
    }
}

impl Default for Keybinds {
    /// The bindings a missing configuration leaves.
    fn default() -> (r: Keybinds)
        ensures
            r == (Keybinds {
                move_left: Key::Char('h'),
                move_right: Key::Char('l'),
                move_down: Key::Char('j'),
                move_up: Key::Char('k'),
                quit: Key::Char('q'),
                back: Key::Esc,
                home_view: Key::F(1),
                search_view: Key::F(2),
                search: Key::Char('/'),
                play_pause: Key::Char(' '),
                audio_only: Key::Char('a'),
                queue_audio: Key::Char('A'),
                loop_audio: Key::Char('L'),
                seek_audio_forward: Key::Right,
                seek_audio_backward: Key::Left,
                open_selection: Key::Char('o'),
                copy_url: Key::Char('y'),
                submit_entry: Key::Char('\n'),
                queue_video: Key::Char('v'),
            }),
    {
        Keybinds {
            move_left: Key::Char('h'),
            move_right: Key::Char('l'),
            move_down: Key::Char('j'),
            move_up: Key::Char('k'),
            quit: Key::Char('q'),
            back: Key::Esc,
            home_view: Key::F(1),
            search_view: Key::F(2),
            search: Key::Char('/'),
            play_pause: Key::Char(' '),
            audio_only: Key::Char('a'),
            queue_audio: Key::Char('A'),
            loop_audio: Key::Char('L'),
            seek_audio_forward: Key::Right,
            seek_audio_backward: Key::Left,
            open_selection: Key::Char('o'),
            copy_url: Key::Char('y'),
            submit_entry: Key::Char('\n'),
            queue_video: Key::Char('v'),
        }
    }
}

impl Keybinds {
    /// The keys the configured names stand for, name by name.
    pub fn de_keybinds(names: &KeybindsAsStr) -> (r: Keybinds)
        ensures
            r.quit == key_spec(names.quit@),
            r.move_left == key_spec(names.move_left@),
            r.move_right == key_spec(names.move_right@),
            r.move_down == key_spec(names.move_down@),
            r.move_up == key_spec(names.move_up@),
            r.submit_entry == key_spec(names.submit_entry@),
            r.back == key_spec(names.back@),
            r.open_selection == key_spec(names.open_selection@),
            r.search == key_spec(names.search@),
            r.play_pause == key_spec(names.play_pause@),
            r.audio_only == key_spec(names.audio_only@),
            r.queue_video == key_spec(names.queue_video@),
            r.queue_audio == key_spec(names.queue_audio@),
            r.home_view == key_spec(names.home_view@),
            r.search_view == key_spec(names.search_view@),
            r.loop_audio == key_spec(names.loop_audio@),
            r.copy_url == key_spec(names.copy_url@),
            r.seek_audio_forward == key_spec(names.seek_audio_forward@),
            r.seek_audio_backward == key_spec(names.seek_audio_backward@),
    {
        Keybinds {
            quit: str_to_key(names.quit.as_str()),
            move_left: str_to_key(names.move_left.as_str()),
            move_right: str_to_key(names.move_right.as_str()),
            move_down: str_to_key(names.move_down.as_str()),
            move_up: str_to_key(names.move_up.as_str()),
            submit_entry: str_to_key(names.submit_entry.as_str()),
            back: str_to_key(names.back.as_str()),
            open_selection: str_to_key(names.open_selection.as_str()),
            search: str_to_key(names.search.as_str()),
            play_pause: str_to_key(names.play_pause.as_str()),
            audio_only: str_to_key(names.audio_only.as_str()),
            queue_video: str_to_key(names.queue_video.as_str()),
            queue_audio: str_to_key(names.queue_audio.as_str()),
            home_view: str_to_key(names.home_view.as_str()),
            search_view: str_to_key(names.search_view.as_str()),
            loop_audio: str_to_key(names.loop_audio.as_str()),
            copy_url: str_to_key(names.copy_url.as_str()),
            seek_audio_forward: str_to_key(names.seek_audio_forward.as_str()),
            seek_audio_backward: str_to_key(names.seek_audio_backward.as_str()),
        }
    }
}

impl Default for KeybindsAsStr {
    /// The key names a missing configuration leaves.
    fn default() -> (r: KeybindsAsStr)
        ensures
            r.move_left@ == "h"@,
            r.move_right@ == "l"@,
            r.move_down@ == "j"@,
            r.move_up@ == "k"@,
            r.quit@ == "q"@,
            r.back@ == "esc"@,
            r.search@ == "/"@,
            r.play_pause@ == " "@,
            r.home_view@ == "f1"@,
            r.search_view@ == "f2"@,
            r.audio_only@ == "a"@,
            r.queue_audio@ == "A"@,
            r.loop_audio@ == "L"@,
            r.open_selection@ == "o"@,
            r.submit_entry@ == "enter"@,
            r.copy_url@ == "y"@,
            r.seek_audio_forward@ == "right"@,
            r.seek_audio_backward@ == "left"@,
            r.queue_video@ == "v"@,
    {
        KeybindsAsStr {
            move_left: String::from_str("h"),
            move_right: String::from_str("l"),
            move_down: String::from_str("j"),
            move_up: String::from_str("k"),
            quit: String::from_str("q"),
            back: String::from_str("esc"),
            search: String::from_str("/"),
            play_pause: String::from_str(" "),
            home_view: String::from_str("f1"),
            search_view: String::from_str("f2"),
            audio_only: String::from_str("a"),
            queue_audio: String::from_str("A"),
            loop_audio: String::from_str("L"),
            open_selection: String::from_str("o"),
            submit_entry: String::from_str("enter"),
            copy_url: String::from_str("y"),
            seek_audio_forward: String::from_str("right"),
            seek_audio_backward: String::from_str("left"),
            queue_video: String::from_str("v"),
        }
    }
}

/// What a key press asks for.
#[derive(Clone, Copy, Debug, PartialEq, Eq, Structural)]
pub enum Action {
    Quit,
    HomeView,
    SearchView,
    /// Focus the command line; a character key also starts its text.
    StartSearch,
    Back,
    MoveDown,
    MoveUp,
    MoveLeft,
    MoveRight,
    PlayVideo,
    PlayPause,
    PlayAudio,
    QueueAudio,
    QueueVideo,
    OpenSelection,
    LoopAudio,
    Ignore,
}

/// The first binding that `key` matches, in a fixed order of precedence.
pub open spec fn action_spec(b: Keybinds, key: Key) -> Action {
    if key == b.quit {
        Action::Quit
    } else if key == b.home_view {
        Action::HomeView
    } else if key == b.search_view {
        Action::SearchView
    } else if key == b.search {
        Action::StartSearch
    } else if key == b.back {
        Action::Back
    } else if key == b.move_down {
        Action::MoveDown
    } else if key == b.move_up {
        Action::MoveUp
    } else if key == b.move_left {
        Action::MoveLeft
    } else if key == b.move_right {
        Action::MoveRight
    } else if key == b.submit_entry {
        Action::PlayVideo
    } else if key == b.play_pause {
        Action::PlayPause
    } else if key == b.audio_only {
        Action::PlayAudio
    } else if key == b.queue_audio {
        Action::QueueAudio
    } else if key == b.queue_video {
        Action::QueueVideo
    } else if key == b.open_selection {
        Action::OpenSelection
    } else if key == b.loop_audio {
        Action::LoopAudio
    } else {
        Action::Ignore
    }
}

impl Keybinds {
    /// The action of a key pressed while the command line is not focused.
    pub fn action_for(&self, key: Key) -> (r: Action)
        ensures
            r == action_spec(*self, key),
    {
        if key == self.quit {
            Action::Quit
        } else if key == self.home_view {
            Action::HomeView
        } else if key == self.search_view {
            Action::SearchView
        } else if key == self.search {
            Action::StartSearch
        } else if key == self.back {
            Action::Back
        } else if key == self.move_down {
            Action::MoveDown
        } else if key == self.move_up {
            Action::MoveUp
        } else if key == self.move_left {
            Action::MoveLeft
        } else if key == self.move_right {
            Action::MoveRight
        } else if key == self.submit_entry {
            Action::PlayVideo
        } else if key == self.play_pause {
            Action::PlayPause
        } else if key == self.audio_only {
            Action::PlayAudio
        } else if key == self.queue_audio {
            Action::QueueAudio
        } else if key == self.queue_video {
            Action::QueueVideo
        } else if key == self.open_selection {
            Action::OpenSelection
        } else if key == self.loop_audio {
            Action::LoopAudio
        } else {
            Action::Ignore
        }
    }
}

/// The command line: the text typed so far, and whether it has the focus.
#[derive(Clone, Debug)]
pub struct CommandLine {
    pub input: Vec<char>,
    pub focused: bool,
}

/// What a key does to the command line.
#[derive(Clone, Debug, PartialEq)]
pub enum LineEvent {
    /// The query was submitted; the line is empty and unfocused.
    Submitted(Vec<char>),
    Edited,
    Unchanged,
}

impl CommandLine {
    pub fn new() -> (r: CommandLine)
        ensures
            r.input@.len() == 0,
            !r.focused,
    {
        CommandLine { input: Vec::new(), focused: false }
    }

    /// Gives the line the focus; a character key also starts its text.
    pub fn focus(&mut self, key: Key)
        ensures
            final(self).focused,
            final(self).input@ == (match key {
                Key::Char(c) => old(self).input@.push(c),
                _ => old(self).input@,
            }),
    {
        self.focused = true;
        match key {
            Key::Char(c) => self.input.push(c),
            _ => {},
        }
    }

    /// Handles a key while the line has the focus: the submit key hands the
    /// query over and clears the line; a character is typed; backspace
    /// erases the last character and gives the focus up once the line is
    /// empty.
    pub fn handle_key(&mut self, key: Key, submit: Key) -> (r: LineEvent)
        ensures
            key == submit ==> r is Submitted && (r->Submitted_0)@ == old(self).input@ && final(self).input@.len()
                == 0 && !final(self).focused,
            key != submit ==> match key {
                Key::Char(c) => r == LineEvent::Edited && final(self).input@ == old(self).input@.push(c)
                    && final(self).focused == old(self).focused,
                Key::Backspace => r == LineEvent::Edited && final(self).input@ == (if old(
                    self,
                ).input@.len() == 0 {
                    old(self).input@
                } else {
                    old(self).input@.drop_last()
                }) && final(self).focused == (old(self).focused && final(self).input@.len() > 0),
                _ => r == LineEvent::Unchanged && final(self).input == old(self).input
                    && final(self).focused == old(self).focused,
            },
    {
        if key == submit {
            let mut query: Vec<char> = Vec::new();
            std::mem::swap(&mut query, &mut self.input);
            self.focused = false;
            LineEvent::Submitted(query)
        } else {
            match key {
                Key::Char(c) => {
                    self.input.push(c);
                    LineEvent::Edited
                },
                Key::Backspace => {
                    self.input.pop();
                    if self.input.len() == 0 {
                        self.focused = false;
                    }
                    LineEvent::Edited
                },
                _ => LineEvent::Unchanged,
            }
        }
    }
}

} // verus!
