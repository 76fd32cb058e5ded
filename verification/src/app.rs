//! The interactive application state machine.
//!
//! The state owns the current directory, the two selectable lists with
//! their cursors, the focused pane, the looping flag, the last error
//! message and the navigation history.  A key press takes the machine
//! through one transition and hands the host an [`Action`] to perform:
//! nothing, stopping the sink, playing a file, or scanning a directory.
//! Work that needs the outside world (the scan, the decode) is done by
//! the host, which reports its outcome back through [`App::navigate_to`]
//! and [`App::on_play_result`].
//!
//! Cursor movement clamps at the list ends (no wraparound), and a
//! cursor is absent exactly when its list is empty.

use vstd::prelude::*;

use crate::history::History;
use crate::listing::DirListing;

verus! {

/// Which pane holds the input focus.
#[derive(PartialEq, Eq, Structural, Clone, Copy, Debug)]
pub enum Pane {
    Directories,
    Files,
}

/// One key press, already reduced to the keys the browser reads.
#[derive(PartialEq, Eq, Structural, Clone, Copy, Debug)]
pub enum Key {
    Up,
    Down,
    Left,
    Right,
    Enter,
    Tab,
    Char(char),
    Other,
}

/// What the host must do after a transition.
pub enum Action {
    /// Nothing.
    Idle,
    /// Halt playback on the output sink.
    Stop,
    /// Decode `path` and start playing it, repeating forever if
    /// `looping`; the outcome comes back through `on_play_result`.
    Play { path: Vec<u8>, looping: bool },
    /// Scan the directory `target`; the outcome comes back through
    /// `navigate_to`.
    Navigate { target: Vec<u8> },
}

/// Why a play attempt or a device setup failed.
#[derive(PartialEq, Eq, Structural, Clone, Copy, Debug)]
pub enum AudioError {
    /// No audio output device could be opened.
    Device,
    /// The file could not be opened.
    Io,
    /// The stream was not recognized as a supported audio format.
    Decode,
}

/// The fixed message shown for each failure kind.
pub open spec fn audio_error_msg(e: AudioError) -> Seq<char> {
    match e {
        AudioError::Device => "Failed to open the default audio device"@,
        AudioError::Io => "Failed to open file"@,
        AudioError::Decode => "Failed to decode the file"@,
    }
}

impl AudioError {
    /// The message for this failure, never empty.
    pub fn message(&self) -> (m: String)
        ensures
            m@ == audio_error_msg(*self),
            m@.len() > 0,
    {
        proof {
            reveal_strlit("Failed to open the default audio device");
            reveal_strlit("Failed to open file");
            reveal_strlit("Failed to decode the file");
        }
        match *self {
            AudioError::Device => String::from_str("Failed to open the default audio device"),
            AudioError::Io => String::from_str("Failed to open file"),
            AudioError::Decode => String::from_str("Failed to decode the file"),
        }
    }
}

/// The cursor a freshly listed pane starts at: the first item, or none
/// when the list is empty.
pub open spec fn init_cursor(len: nat) -> Option<usize> {
    if len == 0 {
        None
    } else {
        Some(0usize)
    }
}

/// One step towards the previous item, clamped at the top.
pub open spec fn cursor_up(c: Option<usize>) -> Option<usize> {
    match c {
        None => None,
        Some(i) => if i > 0 {
            Some((i - 1) as usize)
        } else {
            Some(i)
        },
    }
}

/// One step towards the next item, clamped at the bottom.
pub open spec fn cursor_down(c: Option<usize>, len: nat) -> Option<usize> {
    match c {
        None => None,
        Some(i) => if i + 1 < len {
            Some((i + 1) as usize)
        } else {
            Some(i)
        },
    }
}

/// The directory cursor on arrival at `k`: the remembered position if
/// one exists (clamped into the new list), the first item otherwise,
/// or none when the new list is empty.
pub open spec fn restored_cursor(m: Map<Seq<u8>, usize>, k: Seq<u8>, len: nat) -> Option<usize> {
    if len == 0 {
        None
    } else if m.contains_key(k) {
        if m[k] < len {
            Some(m[k])
        } else {
            Some((len - 1) as usize)
        }
    } else {
        Some(0usize)
    }
}

/// The whole application state.
pub struct App {
    /// The directory being browsed.
    pub current_path: Vec<u8>,
    /// Names of its subdirectories, in enumeration order.
    pub directories: Vec<Vec<u8>>,
    /// Selection in the directory pane.
    pub dir_cursor: Option<usize>,
    /// Names of its audio files, in enumeration order.
    pub files: Vec<Vec<u8>>,
    /// Selection in the file pane.
    pub file_cursor: Option<usize>,
    /// Which pane reads the movement keys.
    pub focus: Pane,
    /// Set by the quit key; the host loop ends when it sees this.
    pub should_exit: bool,
    /// Whether the next play request repeats forever.
    pub looping: bool,
    /// Total duration of the playing source in nanoseconds, when the
    /// decoder reported one.
    pub total_duration: Option<u64>,
    /// The message of the last failure, cleared by the next key press.
    pub error_msg: Option<String>,
    /// Remembered directory-cursor positions.
    pub history: History,
}

/// Navigation-relevant state unchanged: path, both listings, history.
pub open spec fn same_place(s: App, t: App) -> bool {
    &&& t.current_path == s.current_path
    &&& t.directories == s.directories
    &&& t.files == s.files
    &&& t.history@ == s.history@
}

/// Both cursors unchanged.
pub open spec fn same_cursors(s: App, t: App) -> bool {
    &&& t.dir_cursor == s.dir_cursor
    &&& t.file_cursor == s.file_cursor
}

/// Looping flag and known duration unchanged.
pub open spec fn same_playback(s: App, t: App) -> bool {
    &&& t.looping == s.looping
    &&& t.total_duration == s.total_duration
}

/// Focus and exit flag unchanged.
pub open spec fn same_mode(s: App, t: App) -> bool {
    &&& t.focus == s.focus
    &&& t.should_exit == s.should_exit
}

/// Everything but the error message unchanged.
pub open spec fn unchanged_step(s: App, t: App) -> bool {
    &&& same_place(s, t)
    &&& same_cursors(s, t)
    &&& same_playback(s, t)
    &&& same_mode(s, t)
}

/// The action that plays the file under cursor `c` of state `s`, or
/// nothing when no file is selected.
pub open spec fn plays_selection(s: App, c: Option<usize>, a: Action) -> bool {
    match c {
        None => a is Idle,
        Some(i) => {
            &&& i < s.files@.len()
            &&& a matches Action::Play { path, looping }
            &&& path@ == crate::paths::join_of(s.current_path@, s.files@[i as int]@)
            &&& looping == s.looping
        },
    }
}

/// The transition relation of one key press: from state `s` the key
/// takes the machine to `t` and asks the host to perform `a`.  Every
/// key press first clears the previous error message; no key press
/// moves to another directory by itself — that takes the host's scan,
/// reported back through `navigate_to`.
pub open spec fn key_step(s: App, key: Key, t: App, a: Action) -> bool {
    &&& t.error_msg is None
    &&& match key {
        Key::Char(c) => if c == 'q' {
            // Quit: ask the host loop to end.
            &&& same_place(s, t)
            &&& same_cursors(s, t)
            &&& same_playback(s, t)
            &&& t.focus == s.focus
            &&& t.should_exit
            &&& a is Idle
        } else if c == 'l' {
            // Toggle looping, stopping whatever is playing.
            &&& same_place(s, t)
            &&& same_cursors(s, t)
            &&& same_mode(s, t)
            &&& t.looping == !s.looping
            &&& t.total_duration is None
            &&& a is Stop
        } else {
            &&& unchanged_step(s, t)
            &&& a is Idle
        },
        Key::Up => match s.focus {
            Pane::Directories => {
                &&& same_place(s, t)
                &&& same_playback(s, t)
                &&& same_mode(s, t)
                &&& t.dir_cursor == cursor_up(s.dir_cursor)
                &&& t.file_cursor == s.file_cursor
                &&& a is Idle
            },
            Pane::Files => {
                // Move, then play the newly selected file.
                &&& same_place(s, t)
                &&& same_playback(s, t)
                &&& same_mode(s, t)
                &&& t.dir_cursor == s.dir_cursor
                &&& t.file_cursor == cursor_up(s.file_cursor)
                &&& plays_selection(s, cursor_up(s.file_cursor), a)
            },
        },
        Key::Down => match s.focus {
            Pane::Directories => {
                &&& same_place(s, t)
                &&& same_playback(s, t)
                &&& same_mode(s, t)
                &&& t.dir_cursor == cursor_down(s.dir_cursor, s.directories@.len())
                &&& t.file_cursor == s.file_cursor
                &&& a is Idle
            },
            Pane::Files => {
                &&& same_place(s, t)
                &&& same_playback(s, t)
                &&& same_mode(s, t)
                &&& t.dir_cursor == s.dir_cursor
                &&& t.file_cursor == cursor_down(s.file_cursor, s.files@.len())
                &&& plays_selection(s, cursor_down(s.file_cursor, s.files@.len()), a)
            },
        },
        Key::Left => match s.focus {
            Pane::Directories => {
                // Back out towards the parent, if the path shows one.
                &&& unchanged_step(s, t)
                &&& match crate::paths::parent_of(s.current_path@) {
                    None => a is Idle,
                    Some(pp) => a matches Action::Navigate { target } && target@ == pp,
                }
            },
            Pane::Files => {
                &&& unchanged_step(s, t)
                &&& a is Idle
            },
        },
        Key::Right => match s.focus {
            Pane::Directories => {
                // Descend into the selected subdirectory, if any.
                &&& unchanged_step(s, t)
                &&& match s.dir_cursor {
                    None => a is Idle,
                    Some(i) => {
                        &&& i < s.directories@.len()
                        &&& a matches Action::Navigate { target } && target@
                            == crate::paths::join_of(s.current_path@, s.directories@[i as int]@)
                    },
                }
            },
            Pane::Files => {
                // Restart the selected track.
                &&& unchanged_step(s, t)
                &&& plays_selection(s, s.file_cursor, a)
            },
        },
        Key::Enter => match s.focus {
            Pane::Directories => {
                &&& unchanged_step(s, t)
                &&& a is Idle
            },
            Pane::Files => {
                &&& unchanged_step(s, t)
                &&& plays_selection(s, s.file_cursor, a)
            },
        },
        Key::Tab => match s.focus {
            Pane::Directories => {
                // Switch to the file pane and play the selection.
                &&& same_place(s, t)
                &&& same_cursors(s, t)
                &&& same_playback(s, t)
                &&& t.should_exit == s.should_exit
                &&& t.focus is Files
                &&& plays_selection(s, s.file_cursor, a)
            },
            Pane::Files => {
                // Switch back to the directory pane and stop playback.
                &&& same_place(s, t)
                &&& same_cursors(s, t)
                &&& t.should_exit == s.should_exit
                &&& t.focus is Directories
                &&& t.looping == s.looping
                &&& t.total_duration is None
                &&& a is Stop
            },
        },
        Key::Other => {
            &&& unchanged_step(s, t)
            &&& a is Idle
        },
    }
}

/// A completed directory change to `target` with the fresh snapshot
/// `listing`: the cursor position of the directory being left is
/// recorded, the cursor for `target` is restored from the history, and
/// the file cursor starts over at the first file.  Playback, focus and
/// the error message are untouched.
pub open spec fn nav_ok_post(s: App, t: App, target: Seq<u8>, listing: DirListing) -> bool {
    let recorded = match s.dir_cursor {
        Some(i) => s.history@.insert(s.current_path@, i),
        None => s.history@,
    };
    &&& t.current_path@ == target
    &&& t.directories == listing.directories
    &&& t.files == listing.files
    &&& t.history@ == recorded
    &&& t.dir_cursor == restored_cursor(recorded, target, listing.directories@.len())
    &&& t.file_cursor == init_cursor(listing.files@.len())
    &&& t.focus == s.focus
    &&& t.should_exit == s.should_exit
    &&& t.looping == s.looping
    &&& t.total_duration == s.total_duration
    &&& t.error_msg == s.error_msg
}

/// A failed directory change: the browser stays where it was and shows
/// the scanner's message.
pub open spec fn nav_err_post(s: App, t: App, msg: Seq<char>) -> bool {
    &&& same_place(s, t)
    &&& same_cursors(s, t)
    &&& same_playback(s, t)
    &&& same_mode(s, t)
    &&& t.error_msg matches Some(m) && m@ == msg
}

/// A play request that went through: the reported duration (if the
/// decoder knew one) replaces the old, everything else stays.
pub open spec fn play_ok_post(s: App, t: App, duration: Option<u64>) -> bool {
    &&& same_place(s, t)
    &&& same_cursors(s, t)
    &&& same_mode(s, t)
    &&& t.looping == s.looping
    &&& t.total_duration == duration
    &&& t.error_msg == s.error_msg
}

/// A play request that failed: playback stands cleanly stopped (no
/// duration is known) and the failure's message is shown; the session
/// goes on.
pub open spec fn play_err_post(s: App, t: App, e: AudioError) -> bool {
    &&& same_place(s, t)
    &&& same_cursors(s, t)
    &&& same_mode(s, t)
    &&& t.looping == s.looping
    &&& t.total_duration is None
    &&& t.error_msg matches Some(m) && m@ == audio_error_msg(e) && m@.len() > 0
}

/// What the progress gauge shows at playback position `position`
/// (nanoseconds): the pair `(position mod duration, duration)`, whose
/// quotient is the filled fraction, or nothing — an empty gauge — when
/// no duration is known.
pub open spec fn progress_spec(s: App, position: u64) -> Option<(u64, u64)> {
    match s.total_duration {
        None => None,
        Some(d) => if d == 0 {
            None
        } else {
            Some(((position % d) as u64, d))
        },
    }
}

impl App {
    /// Both cursors agree with their lists: absent exactly on an empty
    /// list, otherwise a valid index.
    pub open spec fn well_formed(&self) -> bool {
        &&& crate::cursor_ok(self.dir_cursor, self.directories@.len())
        &&& crate::cursor_ok(self.file_cursor, self.files@.len())
    }

    /// A fresh session browsing `path`, whose snapshot is `listing`:
    /// directory pane focused, looping on, nothing playing, no error,
    /// empty history.
    pub fn new(path: Vec<u8>, listing: DirListing) -> (s: App)
        ensures
            s.well_formed(),
            s.current_path == path,
            s.directories == listing.directories,
            s.files == listing.files,
            s.dir_cursor == init_cursor(listing.directories@.len()),
            s.file_cursor == init_cursor(listing.files@.len()),
            s.focus is Directories,
            !s.should_exit,
            s.looping,
            s.total_duration is None,
            s.error_msg is None,
            s.history@ == Map::<Seq<u8>, usize>::empty(),
    {
        let dir_cursor: Option<usize> = if listing.directories.len() == 0 {
            None
        } else {
            Some(0)
        };
        let file_cursor: Option<usize> = if listing.files.len() == 0 {
            None
        } else {
            Some(0)
        };
        App {
            current_path: path,
            directories: listing.directories,
            dir_cursor,
            files: listing.files,
            file_cursor,
            focus: Pane::Directories,
            should_exit: false,
            looping: true,
            total_duration: None,
            error_msg: None,
            history: History::new(),
        }
    }

    /// The action that plays the currently selected file, or nothing
    /// when no file is selected.
    fn play_selected(&self) -> (a: Action)
        requires
            self.well_formed(),
        ensures
            plays_selection(*self, self.file_cursor, a),
    {
        match self.file_cursor {
            None => Action::Idle,
            Some(i) => {
                let path = crate::paths::join(&self.current_path, &self.files[i]);
                Action::Play { path, looping: self.looping }
            },
        }
    }

    /// Dispatch one key press: clear the previous error message, take
    /// the transition the key and the focused pane call for, and hand
    /// back what the host must do.
    pub fn handle_key(&mut self, key: Key) -> (a: Action)
        requires
            old(self).well_formed(),
        ensures
            final(self).well_formed(),
            key_step(*old(self), key, *final(self), a),
    {
        self.error_msg = None;
        match key {
            Key::Char(c) => {
                if c == 'q' {
                    self.should_exit = true;
                    Action::Idle
                } else if c == 'l' {
                    self.looping = !self.looping;
                    self.total_duration = None;
                    Action::Stop
                } else {
                    Action::Idle
                }
            },
            Key::Up => match self.focus {
                Pane::Directories => {
                    self.dir_cursor = move_up(self.dir_cursor);
                    Action::Idle
                },
                Pane::Files => {
                    self.file_cursor = move_up(self.file_cursor);
                    self.play_selected()
                },
            },
            Key::Down => match self.focus {
                Pane::Directories => {
                    self.dir_cursor = move_down(self.dir_cursor, self.directories.len());
                    Action::Idle
                },
                Pane::Files => {
                    self.file_cursor = move_down(self.file_cursor, self.files.len());
                    self.play_selected()
                },
            },
            Key::Left => match self.focus {
                Pane::Directories => match crate::paths::parent(&self.current_path) {
                    None => Action::Idle,
                    Some(target) => Action::Navigate { target },
                },
                Pane::Files => Action::Idle,
            },
            Key::Right => match self.focus {
                Pane::Directories => match self.dir_cursor {
                    None => Action::Idle,
                    Some(i) => {
                        let target = crate::paths::join(&self.current_path, &self.directories[i]);
                        Action::Navigate { target }
                    },
                },
                Pane::Files => self.play_selected(),
            },
            Key::Enter => match self.focus {
                Pane::Directories => Action::Idle,
                Pane::Files => self.play_selected(),
            },
            Key::Tab => match self.focus {
                Pane::Directories => {
                    self.focus = Pane::Files;
                    self.play_selected()
                },
                Pane::Files => {
                    self.focus = Pane::Directories;
                    self.total_duration = None;
                    Action::Stop
                },
            },
            Key::Other => Action::Idle,
        }
    }

    /// Complete a directory change the host was asked for.  On a
    /// successful scan of `target`, move there: record the cursor of
    /// the directory being left, install the snapshot, restore the
    /// directory cursor from history and reset the file cursor.  On a
    /// failed scan, stay put and show the message.
    pub fn navigate_to(&mut self, target: Vec<u8>, outcome: Result<DirListing, String>)
        requires
            old(self).well_formed(),
        ensures
            final(self).well_formed(),
            match outcome {
                Result::Ok(listing) => nav_ok_post(*old(self), *final(self), target@, listing),
                Result::Err(msg) => nav_err_post(*old(self), *final(self), msg@),
            },
    {
        match outcome {
            Result::Err(msg) => {
                self.error_msg = Some(msg);
            },
            Result::Ok(listing) => {
                if let Some(i) = self.dir_cursor {
                    self.history.record(&self.current_path, i);
                }
                self.current_path = target;
                self.directories = listing.directories;
                self.files = listing.files;
                let dlen = self.directories.len();
                self.dir_cursor = if dlen == 0 {
                    None
                } else {
                    match self.history.recall(&self.current_path) {
                        Some(idx) => if idx < dlen {
                            Some(idx)
                        } else {
                            Some(dlen - 1)
                        },
                        None => Some(0),
                    }
                };
                self.file_cursor = if self.files.len() == 0 {
                    None
                } else {
                    Some(0)
                };
            },
        }
    }

    /// Record the outcome of a play request the host was asked for.
    pub fn on_play_result(&mut self, outcome: Result<Option<u64>, AudioError>)
        requires
            old(self).well_formed(),
        ensures
            final(self).well_formed(),
            match outcome {
                Result::Ok(duration) => play_ok_post(*old(self), *final(self), duration),
                Result::Err(e) => play_err_post(*old(self), *final(self), e),
            },
    {
        match outcome {
            Result::Ok(duration) => {
                self.total_duration = duration;
            },
            Result::Err(e) => {
                self.total_duration = None;
                self.error_msg = Some(e.message());
            },
        }
    }

    /// The progress gauge's reading at playback position `position`
    /// (nanoseconds): a fraction given as numerator and denominator,
    /// strictly proper, or nothing — shown as an empty gauge — while no
    /// duration is known, in particular before any play and right
    /// after any stop.
    pub fn progress_parts(&self, position: u64) -> (r: Option<(u64, u64)>)
        ensures
            r == progress_spec(*self, position),
            r matches Some(p) ==> 0 < p.1 && p.0 < p.1,
    {
        match self.total_duration {
            None => None,
            Some(d) => if d == 0 {
                None
            } else {
                Some((position % d, d))
            },
        }
    }
}

/// No key press moves the browser by itself: every transition of
/// `key_step` leaves the current path, both listings and the history
/// exactly as they were.  Directories change only through
/// `App::navigate_to`, so any amount of browsing between entering a
/// directory and backing out preserves the place.
pub proof fn lemma_keys_keep_place(s: App, key: Key, t: App, a: Action)
    requires
        key_step(s, key, t, a),
    ensures
        same_place(s, t),
{
}

/// A whole run of key presses keeps the place too: along any chain of
/// states in which each is reached from the last by one `key_step`,
/// the first and the final state agree on path, listings and history.
pub proof fn lemma_browsing_keeps_place(states: Seq<App>, keys: Seq<Key>, actions: Seq<Action>)
    requires
        states.len() == keys.len() + 1,
        actions.len() == keys.len(),
        forall|n: int|
            0 <= n < keys.len() ==> #[trigger] key_step(states[n], keys[n], states[n + 1], actions[n]),
    ensures
        same_place(states[0], states[states.len() - 1]),
    decreases keys.len(),
{
    if keys.len() > 0 {
        lemma_browsing_keeps_place(states.drop_last(), keys.drop_last(), actions.drop_last());
        lemma_keys_keep_place(
            states[states.len() - 2],
            keys[keys.len() - 1],
            states[states.len() - 1],
            actions[actions.len() - 1],
        );
    }
}

/// Entering a subdirectory and later backing out restores the original
/// path and the directory cursor to their pre-entry values, whatever
/// browsing happened inside: the position is recorded on the way in,
/// survives every key press in between (`lemma_browsing_keeps_place`),
/// and is recalled on the way out, where the parent of the entered
/// path is the directory that was left.  The file cursor starts over
/// at the first file of the re-read snapshot.  The well-formed-path
/// hypotheses hold of every path the browser reaches: the starting
/// path satisfies them, and each descent does again
/// (`crate::paths::lemma_join_wf`).
pub proof fn lemma_enter_exit_restores(
    s: App,
    entered: App,
    browsed: App,
    back: App,
    i: usize,
    enter_listing: DirListing,
    exit_listing: DirListing,
    back_target: Seq<u8>,
)
    requires
        s.dir_cursor == Some(i),
        i < s.directories@.len(),
        crate::paths::path_wf(s.current_path@),
        crate::paths::name_wf(s.directories@[i as int]@),
        // the way in: the selected subdirectory's joined path was
        // scanned and entered
        nav_ok_post(s, entered, crate::paths::join_of(s.current_path@, s.directories@[i as int]@), enter_listing),
        // browsing inside leaves the place alone
        same_place(entered, browsed),
        // the way out: the parent of the path being left was scanned
        // and entered
        crate::paths::parent_of(browsed.current_path@) == Some(back_target),
        nav_ok_post(browsed, back, back_target, exit_listing),
        // the directory that was left still lists enough entries for
        // the remembered position
        i < exit_listing.directories@.len(),
    ensures
        back.current_path@ == s.current_path@,
        back.dir_cursor == Some(i),
        back.file_cursor == init_cursor(exit_listing.files@.len()),
{
    let name = s.directories@[i as int]@;
    let child = crate::paths::join_of(s.current_path@, name);
    crate::paths::lemma_parent_of_join(s.current_path@, name);
    assert(back_target == s.current_path@);
    // The record written on the way out keys the child path, which is
    // strictly longer than the original path, so it cannot shadow the
    // record written on the way in.
    crate::paths::lemma_join_longer(s.current_path@, name);
    let recorded = match browsed.dir_cursor {
        Some(j) => browsed.history@.insert(child, j),
        None => browsed.history@,
    };
    assert(recorded.contains_key(s.current_path@));
    assert(recorded[s.current_path@] == i);
}

/// Backing out of a directory and then entering it again restores the
/// cursor position held inside it when it was left: backing out
/// records the position for the directory being left, and since the
/// parent it moves to is a strictly shorter path, the record survives
/// and is recalled on re-entry.
pub proof fn lemma_reenter_restores(
    browsed: App,
    back: App,
    again: App,
    j: usize,
    exit_listing: DirListing,
    reenter_listing: DirListing,
    back_target: Seq<u8>,
)
    requires
        browsed.dir_cursor == Some(j),
        // the way out: the parent was scanned and entered
        crate::paths::parent_of(browsed.current_path@) == Some(back_target),
        nav_ok_post(browsed, back, back_target, exit_listing),
        // the way back in: the same directory was scanned and entered
        nav_ok_post(back, again, browsed.current_path@, reenter_listing),
        // it still lists enough entries for the remembered position
        j < reenter_listing.directories@.len(),
    ensures
        again.current_path@ == browsed.current_path@,
        again.dir_cursor == Some(j),
{
    crate::paths::lemma_parent_shorter(browsed.current_path@, back_target);
    let recorded = match back.dir_cursor {
        Some(k) => back.history@.insert(back.current_path@, k),
        None => back.history@,
    };
    assert(recorded.contains_key(browsed.current_path@));
    assert(recorded[browsed.current_path@] == j);
}

/// The progress gauge never overshoots: whenever it has a reading, the
/// numerator lies strictly below the denominator, so the shown
/// fraction lies in `[0, 1)`; and it has no reading — it shows zero —
/// in any state with no known duration, which `App::new` starts in and
/// every stopping transition returns to.
pub proof fn lemma_progress_fraction_bounds(s: App, position: u64)
    ensures
        progress_spec(s, position) matches Some(p) ==> 0 < p.1 && p.0 < p.1,
        s.total_duration is None ==> progress_spec(s, position) is None,
{
}

/// Toggling loop while a track is playing stops it at once: the
/// looping flag flips, the host is told to halt the sink, and the
/// progress gauge reads empty at every position — and stays so until
/// some later play request reports a new duration.
pub proof fn lemma_toggle_loop_stops(s: App, t: App, a: Action, position: u64)
    requires
        key_step(s, Key::Char('l'), t, a),
    ensures
        t.looping == !s.looping,
        a is Stop,
        progress_spec(t, position) is None,
{
}

/// One step towards the previous item, clamped at the top.
fn move_up(c: Option<usize>) -> (r: Option<usize>)
    ensures
        r == cursor_up(c),
{
    match c {
        None => None,
        Some(i) => if i > 0 {
            Some(i - 1)
        } else {
            Some(i)
        },
    }
}

/// One step towards the next item, clamped at the bottom.
fn move_down(c: Option<usize>, len: usize) -> (r: Option<usize>)
    requires
        crate::cursor_ok(c, len as nat),
    ensures
        r == cursor_down(c, len as nat),
{
    match c {
        None => None,
        Some(i) => if i + 1 < len {
            Some(i + 1)
        } else {
            Some(i)
        },
    }
}

} // verus!
