use vstd::prelude::*;

verus! {

/// A key press, as the screen sees it.
#[derive(Debug, Clone, Copy, PartialEq, Eq, Structural)]
pub enum Key {
    Char(char),
    Backspace,
    Delete,
    Left,
    Right,
    Up,
    Down,
    Home,
    End,
    Enter,
    Esc,
    Other,
}

/// A command that a key binding resolved to.
#[derive(Debug, Clone, Copy, PartialEq, Eq, Structural)]
pub enum Command {
    PlayFromModal,
    SelectRight,
    SelectLeft,
    SelectNext,
    SelectPrev,
    Add,
    Rename,
    Delete,
    QueueSong,
    QueueShown,
    Shuffle,
    OpenInBrowser,
    CopyUrl,
    CopyTitle,
    SwapSongUp,
    SwapSongDown,
    NextSortingMode,
    /// Any command this screen does not handle.
    Other,
}

/// Whether keys go to navigation (`Normal`) or to a text being typed (`Insert`).
#[derive(Debug, Clone, Copy, PartialEq, Eq, Structural)]
pub enum Mode {
    Normal,
    Insert,
}

/// A condition the user can correct, shown as a notification.
#[derive(Debug, Clone, PartialEq, Eq)]
pub enum Warning {
    /// A song was to be added while no playlist is selected.
    NoPlaylistSelected,
    /// A playlist of this name exists already.
    PlaylistExists(String),
}

/// Work outside the screen that handling an event asks for.
#[derive(Debug, Clone, PartialEq, Eq)]
pub enum Effect {
    Nothing,
    /// Replace the player's queue with this path and play it.
    PlayNow(String),
    /// Append this path to the player's queue.
    Queue(String),
    /// Append these paths to the player's queue, in order.
    QueueAll(Vec<String>),
    /// Shuffle the player's queue.
    Shuffle,
    OpenInBrowser(String),
    CopyToClipboard(String),
    /// Swap the songs at `index` and `index + 1` in the playlist file.
    SwapSongs { playlist: String, index: usize },
    /// Append a song to a playlist.
    AddSong { playlist: String, song: String },
    CreatePlaylist(String),
    RenameSong { playlist: String, index: usize, new_name: String },
    DeleteSong { playlist: String, index: usize },
    /// Read the songs of the playlist of this name and hand them to the
    /// screen (`BrowseScreen::reload_songs`).
    LoadSongs(String),
    /// Open the playlist of this name in an editor.
    EditPlaylist(String),
    Warn(Warning),
}

} // verus!
