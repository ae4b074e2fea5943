use vstd::prelude::*;
use vstd::string::StringExecFns;

use crate::event::{Command, Effect, Key, Mode, Warning};
use crate::modal::{input_key_post, ConfirmationModal, InputModal, Message, Modal};
use crate::playlists_pane::{playlists_command_post, PlaylistsPane};
use crate::song::Song;
use crate::songs_pane::{command_post, key_post, SongsPane};

verus! {

/// Why a modal is open, with what the pending action needs.
#[derive(Debug, Clone, PartialEq, Eq)]
pub enum ModalType {
    Play,
    AddSong { playlist: String },
    AddPlaylist,
    RenameSong { playlist: String, index: usize },
    DeleteSong { playlist: String, index: usize },
}

/// What receives input.
#[derive(Debug, Clone, PartialEq, Eq)]
pub enum BrowsePane {
    Playlists,
    Songs,
    Modal(ModalType),
}

/// How creating a playlist went.
#[derive(Debug, Clone, Copy, PartialEq, Eq, Structural)]
pub enum CreateResult {
    Created,
    AlreadyExists,
}

/// Where the focus goes and what is asked for when a modal opened for
/// `intent` ends with `msg` (`Quit` or `Commit`), `back` being the pane that
/// had the focus when it opened.
pub open spec fn resolve(intent: ModalType, msg: Message, back: BrowsePane) -> (BrowsePane, Effect) {
    match msg {
        Message::Commit(text) => match intent {
            ModalType::Play => (BrowsePane::Songs, Effect::PlayNow(text)),
            ModalType::AddSong { playlist } => (
                BrowsePane::Songs,
                Effect::AddSong { playlist, song: text },
            ),
            ModalType::AddPlaylist => (BrowsePane::Playlists, Effect::CreatePlaylist(text)),
            ModalType::RenameSong { playlist, index } => (
                BrowsePane::Songs,
                Effect::RenameSong { playlist, index, new_name: text },
            ),
            ModalType::DeleteSong { playlist, index } => (
                BrowsePane::Songs,
                Effect::DeleteSong { playlist, index },
            ),
        },
        _ => (back, Effect::Nothing),
    }
}

/// Modals that act on songs open from the songs pane; the one that adds a
/// playlist opens from the playlists pane.
pub open spec fn intent_fits(intent: ModalType, back: BrowsePane) -> bool {
    &&& (intent is AddSong || intent is RenameSong || intent is DeleteSong) ==> back is Songs
    &&& intent is AddPlaylist ==> back is Playlists
}

/// Cancelling a modal opened to add, rename or delete a song gives the focus
/// back to the songs pane; one opened to add a playlist, to the playlists pane.
pub proof fn lemma_cancel_returns(s: BrowseScreen)
    requires
        s.wf(),
        s.selected_pane is Modal,
    ensures
        (s.selected_pane->Modal_0 is AddSong || s.selected_pane->Modal_0 is RenameSong
            || s.selected_pane->Modal_0 is DeleteSong) ==> resolve(
            s.selected_pane->Modal_0,
            Message::Quit,
            s.return_pane,
        ).0 == BrowsePane::Songs,
        s.selected_pane->Modal_0 is AddPlaylist ==> resolve(
            s.selected_pane->Modal_0,
            Message::Quit,
            s.return_pane,
        ).0 == BrowsePane::Playlists,
{
}

/// The prompt of the confirmation before deleting a song.
pub open spec fn delete_prompt(title: Seq<char>) -> Seq<char> {
    "Do you really want to delete '"@ + title + "'?"@
}

/// Whether the screen handles `cmd` itself, by switching panes or opening a
/// modal, instead of handing it to the focused pane.
pub open spec fn screen_command(cmd: Command) -> bool {
    ||| cmd == Command::PlayFromModal
    ||| cmd == Command::SelectRight
    ||| cmd == Command::SelectLeft
    ||| cmd == Command::Add
    ||| cmd == Command::Rename
    ||| cmd == Command::Delete
}

/// The pane that gets the focus when the focus moves across.
pub open spec fn other_pane(p: BrowsePane) -> BrowsePane {
    if p is Playlists {
        BrowsePane::Songs
    } else {
        BrowsePane::Playlists
    }
}

/// `n` is `o` with a fresh text modal open for `intent`, and nothing asked for.
pub open spec fn opened_input(o: BrowseScreen, n: BrowseScreen, intent: ModalType, r: Effect) -> bool {
    &&& n.selected_pane == BrowsePane::Modal(intent)
    &&& n.return_pane == o.selected_pane
    &&& (n.modal matches Some(Modal::Input(m)) && m.input@.len() == 0 && m.pos == 0)
    &&& n.playlists == o.playlists
    &&& n.songs == o.songs
    &&& r == Effect::Nothing
}

/// `n` and `o` differ at most in the focused pane `p`'s state.
pub open spec fn only_pane_changed(o: BrowseScreen, n: BrowseScreen) -> bool {
    &&& n.selected_pane == o.selected_pane
    &&& n.modal == o.modal
    &&& n.return_pane == o.return_pane
    &&& o.selected_pane is Songs ==> n.playlists == o.playlists
    &&& o.selected_pane is Playlists ==> n.songs == o.songs
}

/// What a command does to the screen `o`, giving `n` and effect `r`.
pub open spec fn screen_command_post(o: BrowseScreen, n: BrowseScreen, cmd: Command, r: Effect) -> bool {
    let ready = o.playlists.selected is Some && o.songs.shown.selected is Some;
    &&& n.wf()
    &&& o.selected_pane is Modal ==> r == Effect::Nothing && n == o
    &&& !(o.selected_pane is Modal) && cmd == Command::PlayFromModal ==> opened_input(
        o,
        n,
        ModalType::Play,
        r,
    )
    &&& !(o.selected_pane is Modal) && (cmd == Command::SelectRight || cmd == Command::SelectLeft)
        ==> {
        &&& n.selected_pane == other_pane(o.selected_pane)
        &&& n.modal == o.modal
        &&& n.playlists == o.playlists
        &&& n.songs == o.songs
        &&& r == Effect::Nothing
    }
    &&& o.selected_pane is Playlists && cmd == Command::Add ==> opened_input(
        o,
        n,
        ModalType::AddPlaylist,
        r,
    )
    &&& o.selected_pane is Songs && cmd == Command::Add ==> if o.playlists.selected is Some {
        opened_input(o, n, ModalType::AddSong { playlist: o.playlists.spec_selected_item()->0 }, r)
    } else {
        r == Effect::Warn(Warning::NoPlaylistSelected) && n == o
    }
    &&& o.selected_pane is Songs && cmd == Command::Rename && ready ==> opened_input(
        o,
        n,
        ModalType::RenameSong {
            playlist: o.playlists.spec_selected_item()->0,
            index: o.songs.spec_selected_index()->0,
        },
        r,
    )
    &&& o.selected_pane is Songs && cmd == Command::Delete && ready ==> {
        let i = o.songs.spec_selected_index()->0;
        &&& n.selected_pane == BrowsePane::Modal(
            ModalType::DeleteSong { playlist: o.playlists.spec_selected_item()->0, index: i },
        )
        &&& n.return_pane == o.selected_pane
        &&& (n.modal matches Some(Modal::Confirmation(m)) && m.title@ == delete_prompt(
            o.songs.songs@[i as int].title@,
        ))
        &&& n.playlists == o.playlists
        &&& n.songs == o.songs
        &&& r == Effect::Nothing
    }
    &&& (cmd == Command::Rename || cmd == Command::Delete) && !(o.selected_pane is Songs && ready)
        ==> r == Effect::Nothing && n == o
    &&& !screen_command(cmd) && o.selected_pane is Playlists ==> playlists_command_post(
        o.playlists,
        n.playlists,
        cmd,
        r,
    ) && only_pane_changed(o, n)
    &&& !screen_command(cmd) && o.selected_pane is Songs ==> command_post(o.songs, n.songs, cmd, r)
        && only_pane_changed(o, n)
}

/// What a key press does to the screen `o`, giving `n` and effect `r`.
pub open spec fn screen_key_post(o: BrowseScreen, n: BrowseScreen, key: Key, r: Effect) -> bool {
    let editing = key == Key::Char('c') && (o.selected_pane is Playlists || o.songs.spec_mode()
        == Mode::Normal);
    &&& n.wf()
    &&& o.selected_pane is Modal ==> n.playlists == o.playlists && n.songs == o.songs
    &&& o.selected_pane is Modal && key == Key::Esc ==> n.modal is None && n.selected_pane
        == o.return_pane && r == Effect::Nothing
    &&& o.selected_pane is Modal && key == Key::Enter ==> n.modal is None && exists|t: String|
        {
            &&& n.selected_pane == (#[trigger] resolve(
                o.selected_pane->Modal_0,
                Message::Commit(t),
                o.return_pane,
            )).0
            &&& r == resolve(o.selected_pane->Modal_0, Message::Commit(t), o.return_pane).1
            &&& (match o.modal {
                Some(Modal::Input(m)) => t@ == m.input@,
                _ => t@.len() == 0,
            })
        }
    &&& o.selected_pane is Modal && key != Key::Esc && key != Key::Enter ==> match o.modal {
        Some(Modal::Input(m)) => {
            &&& r == Effect::Nothing
            &&& n.selected_pane == o.selected_pane
            &&& n.return_pane == o.return_pane
            &&& (n.modal matches Some(Modal::Input(m2)) && input_key_post(m, m2, key, Message::Nothing))
        },
        Some(Modal::Confirmation(_)) => if key == Key::Char('n') {
            r == Effect::Nothing && n.modal is None && n.selected_pane == o.return_pane
        } else {
            r == Effect::Nothing && n == o
        },
        None => true,
    }
    &&& !(o.selected_pane is Modal) && (key == Key::Left || key == Key::Right) ==> {
        &&& n.selected_pane == other_pane(o.selected_pane)
        &&& n.modal == o.modal
        &&& n.playlists == o.playlists
        &&& n.songs == o.songs
        &&& r == Effect::Nothing
    }
    &&& !(o.selected_pane is Modal) && editing ==> n == o && r == (if o.playlists.selected is Some {
        Effect::EditPlaylist(o.playlists.spec_selected_item()->0)
    } else {
        Effect::Nothing
    })
    &&& o.selected_pane is Songs && key != Key::Left && key != Key::Right && !editing ==> key_post(
        o.songs,
        n.songs,
        key,
        r,
    ) && only_pane_changed(o, n)
    &&& o.selected_pane is Playlists && key != Key::Left && key != Key::Right && !editing ==> r
        == Effect::Nothing && n == o
}

/// The browsing screen: playlists on the left, the songs of the selected one
/// on the right, and at most one modal over them.
#[derive(Debug)]
pub struct BrowseScreen {
    pub playlists: PlaylistsPane,
    pub songs: SongsPane,
    pub modal: Option<Modal>,
    pub selected_pane: BrowsePane,
    /// The pane that had the focus when the modal opened.
    pub return_pane: BrowsePane,
}

impl BrowseScreen {
    /// The panes are consistent, and a modal is open exactly while it has
    /// the focus.
    pub open spec fn wf(&self) -> bool {
        &&& self.playlists.wf()
        &&& self.songs.wf()
        &&& (self.selected_pane is Modal <==> self.modal is Some)
        &&& (self.modal is Some ==> self.modal->0.wf())
        &&& (self.return_pane is Playlists || self.return_pane is Songs)
        &&& (self.selected_pane is Modal ==> intent_fits(self.selected_pane->Modal_0, self.return_pane))
    }

    /// A screen over the playlists `names`, with `songs` those of the first
    /// one; the playlists pane has the focus.
    pub fn new(names: Vec<String>, songs: Vec<Song>) -> (r: BrowseScreen)
        ensures
            r.wf(),
            r.selected_pane == BrowsePane::Playlists,
            r.modal is None,
            r.playlists.names@ == names@,
            names@.len() > 0 ==> r.songs.songs@ == songs@,
    {
        let playlists = PlaylistsPane::new(names);
        let mut pane = SongsPane::new();
        match playlists.selected_item() {
            Some(name) => pane.update_from_playlist_named(name.as_str(), songs),
            None => {},
        }
        BrowseScreen {
            playlists,
            songs: pane,
            modal: None,
            selected_pane: BrowsePane::Playlists,
            return_pane: BrowsePane::Playlists,
        }
    }

    /// Takes the songs of the selected playlist, read again.
    pub fn reload_songs(&mut self, songs: Vec<Song>)
        requires
            old(self).wf(),
        ensures
            final(self).wf(),
            final(self).selected_pane == old(self).selected_pane,
            final(self).playlists == old(self).playlists,
            old(self).playlists.selected is Some ==> final(self).songs.songs@ == songs@,
            old(self).playlists.selected is None ==> final(self).songs.songs@.len() == 0,
    {
        match self.playlists.selected_item() {
            Some(name) => self.songs.update_from_playlist_pane(Some(name.as_str()), songs),
            None => self.songs.update_from_playlist_pane(None, songs),
        }
    }

    /// Takes the songs of the selected playlist, read again after the song
    /// at `index` was deleted from it.
    pub fn reload_after_delete(&mut self, index: usize, songs: Vec<Song>)
        requires
            old(self).wf(),
        ensures
            final(self).wf(),
            final(self).selected_pane == old(self).selected_pane,
            final(self).songs.songs@ == songs@,
    {
        self.songs.song_deleted(index, songs);
    }

    /// Takes the playlist names read again from the playlists directory.
    pub fn reload_playlists(&mut self, names: Vec<String>)
        requires
            old(self).wf(),
        ensures
            final(self).wf(),
            final(self).selected_pane == old(self).selected_pane,
            final(self).playlists.names@ == names@,
    {
        self.playlists.reload(names);
    }

    /// Opens a text modal for `intent`.
    fn open_modal(&mut self, title: &str, intent: ModalType)
        requires
            old(self).wf(),
            old(self).selected_pane is Playlists || old(self).selected_pane is Songs,
            intent_fits(intent, old(self).selected_pane),
        ensures
            final(self).wf(),
            final(self).selected_pane == BrowsePane::Modal(intent),
            final(self).return_pane == old(self).selected_pane,
            final(self).modal matches Some(Modal::Input(m)) && m.input@.len() == 0 && m.title@
                == title@,
            final(self).playlists == old(self).playlists,
            final(self).songs == old(self).songs,
    {
        let mut back = BrowsePane::Modal(intent);
        std::mem::swap(&mut back, &mut self.selected_pane);
        self.return_pane = back;
        self.modal = Some(Modal::Input(InputModal::new(title)));
    }

    /// Opens a yes/no modal for `intent`.
    fn open_confirmation(&mut self, title: String, intent: ModalType)
        requires
            old(self).wf(),
            old(self).selected_pane is Playlists || old(self).selected_pane is Songs,
            intent_fits(intent, old(self).selected_pane),
        ensures
            final(self).wf(),
            final(self).selected_pane == BrowsePane::Modal(intent),
            final(self).return_pane == old(self).selected_pane,
            final(self).modal matches Some(Modal::Confirmation(m)) && m.title == title,
            final(self).playlists == old(self).playlists,
            final(self).songs == old(self).songs,
    {
        let mut back = BrowsePane::Modal(intent);
        std::mem::swap(&mut back, &mut self.selected_pane);
        self.return_pane = back;
        self.modal = Some(Modal::Confirmation(ConfirmationModal::new(title)));
    }

    /// Switches the focus between the two panes; nothing while a modal is open.
    pub fn select_next_panel(&mut self)
        requires
            old(self).wf(),
        ensures
            final(self).wf(),
            final(self).selected_pane == (match old(self).selected_pane {
                BrowsePane::Playlists => BrowsePane::Songs,
                BrowsePane::Songs => BrowsePane::Playlists,
                BrowsePane::Modal(t) => BrowsePane::Modal(t),
            }),
            final(self).modal == old(self).modal,
            final(self).playlists == old(self).playlists,
            final(self).songs == old(self).songs,
    {
        match self.selected_pane {
            BrowsePane::Playlists => {
                self.selected_pane = BrowsePane::Songs;
            },
            BrowsePane::Songs => {
                self.selected_pane = BrowsePane::Playlists;
            },
            BrowsePane::Modal(_) => {},
        }
    }

    /// Interprets what the open modal handed back: on `Quit` or `Commit` the
    /// modal closes, the focus goes where `resolve` says, and its effect is
    /// returned; on `Nothing` everything stays.
    pub fn handle_modal_message(&mut self, msg: Message) -> (r: Effect)
        requires
            old(self).wf(),
            old(self).selected_pane is Modal,
        ensures
            final(self).wf(),
            final(self).playlists == old(self).playlists,
            final(self).songs == old(self).songs,
            msg is Nothing ==> r == Effect::Nothing && *final(self) == *old(self),
            !(msg is Nothing) ==> ({
                let (pane, effect) = resolve(
                    old(self).selected_pane->Modal_0,
                    msg,
                    old(self).return_pane,
                );
                &&& final(self).selected_pane == pane
                &&& r == effect
                &&& final(self).modal is None
            }),
    {
        if let Message::Nothing = msg {
            return Effect::Nothing;
        }
        let mut pane = BrowsePane::Playlists;
        std::mem::swap(&mut pane, &mut self.selected_pane);
        let intent = match pane {
            BrowsePane::Modal(t) => t,
            _ => ModalType::Play,
        };
        self.modal = None;
        match msg {
            Message::Commit(text) => match intent {
                ModalType::Play => {
                    self.selected_pane = BrowsePane::Songs;
                    Effect::PlayNow(text)
                },
                ModalType::AddSong { playlist } => {
                    self.selected_pane = BrowsePane::Songs;
                    Effect::AddSong { playlist, song: text }
                },
                ModalType::AddPlaylist => {
                    self.selected_pane = BrowsePane::Playlists;
                    Effect::CreatePlaylist(text)
                },
                ModalType::RenameSong { playlist, index } => {
                    self.selected_pane = BrowsePane::Songs;
                    Effect::RenameSong { playlist, index, new_name: text }
                },
                ModalType::DeleteSong { playlist, index } => {
                    self.selected_pane = BrowsePane::Songs;
                    Effect::DeleteSong { playlist, index }
                },
            },
            _ => {
                let mut back = BrowsePane::Playlists;
                std::mem::swap(&mut back, &mut self.return_pane);
                self.selected_pane = back;
                self.return_pane = BrowsePane::Playlists;
                Effect::Nothing
            },
        }
    }

    /// After creating the playlist `name`: takes the names read again when it
    /// was created, or warns that it existed already and changes nothing.
    pub fn after_create_playlist(&mut self, name: String, result: CreateResult, names: Vec<String>) -> (r: Effect)
        requires
            old(self).wf(),
        ensures
            final(self).wf(),
            final(self).selected_pane == old(self).selected_pane,
            final(self).modal == old(self).modal,
            final(self).return_pane == old(self).return_pane,
            result == CreateResult::Created ==> {
                &&& final(self).playlists.names@ == names@
                &&& final(self).playlists.selected == crate::playlists_pane::kept_selection(
                    old(self).playlists.selected,
                    names@.len(),
                )
                &&& final(self).playlists.selected is Some ==> final(self).songs == old(self).songs
                    && r == Effect::LoadSongs(names@[final(self).playlists.selected->0 as int])
                &&& final(self).playlists.selected is None ==> r == Effect::Nothing
                    && final(self).songs.songs@.len() == 0
            },
            result == CreateResult::AlreadyExists ==> r == Effect::Warn(
                Warning::PlaylistExists(name),
            ) && *final(self) == *old(self),
    {
        match result {
            CreateResult::Created => {
                self.playlists.reload(names);
                match self.playlists.selected_item() {
                    Some(n) => Effect::LoadSongs(n.clone()),
                    None => {
                        self.songs.update_from_playlist_pane(None, Vec::new());
                        Effect::Nothing
                    },
                }
            },
            CreateResult::AlreadyExists => Effect::Warn(Warning::PlaylistExists(name)),
        }
    }

    /// Handles a command. While a modal is open commands do nothing; the
    /// screen's own commands switch panes or open modals; the rest go to the
    /// focused pane.
    pub fn handle_command(&mut self, cmd: Command) -> (r: Effect)
        requires
            old(self).wf(),
        ensures
            screen_command_post(*old(self), *final(self), cmd, r),
    {
        if let BrowsePane::Modal(_) = self.selected_pane {
            return Effect::Nothing;
        }
        match cmd {
            Command::PlayFromModal => {
                self.open_modal(" Play ", ModalType::Play);
                Effect::Nothing
            },
            Command::SelectRight | Command::SelectLeft => {
                self.select_next_panel();
                Effect::Nothing
            },
            Command::Add => {
                if let BrowsePane::Playlists = self.selected_pane {
                    self.open_modal(" Add playlist ", ModalType::AddPlaylist);
                    Effect::Nothing
                } else {
                    match self.playlists.selected_item() {
                        Some(playlist) => {
                            let playlist = playlist.clone();
                            self.open_modal(" Add song ", ModalType::AddSong { playlist });
                            Effect::Nothing
                        },
                        None => Effect::Warn(Warning::NoPlaylistSelected),
                    }
                }
            },
            Command::Rename => {
                if let BrowsePane::Songs = self.selected_pane {
                    if let (Some(playlist), Some(index)) = (
                        self.playlists.selected_item(),
                        self.songs.selected_index(),
                    ) {
                        let playlist = playlist.clone();
                        self.open_modal(
                            " Rename song (esc cancels) ",
                            ModalType::RenameSong { playlist, index },
                        );
                    }
                }
                Effect::Nothing
            },
            Command::Delete => {
                if let BrowsePane::Songs = self.selected_pane {
                    if let (Some(playlist), Some(index)) = (
                        self.playlists.selected_item(),
                        self.songs.selected_index(),
                    ) {
                        let playlist = playlist.clone();
                        let title = String::from_str("Do you really want to delete '").concat(
                            self.songs.songs[index].title.as_str(),
                        ).concat("'?");
                        proof {
                            assert(title@ =~= delete_prompt(self.songs.songs@[index as int].title@));
                        }
                        self.open_confirmation(title, ModalType::DeleteSong { playlist, index });
                    }
                }
                Effect::Nothing
            },
            _ => {
                if let BrowsePane::Playlists = self.selected_pane {
                    self.playlists.handle_command(cmd)
                } else {
                    self.songs.handle_command(cmd)
                }
            },
        }
    }

    /// Handles a key press: the open modal takes every key; otherwise Left
    /// and Right switch panes, `c` (while not typing) asks to edit the
    /// selected playlist, and other keys go to the focused pane.
    pub fn handle_key(&mut self, key: Key) -> (r: Effect)
        requires
            old(self).wf(),
        ensures
            screen_key_post(*old(self), *final(self), key, r),
    {
        if let BrowsePane::Modal(_) = self.selected_pane {
            let mut modal = None;
            std::mem::swap(&mut modal, &mut self.modal);
            let mut m = match modal {
                Some(m) => m,
                None => Modal::Confirmation(ConfirmationModal::new(String::new())),
            };
            let msg = m.handle_key(key);
            self.modal = Some(m);
            return self.handle_modal_message(msg);
        }
        match key {
            Key::Left | Key::Right => {
                self.select_next_panel();
                Effect::Nothing
            },
            Key::Char('c') => {
                if self.mode() == Mode::Normal {
                    match self.playlists.selected_item() {
                        Some(name) => Effect::EditPlaylist(name.clone()),
                        None => Effect::Nothing,
                    }
                } else {
                    self.pass_key_down(key)
                }
            },
            _ => self.pass_key_down(key),
        }
    }

    /// Hands a key to the focused pane.
    fn pass_key_down(&mut self, key: Key) -> (r: Effect)
        requires
            old(self).wf(),
            !(old(self).selected_pane is Modal),
        ensures
            final(self).wf(),
            old(self).selected_pane is Songs ==> key_post(old(self).songs, final(self).songs, key, r)
                && only_pane_changed(*old(self), *final(self)),
            old(self).selected_pane is Playlists ==> r == Effect::Nothing && *final(self) == *old(self),
    {
        if let BrowsePane::Songs = self.selected_pane {
            self.songs.handle_key(key)
        } else {
            Effect::Nothing
        }
    }

    /// What the focused part does with keys.
    pub fn mode(&self) -> (r: Mode)
        requires
            self.wf(),
        ensures
            self.selected_pane is Modal ==> r == Mode::Insert,
            self.selected_pane is Songs ==> r == self.songs.spec_mode(),
            self.selected_pane is Playlists ==> r == Mode::Normal,
    {
        match self.selected_pane {
            BrowsePane::Playlists => Mode::Normal,
            BrowsePane::Songs => self.songs.mode(),
            BrowsePane::Modal(_) => Mode::Insert,
        }
    }
}

} // verus!
