use vstd::prelude::*;

use crate::event::{Command, Effect, Key, Mode};
use crate::filtered_list::{cursor_follows, is_view_of, refreshed, FilteredList};
use crate::song::Song;
use crate::text::{contains_seq, lower_chars, lower_of, matches_folded, string_from_chars};

verus! {

/// `s` without the line breaks at its end.
pub open spec fn trim_newlines(s: Seq<char>) -> Seq<char>
    decreases s.len(),
{
    if s.len() > 0 && s.last() == '\n' {
        trim_newlines(s.drop_last())
    } else {
        s
    }
}

/// The text searched for: the filter without its leading `/` and without the
/// line breaks that mark it as committed.
pub open spec fn filter_needle(filter: Seq<char>) -> Seq<char> {
    trim_newlines(filter.drop_first())
}

/// Whether a song is shown under a filter: always when the filter is empty,
/// else when the searched text occurs, ignoring case, in its title or path.
pub open spec fn song_matches(filter: Seq<char>, s: Song) -> bool {
    ||| filter.len() == 0
    ||| contains_seq(lower_of(s.title@), lower_of(filter_needle(filter)))
    ||| contains_seq(lower_of(s.path@), lower_of(filter_needle(filter)))
}

pub open spec fn filter_outcomes(filter: Seq<char>, songs: Seq<Song>) -> Seq<bool> {
    Seq::new(songs.len(), |i: int| song_matches(filter, songs[i]))
}

/// The filter after a key typed while it is being edited.
pub open spec fn edited_filter(filter: Seq<char>, key: Key) -> Seq<char> {
    match key {
        Key::Char(c) => filter.push(c),
        Key::Backspace => if filter.len() == 0 {
            filter
        } else {
            filter.drop_last()
        },
        Key::Esc => Seq::empty(),
        Key::Enter => filter.push('\n'),
        _ => filter,
    }
}

/// Two clicks on the same line less than this many milliseconds apart make a
/// double click.
pub const DOUBLE_CLICK_MS: u64 = 500;

/// Where and when the last click landed.
#[derive(Debug, Clone, Copy, PartialEq, Eq, Structural)]
pub struct ClickInfo {
    pub y: u16,
    pub at_ms: u64,
}

pub open spec fn is_double_click(last: Option<ClickInfo>, y: u16, now_ms: u64) -> bool {
    last is Some && last->0.y == y && last->0.at_ms <= now_ms && now_ms - last->0.at_ms
        < DOUBLE_CLICK_MS
}

/// The songs of one playlist, with a filter, a sort order and a cursor.
#[derive(Debug)]
pub struct SongsPane {
    pub title: String,
    pub songs: Vec<Song>,
    pub shown: FilteredList,
    /// Empty, or `/` followed by the searched text; a final line break marks
    /// the filter as committed.
    pub filter: Vec<char>,
    pub last_click: Option<ClickInfo>,
}

/// The filter text without its trailing line breaks, from position 1 on.
fn needle_of(filter: &Vec<char>) -> (r: Vec<char>)
    requires
        filter@.len() > 0,
    ensures
        r@ == filter_needle(filter@),
{
    let mut end: usize = filter.len();
    assert(filter@.subrange(1, end as int) =~= filter@.drop_first());
    while end > 1 && filter[end - 1] == '\n'
        invariant
            1 <= end <= filter@.len(),
            filter_needle(filter@) == trim_newlines(filter@.subrange(1, end as int)),
        decreases end,
    {
        assert(filter@.subrange(1, end as int).drop_last() =~= filter@.subrange(1, end - 1));
        end = end - 1;
    }
    let mut r: Vec<char> = Vec::new();
    let mut i: usize = 1;
    while i < end
        invariant
            1 <= i <= end,
            end <= filter@.len(),
            r@ == filter@.subrange(1, i as int),
        decreases end - i,
    {
        r.push(filter[i]);
        i = i + 1;
        assert(r@ =~= filter@.subrange(1, i as int));
    }
    r
}

/// Whether `o.songs` with the entries at `i` and `j` exchanged is `n`.
pub open spec fn swapped(o: Seq<Song>, n: Seq<Song>, i: int, j: int) -> bool {
    n == o.update(i, o[j]).update(j, o[i])
}

/// What a key press does to the pane `o`, giving `n` and effect `r`.
pub open spec fn key_post(o: SongsPane, n: SongsPane, key: Key, r: Effect) -> bool {
    let typing = o.spec_mode() == Mode::Insert && (key is Char || key is Backspace || key is Esc
        || key is Enter);
    &&& n.wf()
    &&& n.songs == o.songs
    &&& n.title == o.title
    &&& typing ==> {
        &&& r == Effect::Nothing
        &&& n.filter@ == edited_filter(o.filter@, key)
        &&& refreshed(o.shown, n.shown, o.songs@, filter_outcomes(n.filter@, o.songs@))
    }
    &&& !typing && key == Key::Enter ==> r == o.spec_play() && n == o
    &&& !typing && key == Key::Esc ==> {
        &&& r == Effect::Nothing
        &&& n.filter@.len() == 0
        &&& refreshed(o.shown, n.shown, o.songs@, filter_outcomes(Seq::empty(), o.songs@))
    }
    &&& !typing && key == Key::Char('/') ==> n.filter@ == seq!['/'] && n.shown == o.shown && r
        == Effect::Nothing
    &&& !typing && key == Key::Char('G') ==> {
        &&& r == Effect::Nothing
        &&& n.filter == o.filter
        &&& n.shown.items == o.shown.items
        &&& n.shown.sorting_method == o.shown.sorting_method
        &&& n.shown.selected == (if o.shown.items@.len() == 0 {
            o.shown.selected
        } else {
            Some((o.shown.items@.len() - 1) as usize)
        })
    }
    &&& key == Key::Up ==> r == Effect::Nothing && n.filter == o.filter && n.shown.items
        == o.shown.items && n.shown.sorting_method == o.shown.sorting_method && n.shown.selected
        == crate::filtered_list::prev_selection(o.shown.selected, o.shown.items@.len())
    &&& key == Key::Down ==> r == Effect::Nothing && n.filter == o.filter && n.shown.items
        == o.shown.items && n.shown.sorting_method == o.shown.sorting_method && n.shown.selected
        == crate::filtered_list::next_selection(o.shown.selected, o.shown.items@.len())
    &&& !typing && !(key == Key::Enter || key == Key::Esc || key == Key::Char('G') || key
        == Key::Char('/') || key == Key::Up || key == Key::Down) ==> r == Effect::Nothing && n == o
}

/// Whether the pane handles `cmd` itself by changing its state.
pub open spec fn changes_pane(cmd: Command) -> bool {
    cmd == Command::SelectNext || cmd == Command::SelectPrev || cmd == Command::NextSortingMode
        || cmd == Command::SwapSongUp || cmd == Command::SwapSongDown
}

/// What a command does to the pane `o`, giving `n` and effect `r`.
pub open spec fn command_post(o: SongsPane, n: SongsPane, cmd: Command, r: Effect) -> bool {
    let sel = o.spec_selected_index();
    &&& n.wf()
    &&& n.title == o.title
    &&& n.filter == o.filter
    &&& !changes_pane(cmd) ==> n == o
    &&& cmd == Command::SelectNext ==> {
        &&& r == Effect::Nothing
        &&& n.songs == o.songs
        &&& n.shown.items == o.shown.items
        &&& n.shown.sorting_method == o.shown.sorting_method
        &&& n.shown.selected == crate::filtered_list::next_selection(o.shown.selected, o.shown.items@.len())
    }
    &&& cmd == Command::SelectPrev ==> {
        &&& r == Effect::Nothing
        &&& n.songs == o.songs
        &&& n.shown.items == o.shown.items
        &&& n.shown.sorting_method == o.shown.sorting_method
        &&& n.shown.selected == crate::filtered_list::prev_selection(o.shown.selected, o.shown.items@.len())
    }
    &&& cmd == Command::Shuffle ==> r == Effect::Shuffle
    &&& cmd == Command::QueueShown ==> {
        &&& r is QueueAll
        &&& r->QueueAll_0@.len() == o.shown.items@.len()
        &&& forall|k: int|
            0 <= k < o.shown.items@.len() ==> #[trigger] r->QueueAll_0@[k] == o.songs@[o.shown.items@[k] as int].path
    }
    &&& (cmd == Command::QueueSong || cmd == Command::OpenInBrowser || cmd == Command::CopyUrl
        || cmd == Command::CopyTitle) && sel is None ==> r == Effect::Nothing
    &&& sel is Some ==> {
        let song = o.songs@[sel->0 as int];
        &&& cmd == Command::QueueSong ==> r == Effect::Queue(song.path)
        &&& cmd == Command::OpenInBrowser ==> r == Effect::OpenInBrowser(song.path)
        &&& cmd == Command::CopyUrl ==> r == Effect::CopyToClipboard(song.path)
        &&& cmd == Command::CopyTitle ==> r == Effect::CopyToClipboard(song.title)
    }
    &&& !changes_pane(cmd) && !(cmd == Command::Shuffle || cmd == Command::QueueShown || cmd
        == Command::QueueSong || cmd == Command::OpenInBrowser || cmd == Command::CopyUrl || cmd
        == Command::CopyTitle) ==> r == Effect::Nothing
    &&& cmd == Command::NextSortingMode ==> {
        &&& r == Effect::Nothing
        &&& n.songs == o.songs
        &&& n.shown.sorting_method == o.shown.sorting_method.spec_next()
        &&& is_view_of(n.shown.items@, o.songs@, filter_outcomes(o.filter@, o.songs@), n.shown.sorting_method)
        &&& cursor_follows(o.shown.items@, o.shown.selected, n.shown.items@, n.shown.selected)
    }
    &&& cmd == Command::SwapSongUp ==> if o.filter@.len() == 0 && sel is Some && sel->0 >= 1 {
        let i = sel->0 as int;
        &&& r == Effect::SwapSongs { playlist: o.title, index: (i - 1) as usize }
        &&& swapped(o.songs@, n.songs@, i - 1, i)
        &&& n.spec_selected_index() == Some((i - 1) as usize)
        &&& n.shown.sorting_method == o.shown.sorting_method
        &&& is_view_of(n.shown.items@, n.songs@, filter_outcomes(n.filter@, n.songs@), n.shown.sorting_method)
    } else {
        r == Effect::Nothing && n == o
    }
    &&& cmd == Command::SwapSongDown ==> if o.filter@.len() == 0 && sel is Some && sel->0 + 1
        < o.songs@.len() {
        let i = sel->0 as int;
        &&& r == Effect::SwapSongs { playlist: o.title, index: i as usize }
        &&& swapped(o.songs@, n.songs@, i, i + 1)
        &&& n.spec_selected_index() == Some((i + 1) as usize)
        &&& n.shown.sorting_method == o.shown.sorting_method
        &&& is_view_of(n.shown.items@, n.songs@, filter_outcomes(n.filter@, n.songs@), n.shown.sorting_method)
    } else {
        r == Effect::Nothing && n == o
    }
}

impl SongsPane {
    /// Every row refers to a song and the cursor, if any, is on a row.
    pub open spec fn wf(&self) -> bool {
        &&& self.shown.wf()
        &&& forall|k: int| 0 <= k < self.shown.items@.len() ==> #[trigger] self.shown.items@[k] < self.songs@.len()
    }

    /// The backing index of the selected song.
    pub open spec fn spec_selected_index(&self) -> Option<usize> {
        match self.shown.selected {
            Some(c) => Some(self.shown.items@[c as int]),
            None => None,
        }
    }

    /// What playing the selected song asks for.
    pub open spec fn spec_play(&self) -> Effect {
        match self.spec_selected_index() {
            Some(i) => Effect::PlayNow(self.songs@[i as int].path),
            None => Effect::Nothing,
        }
    }

    /// Whether the filter is being typed.
    pub open spec fn spec_mode(&self) -> Mode {
        if self.filter@.len() == 0 || self.filter@.last() == '\n' {
            Mode::Normal
        } else {
            Mode::Insert
        }
    }

    pub fn new() -> (r: SongsPane)
        ensures
            r.wf(),
            r.songs@.len() == 0,
            r.shown.items@.len() == 0,
            r.shown.selected is None,
            r.filter@.len() == 0,
            r.title@ == " songs "@,
    {
        SongsPane {
            title: String::from_str(" songs "),
            songs: Vec::new(),
            shown: FilteredList::new(),
            filter: Vec::new(),
            last_click: None,
        }
    }

    pub fn mode(&self) -> (r: Mode)
        ensures
            r == self.spec_mode(),
    {
        if self.filter.len() == 0 || self.filter[self.filter.len() - 1] == '\n' {
            Mode::Normal
        } else {
            Mode::Insert
        }
    }

    /// The text of the filter, as typed.
    pub fn filter_text(&self) -> (r: String)
        ensures
            r@ == self.filter@,
    {
        string_from_chars(&self.filter)
    }

    /// The pane's heading: the filter while there is one, else the title.
    pub fn header(&self) -> (r: String)
        ensures
            r@ == (if self.filter@.len() == 0 {
                self.title@
            } else {
                self.filter@
            }),
    {
        if self.filter.len() == 0 {
            self.title.clone()
        } else {
            string_from_chars(&self.filter)
        }
    }

    /// Recomputes the rows from the songs and the filter.
    fn refresh_shown(&mut self)
        ensures
            final(self).wf(),
            final(self).songs == old(self).songs,
            final(self).filter == old(self).filter,
            final(self).title == old(self).title,
            final(self).last_click == old(self).last_click,
            refreshed(
                old(self).shown,
                final(self).shown,
                old(self).songs@,
                filter_outcomes(old(self).filter@, old(self).songs@),
            ),
    {
        let n = self.songs.len();
        let mut keep: Vec<bool> = Vec::new();
        if self.filter.len() == 0 {
            let mut i: usize = 0;
            while i < n
                invariant
                    n == self.songs@.len(),
                    i <= n,
                    self.filter@.len() == 0,
                    keep@ == filter_outcomes(self.filter@, self.songs@).subrange(0, i as int),
                decreases n - i,
            {
                keep.push(true);
                i = i + 1;
                assert(keep@ =~= filter_outcomes(self.filter@, self.songs@).subrange(0, i as int));
            }
        } else {
            let needle = needle_of(&self.filter);
            let needle_str = string_from_chars(&needle);
            let needle_lower = lower_chars(needle_str.as_str());
            let mut i: usize = 0;
            while i < n
                invariant
                    n == self.songs@.len(),
                    i <= n,
                    self.filter@.len() > 0,
                    needle_lower@ == lower_of(filter_needle(self.filter@)),
                    keep@ == filter_outcomes(self.filter@, self.songs@).subrange(0, i as int),
                decreases n - i,
            {
                let title_lower = lower_chars(self.songs[i].title.as_str());
                let path_lower = lower_chars(self.songs[i].path.as_str());
                keep.push(matches_folded(&needle_lower, &title_lower, &path_lower));
                i = i + 1;
                assert(keep@ =~= filter_outcomes(self.filter@, self.songs@).subrange(0, i as int));
            }
        }
        assert(keep@ =~= filter_outcomes(self.filter@, self.songs@));
        self.shown.refresh(&self.songs, &keep);
    }

    /// Replaces the songs by those of a freshly read playlist, clears the
    /// filter, and keeps the cursor's row if that row still exists.
    pub fn update_from_playlist(&mut self, title: String, songs: Vec<Song>)
        requires
            old(self).wf(),
        ensures
            final(self).wf(),
            final(self).title@ == title@,
            final(self).songs@ == songs@,
            final(self).filter@.len() == 0,
            final(self).shown.sorting_method == old(self).shown.sorting_method,
            is_view_of(
                final(self).shown.items@,
                songs@,
                Seq::new(songs@.len(), |i: int| true),
                old(self).shown.sorting_method,
            ),
            final(self).shown.selected == (match old(self).shown.selected {
                Some(c) => if c < final(self).shown.items@.len() {
                    Some(c)
                } else if final(self).shown.items@.len() == 0 {
                    None
                } else {
                    Some(0usize)
                },
                None => if final(self).shown.items@.len() == 0 {
                    None
                } else {
                    Some(0usize)
                },
            }),
    {
        let state = self.shown.selected;
        self.title = title;
        self.songs = songs;
        self.filter = Vec::new();
        self.refresh_shown();
        assert(filter_outcomes(self.filter@, self.songs@) =~= Seq::new(
            self.songs@.len(),
            |i: int| true,
        ));
        match state {
            Some(c) => {
                if c < self.shown.items.len() {
                    self.shown.selected = Some(c);
                } else if self.shown.items.len() == 0 {
                    self.shown.selected = None;
                } else {
                    self.shown.selected = Some(0);
                }
            },
            None => {
                if self.shown.items.len() == 0 {
                    self.shown.selected = None;
                } else {
                    self.shown.selected = Some(0);
                }
            },
        }
    }

    /// As `update_from_playlist`, for the playlist of that name.
    pub fn update_from_playlist_named(&mut self, name: &str, songs: Vec<Song>)
        requires
            old(self).wf(),
        ensures
            final(self).wf(),
            final(self).title@ == name@,
            final(self).songs@ == songs@,
            final(self).filter@.len() == 0,
    {
        self.update_from_playlist(name.to_owned(), songs);
    }

    /// Follows the playlist selected in the playlists pane: its songs when one
    /// is selected, an empty pane when none is.
    pub fn update_from_playlist_pane(&mut self, playlist: Option<&str>, songs: Vec<Song>)
        requires
            old(self).wf(),
        ensures
            final(self).wf(),
            final(self).filter@.len() == 0,
            playlist is Some ==> final(self).title@ == playlist->0@ && final(self).songs@
                == songs@,
            playlist is None ==> final(self).songs@.len() == 0 && final(self).shown.selected is None
                && final(self).title@ == " songs "@,
    {
        match playlist {
            Some(name) => self.update_from_playlist_named(name, songs),
            None => {
                *self = SongsPane::new();
            },
        }
    }

    /// Reloads after the song at backing index `removed` was deleted from
    /// the playlist: the cursor stays on the song it was on; when that song is
    /// the one deleted, it keeps its row if that row still exists.
    pub fn song_deleted(&mut self, removed: usize, songs: Vec<Song>)
        requires
            old(self).wf(),
        ensures
            final(self).wf(),
            final(self).songs@ == songs@,
            final(self).filter@.len() == 0,
            ({
                let k = old(self).spec_selected_index();
                k is Some && k->0 != removed && (if k->0 > removed {
                    k->0 - 1
                } else {
                    k->0 as int
                }) < songs@.len() ==> final(self).spec_selected_index() == Some(
                    (if k->0 > removed {
                        k->0 - 1
                    } else {
                        k->0 as int
                    }) as usize,
                )
            }),
    {
        let prev = self.selected_index();
        let title = self.title.clone();
        self.update_from_playlist(title, songs);
        if let Some(k) = prev {
            if k != removed {
                let target = if k > removed {
                    k - 1
                } else {
                    k
                };
                if target < self.songs.len() {
                    proof {
                        let keep = Seq::new(self.songs@.len(), |i: int| true);
                        assert(keep[target as int]);
                        assert(self.shown.items@.contains(target as int as usize));
                    }
                    let mut p: usize = 0;
                    while p < self.shown.items.len() && self.shown.items[p] != target
                        invariant
                            p <= self.shown.items@.len(),
                            forall|q: int| 0 <= q < p ==> self.shown.items@[q] != target,
                        decreases self.shown.items@.len() - p,
                    {
                        p = p + 1;
                    }
                    self.shown.selected = Some(p);
                }
            }
        }
    }

    /// The cursor's row.
    pub fn state(&self) -> (r: Option<usize>)
        ensures
            r == self.shown.selected,
    {
        self.shown.selected
    }

    pub fn set_state(&mut self, state: Option<usize>)
        requires
            old(self).wf(),
            state is Some ==> state->0 < old(self).shown.items@.len(),
        ensures
            final(self).wf(),
            final(self).shown.selected == state,
            final(self).shown.items@ == old(self).shown.items@,
            final(self).songs@ == old(self).songs@,
    {
        self.shown.selected = state;
    }

    pub fn select_next(&mut self)
        requires
            old(self).wf(),
        ensures
            final(self).wf(),
            final(self).shown.items@ == old(self).shown.items@,
            final(self).songs@ == old(self).songs@,
            final(self).shown.selected == crate::filtered_list::next_selection(
                old(self).shown.selected,
                old(self).shown.items@.len(),
            ),
            final(self).songs == old(self).songs,
            final(self).filter == old(self).filter,
            final(self).title == old(self).title,
            final(self).last_click == old(self).last_click,
            final(self).shown.items == old(self).shown.items,
            final(self).shown.sorting_method == old(self).shown.sorting_method,
    {
        self.shown.select_next();
    }

    pub fn select_prev(&mut self)
        requires
            old(self).wf(),
        ensures
            final(self).wf(),
            final(self).shown.items@ == old(self).shown.items@,
            final(self).songs@ == old(self).songs@,
            final(self).shown.selected == crate::filtered_list::prev_selection(
                old(self).shown.selected,
                old(self).shown.items@.len(),
            ),
            final(self).songs == old(self).songs,
            final(self).filter == old(self).filter,
            final(self).title == old(self).title,
            final(self).last_click == old(self).last_click,
            final(self).shown.items == old(self).shown.items,
            final(self).shown.sorting_method == old(self).shown.sorting_method,
    {
        self.shown.select_prev();
    }

    /// Puts the cursor on row `i`, or removes it.
    pub fn select_index(&mut self, i: Option<usize>)
        requires
            old(self).wf(),
            i is Some ==> i->0 < old(self).shown.items@.len(),
        ensures
            final(self).wf(),
            final(self).shown.selected == i,
            final(self).shown.items@ == old(self).shown.items@,
            final(self).songs@ == old(self).songs@,
    {
        self.shown.selected = i;
    }

    /// The backing index of the selected song.
    pub fn selected_index(&self) -> (r: Option<usize>)
        requires
            self.wf(),
        ensures
            r == self.spec_selected_index(),
            r is Some ==> r->0 < self.songs@.len(),
    {
        self.shown.selected_item()
    }

    /// The selected song.
    pub fn selected_item(&self) -> (r: Option<&Song>)
        requires
            self.wf(),
        ensures
            r is Some <==> self.shown.selected is Some,
            r is Some ==> *r->0 == self.songs@[self.spec_selected_index()->0 as int],
    {
        match self.selected_index() {
            Some(i) => Some(&self.songs[i]),
            None => None,
        }
    }

    /// Plays the selected song, replacing what the player holds.
    pub fn play_selected(&self) -> (r: Effect)
        requires
            self.wf(),
        ensures
            r == self.spec_play(),
    {
        match self.selected_item() {
            Some(song) => Effect::PlayNow(song.path.clone()),
            None => Effect::Nothing,
        }
    }

    /// Edits the filter while it is being typed; false for keys that do not
    /// edit it.
    pub fn handle_filter_key_event(&mut self, key: Key) -> (r: bool)
        ensures
            r == (key is Char || key is Backspace || key is Esc || key is Enter),
            final(self).songs == old(self).songs,
            final(self).shown == old(self).shown,
            final(self).title == old(self).title,
            final(self).last_click == old(self).last_click,
            final(self).filter@ == edited_filter(old(self).filter@, key),
            !(key is Char || key is Backspace || key is Esc || key is Enter) ==> *final(self) == *old(self),
    {
        match key {
            Key::Char(c) => {
                self.filter.push(c);
                true
            },
            Key::Backspace => {
                self.filter.pop();
                true
            },
            Key::Esc => {
                self.filter = Vec::new();
                true
            },
            Key::Enter => {
                self.filter.push('\n');
                true
            },
            _ => false,
        }
    }

    /// Handles a key press while this pane has the focus.
    pub fn handle_key(&mut self, key: Key) -> (r: Effect)
        requires
            old(self).wf(),
        ensures
            key_post(*old(self), *final(self), key, r),
    {
        if self.mode() == Mode::Insert {
            if self.handle_filter_key_event(key) {
                self.refresh_shown();
                return Effect::Nothing;
            }
        }
        match key {
            Key::Enter => self.play_selected(),
            Key::Esc => {
                self.filter = Vec::new();
                self.refresh_shown();
                Effect::Nothing
            },
            Key::Char('G') => {
                if self.shown.items.len() > 0 {
                    self.shown.selected = Some(self.shown.items.len() - 1);
                }
                Effect::Nothing
            },
            Key::Up => {
                self.select_prev();
                Effect::Nothing
            },
            Key::Down => {
                self.select_next();
                Effect::Nothing
            },
            Key::Char('/') => {
                self.filter = vec!['/'];
                assert(self.filter@ =~= seq!['/']);
                Effect::Nothing
            },
            _ => Effect::Nothing,
        }
    }

    /// A left click at terminal row `y`, where the first row of songs is at
    /// `top`, at time `now_ms`: selects the clicked row, and plays it on a
    /// double click.
    pub fn click(&mut self, top: u16, y: u16, now_ms: u64) -> (r: Effect)
        requires
            old(self).wf(),
        ensures
            final(self).wf(),
            final(self).songs@ == old(self).songs@,
            final(self).shown.items@ == old(self).shown.items@,
            ({
                let line = if y >= top {
                    (y - top) as int
                } else {
                    0
                };
                if line < old(self).shown.items@.len() {
                    &&& final(self).shown.selected == Some(line as usize)
                    &&& r == (if is_double_click(old(self).last_click, y, now_ms) {
                        final(self).spec_play()
                    } else {
                        Effect::Nothing
                    })
                } else {
                    r == Effect::Nothing && final(self).shown.selected == old(self).shown.selected
                }
            }),
    {
        let line: usize = if y >= top {
            (y - top) as usize
        } else {
            0
        };
        let double = match self.last_click {
            Some(last) => last.y == y && last.at_ms <= now_ms && now_ms - last.at_ms
                < DOUBLE_CLICK_MS,
            None => false,
        };
        self.last_click = if double {
            None
        } else {
            Some(ClickInfo { y, at_ms: now_ms })
        };
        if line >= self.shown.items.len() {
            return Effect::Nothing;
        }
        self.shown.selected = Some(line);
        if double {
            self.play_selected()
        } else {
            Effect::Nothing
        }
    }

    /// Puts the cursor on the row of backing index `k`.
    fn select_backing(&mut self, k: usize)
        requires
            old(self).wf(),
            old(self).shown.items@.contains(k),
        ensures
            final(self).wf(),
            final(self).spec_selected_index() == Some(k),
            final(self).songs == old(self).songs,
            final(self).filter == old(self).filter,
            final(self).title == old(self).title,
            final(self).shown.items == old(self).shown.items,
            final(self).shown.sorting_method == old(self).shown.sorting_method,
    {
        let mut p: usize = 0;
        while p < self.shown.items.len() && self.shown.items[p] != k
            invariant
                p <= self.shown.items@.len(),
                self.shown.items@.contains(k),
                forall|q: int| 0 <= q < p ==> self.shown.items@[q] != k,
            decreases self.shown.items@.len() - p,
        {
            p = p + 1;
        }
        self.shown.selected = Some(p);
    }

    /// After the songs were reordered with an empty filter: refreshes the rows
    /// and puts the cursor on backing index `k`.
    fn follow_swap(&mut self, k: usize)
        requires
            old(self).filter@.len() == 0,
            k < old(self).songs@.len(),
        ensures
            final(self).wf(),
            final(self).spec_selected_index() == Some(k),
            final(self).songs == old(self).songs,
            final(self).filter == old(self).filter,
            final(self).title == old(self).title,
            final(self).shown.sorting_method == old(self).shown.sorting_method,
            is_view_of(
                final(self).shown.items@,
                final(self).songs@,
                filter_outcomes(final(self).filter@, final(self).songs@),
                final(self).shown.sorting_method,
            ),
    {
        self.refresh_shown();
        proof {
            assert(filter_outcomes(self.filter@, self.songs@)[k as int]);
            assert(self.shown.items@.contains(k as int as usize));
        }
        self.select_backing(k);
    }

    /// The paths of the rows, in display order.
    fn shown_paths(&self) -> (r: Vec<String>)
        requires
            self.wf(),
        ensures
            r@.len() == self.shown.items@.len(),
            forall|k: int|
                0 <= k < r@.len() ==> #[trigger] r@[k] == self.songs@[self.shown.items@[k] as int].path,
    {
        let mut r: Vec<String> = Vec::new();
        let mut k: usize = 0;
        while k < self.shown.items.len()
            invariant
                self.wf(),
                k <= self.shown.items@.len(),
                r@.len() == k,
                forall|j: int|
                    0 <= j < k ==> #[trigger] r@[j] == self.songs@[self.shown.items@[j] as int].path,
            decreases self.shown.items@.len() - k,
        {
            r.push(self.songs[self.shown.items[k]].path.clone());
            k = k + 1;
        }
        r
    }

    /// Handles a command while this pane has the focus.
    pub fn handle_command(&mut self, cmd: Command) -> (r: Effect)
        requires
            old(self).wf(),
        ensures
            command_post(*old(self), *final(self), cmd, r),
    {
        match cmd {
            Command::SelectNext => {
                self.select_next();
                Effect::Nothing
            },
            Command::SelectPrev => {
                self.select_prev();
                Effect::Nothing
            },
            Command::QueueSong => match self.selected_item() {
                Some(song) => Effect::Queue(song.path.clone()),
                None => Effect::Nothing,
            },
            Command::QueueShown => Effect::QueueAll(self.shown_paths()),
            Command::Shuffle => Effect::Shuffle,
            Command::OpenInBrowser => match self.selected_item() {
                Some(song) => Effect::OpenInBrowser(song.path.clone()),
                None => Effect::Nothing,
            },
            Command::CopyUrl => match self.selected_item() {
                Some(song) => Effect::CopyToClipboard(song.path.clone()),
                None => Effect::Nothing,
            },
            Command::CopyTitle => match self.selected_item() {
                Some(song) => Effect::CopyToClipboard(song.title.clone()),
                None => Effect::Nothing,
            },
            Command::SwapSongUp => {
                if self.filter.len() == 0 {
                    if let Some(i) = self.selected_index() {
                        if i >= 1 {
                            let ghost before = self.songs@;
                            let song = self.songs.remove(i);
                            self.songs.insert(i - 1, song);
                            assert(self.songs@ =~= before.update(i - 1, before[i as int]).update(
                                i as int, before[i - 1]));
                            let playlist = self.title.clone();
                            self.follow_swap(i - 1);
                            return Effect::SwapSongs { playlist, index: i - 1 };
                        }
                    }
                }
                Effect::Nothing
            },
            Command::SwapSongDown => {
                if self.filter.len() == 0 {
                    if let Some(i) = self.selected_index() {
                        if self.songs.len() - i > 1 {
                            let ghost before = self.songs@;
                            let song = self.songs.remove(i);
                            self.songs.insert(i + 1, song);
                            assert(self.songs@ =~= before.update(i as int, before[i + 1]).update(
                                i + 1, before[i as int]));
                            let playlist = self.title.clone();
                            self.follow_swap(i + 1);
                            return Effect::SwapSongs { playlist, index: i };
                        }
                    }
                }
                Effect::Nothing
            },
            Command::NextSortingMode => {
                self.shown.next_sorting_method();
                self.refresh_shown();
                Effect::Nothing
            },
            _ => Effect::Nothing,
        }
    }

    /// Scrolls to the last row, as when a song was appended.
    pub fn select_last(&mut self)
        requires
            old(self).wf(),
        ensures
            final(self).wf(),
            final(self).shown.items@ == old(self).shown.items@,
            final(self).shown.selected == (if old(self).shown.items@.len() == 0 {
                old(self).shown.selected
            } else {
                Some((old(self).shown.items@.len() - 1) as usize)
            }),
    {
        if self.shown.items.len() > 0 {
            self.shown.selected = Some(self.shown.items.len() - 1);
        }
    }
}

} // verus!
