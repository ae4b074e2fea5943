use vstd::prelude::*;

use crate::event::{Command, Effect};
use crate::filtered_list::{next_selection, prev_selection};

verus! {

/// The names of the playlists, with a cursor.
#[derive(Debug)]
pub struct PlaylistsPane {
    pub names: Vec<String>,
    pub selected: Option<usize>,
}

/// Where the cursor goes when the list is read again with `len` entries:
/// it keeps its row when that row still exists, else goes to the first.
pub open spec fn kept_selection(sel: Option<usize>, len: nat) -> Option<usize> {
    if sel is Some && sel->0 < len {
        sel
    } else if len == 0 {
        None
    } else {
        Some(0usize)
    }
}

impl PlaylistsPane {
    pub open spec fn wf(&self) -> bool {
        self.selected is Some ==> self.selected->0 < self.names@.len()
    }

    pub open spec fn spec_selected_item(&self) -> Option<String> {
        match self.selected {
            Some(i) => Some(self.names@[i as int]),
            None => None,
        }
    }

    /// A pane over `names`, with the first one selected.
    pub fn new(names: Vec<String>) -> (r: PlaylistsPane)
        ensures
            r.wf(),
            r.names@ == names@,
            r.selected == kept_selection(None, names@.len()),
    {
        let selected = if names.len() == 0 {
            None
        } else {
            Some(0)
        };
        PlaylistsPane { names, selected }
    }

    /// Takes the names read again from the playlists directory.
    pub fn reload(&mut self, names: Vec<String>)
        ensures
            final(self).wf(),
            final(self).names@ == names@,
            final(self).selected == kept_selection(old(self).selected, names@.len()),
    {
        self.names = names;
        if !(self.selected.is_some() && self.selected.unwrap() < self.names.len()) {
            self.selected = if self.names.len() == 0 {
                None
            } else {
                Some(0)
            };
        }
    }

    /// The name of the selected playlist.
    pub fn selected_item(&self) -> (r: Option<&String>)
        requires
            self.wf(),
        ensures
            r is Some <==> self.selected is Some,
            r is Some ==> *r->0 == self.spec_selected_item()->0,
    {
        match self.selected {
            Some(i) => Some(&self.names[i]),
            None => None,
        }
    }

    /// Moves the cursor on a command; when the selected playlist changes,
    /// asks for its songs. Other commands do nothing here.
    pub fn handle_command(&mut self, cmd: Command) -> (r: Effect)
        requires
            old(self).wf(),
        ensures
            playlists_command_post(*old(self), *final(self), cmd, r),
    {
        let len = self.names.len();
        let next = match cmd {
            Command::SelectNext => if len == 0 {
                self.selected
            } else {
                match self.selected {
                    None => Some(0),
                    Some(c) => if c + 1 < len {
                        Some(c + 1)
                    } else {
                        Some(len - 1)
                    },
                }
            },
            Command::SelectPrev => if len == 0 {
                self.selected
            } else {
                match self.selected {
                    None => Some(0),
                    Some(c) => if c == 0 {
                        Some(0)
                    } else {
                        Some(c - 1)
                    },
                }
            },
            _ => self.selected,
        };
        if next == self.selected {
            return Effect::Nothing;
        }
        self.selected = next;
        match next {
            Some(i) => Effect::LoadSongs(self.names[i].clone()),
            None => Effect::Nothing,
        }
    }
}

/// What a command does to the playlists pane `o`, giving `n` and effect `r`.
pub open spec fn playlists_command_post(o: PlaylistsPane, n: PlaylistsPane, cmd: Command, r: Effect) -> bool {
    &&& n.wf()
    &&& n.names == o.names
    &&& cmd == Command::SelectNext ==> n.selected == next_selection(o.selected, o.names@.len())
    &&& cmd == Command::SelectPrev ==> n.selected == prev_selection(o.selected, o.names@.len())
    &&& cmd != Command::SelectNext && cmd != Command::SelectPrev ==> n == o
    &&& r == (if n.selected != o.selected && n.selected is Some {
        Effect::LoadSongs(o.names@[n.selected->0 as int])
    } else {
        Effect::Nothing
    })
}

} // verus!
