//! The browsing screen of a terminal music player: a playlists pane, a songs
//! pane with filtering and sorting, and the modal dialogs that add, rename and
//! delete songs or create playlists. Handling an event changes the screen and
//! returns an `Effect` that the caller carries out.

use vstd::prelude::*;

pub mod browse_screen;
pub mod config;
pub mod event;
pub mod filtered_list;
pub mod modal;
pub mod playlists_pane;
pub mod song;
pub mod songs_pane;
pub mod text;

verus! {

} // verus!
