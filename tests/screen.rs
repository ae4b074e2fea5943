use once_cell::sync::OnceCell;
use tori::browse_screen::{BrowsePane, BrowseScreen, CreateResult, ModalType};
use tori::config::Config;
use tori::event::{Command, Effect, Key, Mode, Warning};
use tori::modal::Modal;
use tori::song::Song;

fn songs(n: usize) -> Vec<Song> {
    (0..n)
        .map(|i| Song { title: format!("song {}", i), path: format!("/m/{}.mp3", i), duration: i as u64 })
        .collect()
}

fn screen() -> BrowseScreen {
    BrowseScreen::new(vec!["Rock".to_string(), "Jazz".to_string()], songs(5))
}

fn type_text(s: &mut BrowseScreen, text: &str) {
    for c in text.chars() {
        assert_eq!(s.handle_key(Key::Char(c)), Effect::Nothing);
    }
}

#[test]
fn add_existing_playlist_warns_and_stays() {
    let mut s = screen();
    assert_eq!(s.selected_pane, BrowsePane::Playlists);
    assert_eq!(s.handle_command(Command::Add), Effect::Nothing);
    assert_eq!(s.selected_pane, BrowsePane::Modal(ModalType::AddPlaylist));
    assert_eq!(s.mode(), Mode::Insert);
    type_text(&mut s, "Rock");
    assert_eq!(s.handle_key(Key::Enter), Effect::CreatePlaylist("Rock".to_string()));
    assert_eq!(s.selected_pane, BrowsePane::Playlists);
    assert!(s.modal.is_none());
    let names = vec!["Rock".to_string(), "Jazz".to_string()];
    assert_eq!(
        s.after_create_playlist("Rock".to_string(), CreateResult::AlreadyExists, names),
        Effect::Warn(Warning::PlaylistExists("Rock".to_string()))
    );
    assert_eq!(s.selected_pane, BrowsePane::Playlists);
    assert_eq!(s.playlists.names.len(), 2);
}

#[test]
fn add_new_playlist_reloads_names() {
    let mut s = screen();
    s.handle_command(Command::Add);
    type_text(&mut s, "Pop");
    assert_eq!(s.handle_key(Key::Enter), Effect::CreatePlaylist("Pop".to_string()));
    let names = vec!["Jazz".to_string(), "Pop".to_string(), "Rock".to_string()];
    assert_eq!(
        s.after_create_playlist("Pop".to_string(), CreateResult::Created, names),
        Effect::LoadSongs("Jazz".to_string())
    );
    assert_eq!(s.playlists.names.len(), 3);
}

#[test]
fn cancel_delete_returns_to_songs() {
    let mut s = screen();
    s.handle_command(Command::SelectRight);
    assert_eq!(s.selected_pane, BrowsePane::Songs);
    s.songs.select_index(Some(3));
    assert_eq!(s.handle_command(Command::Delete), Effect::Nothing);
    assert_eq!(
        s.selected_pane,
        BrowsePane::Modal(ModalType::DeleteSong { playlist: "Rock".to_string(), index: 3 })
    );
    match &s.modal {
        Some(Modal::Confirmation(m)) => assert_eq!(m.title, "Do you really want to delete 'song 3'?"),
        _ => panic!("expected a confirmation"),
    }
    assert_eq!(s.handle_key(Key::Esc), Effect::Nothing);
    assert_eq!(s.selected_pane, BrowsePane::Songs);
    assert!(s.modal.is_none());
    assert_eq!(s.songs.songs.len(), 5);
    assert_eq!(s.songs.songs[3].title, "song 3");
}

#[test]
fn confirm_delete_asks_for_deletion() {
    let mut s = screen();
    s.handle_command(Command::SelectRight);
    s.songs.select_index(Some(3));
    s.handle_command(Command::Delete);
    assert_eq!(s.handle_key(Key::Enter), Effect::DeleteSong { playlist: "Rock".to_string(), index: 3 });
    assert_eq!(s.selected_pane, BrowsePane::Songs);
}

#[test]
fn add_song_without_playlist_warns() {
    let mut s = BrowseScreen::new(vec![], vec![]);
    s.handle_command(Command::SelectLeft);
    assert_eq!(s.selected_pane, BrowsePane::Songs);
    assert_eq!(s.handle_command(Command::Add), Effect::Warn(Warning::NoPlaylistSelected));
    assert_eq!(s.selected_pane, BrowsePane::Songs);
    assert!(s.modal.is_none());
}

#[test]
fn add_song_and_rename() {
    let mut s = screen();
    s.handle_key(Key::Right);
    s.handle_command(Command::Add);
    assert_eq!(s.selected_pane, BrowsePane::Modal(ModalType::AddSong { playlist: "Rock".to_string() }));
    type_text(&mut s, "https://x");
    assert_eq!(
        s.handle_key(Key::Enter),
        Effect::AddSong { playlist: "Rock".to_string(), song: "https://x".to_string() }
    );
    s.handle_command(Command::Rename);
    assert_eq!(
        s.selected_pane,
        BrowsePane::Modal(ModalType::RenameSong { playlist: "Rock".to_string(), index: 0 })
    );
    type_text(&mut s, "new");
    assert_eq!(
        s.handle_key(Key::Enter),
        Effect::RenameSong { playlist: "Rock".to_string(), index: 0, new_name: "new".to_string() }
    );
    assert_eq!(s.selected_pane, BrowsePane::Songs);
}

#[test]
fn play_modal_cancel_returns_to_opening_pane() {
    let mut s = screen();
    s.handle_command(Command::PlayFromModal);
    assert_eq!(s.selected_pane, BrowsePane::Modal(ModalType::Play));
    // commands and pane switches do nothing while a modal is open
    assert_eq!(s.handle_command(Command::SelectRight), Effect::Nothing);
    assert_eq!(s.handle_command(Command::Add), Effect::Nothing);
    assert_eq!(s.selected_pane, BrowsePane::Modal(ModalType::Play));
    assert_eq!(s.handle_key(Key::Esc), Effect::Nothing);
    assert_eq!(s.selected_pane, BrowsePane::Playlists);
    s.handle_command(Command::PlayFromModal);
    type_text(&mut s, "/a.mp3");
    assert_eq!(s.handle_key(Key::Enter), Effect::PlayNow("/a.mp3".to_string()));
    assert_eq!(s.selected_pane, BrowsePane::Songs);
}

#[test]
fn keys_and_commands_reach_panes() {
    let mut s = screen();
    assert_eq!(s.handle_command(Command::SelectNext), Effect::LoadSongs("Jazz".to_string()));
    assert_eq!(s.playlists.selected, Some(1));
    assert_eq!(s.handle_command(Command::SelectNext), Effect::Nothing);
    assert_eq!(s.handle_key(Key::Char('c')), Effect::EditPlaylist("Jazz".to_string()));
    s.reload_songs(songs(2));
    assert_eq!(s.songs.title, "Jazz");
    assert_eq!(s.songs.songs.len(), 2);
    s.handle_key(Key::Right);
    assert_eq!(s.handle_command(Command::QueueSong), Effect::Queue("/m/0.mp3".to_string()));
    s.handle_key(Key::Down);
    assert_eq!(s.handle_key(Key::Enter), Effect::PlayNow("/m/1.mp3".to_string()));
    s.reload_after_delete(0, songs(1));
    assert_eq!(s.songs.state(), Some(0));
    s.reload_playlists(vec!["Jazz".to_string()]);
    assert_eq!(s.playlists.selected, Some(0));
}

#[test]
fn global_config_is_set_once() {
    let cell: OnceCell<Config> = OnceCell::new();
    assert!(Config::global(&cell).is_none());
    assert!(Config::set_global(&cell, Config { playlists_dir: "/a".to_string() }).is_ok());
    let again = Config::set_global(&cell, Config { playlists_dir: "/b".to_string() });
    assert_eq!(again.unwrap_err().playlists_dir, "/b");
    assert_eq!(Config::global(&cell).unwrap().playlists_dir, "/a");
}

#[test]
fn typing_in_modal_edits_it_and_keeps_focus() {
    let mut s = screen();
    s.handle_command(Command::PlayFromModal);
    type_text(&mut s, "ab");
    assert_eq!(s.handle_key(Key::Left), Effect::Nothing);
    assert_eq!(s.handle_key(Key::Char('x')), Effect::Nothing);
    assert_eq!(s.selected_pane, BrowsePane::Modal(ModalType::Play));
    match &s.modal {
        Some(Modal::Input(m)) => {
            assert_eq!(m.text(), "axb");
            assert_eq!(m.pos, 2);
        }
        _ => panic!("expected a text modal"),
    }
    assert_eq!(s.playlists.selected, Some(0));
}

#[test]
fn confirmation_n_cancels_and_other_keys_wait() {
    let mut s = screen();
    s.handle_command(Command::SelectRight);
    s.handle_command(Command::Delete);
    assert_eq!(s.handle_key(Key::Char('y')), Effect::Nothing);
    assert!(s.modal.is_some());
    assert_eq!(s.handle_key(Key::Char('n')), Effect::Nothing);
    assert!(s.modal.is_none());
    assert_eq!(s.selected_pane, BrowsePane::Songs);
}

#[test]
fn commands_reach_focused_songs_pane() {
    let mut s = screen();
    s.handle_command(Command::SelectRight);
    assert_eq!(s.handle_command(Command::SelectNext), Effect::Nothing);
    assert_eq!(s.songs.state(), Some(1));
    assert_eq!(s.playlists.selected, Some(0));
    assert_eq!(s.handle_command(Command::CopyTitle), Effect::CopyToClipboard("song 1".to_string()));
    assert_eq!(s.handle_key(Key::Char('c')), Effect::EditPlaylist("Rock".to_string()));
}

#[test]
fn rename_without_song_changes_nothing() {
    let mut s = BrowseScreen::new(vec!["Rock".to_string()], vec![]);
    s.handle_command(Command::SelectRight);
    assert_eq!(s.handle_command(Command::Rename), Effect::Nothing);
    assert_eq!(s.handle_command(Command::Delete), Effect::Nothing);
    assert_eq!(s.selected_pane, BrowsePane::Songs);
    assert!(s.modal.is_none());
}
