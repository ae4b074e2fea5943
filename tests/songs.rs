use tori::event::{Command, Effect, Key, Mode};
use tori::filtered_list::FilteredList;
use tori::song::{compare_songs, Song, SortingMethod, SORTING_METHODS};
use tori::songs_pane::SongsPane;
use std::cmp::Ordering;

fn song(title: &str, path: &str, duration: u64) -> Song {
    Song { title: title.to_string(), path: path.to_string(), duration }
}

fn titled(titles: &[&str]) -> Vec<Song> {
    titles.iter().enumerate().map(|(i, t)| song(t, &format!("/music/{}.mp3", i), 60 * i as u64)).collect()
}

fn pane_with(songs: Vec<Song>) -> SongsPane {
    let mut pane = SongsPane::new();
    pane.update_from_playlist("p".to_string(), songs);
    pane
}

fn type_filter(pane: &mut SongsPane, text: &str) {
    pane.handle_key(Key::Char('/'));
    for c in text.chars() {
        pane.handle_key(Key::Char(c));
    }
}

fn shown_titles(pane: &SongsPane) -> Vec<String> {
    pane.shown.items.iter().map(|&i| pane.songs[i].title.clone()).collect()
}

#[test]
fn filter_an_keeps_banana_only() {
    let mut pane = pane_with(titled(&["Banana", "apple", "Cherry"]));
    type_filter(&mut pane, "an");
    assert_eq!(shown_titles(&pane), vec!["Banana".to_string()]);
    assert_eq!(pane.shown.items, vec![0]);
    assert_eq!(pane.mode(), Mode::Insert);
}

#[test]
fn filter_ignores_case_of_the_query() {
    let mut pane = pane_with(titled(&["Banana", "apple", "Cherry"]));
    type_filter(&mut pane, "AN");
    assert_eq!(pane.shown.items, vec![0]);
    pane.handle_key(Key::Backspace);
    pane.handle_key(Key::Backspace);
    pane.handle_key(Key::Char('E'));
    assert_eq!(pane.shown.items, vec![1, 2]);
}

#[test]
fn filter_matches_path_too() {
    let songs = vec![song("One", "https://example.com/Live", 1), song("Two", "/a/b.mp3", 2)];
    let mut pane = pane_with(songs);
    type_filter(&mut pane, "live");
    assert_eq!(pane.shown.items, vec![0]);
}

#[test]
fn committed_filter_returns_to_normal_mode_and_esc_clears() {
    let mut pane = pane_with(titled(&["Banana", "apple", "Cherry"]));
    type_filter(&mut pane, "ch");
    pane.handle_key(Key::Enter);
    assert_eq!(pane.mode(), Mode::Normal);
    assert_eq!(pane.filter_text(), "/ch\n");
    assert_eq!(pane.shown.items, vec![2]);
    assert_eq!(pane.selected_index(), Some(2));
    pane.handle_key(Key::Esc);
    assert_eq!(pane.filter_text(), "");
    assert_eq!(pane.shown.items, vec![0, 1, 2]);
    // the cursor follows the song it was on
    assert_eq!(pane.selected_index(), Some(2));
    assert_eq!(pane.state(), Some(2));
}

#[test]
fn filter_to_nothing_clears_cursor() {
    let mut pane = pane_with(titled(&["Banana", "apple"]));
    type_filter(&mut pane, "zzz");
    assert!(pane.shown.items.is_empty());
    assert_eq!(pane.state(), None);
    assert!(pane.selected_item().is_none());
}

#[test]
fn sort_by_title_is_stable_and_bytewise() {
    let mut pane = pane_with(titled(&["b", "a", "B", "a"]));
    pane.handle_command(Command::NextSortingMode);
    assert_eq!(pane.shown.sorting_method, SortingMethod::Title);
    assert_eq!(pane.shown.items, vec![2, 1, 3, 0]);
}

#[test]
fn sort_by_duration() {
    let songs = vec![song("x", "1", 30), song("y", "2", 10), song("z", "3", 30), song("w", "4", 5)];
    let mut pane = pane_with(songs);
    pane.handle_command(Command::NextSortingMode);
    pane.handle_command(Command::NextSortingMode);
    assert_eq!(pane.shown.sorting_method, SortingMethod::Duration);
    assert_eq!(pane.shown.items, vec![3, 1, 0, 2]);
    pane.handle_command(Command::NextSortingMode);
    assert_eq!(pane.shown.sorting_method, SortingMethod::Index);
    assert_eq!(pane.shown.items, vec![0, 1, 2, 3]);
}

#[test]
fn sorting_methods_cycle() {
    let start = SortingMethod::Title;
    let mut m = start;
    for _ in 0..SORTING_METHODS {
        m = m.next();
    }
    assert_eq!(m, start);
    assert_eq!(SortingMethod::Index.next(), SortingMethod::Title);
    assert_eq!(SortingMethod::Duration.next(), SortingMethod::Index);
}

#[test]
fn compare_songs_by_field() {
    let a = song("abc", "p", 10);
    let b = song("abd", "p", 5);
    assert_eq!(compare_songs(&a, &b, SortingMethod::Title), Ordering::Less);
    assert_eq!(compare_songs(&b, &a, SortingMethod::Title), Ordering::Greater);
    assert_eq!(compare_songs(&a, &a, SortingMethod::Title), Ordering::Equal);
    assert_eq!(compare_songs(&song("ab", "", 0), &a, SortingMethod::Title), Ordering::Less);
    assert_eq!(compare_songs(&a, &b, SortingMethod::Duration), Ordering::Greater);
}

#[test]
fn refresh_twice_changes_nothing() {
    let songs = titled(&["d", "b", "c", "a"]);
    let keep = vec![true, true, false, true];
    let mut list = FilteredList::new();
    list.next_sorting_method();
    list.refresh(&songs, &keep);
    assert_eq!(list.items, vec![3, 1, 0]);
    list.select_next();
    list.select_next();
    let (items, selected) = (list.items.clone(), list.selected);
    list.refresh(&songs, &keep);
    assert_eq!(list.items, items);
    assert_eq!(list.selected, selected);
    assert_eq!(list.selected, Some(2));
}

#[test]
fn cursor_stays_on_rows() {
    let songs = titled(&["a", "b", "c"]);
    let mut list = FilteredList::new();
    list.select_next();
    assert_eq!(list.selected, None);
    list.refresh(&songs, &vec![true, true, true]);
    assert_eq!(list.selected, Some(0));
    list.select_prev();
    assert_eq!(list.selected, Some(0));
    for _ in 0..5 {
        list.select_next();
    }
    assert_eq!(list.selected, Some(2));
    assert_eq!(list.selected_item(), Some(2));
    list.refresh(&songs, &vec![true, false, false]);
    assert_eq!(list.items, vec![0]);
    assert_eq!(list.selected, Some(0));
    list.refresh(&songs, &vec![false, false, false]);
    assert_eq!(list.selected, None);
}

#[test]
fn delete_keeps_cursor_on_same_song() {
    let songs = titled(&["s0", "s1", "s2", "s3", "s4"]);
    let mut pane = pane_with(songs);
    pane.select_index(Some(2));
    assert_eq!(pane.selected_index(), Some(2));
    let after = titled(&["s0", "s2", "s3", "s4"]);
    pane.song_deleted(1, after);
    assert_eq!(pane.selected_index(), Some(1));
    assert_eq!(pane.selected_item().unwrap().title, "s2");
}

#[test]
fn delete_of_selected_song_keeps_row() {
    let mut pane = pane_with(titled(&["s0", "s1", "s2"]));
    pane.select_index(Some(2));
    pane.song_deleted(2, titled(&["s0", "s1"]));
    assert_eq!(pane.state(), Some(0));
    let mut pane = pane_with(titled(&["s0", "s1", "s2"]));
    pane.select_index(Some(1));
    pane.song_deleted(1, titled(&["s0", "s2"]));
    assert_eq!(pane.state(), Some(1));
}

#[test]
fn reload_keeps_row_in_range() {
    let mut pane = pane_with(titled(&["a", "b", "c"]));
    pane.select_index(Some(2));
    pane.update_from_playlist("p".to_string(), titled(&["a", "b", "c", "d"]));
    assert_eq!(pane.state(), Some(2));
    pane.update_from_playlist("p".to_string(), titled(&["a"]));
    assert_eq!(pane.state(), Some(0));
    pane.update_from_playlist("p".to_string(), vec![]);
    assert_eq!(pane.state(), None);
    pane.update_from_playlist_pane(None, vec![]);
    assert_eq!(pane.title, " songs ");
}

#[test]
fn commands_on_selected_song() {
    let mut pane = pane_with(titled(&["a", "b", "c"]));
    assert_eq!(pane.play_selected(), Effect::PlayNow("/music/0.mp3".to_string()));
    pane.handle_key(Key::Down);
    assert_eq!(pane.handle_command(Command::QueueSong), Effect::Queue("/music/1.mp3".to_string()));
    assert_eq!(pane.handle_command(Command::CopyTitle), Effect::CopyToClipboard("b".to_string()));
    assert_eq!(pane.handle_command(Command::CopyUrl), Effect::CopyToClipboard("/music/1.mp3".to_string()));
    assert_eq!(pane.handle_command(Command::OpenInBrowser), Effect::OpenInBrowser("/music/1.mp3".to_string()));
    assert_eq!(pane.handle_command(Command::Shuffle), Effect::Shuffle);
    assert_eq!(pane.handle_key(Key::Enter), Effect::PlayNow("/music/1.mp3".to_string()));
    pane.handle_key(Key::Char('G'));
    assert_eq!(pane.state(), Some(2));
    assert_eq!(
        pane.handle_command(Command::QueueShown),
        Effect::QueueAll(vec!["/music/0.mp3".to_string(), "/music/1.mp3".to_string(), "/music/2.mp3".to_string()])
    );
}

#[test]
fn swap_songs_moves_cursor_along() {
    let mut pane = pane_with(titled(&["a", "b", "c"]));
    pane.select_index(Some(1));
    assert_eq!(pane.handle_command(Command::SwapSongUp), Effect::SwapSongs { playlist: "p".to_string(), index: 0 });
    assert_eq!(pane.songs[0].title, "b");
    assert_eq!(pane.state(), Some(0));
    assert_eq!(pane.handle_command(Command::SwapSongUp), Effect::Nothing);
    assert_eq!(pane.handle_command(Command::SwapSongDown), Effect::SwapSongs { playlist: "p".to_string(), index: 0 });
    assert_eq!(pane.songs[1].title, "b");
    assert_eq!(pane.state(), Some(1));
}

#[test]
fn double_click_plays() {
    let mut pane = pane_with(titled(&["a", "b", "c"]));
    assert_eq!(pane.click(5, 6, 1000), Effect::Nothing);
    assert_eq!(pane.state(), Some(1));
    assert_eq!(pane.click(5, 6, 1200), Effect::PlayNow("/music/1.mp3".to_string()));
    assert_eq!(pane.click(5, 7, 1300), Effect::Nothing);
    assert_eq!(pane.click(5, 7, 2000), Effect::Nothing);
    assert_eq!(pane.click(5, 20, 2100), Effect::Nothing);
    assert_eq!(pane.state(), Some(2));
}

#[test]
fn swap_follows_song_under_title_sort() {
    let mut pane = pane_with(titled(&["c", "a", "b"]));
    pane.handle_command(Command::NextSortingMode);
    assert_eq!(pane.shown.items, vec![1, 2, 0]);
    // cursor on "c", backing index 0: swap down moves it to backing index 1
    pane.select_index(Some(2));
    assert_eq!(pane.handle_command(Command::SwapSongDown), Effect::SwapSongs { playlist: "p".to_string(), index: 0 });
    assert_eq!(pane.selected_index(), Some(1));
    assert_eq!(pane.selected_item().unwrap().title, "c");
    assert_eq!(shown_titles(&pane), vec!["a", "b", "c"]);
}

#[test]
fn swaps_refused_under_filter_and_at_ends() {
    let mut pane = pane_with(titled(&["a", "b", "c"]));
    pane.select_index(Some(2));
    assert_eq!(pane.handle_command(Command::SwapSongDown), Effect::Nothing);
    assert_eq!(pane.state(), Some(2));
    type_filter(&mut pane, "b");
    pane.handle_key(Key::Enter);
    assert_eq!(pane.handle_command(Command::SwapSongUp), Effect::Nothing);
    assert_eq!(pane.songs[1].title, "b");
}

#[test]
fn header_shows_filter_or_title() {
    let mut pane = pane_with(titled(&["a"]));
    assert_eq!(pane.header(), "p");
    type_filter(&mut pane, "x");
    assert_eq!(pane.header(), "/x");
}

#[test]
fn sort_cycle_restores_rows() {
    let mut pane = pane_with(titled(&["c", "a", "b"]));
    let rows = pane.shown.items.clone();
    pane.handle_command(Command::NextSortingMode);
    let after_one = pane.shown.items.clone();
    pane.handle_command(Command::NextSortingMode);
    pane.handle_command(Command::NextSortingMode);
    assert_ne!(after_one, rows);
    assert_eq!(pane.shown.items, rows);
    assert_eq!(pane.shown.sorting_method, SortingMethod::Index);
}
