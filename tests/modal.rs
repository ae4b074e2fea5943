use tori::event::Key;
use tori::modal::{ConfirmationModal, InputModal, Message, Modal};

fn modal_with(text: &str) -> InputModal {
    let mut modal = InputModal::new("modal cursor").set_input(text.to_string());
    modal.handle_key(Key::Home);
    modal
}

#[test]
fn test_modal_cursor_ascii() {
    let mut modal = modal_with("Hello World!");
    assert_eq!(modal.cursor(), 0);

    modal.move_cursor(1);
    assert_eq!(modal.cursor(), 1);

    modal.move_cursor(1);
    assert_eq!(modal.cursor(), 2);

    modal.move_cursor(-1);
    assert_eq!(modal.cursor(), 1);

    modal.move_cursor(-1);
    assert_eq!(modal.cursor(), 0);

    modal.move_cursor(-1);
    assert_eq!(modal.cursor(), 0);

    modal.move_cursor(1000);
    assert_eq!(modal.cursor(), modal.text().len());
}

#[test]
fn test_modal_cursor_unicode() {
    let mut modal = modal_with("おはよう");
    assert_eq!(modal.cursor(), 0);

    modal.move_cursor(1);
    assert_eq!(modal.cursor(), 3);

    modal.move_cursor(1);
    assert_eq!(modal.cursor(), 6);

    modal.move_cursor(-1);
    assert_eq!(modal.cursor(), 3);

    modal.move_cursor(-1);
    assert_eq!(modal.cursor(), 0);
}

#[test]
fn right_three_times_over_kanji_lands_after_third_char() {
    let mut modal = modal_with("日本語");
    modal.handle_key(Key::Right);
    modal.handle_key(Key::Right);
    modal.handle_key(Key::Right);
    assert_eq!(modal.cursor(), 9);
    assert_eq!(modal.cursor(), "日本語".len());
    modal.handle_key(Key::Right);
    assert_eq!(modal.cursor(), 9);
    modal.handle_key(Key::Left);
    assert_eq!(modal.cursor(), 6);
}

#[test]
fn typing_inserts_at_cursor() {
    let mut modal = InputModal::new("t");
    for c in "ac".chars() {
        assert_eq!(modal.handle_key(Key::Char(c)), Message::Nothing);
    }
    modal.handle_key(Key::Left);
    modal.handle_key(Key::Char('é'));
    assert_eq!(modal.text(), "aéc");
    assert_eq!(modal.cursor(), 3);
    modal.handle_key(Key::Backspace);
    assert_eq!(modal.text(), "ac");
    assert_eq!(modal.cursor(), 1);
    modal.handle_key(Key::Delete);
    assert_eq!(modal.text(), "a");
    modal.handle_key(Key::Delete);
    assert_eq!(modal.text(), "a");
    modal.handle_key(Key::Home);
    modal.handle_key(Key::Backspace);
    assert_eq!(modal.text(), "a");
    modal.handle_key(Key::End);
    assert_eq!(modal.cursor(), 1);
}

#[test]
fn enter_commits_and_empties() {
    let mut modal = InputModal::new("t");
    for c in "Rock".chars() {
        modal.handle_key(Key::Char(c));
    }
    assert_eq!(modal.handle_key(Key::Enter), Message::Commit("Rock".to_string()));
    assert_eq!(modal.text(), "");
    assert_eq!(modal.cursor(), 0);
}

#[test]
fn esc_cancels_and_empties() {
    let mut modal = modal_with("abc");
    assert_eq!(modal.handle_key(Key::Esc), Message::Quit);
    assert_eq!(modal.text(), "");
}

#[test]
fn scroll_keeps_cursor_visible() {
    let mut modal = InputModal::new("t");
    modal.set_width(4);
    for c in "abcdefgh".chars() {
        modal.handle_key(Key::Char(c));
        assert!(modal.scroll <= modal.pos && modal.pos < modal.scroll + 4);
    }
    // cursor 8 passed the right edge: scroll = 8 + 1 - 4
    assert_eq!(modal.scroll, 5);
    for _ in 0..8 {
        modal.handle_key(Key::Left);
        assert!(modal.scroll <= modal.pos && modal.pos < modal.scroll + 4);
    }
    assert_eq!(modal.scroll, 0);
}

#[test]
fn calculate_scroll_formula() {
    let mut modal = modal_with("0123456789");
    modal.handle_key(Key::End);
    assert_eq!(modal.calculate_scroll(4), 7);
    modal.move_cursor(-5);
    assert_eq!(modal.calculate_scroll(4), 4);
    modal.move_cursor(-1);
    assert_eq!(modal.calculate_scroll(4), 3);
    modal.handle_key(Key::Home);
    assert_eq!(modal.calculate_scroll(4), 0);
}

#[test]
fn confirmation_answers() {
    let m = ConfirmationModal::new("sure?".to_string());
    assert_eq!(m.handle_key(Key::Enter), Message::Commit(String::new()));
    assert_eq!(m.handle_key(Key::Esc), Message::Quit);
    assert_eq!(m.handle_key(Key::Char('n')), Message::Quit);
    assert_eq!(m.handle_key(Key::Char('y')), Message::Nothing);
    let mut modal = Modal::Confirmation(m);
    assert_eq!(modal.handle_key(Key::Down), Message::Nothing);
}
