use vstd::prelude::*;
use vstd::utf8::{encode_scalar, encode_utf8};

use crate::event::{Key, Mode};
use crate::text::{chars_of, string_from_chars};

verus! {

/// What a modal hands back after a key press.
#[derive(Debug, Clone, PartialEq, Eq)]
pub enum Message {
    /// The modal stays open.
    Nothing,
    /// The user cancelled.
    Quit,
    /// The user confirmed, with the text typed (empty for a confirmation).
    Commit(String),
}

pub proof fn lemma_encode_concat(a: Seq<char>, b: Seq<char>)
    ensures
        encode_utf8(a + b) == encode_utf8(a) + encode_utf8(b),
    decreases a.len(),
{
    if a.len() == 0 {
        assert(a + b =~= b);
        assert(encode_utf8(a) =~= Seq::<u8>::empty());
        assert(encode_utf8(a) + encode_utf8(b) =~= encode_utf8(b));
    } else {
        assert((a + b).drop_first() =~= a.drop_first() + b);
        lemma_encode_concat(a.drop_first(), b);
        assert(encode_utf8(a + b) =~= encode_utf8(a) + encode_utf8(b));
    }
}

proof fn lemma_encode_single(c: char)
    ensures
        encode_utf8(seq![c]) == encode_scalar(c as u32),
{
    assert(seq![c].drop_first() =~= Seq::<char>::empty());
    assert(encode_utf8(Seq::<char>::empty()) =~= Seq::<u8>::empty());
    assert(encode_scalar(c as u32) + Seq::<u8>::empty() =~= encode_scalar(c as u32));
}

/// The number of UTF-8 bytes of a character.
fn utf8_width(c: char) -> (r: usize)
    ensures
        r == encode_scalar(c as u32).len(),
        1 <= r <= 4,
{
    let v = c as u32;
    if v <= 0x7F {
        1
    } else if v <= 0x7FF {
        2
    } else if v <= 0xFFFF && !(0xD800 <= v && v <= 0xDFFF) {
        3
    } else {
        4
    }
}

/// The UTF-8 length of a character sequence.
pub open spec fn byte_len(s: Seq<char>) -> nat {
    encode_utf8(s).len()
}

/// Where a cursor moved by `x` lands on a text of `len` units, at `c`.
pub open spec fn moved(c: int, x: int, len: int) -> int {
    if c + x < 0 {
        0
    } else if c + x > len {
        len
    } else {
        c + x
    }
}

/// The scroll offset after the cursor moved: forward just enough to show a
/// cursor past the right edge; back to one before the cursor when the cursor
/// is at or before the left edge.
pub open spec fn next_scroll(scroll: int, cursor: int, width: int) -> int {
    let s1 = if cursor > scroll + width - 1 {
        cursor + 1 - width
    } else {
        scroll
    };
    if cursor <= s1 {
        if cursor >= 1 {
            cursor - 1
        } else {
            0
        }
    } else {
        s1
    }
}

/// Recomputing the scroll offset keeps the cursor in the window of `width`
/// columns, for windows at least two columns wide; when the cursor passed the
/// right edge, the new offset is the smallest that shows it.
pub proof fn lemma_scroll_shows_cursor(scroll: int, cursor: int, width: int)
    requires
        0 <= scroll,
        0 <= cursor,
        width >= 2,
    ensures
        0 <= next_scroll(scroll, cursor, width) <= cursor,
        cursor < next_scroll(scroll, cursor, width) + width,
        cursor > scroll + width - 1 ==> next_scroll(scroll, cursor, width) == cursor + 1 - width,
{
}

/// The scroll offset of `n` is what recomputing it from `o` for `n`'s cursor
/// gives, within the same window.
pub open spec fn scrolled(o: InputModal, n: InputModal) -> bool {
    &&& n.width == o.width
    &&& o.width >= 2 ==> n.scroll == next_scroll(o.scroll as int, n.pos as int, o.width as int)
    &&& o.width < 2 ==> n.scroll == o.scroll
}

/// What a key press does to a text modal `o`, giving `n` and message `r`.
pub open spec fn input_key_post(o: InputModal, n: InputModal, key: Key, r: Message) -> bool {
    &&& n.wf()
    &&& n.title == o.title
    &&& n.width == o.width
    &&& key == Key::Esc ==> r == Message::Quit && n.input@.len() == 0 && n.pos == 0 && n.scroll == 0
    &&& key == Key::Enter ==> r is Commit && r->Commit_0@ == o.input@ && n.input@.len() == 0
        && n.pos == 0 && n.scroll == 0
    &&& key != Key::Esc && key != Key::Enter ==> r == Message::Nothing
    &&& (key is Char || key is Backspace || key is Delete || key is Left || key is Right
        || key is Home || key is End) ==> scrolled(o, n)
    &&& (key is Up || key is Down || key is Other) ==> n == o
    &&& (key is Left || key is Right || key is Home || key is End) ==> n.input == o.input
    &&& key == Key::Left ==> n.pos == moved(o.pos as int, -1, o.input@.len() as int)
    &&& key == Key::Right ==> n.pos == moved(o.pos as int, 1, o.input@.len() as int)
    &&& key == Key::Home ==> n.pos == 0
    &&& key == Key::End ==> n.pos == o.input@.len()
    &&& key is Char ==> (if o.bytes <= usize::MAX - 4 {
        n.input@ == o.input@.insert(o.pos as int, key->Char_0) && n.pos == o.pos + 1
    } else {
        n.input@ == o.input@ && n.pos == o.pos
    })
    &&& key == Key::Backspace ==> (if o.pos > 0 {
        n.input@ == o.input@.remove(o.pos - 1) && n.pos == o.pos - 1
    } else {
        n.input@ == o.input@ && n.pos == 0
    })
    &&& key == Key::Delete ==> (if o.pos < o.input@.len() {
        n.input@ == o.input@.remove(o.pos as int)
    } else {
        n.input@ == o.input@
    }) && n.pos == o.pos
}

/// What a confirmation answers to a key.
pub open spec fn confirm_post(key: Key, r: Message) -> bool {
    &&& key == Key::Enter ==> r is Commit && r->Commit_0@.len() == 0
    &&& key == Key::Esc || key == Key::Char('n') ==> r == Message::Quit
    &&& key != Key::Enter && key != Key::Esc && key != Key::Char('n') ==> r == Message::Nothing
}

/// A box that asks for a line of text.
#[derive(Debug)]
pub struct InputModal {
    pub title: String,
    /// The text typed so far.
    pub input: Vec<char>,
    /// Position of the cursor, in characters.
    pub pos: usize,
    /// UTF-8 length of `input`.
    pub bytes: usize,
    /// First column shown.
    pub scroll: usize,
    /// Columns available to the text; 0 until it is known.
    pub width: usize,
}

impl InputModal {
    pub open spec fn wf(&self) -> bool {
        &&& self.pos <= self.input@.len()
        &&& self.bytes == byte_len(self.input@)
        &&& self.width >= 2 ==> self.scroll <= self.pos < self.scroll + self.width
    }

    /// The cursor's offset in bytes.
    pub open spec fn spec_cursor(&self) -> nat {
        byte_len(self.input@.take(self.pos as int))
    }

    pub fn new(title: &str) -> (r: InputModal)
        ensures
            r.wf(),
            r.title@ == title@,
            r.input@.len() == 0,
            r.pos == 0,
            r.scroll == 0,
    {
        proof {
            assert(encode_utf8(Seq::<char>::empty()) =~= Seq::<u8>::empty());
        }
        InputModal { title: title.to_owned(), input: Vec::new(), pos: 0, bytes: 0, scroll: 0, width: 0 }
    }

    /// Replaces the text; the cursor goes to its end.
    pub fn set_input(self, input: String) -> (r: InputModal)
        requires
            self.wf(),
            byte_len(input@) <= usize::MAX,
        ensures
            r.wf(),
            r.input@ == input@,
            r.pos == input@.len(),
            r.spec_cursor() == byte_len(input@),
            r.title == self.title,
    {
        let chars = chars_of(input.as_str());
        let bytes = input.as_str().len();
        let mut r = InputModal {
            title: self.title,
            input: chars,
            pos: 0,
            bytes: bytes,
            scroll: 0,
            width: self.width,
        };
        r.pos = r.input.len();
        assert(r.input@.take(r.pos as int) =~= r.input@);
        r.rescroll();
        r
    }

    /// The text typed so far.
    pub fn text(&self) -> (r: String)
        ensures
            r@ == self.input@,
    {
        string_from_chars(&self.input)
    }

    /// The cursor's offset in bytes: never inside a character.
    pub fn cursor(&self) -> (r: usize)
        requires
            self.wf(),
        ensures
            r == self.spec_cursor(),
    {
        let mut total: usize = 0;
        let mut k: usize = 0;
        proof {
            assert(self.input@.take(0) =~= Seq::<char>::empty());
            assert(encode_utf8(Seq::<char>::empty()) =~= Seq::<u8>::empty());
        }
        while k < self.pos
            invariant
                self.wf(),
                k <= self.pos,
                total == byte_len(self.input@.take(k as int)),
            decreases self.pos - k,
        {
            let w = utf8_width(self.input[k]);
            proof {
                let s = self.input@;
                assert(s.take(k + 1) =~= s.take(k as int) + seq![s[k as int]]);
                lemma_encode_concat(s.take(k as int), seq![s[k as int]]);
                lemma_encode_single(s[k as int]);
                assert(s =~= s.take(k + 1) + s.skip(k + 1));
                lemma_encode_concat(s.take(k + 1), s.skip(k + 1));
            }
            total = total + w;
            k = k + 1;
        }
        total
    }

    /// Recomputes the scroll offset for the current cursor.
    fn rescroll(&mut self)
        requires
            old(self).pos <= old(self).input@.len(),
            old(self).bytes == byte_len(old(self).input@),
        ensures
            final(self).wf(),
            final(self).input == old(self).input,
            final(self).pos == old(self).pos,
            final(self).bytes == old(self).bytes,
            final(self).title == old(self).title,
            final(self).width == old(self).width,
            old(self).width >= 2 ==> final(self).scroll == next_scroll(
                old(self).scroll as int,
                old(self).pos as int,
                old(self).width as int,
            ),
            old(self).width < 2 ==> final(self).scroll == old(self).scroll,
    {
        if self.width >= 2 {
            self.calculate_scroll(self.width);
            proof {
                lemma_scroll_shows_cursor(old(self).scroll as int, self.pos as int, self.width as int);
            }
        }
    }

    /// Updates the scroll offset for a window of `chunk_width` columns and
    /// returns it.
    pub fn calculate_scroll(&mut self, chunk_width: usize) -> (r: usize)
        requires
            chunk_width >= 1,
        ensures
            r == final(self).scroll,
            final(self).scroll == next_scroll(old(self).scroll as int, old(self).pos as int, chunk_width as int),
            final(self).input == old(self).input,
            final(self).pos == old(self).pos,
            final(self).bytes == old(self).bytes,
            final(self).title == old(self).title,
            final(self).width == old(self).width,
    {
        if self.pos >= chunk_width && self.pos - (chunk_width - 1) > self.scroll {
            self.scroll = self.pos - chunk_width + 1;
        }
        if self.pos <= self.scroll {
            self.scroll = if self.pos >= 1 {
                self.pos - 1
            } else {
                0
            };
        }
        self.scroll
    }

    /// Sets the number of columns the text is shown in.
    pub fn set_width(&mut self, width: usize)
        requires
            old(self).wf(),
        ensures
            final(self).wf(),
            final(self).width == width,
            final(self).input == old(self).input,
            final(self).pos == old(self).pos,
    {
        self.width = width;
        self.rescroll();
    }

    /// Moves the cursor by `x` characters, stopping at either end of the text.
    pub fn move_cursor(&mut self, x: isize)
        requires
            old(self).wf(),
        ensures
            final(self).wf(),
            final(self).input == old(self).input,
            final(self).title == old(self).title,
            final(self).pos == moved(old(self).pos as int, x as int, old(self).input@.len() as int),
            final(self).bytes == old(self).bytes,
            final(self).width == old(self).width,
            scrolled(*old(self), *final(self)),
    {
        let len = self.input.len();
        if x >= 0 {
            let d = x as usize;
            if d >= len - self.pos {
                self.pos = len;
            } else {
                self.pos = self.pos + d;
            }
        } else {
            let d = (-(x + 1)) as usize + 1;
            if d >= self.pos {
                self.pos = 0;
            } else {
                self.pos = self.pos - d;
            }
        }
        self.rescroll();
    }

    /// Handles a key press: edits the text, moves the cursor, or ends the
    /// dialog with `Quit` (Esc) or `Commit` (Enter) and an empty text.
    pub fn handle_key(&mut self, key: Key) -> (r: Message)
        requires
            old(self).wf(),
        ensures
            input_key_post(*old(self), *final(self), key, r),
    {
        match key {
            Key::Char(c) => {
                let w = utf8_width(c);
                if self.bytes <= usize::MAX - 4 {
                    let ghost s = self.input@;
                    let ghost p = self.pos as int;
                    self.input.insert(self.pos, c);
                    proof {
                        assert(s =~= s.take(p) + s.skip(p));
                        lemma_encode_concat(s.take(p), s.skip(p));
                        let t = self.input@;
                        assert(t =~= s.take(p) + (seq![c] + s.skip(p)));
                        lemma_encode_concat(s.take(p), seq![c] + s.skip(p));
                        lemma_encode_concat(seq![c], s.skip(p));
                        lemma_encode_single(c);
                    }
                    let n = self.input.len();
                    assert(self.pos < n);
                    self.bytes = self.bytes + w;
                    self.pos = self.pos + 1;
                }
                self.rescroll();
                Message::Nothing
            },
            Key::Backspace => {
                if self.pos > 0 {
                    self.pos = self.pos - 1;
                    self.remove_at_cursor();
                }
                self.rescroll();
                Message::Nothing
            },
            Key::Delete => {
                if self.pos < self.input.len() {
                    self.remove_at_cursor();
                }
                self.rescroll();
                Message::Nothing
            },
            Key::Left => {
                self.move_cursor(-1);
                Message::Nothing
            },
            Key::Right => {
                self.move_cursor(1);
                Message::Nothing
            },
            Key::Home => {
                self.pos = 0;
                self.rescroll();
                Message::Nothing
            },
            Key::End => {
                self.pos = self.input.len();
                self.rescroll();
                Message::Nothing
            },
            Key::Esc => {
                self.clear();
                Message::Quit
            },
            Key::Enter => {
                let text = string_from_chars(&self.input);
                self.clear();
                Message::Commit(text)
            },
            _ => Message::Nothing,
        }
    }

    /// Empties the text.
    fn clear(&mut self)
        ensures
            final(self).wf(),
            final(self).input@.len() == 0,
            final(self).title == old(self).title,
            final(self).pos == 0,
            final(self).scroll == 0,
            final(self).width == old(self).width,
    {
        proof {
            assert(encode_utf8(Seq::<char>::empty()) =~= Seq::<u8>::empty());
        }
        self.input = Vec::new();
        self.pos = 0;
        self.bytes = 0;
        self.scroll = 0;
    }

    /// Removes the character under the cursor.
    fn remove_at_cursor(&mut self)
        requires
            old(self).pos < old(self).input@.len(),
            old(self).bytes == byte_len(old(self).input@),
        ensures
            final(self).input@ == old(self).input@.remove(old(self).pos as int),
            final(self).pos == old(self).pos,
            final(self).pos <= final(self).input@.len(),
            final(self).bytes == byte_len(final(self).input@),
            final(self).title == old(self).title,
            final(self).scroll == old(self).scroll,
            final(self).width == old(self).width,
    {
        let ghost s = self.input@;
        let ghost p = self.pos as int;
        let c = self.input.remove(self.pos);
        let w = utf8_width(c);
        proof {
            assert(s =~= s.take(p) + (seq![c] + s.skip(p + 1)));
            lemma_encode_concat(s.take(p), seq![c] + s.skip(p + 1));
            lemma_encode_concat(seq![c], s.skip(p + 1));
            lemma_encode_single(c);
            assert(self.input@ =~= s.take(p) + s.skip(p + 1));
            lemma_encode_concat(s.take(p), s.skip(p + 1));
        }
        self.bytes = self.bytes - w;
    }
}

/// A box that asks for a yes or a no.
#[derive(Debug)]
pub struct ConfirmationModal {
    pub title: String,
}

impl ConfirmationModal {
    pub fn new(title: String) -> (r: ConfirmationModal)
        ensures
            r.title == title,
    {
        ConfirmationModal { title }
    }

    /// Enter confirms; Esc or `n` cancels; other keys are ignored.
    pub fn handle_key(&self, key: Key) -> (r: Message)
        ensures
            confirm_post(key, r),
    {
        match key {
            Key::Enter => Message::Commit(String::new()),
            Key::Esc => Message::Quit,
            Key::Char('n') => Message::Quit,
            _ => Message::Nothing,
        }
    }
}

/// The dialog that is open: one of the two kinds.
#[derive(Debug)]
pub enum Modal {
    Input(InputModal),
    Confirmation(ConfirmationModal),
}

impl Modal {
    pub open spec fn wf(&self) -> bool {
        match self {
            Modal::Input(m) => m.wf(),
            Modal::Confirmation(_) => true,
        }
    }

    pub fn handle_key(&mut self, key: Key) -> (r: Message)
        requires
            old(self).wf(),
        ensures
            final(self).wf(),
            key == Key::Esc ==> r == Message::Quit,
            key == Key::Enter ==> r is Commit,
            (match *old(self) {
                Modal::Input(m) => *final(self) is Input && input_key_post(m, final(self)->Input_0, key, r),
                Modal::Confirmation(_) => *final(self) == *old(self) && confirm_post(key, r),
            }),
    {
        match self {
            Modal::Input(m) => m.handle_key(key),
            Modal::Confirmation(m) => m.handle_key(key),
        }
    }

    /// Dialogs take every key as text or as an answer.
    pub fn mode(&self) -> (r: Mode)
        ensures
            r == Mode::Insert,
    {
        Mode::Insert
    }
}

} // verus!
