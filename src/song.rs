use std::cmp::Ordering;
use vstd::prelude::*;
use vstd::utf8::encode_utf8;

verus! {

/// How the songs of a list are ordered for display.
#[derive(Debug, Clone, Copy, PartialEq, Eq, Structural)]
pub enum SortingMethod {
    /// The order of the playlist itself.
    Index,
    /// By title, byte by byte.
    Title,
    /// By duration, shortest first.
    Duration,
}

impl SortingMethod {
    /// The method that follows `self` in the fixed cycle Index, Title, Duration.
    pub open spec fn spec_next(self) -> SortingMethod {
        match self {
            SortingMethod::Index => SortingMethod::Title,
            SortingMethod::Title => SortingMethod::Duration,
            SortingMethod::Duration => SortingMethod::Index,
        }
    }

    pub fn next(self) -> (r: SortingMethod)
        ensures
            r == self.spec_next(),
    {
        match self {
            SortingMethod::Index => SortingMethod::Title,
            SortingMethod::Title => SortingMethod::Duration,
            SortingMethod::Duration => SortingMethod::Index,
        }
    }
}

/// The number of sorting methods.
pub const SORTING_METHODS: usize = 3;

/// Cycling through the sorting methods as many times as there are methods
/// comes back to the method one started from.
pub proof fn lemma_sort_cycle(m: SortingMethod)
    ensures
        m.spec_next().spec_next().spec_next() == m,
        SORTING_METHODS == 3,
{
}

/// An entry of a playlist.
#[derive(Debug, Clone)]
pub struct Song {
    pub title: String,
    /// Where the song is played from: a file path or a URL.
    pub path: String,
    /// Length in seconds.
    pub duration: u64,
}

/// Lexicographic order of byte strings; a proper prefix comes first.
pub open spec fn lex_cmp(a: Seq<u8>, b: Seq<u8>) -> Ordering
    decreases a.len(),
{
    if a.len() == 0 {
        if b.len() == 0 {
            Ordering::Equal
        } else {
            Ordering::Less
        }
    } else if b.len() == 0 {
        Ordering::Greater
    } else if a[0] < b[0] {
        Ordering::Less
    } else if a[0] > b[0] {
        Ordering::Greater
    } else {
        lex_cmp(a.drop_first(), b.drop_first())
    }
}

pub open spec fn num_cmp(a: u64, b: u64) -> Ordering {
    if a < b {
        Ordering::Less
    } else if a > b {
        Ordering::Greater
    } else {
        Ordering::Equal
    }
}

/// The UTF-8 bytes of a song's title.
pub open spec fn title_bytes(s: Song) -> Seq<u8> {
    encode_utf8(s.title@)
}

/// How two songs compare under a sorting method; under `Index` all songs tie.
pub open spec fn song_cmp(a: Song, b: Song, m: SortingMethod) -> Ordering {
    match m {
        SortingMethod::Index => Ordering::Equal,
        SortingMethod::Title => lex_cmp(title_bytes(a), title_bytes(b)),
        SortingMethod::Duration => num_cmp(a.duration, b.duration),
    }
}

/// Whether backing index `i` is shown before backing index `j`: by the
/// method's comparison, ties broken by the playlist order.
pub open spec fn precedes(songs: Seq<Song>, m: SortingMethod, i: int, j: int) -> bool {
    let c = song_cmp(songs[i], songs[j], m);
    c == Ordering::Less || (c == Ordering::Equal && i < j)
}

pub proof fn lemma_lex_cmp_flip(a: Seq<u8>, b: Seq<u8>)
    ensures
        lex_cmp(a, b) == Ordering::Less <==> lex_cmp(b, a) == Ordering::Greater,
        lex_cmp(a, b) == Ordering::Equal <==> a == b,
    decreases a.len(),
{
    if a.len() > 0 && b.len() > 0 {
        if a[0] == b[0] {
            lemma_lex_cmp_flip(a.drop_first(), b.drop_first());
            if a.drop_first() == b.drop_first() {
                assert(a =~= seq![a[0]] + a.drop_first());
                assert(b =~= seq![b[0]] + b.drop_first());
            } else if a == b {
                assert(a.drop_first() == b.drop_first());
            }
        } else if a == b {
            assert(a[0] == b[0]);
        }
    } else if a.len() == 0 && b.len() == 0 {
        assert(a =~= b);
    }
}

pub proof fn lemma_lex_cmp_trans(a: Seq<u8>, b: Seq<u8>, c: Seq<u8>)
    requires
        lex_cmp(a, b) == Ordering::Less,
        lex_cmp(b, c) == Ordering::Less,
    ensures
        lex_cmp(a, c) == Ordering::Less,
    decreases a.len(),
{
    if a.len() > 0 && b.len() > 0 && c.len() > 0 && a[0] == b[0] && b[0] == c[0] {
        lemma_lex_cmp_trans(a.drop_first(), b.drop_first(), c.drop_first());
    }
}

proof fn lemma_song_cmp_flip(a: Song, b: Song, m: SortingMethod)
    ensures
        song_cmp(a, b, m) == Ordering::Less <==> song_cmp(b, a, m) == Ordering::Greater,
        song_cmp(a, b, m) == Ordering::Equal <==> song_cmp(b, a, m) == Ordering::Equal,
{
    lemma_lex_cmp_flip(title_bytes(a), title_bytes(b));
    lemma_lex_cmp_flip(title_bytes(b), title_bytes(a));
}

/// `precedes` is a strict total order on distinct backing indices.
pub proof fn lemma_precedes_total(songs: Seq<Song>, m: SortingMethod, i: int, j: int)
    ensures
        !precedes(songs, m, i, i),
        i != j ==> (precedes(songs, m, i, j) <==> !precedes(songs, m, j, i)),
{
    lemma_song_cmp_flip(songs[i], songs[j], m);
    lemma_lex_cmp_flip(title_bytes(songs[i]), title_bytes(songs[i]));
}

pub proof fn lemma_precedes_trans(songs: Seq<Song>, m: SortingMethod, i: int, j: int, k: int)
    requires
        precedes(songs, m, i, j),
        precedes(songs, m, j, k),
    ensures
        precedes(songs, m, i, k),
{
    let (a, b, c) = (songs[i], songs[j], songs[k]);
    if m == SortingMethod::Title {
        lemma_lex_cmp_flip(title_bytes(a), title_bytes(b));
        lemma_lex_cmp_flip(title_bytes(b), title_bytes(c));
        lemma_lex_cmp_flip(title_bytes(a), title_bytes(c));
        if lex_cmp(title_bytes(a), title_bytes(b)) == Ordering::Less && lex_cmp(
            title_bytes(b),
            title_bytes(c),
        ) == Ordering::Less {
            lemma_lex_cmp_trans(title_bytes(a), title_bytes(b), title_bytes(c));
        }
    }
}

/// Compares two byte strings lexicographically.
fn compare_bytes(a: &[u8], b: &[u8]) -> (r: Ordering)
    ensures
        r == lex_cmp(a@, b@),
{
    let mut i: usize = 0;
    assert(a@.skip(0) =~= a@);
    assert(b@.skip(0) =~= b@);
    while i < a.len() && i < b.len()
        invariant
            i <= a@.len(),
            i <= b@.len(),
            lex_cmp(a@, b@) == lex_cmp(a@.skip(i as int), b@.skip(i as int)),
        decreases a@.len() - i,
    {
        let (x, y) = (a[i], b[i]);
        assert(a@.skip(i as int).drop_first() =~= a@.skip(i + 1));
        assert(b@.skip(i as int).drop_first() =~= b@.skip(i + 1));
        if x < y {
            return Ordering::Less;
        } else if x > y {
            return Ordering::Greater;
        }
        i = i + 1;
    }
    if i < b.len() {
        Ordering::Less
    } else if i < a.len() {
        Ordering::Greater
    } else {
        Ordering::Equal
    }
}

/// Compares two songs under a sorting method other than `Index` (which keeps
/// the playlist order and compares nothing).
pub fn compare_songs(a: &Song, b: &Song, method: SortingMethod) -> (r: Ordering)
    requires
        method != SortingMethod::Index,
    ensures
        r == song_cmp(*a, *b, method),
{
    match method {
        SortingMethod::Title => compare_bytes(a.title.as_str().as_bytes(), b.title.as_str().as_bytes()),
        SortingMethod::Duration => {
            if a.duration < b.duration {
                Ordering::Less
            } else if a.duration > b.duration {
                Ordering::Greater
            } else {
                Ordering::Equal
            }
        },
        SortingMethod::Index => Ordering::Equal,
    }
}

} // verus!
