//! Word tiles: the typing targets attached to ground tiles, and the word
//! list they draw from.

use vstd::prelude::*;

use crate::level::GridCoords;

verus! {

/// Whether `needle` occurs in `hay` starting at position `i`.
pub open spec fn contains_at_spec(hay: Seq<char>, needle: Seq<char>, i: int) -> bool {
    0 <= i && i + needle.len() <= hay.len() && hay.subrange(i, i + needle.len()) == needle
}

/// Whether `needle` occurs anywhere in `hay`.
pub open spec fn str_contains_spec(hay: Seq<char>, needle: Seq<char>) -> bool {
    exists|i: int| contains_at_spec(hay, needle, i)
}

/// Substring search by characters.
#[verifier::loop_isolation(false)]
pub fn str_contains(haystack: &str, needle: &str) -> (b: bool)
    ensures
        b == str_contains_spec(haystack@, needle@),
{
    let hl: usize = haystack.unicode_len();
    let nl: usize = needle.unicode_len();
    if nl > hl {
        proof {
            assert(!str_contains_spec(haystack@, needle@)) by {
                if str_contains_spec(haystack@, needle@) {
                    let i = choose|i: int| contains_at_spec(haystack@, needle@, i);
                }
            }
        }
        return false;
    }
    let mut i: usize = 0;
    while i <= hl - nl
        invariant
            0 <= i <= hl - nl + 1,
            forall|i2: int| 0 <= i2 < i ==> !contains_at_spec(haystack@, needle@, i2),
        decreases hl - nl + 1 - i,
    {
        let mut j: usize = 0;
        let mut ok: bool = true;
        while ok && j < nl
            invariant
                0 <= j <= nl,
                ok ==> forall|k: int| 0 <= k < j ==> haystack@[i + k] == needle@[k],
                !ok ==> j < nl && haystack@[i + j] != needle@[j as int],
            decreases nl - j + (if ok {
                1int
            } else {
                0int
            }),
        {
            if haystack.get_char(i + j) != needle.get_char(j) {
                ok = false;
            } else {
                j = j + 1;
            }
        }
        if ok {
            proof {
                assert(haystack@.subrange(i as int, i + nl as int) =~= needle@);
                assert(contains_at_spec(haystack@, needle@, i as int));
            }
            return true;
        }
        proof {
            assert(!contains_at_spec(haystack@, needle@, i as int)) by {
                if contains_at_spec(haystack@, needle@, i as int) {
                    assert(haystack@.subrange(i as int, i + nl as int)[j as int] == haystack@[i
                        + j]);
                }
            }
        }
        i = i + 1;
    }
    proof {
        assert(!str_contains_spec(haystack@, needle@)) by {
            if str_contains_spec(haystack@, needle@) {
                let i2 = choose|i2: int| contains_at_spec(haystack@, needle@, i2);
                assert(i2 < i);
            }
        }
    }
    false
}

/// Prefix test by characters.
#[verifier::loop_isolation(false)]
pub fn str_starts_with(hay: &str, prefix: &str) -> (b: bool)
    ensures
        b == (prefix@.len() <= hay@.len() && hay@.subrange(0, prefix@.len() as int) == prefix@),
{
    let hl: usize = hay.unicode_len();
    let pl: usize = prefix.unicode_len();
    if pl > hl {
        return false;
    }
    let mut j: usize = 0;
    while j < pl
        invariant
            0 <= j <= pl <= hl,
            forall|k: int| 0 <= k < j ==> hay@[k] == prefix@[k],
        decreases pl - j,
    {
        if hay.get_char(j) != prefix.get_char(j) {
            proof {
                assert(hay@.subrange(0, pl as int)[j as int] == hay@[j as int]);
            }
            return false;
        }
        j = j + 1;
    }
    proof {
        assert(hay@.subrange(0, pl as int) =~= prefix@);
    }
    true
}

/// Whether a word passes the list's filter: at least three characters and
/// free of every blacklisted fragment (the movement key bindings, so that
/// typing a word never steers the actor).
pub open spec fn word_kept_spec(w: String, blacklist: Seq<String>) -> bool {
    &&& w@.len() >= 3
    &&& forall|j: int| 0 <= j < blacklist.len() ==> !str_contains_spec(w@, (#[trigger] blacklist[j])@)
}

/// The kept words whose character length lies in `[len_lo, len_hi]`, in
/// source order.
pub open spec fn filter_words_spec(
    s: Seq<String>,
    blacklist: Seq<String>,
    len_lo: int,
    len_hi: int,
) -> Seq<String>
    decreases s.len(),
{
    if s.len() == 0 {
        Seq::empty()
    } else {
        let rest = filter_words_spec(s.drop_last(), blacklist, len_lo, len_hi);
        if word_kept_spec(s.last(), blacklist) && len_lo <= s.last()@.len() <= len_hi {
            rest.push(s.last())
        } else {
            rest
        }
    }
}

/// Whether the word avoids every blacklisted fragment.
#[verifier::loop_isolation(false)]
fn word_allowed(w: &String, blacklist: &Vec<String>) -> (b: bool)
    ensures
        b == forall|j: int|
            0 <= j < blacklist@.len() ==> !str_contains_spec(w@, (#[trigger] blacklist@[j])@),
{
    let mut j: usize = 0;
    while j < blacklist.len()
        invariant
            0 <= j <= blacklist@.len(),
            forall|j2: int| 0 <= j2 < j ==> !str_contains_spec(w@, (#[trigger] blacklist@[j2])@),
        decreases blacklist@.len() - j,
    {
        if str_contains(w.as_str(), blacklist[j].as_str()) {
            return false;
        }
        j = j + 1;
    }
    true
}

/// Appends the kept words of the given length range, in source order.
#[verifier::loop_isolation(false)]
fn push_kept(
    source: &Vec<String>,
    blacklist: &Vec<String>,
    len_lo: usize,
    len_hi: usize,
    out: &mut Vec<String>,
)
    requires
        len_lo >= 3,
    ensures
        final(out)@ == old(out)@ + filter_words_spec(
            source@,
            blacklist@,
            len_lo as int,
            len_hi as int,
        ),
{
    let mut i: usize = 0;
    proof {
        assert(out@ =~= out@ + filter_words_spec(
            source@.take(0),
            blacklist@,
            len_lo as int,
            len_hi as int,
        ));
    }
    while i < source.len()
        invariant
            0 <= i <= source@.len(),
            out@ == old(out)@ + filter_words_spec(
                source@.take(i as int),
                blacklist@,
                len_lo as int,
                len_hi as int,
            ),
        decreases source@.len() - i,
    {
        proof {
            assert(source@.take(i + 1).drop_last() =~= source@.take(i as int));
            assert(source@.take(i + 1).last() == source@[i as int]);
        }
        let w = &source[i];
        let wlen: usize = w.as_str().unicode_len();
        if len_lo <= wlen && wlen <= len_hi && word_allowed(w, blacklist) {
            let ghost prev = out@;
            out.push(w.clone());
            proof {
                assert(word_kept_spec(source@[i as int], blacklist@));
                assert(out@ =~= old(out)@ + filter_words_spec(
                    source@.take(i + 1),
                    blacklist@,
                    len_lo as int,
                    len_hi as int,
                ));
            }
        } else {
            proof {
                assert(!(word_kept_spec(source@[i as int], blacklist@) && len_lo
                    <= source@[i as int]@.len() <= len_hi));
            }
        }
        i = i + 1;
    }
    proof {
        assert(source@.take(source@.len() as int) =~= source@);
    }
}

/// The pool of words the level's ground tiles draw from.
pub struct WordList {
    pub ground_words: Vec<String>,
}

/// Builds the ground-word list from a raw word source: keeps words of at
/// least three characters that avoid the blacklisted fragments, takes the
/// short ones (up to four characters) ordered shortest first, and yields
/// nothing when the source has no longer word left over (a sign the
/// source was not a real word list).
#[verifier::loop_isolation(false)]
pub fn build_word_list(source: &Vec<String>, blacklist: &Vec<String>) -> (r: Option<WordList>)
    ensures
        r is Some <==> exists|i: int|
            0 <= i < source@.len() && word_kept_spec(#[trigger] source@[i], blacklist@)
                && source@[i]@.len() > 4,
        r is Some ==> (r->0).ground_words@ == filter_words_spec(source@, blacklist@, 3, 3)
            + filter_words_spec(source@, blacklist@, 4, 4),
{
    let mut has_long: bool = false;
    let mut i: usize = 0;
    while i < source.len()
        invariant
            0 <= i <= source@.len(),
            has_long <==> exists|i2: int|
                0 <= i2 < i && word_kept_spec(#[trigger] source@[i2], blacklist@)
                    && source@[i2]@.len() > 4,
        decreases source@.len() - i,
    {
        let w = &source[i];
        let wlen: usize = w.as_str().unicode_len();
        if wlen > 4 && word_allowed(w, blacklist) {
            proof {
                assert(word_kept_spec(source@[i as int], blacklist@));
            }
            has_long = true;
        }
        i = i + 1;
    }
    if !has_long {
        return None;
    }
    let mut ground_words: Vec<String> = Vec::new();
    push_kept(source, blacklist, 3, 3, &mut ground_words);
    push_kept(source, blacklist, 4, 4, &mut ground_words);
    proof {
        assert(ground_words@ == filter_words_spec(source@, blacklist@, 3, 3) + filter_words_spec(
            source@,
            blacklist@,
            4,
            4,
        ));
    }
    Some(WordList { ground_words })
}

/// What one keystroke burst did to a word tile.
#[derive(Clone, Copy, Debug, PartialEq, Eq, Structural)]
pub enum WordTileEventKind {
    WordStarted,
    WordAdvanced,
    WordFinished(usize),
    TileFinished { word_count: usize, coords: GridCoords },
}

/// A tile event together with the entity it happened to.
#[derive(Clone, Copy, Debug, PartialEq, Eq, Structural)]
pub struct WordTileEvent {
    pub e: u64,
    pub kind: WordTileEventKind,
}

/// How far along a tile's words the player has typed.
#[derive(Clone, Copy, Debug, PartialEq, Eq, Structural)]
pub enum WordTileStatus {
    Pristine,
    Damaged,
    Finished,
}

/// A typing target: a stack of words to be typed through in order, with
/// the index of the current word and how many of its characters are done.
/// `text_e` is the entity of the tile's text display.
pub struct WordTile {
    pub words: Vec<String>,
    pub word_i: usize,
    pub typed_char_len: usize,
    pub text_e: u64,
}

impl WordTile {
    pub open spec fn wf(self) -> bool {
        &&& self.words@.len() > 0
        &&& self.word_i < self.words@.len()
    }

    pub fn new(words: Vec<String>, text_e: u64) -> (t: WordTile)
        requires
            words@.len() > 0,
        ensures
            t.wf(),
            t.words == words,
            t.word_i == 0,
            t.typed_char_len == 0,
            t.text_e == text_e,
    {
        WordTile { words, word_i: 0, typed_char_len: 0, text_e }
    }

    /// The word currently being typed.
    pub fn current_word(&self) -> (w: &str)
        requires
            self.wf(),
        ensures
            w@ == self.words@[self.word_i as int]@,
    {
        self.words[self.word_i].as_str()
    }

    /// The untyped remainder of the current word.
    pub fn remaining(&self) -> (r: String)
        requires
            self.wf(),
        ensures
            ({
                let w = self.words@[self.word_i as int]@;
                let from = if self.typed_char_len <= w.len() {
                    self.typed_char_len as int
                } else {
                    w.len() as int
                };
                r@ == w.subrange(from, w.len() as int)
            }),
    {
        let w = self.current_word();
        let wlen: usize = w.unicode_len();
        let from: usize = if self.typed_char_len <= wlen {
            self.typed_char_len
        } else {
            wlen
        };
        w.substring_char(from, wlen).to_owned()
    }

    /// The advance step at the spec level: the tile after `count` typed
    /// characters, and the event it raises.
    pub open spec fn advance_spec(self, count: int, coords: GridCoords) -> (WordTile,
        WordTileEventKind) {
        let typed = self.typed_char_len + count;
        let wlen = self.words@[self.word_i as int]@.len();
        if typed >= wlen {
            if self.word_i < self.words@.len() - 1 {
                (
                    WordTile {
                        word_i: (self.word_i + 1) as usize,
                        typed_char_len: 0,
                        ..self
                    },
                    WordTileEventKind::WordFinished(((self.word_i + 1) as usize)),
                )
            } else {
                (
                    WordTile { typed_char_len: typed as usize, ..self },
                    WordTileEventKind::TileFinished {
                        word_count: self.words@.len() as usize,
                        coords,
                    },
                )
            }
        } else if self.typed_char_len == 0 {
            (WordTile { typed_char_len: typed as usize, ..self }, WordTileEventKind::WordStarted)
        } else {
            (WordTile { typed_char_len: typed as usize, ..self }, WordTileEventKind::WordAdvanced)
        }
    }

    /// Records `count` correctly typed characters: finishing the current
    /// word moves on to the next, finishing the last finishes the tile.
    pub fn advance(&mut self, count: usize, coords: GridCoords) -> (ev: WordTileEventKind)
        requires
            old(self).wf(),
            old(self).typed_char_len + count <= usize::MAX,
        ensures
            final(self).wf(),
            (*final(self), ev) == old(self).advance_spec(count as int, coords),
    {
        let typed_len_prev = self.typed_char_len;
        self.typed_char_len = self.typed_char_len + count;
        let wlen: usize = self.words[self.word_i].as_str().unicode_len();
        if self.typed_char_len >= wlen {
            if self.word_i < self.words.len() - 1 {
                self.word_i = self.word_i + 1;
                self.typed_char_len = 0;
                WordTileEventKind::WordFinished(self.word_i)
            } else {
                WordTileEventKind::TileFinished { word_count: self.words.len(), coords }
            }
        } else if typed_len_prev == 0 {
            WordTileEventKind::WordStarted
        } else {
            WordTileEventKind::WordAdvanced
        }
    }

    /// The typing entry point: a burst of typed characters advances this
    /// tile exactly when it matches the start of the current word's
    /// untyped remainder; anything else leaves the tile untouched.
    pub fn try_type(&mut self, typed: &str, coords: GridCoords) -> (ev: Option<WordTileEventKind>)
        requires
            old(self).wf(),
            old(self).typed_char_len + typed@.len() <= usize::MAX,
        ensures
            final(self).wf(),
            ({
                let w = old(self).words@[old(self).word_i as int]@;
                let from = if old(self).typed_char_len <= w.len() {
                    old(self).typed_char_len as int
                } else {
                    w.len() as int
                };
                let rem = w.subrange(from, w.len() as int);
                if typed@.len() <= rem.len() && rem.subrange(0, typed@.len() as int) == typed@ {
                    (*final(self), ev) == {
                        let r = old(self).advance_spec(typed@.len() as int, coords);
                        (r.0, Some(r.1))
                    }
                } else {
                    *final(self) == *old(self) && ev is None
                }
            }),
    {
        let rem = self.remaining();
        if str_starts_with(rem.as_str(), typed) {
            let n: usize = typed.unicode_len();
            Some(self.advance(n, coords))
        } else {
            None
        }
    }

    /// Where this tile stands at the spec level.
    pub open spec fn status_spec(self) -> WordTileStatus {
        if self.word_i == 0 && self.typed_char_len == 0 {
            WordTileStatus::Pristine
        } else if self.word_i == self.words@.len() - 1 && self.typed_char_len
            >= self.words@[self.word_i as int]@.len() {
            WordTileStatus::Finished
        } else {
            WordTileStatus::Damaged
        }
    }

    /// Untouched, partly typed, or completely typed through.
    pub fn status(&self) -> (s: WordTileStatus)
        requires
            self.wf(),
        ensures
            s == self.status_spec(),
    {
        if self.word_i == 0 && self.typed_char_len == 0 {
            WordTileStatus::Pristine
        } else {
            let wlen: usize = self.words[self.word_i].as_str().unicode_len();
            if self.word_i == self.words.len() - 1 && self.typed_char_len >= wlen {
                WordTileStatus::Finished
            } else {
                WordTileStatus::Damaged
            }
        }
    }
}

} // verus!
