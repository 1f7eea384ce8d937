//! Release notes across several lines, broken between words.

use vstd::prelude::*;
use vstd::string::*;

use crate::text::{push_text, texts};

verus! {

/// How many whole lines of notes are shown before they are cut short.
pub const MAX_LINES: usize = 8;

/// Notes being laid out: the lines that are full, and the one being filled.
#[derive(Debug, PartialEq, Eq)]
pub struct Wrapped {
    /// The lines that are full.
    pub lines: Vec<String>,
    /// The line being filled.
    pub line: String,
}

/// What has been laid out.
#[verifier::ext_equal]
pub struct WrappedView {
    /// The lines that are full.
    pub lines: Seq<Seq<char>>,
    /// The line being filled.
    pub line: Seq<char>,
}

/// Nothing laid out yet.
pub open spec fn unwritten() -> WrappedView {
    WrappedView { lines: Seq::empty(), line: Seq::empty() }
}

/// A line with a word added to it.
pub open spec fn extended(line: Seq<char>, word: Seq<char>) -> Seq<char> {
    if line.len() == 0 {
        word
    } else {
        line + " "@ + word
    }
}

/// Whether no further line is shown.
pub open spec fn is_cut_short(wrapped: WrappedView) -> bool {
    wrapped.lines.len() >= MAX_LINES
}

/// A word laid out: on the line being filled, or where that would be too wide
/// on the next. The first word of a line stays there however wide it is, and
/// after the last line no more is laid out.
pub open spec fn laid_out(wrapped: WrappedView, word: Seq<char>, too_wide: bool) -> WrappedView {
    if is_cut_short(wrapped) {
        wrapped
    } else if too_wide && wrapped.line.len() > 0 {
        WrappedView { lines: wrapped.lines.push(wrapped.line), line: word }
    } else {
        WrappedView { line: extended(wrapped.line, word), ..wrapped }
    }
}

/// The lines to show: the full ones, and the one being filled unless it is
/// empty; or a mark in its place where the notes were cut short.
pub open spec fn shown_lines(wrapped: WrappedView) -> Seq<Seq<char>> {
    if is_cut_short(wrapped) {
        wrapped.lines.push("\u{2026}"@)
    } else if wrapped.line.len() > 0 {
        wrapped.lines.push(wrapped.line)
    } else {
        wrapped.lines
    }
}

/// The first `n` words laid out, where `wide` says of each whether it was too
/// wide for the line being filled.
pub open spec fn all_laid_out(words: Seq<Seq<char>>, wide: Seq<bool>, n: int) -> WrappedView
    decreases n,
{
    if n <= 0 {
        unwritten()
    } else {
        laid_out(all_laid_out(words, wide, n - 1), words[n - 1], wide[n - 1])
    }
}

/// Pieces of text joined with a blank between each two.
pub open spec fn joined(pieces: Seq<Seq<char>>) -> Seq<char>
    decreases pieces.len(),
{
    if pieces.len() == 0 {
        Seq::empty()
    } else if pieces.len() == 1 {
        pieces[0]
    } else {
        joined(pieces.drop_last()) + " "@ + pieces.last()
    }
}

impl Wrapped {
    /// What has been laid out.
    pub open spec fn view(&self) -> WrappedView {
        WrappedView { lines: texts(self.lines@), line: self.line@ }
    }

    /// Nothing laid out yet.
    pub fn new() -> (wrapped: Self)
        ensures
            wrapped@ == unwritten(),
    {
        let wrapped = Self { lines: Vec::new(), line: String::new() };
        assert(wrapped@ =~= unwritten());
        wrapped
    }

    /// The line being filled as it would be with `word` on it, for measuring.
    pub fn candidate(&self, word: &str) -> (line: String)
        ensures
            line@ == extended(self@.line, word@),
    {
        if self.line.as_str().unicode_len() == 0 {
            return word.to_owned();
        }
        let mut line = self.line.clone();
        push_text(&mut line, " ");
        push_text(&mut line, word);
        line
    }

    /// Lays out `word`, which is `too_wide` where the candidate with it is.
    pub fn lay_out(&mut self, word: &str, too_wide: bool)
        ensures
            final(self)@ == laid_out(old(self)@, word@, too_wide),
    {
        if self.is_full() {
            return;
        }
        if too_wide && self.line.as_str().unicode_len() > 0 {
            let line = self.line.clone();
            self.lines.push(line);
            self.line = word.to_owned();
        } else {
            self.line = self.candidate(word);
        }
        assert(self@ =~= laid_out(old(self)@, word@, too_wide));
    }

    /// Whether no further line is shown.
    pub fn is_full(&self) -> (full: bool)
        ensures
            full == is_cut_short(self@),
    {
        self.lines.len() >= MAX_LINES
    }

    /// The lines to show.
    pub fn finish(self) -> (lines: Vec<String>)
        ensures
            texts(lines@) == shown_lines(self@),
    {
        let full = self.is_full();
        let mut lines = self.lines;
        if full {
            lines.push("\u{2026}".to_owned());
        } else if self.line.as_str().unicode_len() > 0 {
            lines.push(self.line);
        }
        assert(texts(lines@) =~= shown_lines(self@));
        lines
    }
}

/// Wrapping loses nothing and adds nothing: the lines shown, joined again, are
/// the words joined. Where the notes are cut short, the whole lines shown are
/// the beginning of them.
pub proof fn law_wrapping_keeps_the_words(words: Seq<Seq<char>>, wide: Seq<bool>, n: int)
    requires
        0 <= n <= words.len(),
        forall|k: int| 0 <= k < words.len() ==> (#[trigger] words[k]).len() > 0,
    ensures
        ({
            let wrapped = all_laid_out(words, wide, n);
            if is_cut_short(wrapped) {
                exists|k: int|
                    0 <= k < n && joined(wrapped.lines) == #[trigger] joined(words.take(k))
            } else {
                joined(shown_lines(wrapped)) == joined(words.take(n))
            }
        }),
    decreases n,
{
    let wrapped = all_laid_out(words, wide, n);
    if n <= 0 {
        assert(words.take(0) =~= Seq::empty());
        assert(shown_lines(wrapped) =~= Seq::empty());
    } else {
        law_wrapping_keeps_the_words(words, wide, n - 1);
        lemma_line_is_begun(words, wide, n - 1);
        let before = all_laid_out(words, wide, n - 1);
        let word = words[n - 1];
        assert(words.take(n).drop_last() =~= words.take(n - 1));
        if is_cut_short(before) {
            let k = choose|k: int|
                0 <= k < n - 1 && joined(before.lines) == #[trigger] joined(words.take(k));
            assert(joined(wrapped.lines) == joined(words.take(k)));
        } else if n == 1 {
            assert(shown_lines(wrapped) =~= seq![word]);
            assert(words.take(1) =~= seq![word]);
        } else {
            assert(joined(words.take(n)) == joined(words.take(n - 1)) + " "@ + word);
            let all = before.lines.push(before.line);
            assert(shown_lines(before) == all);
            if wide[n - 1] {
                assert(wrapped.lines == all);
                if is_cut_short(wrapped) {
                    assert(joined(wrapped.lines) == joined(words.take(n - 1)));
                } else {
                    assert(shown_lines(wrapped).drop_last() =~= all);
                }
            } else {
                reveal_strlit(" ");
                let line = before.line + " "@ + word;
                assert(shown_lines(wrapped) =~= before.lines.push(line));
                assert(before.lines.push(line).drop_last() =~= before.lines);
                assert(all.drop_last() =~= before.lines);
                if before.lines.len() > 0 {
                    assert(joined(before.lines) + " "@ + line =~= joined(before.lines) + " "@
                        + before.line + " "@ + word);
                }
            }
        }
    }
}

/// Once a word is laid out, a line is being filled.
proof fn lemma_line_is_begun(words: Seq<Seq<char>>, wide: Seq<bool>, n: int)
    requires
        0 <= n <= words.len(),
        forall|k: int| 0 <= k < words.len() ==> (#[trigger] words[k]).len() > 0,
    ensures
        n > 0 ==> all_laid_out(words, wide, n).line.len() > 0,
        n == 0 ==> all_laid_out(words, wide, n) == unwritten(),
    decreases n,
{
    if n > 0 {
        lemma_line_is_begun(words, wide, n - 1);
        assert(words[n - 1].len() > 0);
    }
}

/// However long the notes, no more is shown than the whole lines there is room
/// for and the mark after them.
pub proof fn law_notes_are_bounded(words: Seq<Seq<char>>, wide: Seq<bool>, n: int)
    ensures
        shown_lines(all_laid_out(words, wide, n)).len() <= MAX_LINES + 1,
    decreases n,
{
    if n > 0 {
        law_notes_are_bounded(words, wide, n - 1);
    }
}

} // verus!
