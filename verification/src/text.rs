//! Greedy word wrapping.

use vstd::prelude::*;
use vstd::utf8::encode_utf8;

verus! {

/// Whether `c` has the Unicode property White_Space.
pub open spec fn is_whitespace(c: char) -> bool {
    let u = c as u32;
    ||| 0x09 <= u <= 0x0d
    ||| u == 0x20
    ||| u == 0x85
    ||| u == 0xa0
    ||| u == 0x1680
    ||| 0x2000 <= u <= 0x200a
    ||| u == 0x2028
    ||| u == 0x2029
    ||| u == 0x202f
    ||| u == 0x205f
    ||| u == 0x3000
}

/// `pending`, as a list of one word, unless it is empty.
pub open spec fn finished(pending: Seq<char>) -> Seq<Seq<char>> {
    if pending.len() > 0 {
        seq![pending]
    } else {
        Seq::empty()
    }
}

/// The words of `rest`, where `pending` holds the characters of a word that
/// began before `rest`: whitespace ends a word, everything else extends it.
pub open spec fn split_from(rest: Seq<char>, pending: Seq<char>) -> Seq<Seq<char>>
    decreases rest.len(),
{
    if rest.len() == 0 {
        finished(pending)
    } else if is_whitespace(rest[0]) {
        finished(pending) + split_from(rest.drop_first(), Seq::empty())
    } else {
        split_from(rest.drop_first(), pending.push(rest[0]))
    }
}

/// The words of `text`: its maximal runs of characters that are not
/// whitespace, in order.
pub open spec fn words_of(text: Seq<char>) -> Seq<Seq<char>> {
    split_from(text, Seq::empty())
}

/// The contents of a list of strings.
pub open spec fn texts(strings: Seq<String>) -> Seq<Seq<char>> {
    Seq::new(strings.len(), |i: int| strings[i]@)
}

/// Length of `s` in bytes, in UTF-8.
pub open spec fn byte_len(s: Seq<char>) -> int {
    encode_utf8(s).len() as int
}

/// Whether `word` starts a new line: the line in progress is not empty, and
/// with a space and `word` it would be longer than `max` bytes.
pub open spec fn breaks_before(current: Seq<char>, word: Seq<char>, max: int) -> bool {
    current.len() > 0 && byte_len(current) + byte_len(word) + 1 > max
}

/// The line `current` extended by `word`, a space between them unless the
/// line was empty.
pub open spec fn with_word(current: Seq<char>, word: Seq<char>) -> Seq<char> {
    if current.len() > 0 {
        current.push(' ') + word
    } else {
        word
    }
}

/// The lines that greedy filling makes of `words` when `current` is the
/// line in progress: each word goes on the line in progress unless that
/// would make it longer than `max` bytes; a word alone on a line stays
/// there, however long it is.
pub open spec fn fill_lines(words: Seq<Seq<char>>, max: int, current: Seq<char>) -> Seq<Seq<char>>
    decreases words.len(),
{
    if words.len() == 0 {
        finished(current)
    } else if breaks_before(current, words[0], max) {
        seq![current] + fill_lines(words.drop_first(), max, words[0])
    } else {
        fill_lines(words.drop_first(), max, with_word(current, words[0]))
    }
}

/// `lines` with a line feed between neighbours.
pub open spec fn joined(lines: Seq<Seq<char>>) -> Seq<char>
    decreases lines.len(),
{
    if lines.len() == 0 {
        Seq::empty()
    } else if lines.len() == 1 {
        lines[0]
    } else {
        joined(lines.drop_last()) + seq!['\n'] + lines.last()
    }
}

/// `words` wrapped to lines of at most `max` bytes where the words allow it.
pub open spec fn wrapped(words: Seq<Seq<char>>, max: int) -> Seq<char> {
    joined(fill_lines(words, max, Seq::empty()))
}

/// `str::split_whitespace`: the sub-slices of `text` between whitespace,
/// each copied into a `String`. Whitespace is what has the Unicode property
/// White_Space; no word is empty, and the words come in the order of the
/// text.
#[verifier::external_body]
fn split_words(text: &str) -> (words: Vec<String>)
    ensures
        texts(words@) == words_of(text@),
{
    let mut words: Vec<String> = Vec::new();
    for word in text.split_whitespace() {
        words.push(word.to_string());
    }
    words
}

/// Whether a line of `line_len` bytes, a space and a word of `word_len`
/// bytes together exceed `max` bytes.
fn exceeds(line_len: usize, word_len: usize, max: usize) -> (over: bool)
    ensures
        over == (line_len + word_len + 1 > max),
{
    line_len >= max || word_len >= max - line_len
}

/// Length of `s` in bytes.
fn byte_length(s: &str) -> (n: usize)
    ensures
        n == byte_len(s@),
{
    s.as_bytes().len()
}

/// `lines` joined by line feeds.
pub fn join_lines(lines: &Vec<String>) -> (out: String)
    ensures
        out@ == joined(texts(lines@)),
{
    let mut out = String::new();
    let mut i: usize = 0;
    while i < lines.len()
        invariant
            i <= lines.len(),
            out@ == joined(texts(lines@).take(i as int)),
        decreases lines.len() - i,
    {
        let ghost all = texts(lines@);
        proof {
            reveal_strlit("\n");
            assert(all.take(i as int + 1).drop_last() =~= all.take(i as int));
            assert(all.take(i as int + 1).last() == lines@[i as int]@);
        }
        if i > 0 {
            out.append("\n");
            assert(out@ =~= joined(all.take(i as int)) + seq!['\n']);
        }
        out.append(lines[i].as_str());
        i += 1;
    }
    proof {
        assert(texts(lines@).take(lines@.len() as int) =~= texts(lines@));
    }
    out
}

/// Wraps `words` greedily: words are put on a line, one space between them,
/// as long as the line stays within `max_line_length` bytes; the lines are
/// joined by line feeds.
pub fn wrap_words(words: &Vec<String>, max_line_length: usize) -> (out: String)
    ensures
        out@ == wrapped(texts(words@), max_line_length as int),
{
    let mut lines: Vec<String> = Vec::new();
    let mut current = String::new();
    let mut i: usize = 0;
    let ghost all = texts(words@);
    let ghost max = max_line_length as int;
    proof {
        assert(all.skip(0) =~= all);
        assert(texts(lines@) =~= Seq::<Seq<char>>::empty());
        assert(texts(lines@) + fill_lines(all, max, current@) =~= fill_lines(all, max, current@));
    }
    while i < words.len()
        invariant
            i <= words.len(),
            all == texts(words@),
            max == max_line_length as int,
            texts(lines@) + fill_lines(all.skip(i as int), max, current@) == fill_lines(
                all,
                max,
                Seq::empty(),
            ),
        decreases words.len() - i,
    {
        let word = words[i].as_str();
        let ghost rest = all.skip(i as int);
        let ghost before = texts(lines@);
        let ghost line = current@;
        proof {
            reveal_strlit(" ");
            assert(rest[0] == word@);
            assert(rest.drop_first() =~= all.skip(i as int + 1));
        }
        if !current.as_str().is_empty() && exceeds(
            byte_length(current.as_str()),
            byte_length(word),
            max_line_length,
        ) {
            lines.push(current);
            current = String::new();
            proof {
                assert(breaks_before(line, word@, max));
                assert(texts(lines@) =~= before + seq![line]);
                assert((before + seq![line]) + fill_lines(rest.drop_first(), max, word@) =~= before + (
                seq![line] + fill_lines(rest.drop_first(), max, word@)));
            }
        } else {
            proof {
                assert(!breaks_before(line, word@, max));
            }
        }
        let ghost kept = current@;
        if !current.as_str().is_empty() {
            current.append(" ");
            assert(current@ =~= kept.push(' '));
        }
        current.append(word);
        proof {
            assert(current@ =~= with_word(kept, word@));
        }
        i += 1;
    }
    proof {
        assert(all.skip(i as int).len() == 0);
    }
    if !current.as_str().is_empty() {
        let ghost before = texts(lines@);
        let ghost line = current@;
        lines.push(current);
        proof {
            assert(texts(lines@) =~= before + seq![line]);
        }
    } else {
        proof {
            assert(texts(lines@) + Seq::<Seq<char>>::empty() =~= texts(lines@));
        }
    }
    join_lines(&lines)
}

/// Wraps `text` to lines of at most `max_line_length` bytes: the text is
/// split into words at whitespace, the words are put on lines greedily with
/// one space between them, and the lines are joined by line feeds. A word
/// longer than the limit gets a line of its own.
pub fn wrap_textbetter(text: &str, max_line_length: usize) -> (out: String)
    ensures
        out@ == wrapped(words_of(text@), max_line_length as int),
{
    let words = split_words(text);
    wrap_words(&words, max_line_length)
}

} // verus!
