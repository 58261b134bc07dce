//! Reading a correspondent's identity out of the opening message of a thread.
//!
//! The opening message names the correspondent twice: as a mention, `<@` the
//! number `>`, and in the marker `(ID: ` the number `)`. The mention is looked
//! for first, word by word; the marker is the fallback.

use crate::text::{chars_of, is_white_space, parse_decimal, parse_u64, white_space};
use vstd::prelude::*;

verus! {

/// Where the word that holds position `i` ends: the first position from `i`
/// on that holds white space, or the end of the text.
pub open spec fn word_end(s: Seq<char>, i: int) -> int
    decreases s.len() - i,
{
    if i < 0 || i >= s.len() || white_space(s[i]) {
        i
    } else {
        word_end(s, i + 1)
    }
}

/// A word ends no earlier than it starts, and within the text.
pub proof fn lemma_word_end_bounds(s: Seq<char>, i: int)
    requires
        0 <= i <= s.len(),
    ensures
        i <= word_end(s, i) <= s.len(),
        i < s.len() && !white_space(s[i]) ==> i < word_end(s, i),
    decreases s.len() - i,
{
    if i < s.len() && !white_space(s[i]) {
        lemma_word_end_bounds(s, i + 1);
    }
}

/// The words of `s` from position `i` on: the maximal runs of characters that
/// are not white space, in their order.
pub open spec fn words_from(s: Seq<char>, i: int) -> Seq<Seq<char>>
    decreases s.len() - i,
{
    if i < 0 || i >= s.len() {
        Seq::empty()
    } else if white_space(s[i]) {
        words_from(s, i + 1)
    } else {
        proof {
            lemma_word_end_bounds(s, i);
        }
        seq![s.subrange(i, word_end(s, i))] + words_from(s, word_end(s, i))
    }
}

/// The words of `s`, split at white space.
pub open spec fn split_whitespace(s: Seq<char>) -> Seq<Seq<char>> {
    words_from(s, 0)
}

/// `s` without any `<@` that it starts with, however many.
pub open spec fn strip_mention_open(s: Seq<char>) -> Seq<char>
    decreases s.len(),
{
    if s.len() >= 2 && s[0] == '<' && s[1] == '@' {
        strip_mention_open(s.skip(2))
    } else {
        s
    }
}

/// `s` without any `>` that it ends with, however many.
pub open spec fn strip_mention_close(s: Seq<char>) -> Seq<char>
    decreases s.len(),
{
    if s.len() > 0 && s.last() == '>' {
        strip_mention_close(s.drop_last())
    } else {
        s
    }
}

/// The identity that the word `word` mentions: the word starts with `<@`,
/// ends with `>`, and what is left between them is a number.
pub open spec fn mention_value(word: Seq<char>) -> Option<u64> {
    if word.len() >= 2 && word[0] == '<' && word[1] == '@' && word.last() == '>' {
        parse_decimal(strip_mention_close(strip_mention_open(word)))
    } else {
        None
    }
}

/// The identity that the first mentioning word among `words` mentions.
pub open spec fn first_mention(words: Seq<Seq<char>>) -> Option<u64>
    decreases words.len(),
{
    if words.len() == 0 {
        None
    } else if mention_value(words[0]) is Some {
        mention_value(words[0])
    } else {
        first_mention(words.skip(1))
    }
}

/// Whether the marker's opening, `(ID: `, stands at position `i` of `s`.
pub open spec fn marker_at(s: Seq<char>, i: int) -> bool {
    &&& 0 <= i
    &&& i + 5 <= s.len()
    &&& s[i] == '('
    &&& s[i + 1] == 'I'
    &&& s[i + 2] == 'D'
    &&& s[i + 3] == ':'
    &&& s[i + 4] == ' '
}

/// The last position up to `i` at which the marker's opening stands.
pub open spec fn last_marker(s: Seq<char>, i: int) -> Option<int>
    decreases i + 1,
{
    if i < 0 {
        None
    } else if marker_at(s, i) {
        Some(i)
    } else {
        last_marker(s, i - 1)
    }
}

/// The first position from `i` on that holds `)`.
pub open spec fn first_close(s: Seq<char>, i: int) -> Option<int>
    decreases s.len() - i,
{
    if i < 0 || i >= s.len() {
        None
    } else if s[i] == ')' {
        Some(i)
    } else {
        first_close(s, i + 1)
    }
}

/// `s` without the white space that it starts with.
pub open spec fn trim_start(s: Seq<char>) -> Seq<char>
    decreases s.len(),
{
    if s.len() > 0 && white_space(s[0]) {
        trim_start(s.skip(1))
    } else {
        s
    }
}

/// `s` without the white space that it ends with.
pub open spec fn trim_end(s: Seq<char>) -> Seq<char>
    decreases s.len(),
{
    if s.len() > 0 && white_space(s.last()) {
        trim_end(s.drop_last())
    } else {
        s
    }
}

/// `s` without the white space at either end.
pub open spec fn trim(s: Seq<char>) -> Seq<char> {
    trim_end(trim_start(s))
}

/// The identity in the marker of `s`: the number between the last `(ID: ` and
/// the first `)` after it, white space around the number aside.
pub open spec fn marker_value(s: Seq<char>) -> Option<u64> {
    match last_marker(s, s.len() - 5) {
        None => None,
        Some(p) => match first_close(s, p + 5) {
            None => None,
            Some(q) => parse_decimal(trim(s.subrange(p + 5, q))),
        },
    }
}

/// The correspondent that the opening message `s` names: the first mention
/// that holds a number, else the number in the marker, else nobody.
pub open spec fn extract_user_id(s: Seq<char>) -> Option<u64> {
    if first_mention(split_whitespace(s)) is Some {
        first_mention(split_whitespace(s))
    } else {
        marker_value(s)
    }
}

/// A run of characters without white space, closed by white space or by
/// the end of the text, is a word.
pub proof fn lemma_word_end(s: Seq<char>, i: int, j: int)
    requires
        0 <= i <= j <= s.len(),
        forall|k: int| i <= k < j ==> !white_space(#[trigger] s[k]),
        j == s.len() || white_space(s[j]),
    ensures
        word_end(s, i) == j,
    decreases j - i,
{
    if i < j {
        lemma_word_end(s, i + 1, j);
    }
}

/// The words of a text from a position on are the words of what is left of
/// the text there.
pub proof fn lemma_words_shift(s: Seq<char>, i: int, k: int)
    requires
        0 <= i,
        0 <= k,
        i + k <= s.len(),
    ensures
        word_end(s, i + k) == word_end(s.skip(i), k) + i,
        words_from(s, i + k) == words_from(s.skip(i), k),
    decreases s.len() - (i + k),
{
    let rest = s.skip(i);
    if i + k < s.len() {
        assert(rest[k] == s[i + k]);
        lemma_words_shift(s, i, k + 1);
        if !white_space(s[i + k]) {
            let end = word_end(rest, k);
            lemma_word_end_bounds(rest, k);
            lemma_words_shift(s, i, end);
            assert(s.subrange(i + k, end + i) =~= rest.subrange(k, end));
        }
    }
}

/// A text that starts with a word and a blank has that word first, and then
/// the words of what follows the blank.
pub proof fn lemma_split_word_then_space(word: Seq<char>, rest: Seq<char>)
    requires
        word.len() > 0,
        forall|k: int| 0 <= k < word.len() ==> !white_space(#[trigger] word[k]),
    ensures
        split_whitespace(word + seq![' '] + rest) == seq![word] + split_whitespace(rest),
{
    let s = word + seq![' '] + rest;
    let n = word.len() as int;
    assert(s[n] == ' ');
    assert forall|k: int| 0 <= k < n implies !white_space(#[trigger] s[k]) by {
        assert(s[k] == word[k]);
    }
    lemma_word_end(s, 0, n);
    assert(s.subrange(0, n) =~= word);
    lemma_words_shift(s, n + 1, 0);
    assert(s.skip(n + 1) =~= rest);
    assert(words_from(s, n) == words_from(s, n + 1));
}

/// The end of the word that starts at `i`.
fn word_end_at(s: &Vec<char>, i: usize) -> (j: usize)
    requires
        i < s.len(),
        !white_space(s@[i as int]),
    ensures
        j == word_end(s@, i as int),
        i < j <= s.len(),
{
    let mut j: usize = i + 1;
    while j < s.len() && !is_white_space(s[j])
        invariant
            i < j <= s.len(),
            word_end(s@, i as int) == word_end(s@, j as int),
        decreases s.len() - j,
    {
        j = j + 1;
    }
    j
}

/// The identity that the word `s[a..b]` mentions.
fn mention_in(s: &Vec<char>, a: usize, b: usize) -> (r: Option<u64>)
    requires
        a <= b <= s.len(),
    ensures
        r == mention_value(s@.subrange(a as int, b as int)),
{
    let ghost word = s@.subrange(a as int, b as int);
    if b - a < 2 || s[a] != '<' || s[a + 1] != '@' || s[b - 1] != '>' {
        return None;
    }
    let mut p: usize = a;
    while b - p >= 2 && s[p] == '<' && s[p + 1] == '@'
        invariant
            a <= p <= b <= s.len(),
            strip_mention_open(word) == strip_mention_open(s@.subrange(p as int, b as int)),
        decreases b - p,
    {
        assert(s@.subrange(p as int, b as int).skip(2) =~= s@.subrange(p + 2, b as int));
        p = p + 2;
    }
    let ghost inner = s@.subrange(p as int, b as int);
    assert(strip_mention_open(word) == inner);
    let mut q: usize = b;
    while q > p && s[q - 1] == '>'
        invariant
            p <= q <= b <= s.len(),
            inner == s@.subrange(p as int, b as int),
            strip_mention_close(inner) == strip_mention_close(s@.subrange(p as int, q as int)),
        decreases q - p,
    {
        assert(s@.subrange(p as int, q as int).drop_last() =~= s@.subrange(p as int, q - 1));
        q = q - 1;
    }
    parse_u64(s, p, q)
}

/// Whether the marker's opening stands at `i`.
fn is_marker_at(s: &Vec<char>, i: usize) -> (b: bool)
    requires
        i + 5 <= s.len(),
    ensures
        b == marker_at(s@, i as int),
{
    s[i] == '(' && s[i + 1] == 'I' && s[i + 2] == 'D' && s[i + 3] == ':' && s[i + 4] == ' '
}

/// The identity in the marker of `s`.
fn marker_in(s: &Vec<char>) -> (r: Option<u64>)
    ensures
        r == marker_value(s@),
{
    let n = s.len();
    if n < 5 {
        return None;
    }
    let mut p: usize = n - 5;
    while !is_marker_at(s, p)
        invariant
            p + 5 <= n,
            n == s.len(),
            last_marker(s@, n - 5) == last_marker(s@, p as int),
        decreases p,
    {
        if p == 0 {
            assert(last_marker(s@, -1) is None);
            return None;
        }
        p = p - 1;
    }
    let from: usize = p + 5;
    let mut q: usize = from;
    while q < n && s[q] != ')'
        invariant
            from <= q <= n,
            n == s.len(),
            first_close(s@, from as int) == first_close(s@, q as int),
        decreases n - q,
    {
        q = q + 1;
    }
    if q == n {
        return None;
    }
    let ghost value = s@.subrange(from as int, q as int);
    let mut a: usize = from;
    while a < q && is_white_space(s[a])
        invariant
            from <= a <= q <= n,
            n == s.len(),
            trim_start(value) == trim_start(s@.subrange(a as int, q as int)),
        decreases q - a,
    {
        assert(s@.subrange(a as int, q as int).skip(1) =~= s@.subrange(a + 1, q as int));
        a = a + 1;
    }
    let ghost rest = s@.subrange(a as int, q as int);
    assert(trim_start(value) == rest);
    let mut b: usize = q;
    while b > a && is_white_space(s[b - 1])
        invariant
            a <= b <= q <= n,
            n == s.len(),
            rest == s@.subrange(a as int, q as int),
            trim_end(rest) == trim_end(s@.subrange(a as int, b as int)),
        decreases b - a,
    {
        assert(s@.subrange(a as int, b as int).drop_last() =~= s@.subrange(a as int, b - 1));
        b = b - 1;
    }
    parse_u64(s, a, b)
}

/// Reads the correspondent's identity out of the opening message of a
/// thread. The words of the message are tried in their order as mentions;
/// where none holds a number, the marker is read.
pub fn extract_user_id_from_message(content: &str) -> (user: Option<u64>)
    ensures
        user == extract_user_id(content@),
{
    let s = chars_of(content);
    let n = s.len();
    let mut i: usize = 0;
    while i < n
        invariant
            i <= n,
            n == s.len(),
            s@ == content@,
            first_mention(split_whitespace(s@)) == first_mention(words_from(s@, i as int)),
        decreases n - i,
    {
        if is_white_space(s[i]) {
            i = i + 1;
        } else {
            let j = word_end_at(&s, i);
            let found = mention_in(&s, i, j);
            proof {
                let words = words_from(s@, i as int);
                assert(words[0] == s@.subrange(i as int, j as int));
                assert(words.skip(1) =~= words_from(s@, j as int));
            }
            if found.is_some() {
                return found;
            }
            i = j;
        }
    }
    marker_in(&s)
}

} // verus!
