//! Plain text: white space, words, and the case of letters.

use vstd::prelude::*;
use vstd::string::*;

verus! {

/// `String::push`: appends the character `c` at the end.
pub assume_specification[ String::push ](s: &mut String, c: char)
    ensures
        final(s)@ == old(s)@.push(c),
;

/// The characters with the Unicode property White_Space.
pub open spec fn white_space(c: char) -> bool {
    let n = c as u32;
    ||| 0x09 <= n <= 0x0d
    ||| n == 0x20
    ||| n == 0x85
    ||| n == 0xa0
    ||| n == 0x1680
    ||| 0x2000 <= n <= 0x200a
    ||| n == 0x2028
    ||| n == 0x2029
    ||| n == 0x202f
    ||| n == 0x205f
    ||| n == 0x3000
}

/// The capital letters A to Z become small letters; every other character stays.
pub open spec fn lower_char(c: char) -> char {
    if 'A' <= c <= 'Z' {
        (c as u32 + 32) as char
    } else {
        c
    }
}

/// `s` with the letters A to Z made small.
pub open spec fn lower(s: Seq<char>) -> Seq<char> {
    s.map_values(|c: char| lower_char(c))
}

/// `s` without the white space in front.
pub open spec fn trim_start(s: Seq<char>) -> Seq<char>
    decreases s.len(),
{
    if s.len() > 0 && white_space(s[0]) {
        trim_start(s.drop_first())
    } else {
        s
    }
}

/// `s` without the white space at the end.
pub open spec fn trim_end(s: Seq<char>) -> Seq<char>
    decreases s.len(),
{
    if s.len() > 0 && white_space(s.last()) {
        trim_end(s.drop_last())
    } else {
        s
    }
}

/// `s` without the white space at both ends.
pub open spec fn trimmed(s: Seq<char>) -> Seq<char> {
    trim_end(trim_start(s))
}

/// Number of characters of `s` before the first white space.
pub open spec fn word_len(s: Seq<char>) -> nat
    decreases s.len(),
{
    if s.len() > 0 && !white_space(s[0]) {
        1 + word_len(s.drop_first())
    } else {
        0
    }
}

/// The words of `s`: the longest stretches of characters that are not white space.
pub open spec fn words_of(s: Seq<char>) -> Seq<Seq<char>>
    decreases s.len(),
    via words_of_shrinks
{
    let t = trim_start(s);
    if t.len() == 0 {
        seq![]
    } else {
        seq![t.take(word_len(t) as int)] + words_of(t.skip(word_len(t) as int))
    }
}

#[via_fn]
proof fn words_of_shrinks(s: Seq<char>) {
    lemma_trim_start(s);
    lemma_word_len(trim_start(s));
}

/// Number of characters of `s` before the first `c`; all of them if there is none.
pub open spec fn before(s: Seq<char>, c: char) -> nat
    decreases s.len(),
{
    if s.len() > 0 && s[0] != c {
        1 + before(s.drop_first(), c)
    } else {
        0
    }
}

/// What the words of a list say.
pub open spec fn texts(words: Seq<&str>) -> Seq<Seq<char>> {
    words.map_values(|w: &str| w@)
}

proof fn lemma_trim_start(s: Seq<char>)
    ensures
        trim_start(s).len() <= s.len(),
        trim_start(s) == s.skip(s.len() - trim_start(s).len()),
        forall|i: int| 0 <= i < s.len() - trim_start(s).len() ==> white_space(#[trigger] s[i]),
        trim_start(s).len() > 0 ==> !white_space(trim_start(s)[0]),
    decreases s.len(),
{
    if s.len() > 0 && white_space(s[0]) {
        let rest = s.drop_first();
        lemma_trim_start(rest);
        assert(trim_start(s) == s.skip(s.len() - trim_start(s).len()));
        assert forall|i: int| 0 <= i < s.len() - trim_start(s).len() implies white_space(
            #[trigger] s[i],
        ) by {
            if i > 0 {
                assert(s[i] == rest[i - 1]);
            }
        }
    } else {
        assert(s.skip(0) == s);
    }
}

proof fn lemma_word_len(s: Seq<char>)
    ensures
        word_len(s) <= s.len(),
        forall|i: int| 0 <= i < word_len(s) ==> !white_space(#[trigger] s[i]),
        word_len(s) < s.len() ==> white_space(s[word_len(s) as int]),
        s.len() > 0 && !white_space(s[0]) ==> word_len(s) > 0,
    decreases s.len(),
{
    if s.len() > 0 && !white_space(s[0]) {
        let rest = s.drop_first();
        lemma_word_len(rest);
        assert forall|i: int| 0 <= i < word_len(s) implies !white_space(#[trigger] s[i]) by {
            if i > 0 {
                assert(s[i] == rest[i - 1]);
            }
        }
    }
}

/// Tells whether `c` has the Unicode property White_Space.
pub fn is_white_space(c: char) -> (r: bool)
    ensures
        r == white_space(c),
{
    let n: u32 = c as u32;
    (0x09 <= n && n <= 0x0d) || n == 0x20 || n == 0x85 || n == 0xa0 || n == 0x1680 || (0x2000
        <= n && n <= 0x200a) || n == 0x2028 || n == 0x2029 || n == 0x202f || n == 0x205f || n
        == 0x3000
}

/// The characters of `text`.
pub fn chars_of(text: &str) -> (r: Vec<char>)
    ensures
        r@ == text@,
{
    let mut out: Vec<char> = Vec::new();
    for c in iter: text.chars()
        invariant
            out@ == iter.seq().take(iter.index() as int),
            iter.seq() == text@,
    {
        out.push(c);
    }
    out
}

pub(crate) proof fn lemma_before_is(s: Seq<char>, c: char, k: int)
    requires
        0 <= k <= s.len(),
        forall|i: int| 0 <= i < k ==> #[trigger] s[i] != c,
        k < s.len() ==> s[k] == c,
    ensures
        before(s, c) == k,
    decreases k,
{
    if k > 0 {
        let rest = s.drop_first();
        assert forall|i: int| 0 <= i < k - 1 implies #[trigger] rest[i] != c by {
            assert(rest[i] == s[i + 1]);
        }
        lemma_before_is(rest, c, k - 1);
    }
}

proof fn lemma_trim_start_is(s: Seq<char>, k: int)
    requires
        0 <= k <= s.len(),
        forall|i: int| 0 <= i < k ==> white_space(#[trigger] s[i]),
        k < s.len() ==> !white_space(s[k]),
    ensures
        trim_start(s) == s.skip(k),
    decreases k,
{
    if k > 0 {
        let rest = s.drop_first();
        assert forall|i: int| 0 <= i < k - 1 implies white_space(#[trigger] rest[i]) by {
            assert(rest[i] == s[i + 1]);
        }
        lemma_trim_start_is(rest, k - 1);
        assert(rest.skip(k - 1) == s.skip(k));
    } else {
        assert(s.skip(0) == s);
    }
}

proof fn lemma_trim_end_is(s: Seq<char>, k: int)
    requires
        0 <= k <= s.len(),
        forall|i: int| k <= i < s.len() ==> white_space(#[trigger] s[i]),
        k > 0 ==> !white_space(s[k - 1]),
    ensures
        trim_end(s) == s.take(k),
    decreases s.len() - k,
{
    if k < s.len() {
        lemma_trim_end_is(s.drop_last(), k);
        assert(s.drop_last().take(k) == s.take(k));
    } else {
        assert(s.take(k) == s);
    }
}

proof fn lemma_word_len_is(s: Seq<char>, k: int)
    requires
        0 <= k <= s.len(),
        forall|i: int| 0 <= i < k ==> !white_space(#[trigger] s[i]),
        k < s.len() ==> white_space(s[k]),
    ensures
        word_len(s) == k,
    decreases k,
{
    if k > 0 {
        let rest = s.drop_first();
        assert forall|i: int| 0 <= i < k - 1 implies !white_space(#[trigger] rest[i]) by {
            assert(rest[i] == s[i + 1]);
        }
        lemma_word_len_is(rest, k - 1);
    }
}

/// Index of the first character at or after `from` that is not white space.
fn skip_white_space(chars: &Vec<char>, from: usize) -> (r: usize)
    requires
        from <= chars.len(),
    ensures
        from <= r <= chars.len(),
        forall|i: int| from <= i < r ==> white_space(#[trigger] chars@[i]),
        r < chars.len() ==> !white_space(chars@[r as int]),
{
    let mut i: usize = from;
    while i < chars.len() && is_white_space(chars[i])
        invariant
            from <= i <= chars.len(),
            forall|j: int| from <= j < i ==> white_space(#[trigger] chars@[j]),
        decreases chars.len() - i,
    {
        i += 1;
    }
    i
}

/// Index of the first white space at or after `from`.
fn skip_word(chars: &Vec<char>, from: usize) -> (r: usize)
    requires
        from <= chars.len(),
    ensures
        from <= r <= chars.len(),
        forall|i: int| from <= i < r ==> !white_space(#[trigger] chars@[i]),
        r < chars.len() ==> white_space(chars@[r as int]),
{
    let mut i: usize = from;
    while i < chars.len() && !is_white_space(chars[i])
        invariant
            from <= i <= chars.len(),
            forall|j: int| from <= j < i ==> !white_space(#[trigger] chars@[j]),
        decreases chars.len() - i,
    {
        i += 1;
    }
    i
}

/// `text` without the white space at both ends.
pub fn trim<'a>(text: &'a str) -> (r: &'a str)
    ensures
        r@ == trimmed(text@),
{
    let chars: Vec<char> = chars_of(text);
    let start: usize = skip_white_space(&chars, 0);
    let mut end: usize = chars.len();
    while end > start && is_white_space(chars[end - 1])
        invariant
            start <= end <= chars.len(),
            forall|i: int| end <= i < chars.len() ==> white_space(#[trigger] chars@[i]),
        decreases end,
    {
        end -= 1;
    }
    proof {
        lemma_trim_start_is(text@, start as int);
        let rest = text@.skip(start as int);
        lemma_trim_end_is(rest, end - start);
        assert(rest.take(end - start) == text@.subrange(start as int, end as int));
    }
    text.substring_char(start, end)
}

/// The words of `text`, split at white space.
pub fn words<'a>(text: &'a str) -> (r: Vec<&'a str>)
    ensures
        texts(r@) == words_of(text@),
{
    let chars: Vec<char> = chars_of(text);
    let mut out: Vec<&'a str> = Vec::new();
    let mut i: usize = skip_white_space(&chars, 0);
    let ghost s = text@;
    proof {
        lemma_trim_start_is(s, i as int);
        lemma_trim_start_is(s.skip(i as int), 0);
        assert(s.skip(i as int).skip(0) == s.skip(i as int));
        assert(texts(out@) + words_of(s.skip(i as int)) == words_of(s));
    }
    while i < chars.len()
        invariant
            i <= chars.len(),
            chars@ == s,
            s == text@,
            i < chars.len() ==> !white_space(s[i as int]),
            texts(out@) + words_of(s.skip(i as int)) == words_of(s),
        decreases chars.len() - i,
    {
        let end: usize = skip_word(&chars, i);
        let next: usize = skip_white_space(&chars, end);
        let ghost t = s.skip(i as int);
        let ghost before = texts(out@);
        out.push(text.substring_char(i, end));
        proof {
            lemma_trim_start_is(t, 0);
            assert(t.skip(0) == t);
            lemma_word_len_is(t, end - i);
            assert(t.take(end - i) == s.subrange(i as int, end as int));
            assert(t.skip(end - i) == s.skip(end as int));
            let u = s.skip(end as int);
            lemma_trim_start_is(u, next - end);
            assert(u.skip(next - end) == s.skip(next as int));
            lemma_trim_start_is(s.skip(next as int), 0);
            assert(s.skip(next as int).skip(0) == s.skip(next as int));
            assert(words_of(u) == words_of(s.skip(next as int)));
            assert(texts(out@) == before.push(s.subrange(i as int, end as int)));
            assert(before.push(s.subrange(i as int, end as int)) + words_of(u) == before + (
            seq![s.subrange(i as int, end as int)] + words_of(u)));
        }
        i = next;
    }
    proof {
        assert(s.skip(i as int).len() == 0);
        assert(texts(out@) + words_of(s.skip(i as int)) == texts(out@));
    }
    out
}

/// Tells whether two texts hold the same characters.
pub fn same_text(a: &str, b: &str) -> (r: bool)
    ensures
        r == (a@ == b@),
{
    let a_chars: Vec<char> = chars_of(a);
    let b_chars: Vec<char> = chars_of(b);
    if a_chars.len() != b_chars.len() {
        return false;
    }
    let mut i: usize = 0;
    while i < a_chars.len()
        invariant
            i <= a_chars.len() == b_chars.len(),
            a_chars@ == a@,
            b_chars@ == b@,
            forall|j: int| 0 <= j < i ==> a_chars@[j] == b_chars@[j],
        decreases a_chars.len() - i,
    {
        if a_chars[i] != b_chars[i] {
            return false;
        }
        i += 1;
    }
    assert(a@ =~= b@);
    true
}

/// The letters A to Z become small; every other character stays.
fn lower_one(c: char) -> (r: char)
    ensures
        r == lower_char(c),
{
    if 'A' <= c && c <= 'Z' {
        ((c as u8) + 32) as char
    } else {
        c
    }
}

/// `text` with the letters A to Z made small.
pub fn to_lower(text: &str) -> (r: String)
    ensures
        r@ == lower(text@),
{
    let mut out: String = String::new();
    for c in iter: text.chars()
        invariant
            out@ == lower(iter.seq().take(iter.index() as int)),
            iter.seq() == text@,
    {
        out.push(lower_one(c));
    }
    out
}

/// Tells whether two texts are equal but for the case of the letters A to Z.
pub fn same_word(a: &str, b: &str) -> (r: bool)
    ensures
        r == (lower(a@) == lower(b@)),
{
    let a_lower: String = to_lower(a);
    let b_lower: String = to_lower(b);
    same_text(a_lower.as_str(), b_lower.as_str())
}

/// The white space is what Unicode calls so: six characters of ASCII, and nineteen beyond it.
pub proof fn law_white_space_is_that_of_unicode(c: char)
    ensures
        white_space(c) <==> seq![
            0x09u32, 0x0a, 0x0b, 0x0c, 0x0d, 0x20, 0x85, 0xa0, 0x1680, 0x2000, 0x2001, 0x2002,
            0x2003, 0x2004, 0x2005, 0x2006, 0x2007, 0x2008, 0x2009, 0x200a, 0x2028, 0x2029, 0x202f,
            0x205f, 0x3000,
        ].contains(c as u32),
{
    let all = seq![
        0x09u32, 0x0a, 0x0b, 0x0c, 0x0d, 0x20, 0x85, 0xa0, 0x1680, 0x2000, 0x2001, 0x2002, 0x2003,
        0x2004, 0x2005, 0x2006, 0x2007, 0x2008, 0x2009, 0x200a, 0x2028, 0x2029, 0x202f, 0x205f,
        0x3000,
    ];
    let n = c as u32;
    if white_space(c) {
        let k: int = if n <= 0x0d {
            n - 0x09
        } else if n == 0x20 {
            5
        } else if n == 0x85 {
            6
        } else if n == 0xa0 {
            7
        } else if n == 0x1680 {
            8
        } else if n <= 0x200a {
            n - 0x2000 + 9
        } else if n == 0x2028 {
            20
        } else if n == 0x2029 {
            21
        } else if n == 0x202f {
            22
        } else if n == 0x205f {
            23
        } else {
            24
        };
        assert(all[k] == n);
    }
}

/// All of `s` is white space.
pub open spec fn blank(s: Seq<char>) -> bool {
    forall|i: int| 0 <= i < s.len() ==> white_space(#[trigger] s[i])
}

/// Trimming takes away the white space around a text, all of it, and nothing else.
pub proof fn law_trimming_leaves_the_text(front: Seq<char>, s: Seq<char>, back: Seq<char>)
    requires
        blank(front),
        blank(back),
        s.len() > 0 ==> !white_space(s[0]) && !white_space(s.last()),
    ensures
        trimmed(front + s + back) == s,
{
    let all = front + s + back;
    if s.len() > 0 {
        assert(all[front.len() as int] == s[0]);
        lemma_trim_start_is(all, front.len() as int);
        let rest = all.skip(front.len() as int);
        assert(rest =~= s + back);
        lemma_trim_end_is(rest, s.len() as int);
        assert(rest.take(s.len() as int) =~= s);
    } else {
        assert forall|i: int| 0 <= i < all.len() implies white_space(#[trigger] all[i]) by {
            if i < front.len() {
                assert(all[i] == front[i]);
            } else {
                assert(all[i] == back[i - front.len()]);
            }
        }
        lemma_trim_start_is(all, all.len() as int);
        assert(trimmed(all) =~= s);
    }
}

proof fn lemma_white_space_in_front(front: Seq<char>, s: Seq<char>)
    requires
        blank(front),
    ensures
        trim_start(front + s) == trim_start(s),
        words_of(front + s) == words_of(s),
    decreases front.len(),
{
    if front.len() > 0 {
        lemma_white_space_in_front(front.drop_first(), s);
        assert((front + s)[0] == front[0]);
        assert((front + s).drop_first() =~= front.drop_first() + s);
    } else {
        assert(front + s =~= s);
    }
}

/// The words of a text are what stands between its white space: a blank text has none, and the
/// first word of any other one is followed by the words of what comes behind it.
pub proof fn law_words_stand_between_white_space(
    front: Seq<char>,
    word: Seq<char>,
    gap: Seq<char>,
    rest: Seq<char>,
)
    requires
        blank(front),
        word.len() > 0,
        forall|i: int| 0 <= i < word.len() ==> !white_space(#[trigger] word[i]),
        blank(gap),
        gap.len() > 0 || rest.len() == 0,
    ensures
        words_of(front) == Seq::<Seq<char>>::empty(),
        words_of(front + word + gap + rest) == seq![word] + words_of(rest),
{
    lemma_trim_start_is(front, front.len() as int);
    assert(words_of(front) =~= Seq::<Seq<char>>::empty());
    let t = word + gap + rest;
    assert(front + word + gap + rest =~= front + t);
    lemma_white_space_in_front(front, t);
    assert(t[0] == word[0]);
    lemma_trim_start_is(t, 0);
    assert(t.skip(0) =~= t);
    assert forall|i: int| 0 <= i < word.len() implies !white_space(#[trigger] t[i]) by {
        assert(t[i] == word[i]);
    }
    if t.len() > word.len() {
        assert(t[word.len() as int] == gap[0]);
    }
    lemma_word_len_is(t, word.len() as int);
    assert(t.take(word.len() as int) =~= word);
    assert(t.skip(word.len() as int) =~= gap + rest);
    lemma_white_space_in_front(gap, rest);
}

/// Making letters small changes the capital letters A to Z and nothing else: each becomes the
/// small letter 32 places behind it.
pub proof fn law_lower_changes_only_capitals(s: Seq<char>, i: int)
    requires
        0 <= i < s.len(),
    ensures
        lower(s).len() == s.len(),
        65 <= s[i] as u32 <= 90 ==> lower(s)[i] as u32 == s[i] as u32 + 32,
        !(65 <= s[i] as u32 <= 90) ==> lower(s)[i] == s[i],
{
}

/// A list of words says what each of them says.
pub proof fn law_texts_are_the_words(words: Seq<&str>)
    ensures
        texts(words).len() == words.len(),
        forall|i: int| 0 <= i < words.len() ==> #[trigger] texts(words)[i] == words[i]@,
{
}

/// A text without the white space at its end has the same words.
pub(crate) proof fn lemma_last_white_space(s: Seq<char>) -> (r: (Seq<char>, Seq<char>))
    ensures
        s == r.0 + r.1,
        blank(r.1),
        r.0.len() > 0 ==> !white_space(r.0.last()),
        words_of(r.0) == words_of(s),
    decreases s.len(),
{
    if s.len() > 0 && white_space(s.last()) {
        let (kept, back) = lemma_last_white_space(s.drop_last());
        lemma_words_before_white_space(s.drop_last(), s.last());
        assert(s =~= s.drop_last().push(s.last()));
        assert(s =~= kept + back.push(s.last()));
        (kept, back.push(s.last()))
    } else {
        assert(s =~= s + Seq::<char>::empty());
        (s, seq![])
    }
}

proof fn lemma_words_before_white_space(s: Seq<char>, c: char)
    requires
        white_space(c),
    ensures
        words_of(s.push(c)) == words_of(s),
    decreases s.len(),
{
    let t = trim_start(s);
    lemma_trim_start(s);
    let k = s.len() - t.len();
    let more = s.push(c);
    if t.len() == 0 {
        assert(blank(more)) by {
            assert forall|i: int| 0 <= i < more.len() implies white_space(#[trigger] more[i]) by {
                if i < s.len() {
                    assert(more[i] == s[i]);
                }
            }
        }
        lemma_trim_start_is(more, more.len() as int);
    } else {
        assert forall|i: int| 0 <= i < k implies white_space(#[trigger] more[i]) by {
            assert(more[i] == s[i]);
        }
        assert(more[k] == t[0]);
        lemma_trim_start_is(more, k);
        assert(more.skip(k) =~= t.push(c));
        lemma_word_len(t);
        let w = word_len(t) as int;
        let u = t.push(c);
        assert forall|i: int| 0 <= i < w implies !white_space(#[trigger] u[i]) by {
            assert(u[i] == t[i]);
        }
        lemma_word_len_is(u, w);
        assert(u.take(w) =~= t.take(w));
        assert(u.skip(w) =~= t.skip(w).push(c));
        lemma_words_before_white_space(t.skip(w), c);
    }
}

} // verus!
