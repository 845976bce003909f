//! Character-level text rules: Unicode whitespace, whitespace-separated words, and
//! the space-joined phrase built from a list of words.
use vstd::prelude::*;

verus! {

/// Unicode `White_Space`, the set that `char::is_whitespace` and `str::split_whitespace` use.
pub open spec fn is_whitespace(c: char) -> bool {
    ||| ('\u{9}' <= c && c <= '\u{d}')
    ||| c == ' '
    ||| c == '\u{85}'
    ||| c == '\u{a0}'
    ||| c == '\u{1680}'
    ||| ('\u{2000}' <= c && c <= '\u{200a}')
    ||| c == '\u{2028}'
    ||| c == '\u{2029}'
    ||| c == '\u{202f}'
    ||| c == '\u{205f}'
    ||| c == '\u{3000}'
}

/// Whether position `i` of `s` holds the first character of a word.
pub open spec fn starts_word(s: Seq<char>, i: int) -> bool {
    &&& !is_whitespace(s[i])
    &&& (i == 0 || is_whitespace(s[i - 1]))
}

/// The number of maximal runs of non-whitespace characters in `s`.
pub open spec fn word_count(s: Seq<char>) -> nat
    decreases s.len(),
{
    if s.len() == 0 {
        0
    } else {
        word_count(s.drop_last()) + if starts_word(s, s.len() - 1) {
            1nat
        } else {
            0nat
        }
    }
}

/// A word that can stand between separators: non-empty, with no whitespace in it.
pub open spec fn is_plain_word(w: Seq<char>) -> bool {
    &&& w.len() > 0
    &&& forall|j: int| 0 <= j < w.len() ==> !is_whitespace(#[trigger] w[j])
}

/// The words joined by single spaces.
pub open spec fn join_words(words: Seq<Seq<char>>) -> Seq<char>
    decreases words.len(),
{
    if words.len() == 0 {
        Seq::empty()
    } else if words.len() == 1 {
        words[0]
    } else {
        join_words(words.drop_last()) + seq![' '] + words.last()
    }
}

proof fn lemma_word_count_step(s: Seq<char>, i: int)
    requires
        0 <= i < s.len(),
    ensures
        word_count(s.take(i + 1)) == word_count(s.take(i)) + if starts_word(s, i) {
            1nat
        } else {
            0nat
        },
{
    assert(s.take(i + 1).drop_last() =~= s.take(i));
}

proof fn lemma_word_count_single(w: Seq<char>)
    requires
        is_plain_word(w),
    ensures
        word_count(w) == 1,
    decreases w.len(),
{
    let last = w.len() - 1;
    assert(!is_whitespace(w[last]));
    if w.len() > 1 {
        let p = w.drop_last();
        assert forall|j: int| 0 <= j < p.len() implies !is_whitespace(#[trigger] p[j]) by {
            assert(p[j] == w[j]);
        }
        lemma_word_count_single(p);
        assert(!is_whitespace(w[last - 1]));
        assert(!starts_word(w, last));
    } else {
        assert(w.drop_last() =~= Seq::<char>::empty());
        assert(word_count(w.drop_last()) == 0);
        assert(starts_word(w, last));
        assert(word_count(w) == word_count(w.drop_last()) + 1);
    }
}

proof fn lemma_word_count_after_space(x: Seq<char>, w: Seq<char>)
    requires
        is_plain_word(w),
    ensures
        word_count(x + seq![' '] + w) == word_count(x) + 1,
    decreases w.len(),
{
    let z = x + seq![' '] + w;
    assert(z.last() == w.last());
    assert(!is_whitespace(w[w.len() - 1]));
    if w.len() == 1 {
        let xs = x + seq![' '];
        assert(z.drop_last() =~= xs);
        assert(xs.drop_last() =~= x);
        assert(xs[xs.len() - 1] == ' ');
        assert(!starts_word(xs, xs.len() - 1));
        assert(word_count(xs) == word_count(x));
        assert(z[z.len() - 2] == ' ');
        assert(starts_word(z, z.len() - 1));
        assert(word_count(z) == word_count(xs) + 1);
    } else {
        let p = w.drop_last();
        assert(z.drop_last() =~= x + seq![' '] + p);
        assert(z[z.len() - 2] == w[w.len() - 2]);
        assert(!is_whitespace(w[w.len() - 2]));
        assert(!starts_word(z, z.len() - 1));
        assert(word_count(z) == word_count(z.drop_last()));
        assert forall|j: int| 0 <= j < p.len() implies !is_whitespace(#[trigger] p[j]) by {
            assert(p[j] == w[j]);
        }
        lemma_word_count_after_space(x, p);
    }
}

/// Joining plain words by single spaces gives text with exactly that many words.
pub proof fn lemma_join_word_count(words: Seq<Seq<char>>)
    requires
        forall|i: int| 0 <= i < words.len() ==> is_plain_word(#[trigger] words[i]),
    ensures
        word_count(join_words(words)) == words.len(),
    decreases words.len(),
{
    if words.len() == 1 {
        lemma_word_count_single(words[0]);
    } else if words.len() > 1 {
        let front = words.drop_last();
        lemma_join_word_count(front);
        lemma_word_count_after_space(join_words(front), words.last());
    }
}

/// Whether `c` is Unicode whitespace.
pub fn char_is_whitespace(c: char) -> (r: bool)
    ensures
        r == is_whitespace(c),
{
    ('\u{9}' <= c && c <= '\u{d}') || c == ' ' || c == '\u{85}' || c == '\u{a0}' || c
        == '\u{1680}' || ('\u{2000}' <= c && c <= '\u{200a}') || c == '\u{2028}' || c
        == '\u{2029}' || c == '\u{202f}' || c == '\u{205f}' || c == '\u{3000}'
}

/// The number of whitespace-separated words in `s`.
pub fn count_words(s: &str) -> (r: usize)
    ensures
        r == word_count(s@),
{
    let n = s.unicode_len();
    let mut count: usize = 0;
    let mut after_space = true;
    let mut i: usize = 0;
    while i < n
        invariant
            n == s@.len(),
            i <= n,
            count <= i,
            count == word_count(s@.take(i as int)),
            after_space == (i == 0 || is_whitespace(s@[i - 1])),
        decreases n - i,
    {
        let c = s.get_char(i);
        let space = char_is_whitespace(c);
        proof {
            lemma_word_count_step(s@, i as int);
        }
        if !space && after_space {
            count = count + 1;
        }
        after_space = space;
        i = i + 1;
    }
    assert(s@.take(n as int) =~= s@);
    count
}

/// Whether two strings hold the same characters.
pub fn same_text(a: &str, b: &str) -> (r: bool)
    ensures
        r == (a@ == b@),
{
    let n = a.unicode_len();
    if n != b.unicode_len() {
        return false;
    }
    let mut i: usize = 0;
    while i < n
        invariant
            n == a@.len(),
            n == b@.len(),
            i <= n,
            forall|j: int| 0 <= j < i ==> a@[j] == b@[j],
        decreases n - i,
    {
        if a.get_char(i) != b.get_char(i) {
            return false;
        }
        i = i + 1;
    }
    assert(a@ =~= b@);
    true
}

/// The words joined by single spaces, as one string.
pub fn join_with_spaces(words: &Vec<String>) -> (r: String)
    ensures
        r@ == join_words(words@.map_values(|s: String| s@)),
{
    let ghost views = words@.map_values(|s: String| s@);
    let mut out = String::new();
    let mut i: usize = 0;
    proof {
        reveal_strlit(" ");
        assert(views.take(0) =~= Seq::<Seq<char>>::empty());
    }
    while i < words.len()
        invariant
            i <= words.len(),
            views == words@.map_values(|s: String| s@),
            out@ == join_words(views.take(i as int)),
            " "@ == seq![' '],
        decreases words.len() - i,
    {
        if i > 0 {
            out.append(" ");
        }
        out.append(words[i].as_str());
        proof {
            assert(views.take(i + 1).drop_last() =~= views.take(i as int));
            if i == 0 {
                assert(out@ =~= views.take(1)[0]);
            } else {
                assert(out@ =~= join_words(views.take(i as int)) + seq![' '] + views[i as int]);
            }
        }
        i = i + 1;
    }
    assert(views.take(words.len() as int) =~= views);
    out
}

} // verus!
