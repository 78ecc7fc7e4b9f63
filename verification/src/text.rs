//! Text primitives shared by the whole crate: the order in which names are
//! sorted, substring search, decimal numerals and joining.
//!
//! Every contract speaks of a string through its view, a `Seq<char>`.

use vstd::prelude::*;
use vstd::string::*;

verus! {

/// Strict lexicographic order on texts, characters compared by code point.
pub open spec fn lex_lt(a: Seq<char>, b: Seq<char>) -> bool
    decreases a.len(),
{
    if b.len() == 0 {
        false
    } else if a.len() == 0 {
        true
    } else if a[0] == b[0] {
        lex_lt(a.drop_first(), b.drop_first())
    } else {
        (a[0] as int) < (b[0] as int)
    }
}

/// No text precedes itself.
pub proof fn lemma_lex_irreflexive(a: Seq<char>)
    ensures
        !lex_lt(a, a),
    decreases a.len(),
{
    if a.len() > 0 {
        lemma_lex_irreflexive(a.drop_first());
    }
}

/// Of two texts at most one precedes the other.
pub proof fn lemma_lex_asymmetric(a: Seq<char>, b: Seq<char>)
    requires
        lex_lt(a, b),
    ensures
        !lex_lt(b, a),
    decreases a.len(),
{
    if a.len() > 0 && b.len() > 0 && a[0] == b[0] {
        lemma_lex_asymmetric(a.drop_first(), b.drop_first());
    }
}

/// The order is transitive.
pub proof fn lemma_lex_transitive(a: Seq<char>, b: Seq<char>, c: Seq<char>)
    requires
        lex_lt(a, b),
        lex_lt(b, c),
    ensures
        lex_lt(a, c),
    decreases a.len(),
{
    if a.len() > 0 && b.len() > 0 && c.len() > 0 && a[0] == b[0] && b[0] == c[0] {
        lemma_lex_transitive(a.drop_first(), b.drop_first(), c.drop_first());
    }
}

/// Two different texts are always ordered one way or the other.
pub proof fn lemma_lex_total(a: Seq<char>, b: Seq<char>)
    ensures
        a == b || lex_lt(a, b) || lex_lt(b, a),
    decreases a.len(),
{
    if a.len() == 0 || b.len() == 0 {
        if a.len() == 0 && b.len() == 0 {
            assert(a =~= b);
        }
    } else if a[0] == b[0] {
        lemma_lex_total(a.drop_first(), b.drop_first());
        if a.drop_first() == b.drop_first() {
            assert(a =~= seq![a[0]] + a.drop_first());
            assert(b =~= seq![b[0]] + b.drop_first());
        }
    }
}

/// `needle` occurs in `hay` as a run of consecutive characters.
pub open spec fn contains_text(hay: Seq<char>, needle: Seq<char>) -> bool {
    exists|i: int|
        0 <= i && i + needle.len() <= hay.len() && #[trigger] hay.subrange(i, i + needle.len())
            == needle
}

/// The character that writes the digit `d`.
pub open spec fn digit_char(d: nat) -> char {
    if d == 0 {
        '0'
    } else if d == 1 {
        '1'
    } else if d == 2 {
        '2'
    } else if d == 3 {
        '3'
    } else if d == 4 {
        '4'
    } else if d == 5 {
        '5'
    } else if d == 6 {
        '6'
    } else if d == 7 {
        '7'
    } else if d == 8 {
        '8'
    } else {
        '9'
    }
}

/// The decimal numeral of `n`, without sign or leading zeros.
pub open spec fn decimal(n: nat) -> Seq<char>
    decreases n,
{
    if n < 10 {
        seq![digit_char(n)]
    } else {
        decimal(n / 10).push(digit_char(n % 10))
    }
}

/// `parts` written one after the other with `sep` between neighbours.
pub open spec fn join_text(parts: Seq<Seq<char>>, sep: Seq<char>) -> Seq<char>
    decreases parts.len(),
{
    if parts.len() == 0 {
        Seq::empty()
    } else if parts.len() == 1 {
        parts[0]
    } else {
        join_text(parts.drop_last(), sep) + sep + parts.last()
    }
}

/// Unicode white space: the characters that separate words.
pub open spec fn is_whitespace(c: char) -> bool {
    let n = c as int;
    ||| 0x09 <= n <= 0x0D
    ||| n == 0x20
    ||| n == 0x85
    ||| n == 0xA0
    ||| n == 0x1680
    ||| 0x2000 <= n <= 0x200A
    ||| n == 0x2028
    ||| n == 0x2029
    ||| n == 0x202F
    ||| n == 0x205F
    ||| n == 0x3000
}

/// The words of `s`: its maximal runs of characters that are not white
/// space, from left to right.
pub open spec fn words(s: Seq<char>) -> Seq<Seq<char>>
    decreases s.len(),
{
    if s.len() == 0 {
        Seq::empty()
    } else {
        let before = words(s.drop_last());
        if is_whitespace(s.last()) {
            before
        } else if s.len() >= 2 && !is_whitespace(s[s.len() - 2]) {
            before.drop_last().push(before.last().push(s.last()))
        } else {
            before.push(seq![s.last()])
        }
    }
}

/// The lines of `s`: what stands before, between and after its line feeds.
/// A text without a line feed is one line.
pub open spec fn lines(s: Seq<char>) -> Seq<Seq<char>>
    decreases s.len(),
{
    if s.len() == 0 {
        seq![Seq::empty()]
    } else {
        let before = lines(s.drop_last());
        if s.last() == '\n' {
            before.push(Seq::empty())
        } else {
            before.drop_last().push(before.last().push(s.last()))
        }
    }
}

/// No word is empty, and no word holds white space.
pub proof fn lemma_words_hold_no_whitespace(s: Seq<char>)
    ensures
        forall|i: int| 0 <= i < words(s).len() ==> (#[trigger] words(s)[i]).len() > 0,
        forall|i: int, j: int|
            0 <= i < words(s).len() && 0 <= j < words(s)[i].len() ==> !is_whitespace(
                #[trigger] words(s)[i][j],
            ),
        s.len() > 0 && !is_whitespace(s.last()) ==> words(s).len() > 0,
    decreases s.len(),
{
    if s.len() > 0 {
        let front = s.drop_last();
        let before = words(front);
        lemma_words_hold_no_whitespace(front);
        if !is_whitespace(s.last()) && s.len() >= 2 && !is_whitespace(s[s.len() - 2]) {
            assert(front.last() == s[s.len() - 2]);
            let grown = before.last().push(s.last());
            assert forall|i: int| 0 <= i < words(s).len() implies (#[trigger] words(s)[i]).len()
                > 0 by {
                if i < before.len() - 1 {
                    assert(words(s)[i] == before[i]);
                }
            }
            assert forall|i: int, j: int|
                0 <= i < words(s).len() && 0 <= j < words(s)[i].len() implies !is_whitespace(
                #[trigger] words(s)[i][j],
            ) by {
                if i < before.len() - 1 {
                    assert(words(s)[i][j] == before[i][j]);
                } else if j < grown.len() - 1 {
                    assert(words(s)[i][j] == before[before.len() - 1][j]);
                }
            }
        } else if !is_whitespace(s.last()) {
            assert forall|i: int| 0 <= i < words(s).len() implies (#[trigger] words(s)[i]).len()
                > 0 by {
                if i < before.len() {
                    assert(words(s)[i] == before[i]);
                }
            }
            assert forall|i: int, j: int|
                0 <= i < words(s).len() && 0 <= j < words(s)[i].len() implies !is_whitespace(
                #[trigger] words(s)[i][j],
            ) by {
                if i < before.len() {
                    assert(words(s)[i][j] == before[i][j]);
                }
            }
        }
    }
}

/// A text without white space is one word.
pub proof fn lemma_text_without_whitespace_is_one_word(s: Seq<char>)
    requires
        s.len() > 0,
        forall|i: int| 0 <= i < s.len() ==> !is_whitespace(#[trigger] s[i]),
    ensures
        words(s) == seq![s],
    decreases s.len(),
{
    let front = s.drop_last();
    if s.len() >= 2 {
        lemma_text_without_whitespace_is_one_word(front);
        assert(front.push(s.last()) =~= s);
        assert(seq![front].last() == front);
        assert(seq![front].drop_last().push(s) =~= seq![s]);
    } else {
        assert(words(front) =~= Seq::<Seq<char>>::empty());
        assert(seq![s.last()] =~= s);
    }
}

/// White space separates words: the words of two texts with white space
/// between them are the words of the first, then the words of the second.
pub proof fn lemma_whitespace_separates_words(a: Seq<char>, c: char, b: Seq<char>)
    requires
        is_whitespace(c),
    ensures
        words(a.push(c) + b) == words(a) + words(b),
    decreases b.len(),
{
    let s = a.push(c) + b;
    if b.len() == 0 {
        assert(s =~= a.push(c));
        assert(s.drop_last() =~= a);
        assert(words(a) + words(b) =~= words(a));
    } else {
        let front = b.drop_last();
        assert(s.drop_last() =~= a.push(c) + front);
        assert(s.last() == b.last());
        lemma_whitespace_separates_words(a, c, front);
        if is_whitespace(b.last()) {
        } else if b.len() >= 2 && !is_whitespace(b[b.len() - 2]) {
            assert(s[s.len() - 2] == b[b.len() - 2]);
            lemma_words_hold_no_whitespace(front);
            assert(front.last() == b[b.len() - 2]);
            let grown = words(front).last().push(b.last());
            assert((words(a) + words(front)).drop_last().push(grown) =~= words(a) + words(
                front,
            ).drop_last().push(grown));
        } else {
            if b.len() >= 2 {
                assert(s[s.len() - 2] == b[b.len() - 2]);
            } else {
                assert(s[s.len() - 2] == c);
            }
            assert((words(a) + words(front)).push(seq![b.last()]) =~= words(a) + words(
                front,
            ).push(seq![b.last()]));
        }
    }
}

/// The lines are the text split at its line feeds: there is at least one
/// line, no line holds a line feed, and the lines joined by line feeds give
/// the text back.
pub proof fn lemma_lines_split_at_line_feeds(s: Seq<char>)
    ensures
        lines(s).len() >= 1,
        forall|i: int, j: int|
            0 <= i < lines(s).len() && 0 <= j < lines(s)[i].len() ==> #[trigger] lines(s)[i][j]
                != '\n',
        join_text(lines(s), seq!['\n']) == s,
    decreases s.len(),
{
    let sep = seq!['\n'];
    if s.len() == 0 {
        assert(join_text(lines(s), sep) =~= s);
    } else {
        let front = s.drop_last();
        let before = lines(front);
        lemma_lines_split_at_line_feeds(front);
        assert(s =~= front.push(s.last()));
        if s.last() == '\n' {
            let all = before.push(Seq::empty());
            assert(all.drop_last() =~= before);
            assert(join_text(all, sep) =~= s);
            assert forall|i: int, j: int|
                0 <= i < all.len() && 0 <= j < all[i].len() implies #[trigger] all[i][j]
                != '\n' by {
                assert(all[i][j] == before[i][j]);
            }
        } else {
            let grown = before.last().push(s.last());
            let all = before.drop_last().push(grown);
            assert(all.drop_last() =~= before.drop_last());
            if before.len() == 1 {
                assert(join_text(before, sep) == before[0]);
                assert(join_text(all, sep) =~= s);
            } else {
                assert(join_text(all, sep) =~= (join_text(before.drop_last(), sep) + sep
                    + before.last()).push(s.last()));
                assert(join_text(all, sep) =~= s);
            }
            assert forall|i: int, j: int|
                0 <= i < all.len() && 0 <= j < all[i].len() implies #[trigger] all[i][j]
                != '\n' by {
                if i < before.len() - 1 {
                    assert(all[i][j] == before[i][j]);
                } else if j < grown.len() - 1 {
                    assert(all[i][j] == before[before.len() - 1][j]);
                }
            }
        }
    }
}

/// How many characters of white space `s` starts with.
pub open spec fn leading_whitespace(s: Seq<char>) -> nat
    decreases s.len(),
{
    if s.len() > 0 && is_whitespace(s[0]) {
        1 + leading_whitespace(s.drop_first())
    } else {
        0
    }
}

/// How many colons `s` starts with.
pub open spec fn leading_colons(s: Seq<char>) -> nat
    decreases s.len(),
{
    if s.len() > 0 && s[0] == ':' {
        1 + leading_colons(s.drop_first())
    } else {
        0
    }
}

/// `s` without the white space it starts with.
pub open spec fn trim_start(s: Seq<char>) -> Seq<char> {
    s.skip(leading_whitespace(s) as int)
}

/// `s` starts with `prefix`.
pub open spec fn starts_with(s: Seq<char>, prefix: Seq<char>) -> bool {
    prefix.len() <= s.len() && s.take(prefix.len() as int) == prefix
}

/// `String::push` appends one character to the text and changes nothing else.
pub assume_specification[ String::push ](s: &mut String, c: char)
    ensures
        final(s)@ == old(s)@.push(c),
;

/// `<` on `str` is the lexicographic order of the code points, as std
/// documents for `impl Ord for str`.
#[verifier::external_body]
pub(crate) fn str_lt(a: &str, b: &str) -> (r: bool)
    ensures
        r == lex_lt(a@, b@),
{
    a < b
}

/// `str::contains` with a string pattern reports whether the pattern occurs
/// as a substring.
#[verifier::external_body]
pub(crate) fn str_contains(hay: &str, needle: &str) -> (r: bool)
    ensures
        r == contains_text(hay@, needle@),
{
    hay.contains(needle)
}

fn digit_of(d: usize) -> (c: char)
    requires
        d < 10,
    ensures
        c == digit_char(d as nat),
{
    if d == 0 {
        '0'
    } else if d == 1 {
        '1'
    } else if d == 2 {
        '2'
    } else if d == 3 {
        '3'
    } else if d == 4 {
        '4'
    } else if d == 5 {
        '5'
    } else if d == 6 {
        '6'
    } else if d == 7 {
        '7'
    } else if d == 8 {
        '8'
    } else {
        '9'
    }
}

/// Appends the decimal numeral of `n` to `out`.
pub fn push_decimal(out: &mut String, n: usize)
    ensures
        final(out)@ == old(out)@ + decimal(n as nat),
    decreases n,
{
    if n >= 10 {
        push_decimal(out, n / 10);
    }
    out.push(digit_of(n % 10));
}

/// Appends the items of `parts` to `out`, with `sep` between neighbours.
pub fn push_joined(out: &mut String, parts: &Vec<String>, sep: &str)
    ensures
        final(out)@ == old(out)@ + join_text(parts.deep_view(), sep@),
{
    let mut i: usize = 0;
    while i < parts.len()
        invariant
            i <= parts.len(),
            out@ == old(out)@ + join_text(parts.deep_view().take(i as int), sep@),
        decreases parts.len() - i,
    {
        if i > 0 {
            out.append(sep);
        }
        out.append(parts[i].as_str());
        proof {
            let all = parts.deep_view();
            assert(all.take(i + 1).drop_last() =~= all.take(i as int));
            assert(all.take(i + 1).last() == parts[i as int]@);
        }
        i += 1;
    }
    assert(parts.deep_view().take(parts.len() as int) =~= parts.deep_view());
}

/// A copy of `names`, text for text.
pub fn clone_names(names: &Vec<String>) -> (r: Vec<String>)
    ensures
        r@ == names@,
{
    let mut r: Vec<String> = Vec::new();
    let mut i: usize = 0;
    while i < names.len()
        invariant
            i <= names.len(),
            r@ == names@.take(i as int),
        decreases names.len() - i,
    {
        r.push(names[i].clone());
        assert(names@.take(i + 1) =~= names@.take(i as int).push(names@[i as int]));
        i += 1;
    }
    assert(names@.take(names.len() as int) =~= names@);
    r
}

/// Whether `c` is Unicode white space.
pub fn char_is_whitespace(c: char) -> (r: bool)
    ensures
        r == is_whitespace(c),
{
    let n: u32 = c as u32;
    (0x09 <= n && n <= 0x0D) || n == 0x20 || n == 0x85 || n == 0xA0 || n == 0x1680 || (0x2000 <= n
        && n <= 0x200A) || n == 0x2028 || n == 0x2029 || n == 0x202F || n == 0x205F || n == 0x3000
}

/// The characters of `s`, in order.
pub fn chars_of(s: &str) -> (r: Vec<char>)
    ensures
        r@ == s@,
{
    let mut r: Vec<char> = Vec::new();
    for c in it: s.chars()
        invariant
            r@ == s@.take(it.index() as int),
            it.seq() == s@,
    {
        r.push(c);
        assert(s@.take(it.index() + 1) == s@.take(it.index() as int).push(s@[it.index() as int]));
    }
    assert(s@.take(s@.len() as int) == s@);
    r
}

/// Splits a text at its line feeds.
pub fn text_lines(s: &str) -> (r: Vec<Vec<char>>)
    ensures
        r.deep_view() == lines(s@),
{
    let mut done: Vec<Vec<char>> = Vec::new();
    let mut cur: Vec<char> = Vec::new();
    for c in it: s.chars()
        invariant
            it.seq() == s@,
            lines(s@.take(it.index() as int)) == done.deep_view().push(cur@),
    {
        let ghost before = s@.take(it.index() as int);
        let ghost now = s@.take(it.index() + 1);
        assert(now.drop_last() == before);
        assert(now.last() == c);
        let ghost old_done = done.deep_view();
        if c == '\n' {
            assert(cur.deep_view() =~= cur@);
            done.push(cur);
            cur = Vec::new();
            assert(done.deep_view() =~= lines(before));
        } else {
            cur.push(c);
            assert(lines(before).drop_last() =~= old_done);
        }
    }
    assert(s@.take(s@.len() as int) == s@);
    let ghost old_done = done.deep_view();
    let ghost last = cur@;
    assert(cur.deep_view() =~= cur@);
    done.push(cur);
    assert(done.deep_view() =~= old_done.push(last));
    done
}

/// The words of `chars` from position `start` on.
pub(crate) fn words_from(chars: &Vec<char>, start: usize) -> (r: Vec<String>)
    requires
        start <= chars.len(),
    ensures
        r.deep_view() == words(chars@.skip(start as int)),
{
    let mut done: Vec<String> = Vec::new();
    let mut cur = String::new();
    let mut open = false;
    let mut i: usize = start;
    while i < chars.len()
        invariant
            start <= i <= chars.len(),
            open == (i > start && !is_whitespace(chars@[i - 1])),
            !open ==> cur@.len() == 0,
            words(chars@.subrange(start as int, i as int)) == if open {
                done.deep_view().push(cur@)
            } else {
                done.deep_view()
            },
        decreases chars.len() - i,
    {
        let c = chars[i];
        let ghost before = chars@.subrange(start as int, i as int);
        let ghost now = chars@.subrange(start as int, i + 1);
        let ghost old_done = done.deep_view();
        let ghost old_cur = cur@;
        assert(now.drop_last() == before);
        assert(now.last() == c);
        if char_is_whitespace(c) {
            if open {
                done.push(cur);
                cur = String::new();
                open = false;
                assert(done.deep_view() =~= old_done.push(old_cur));
            }
        } else {
            cur.push(c);
            if open {
                assert(now[now.len() - 2] == chars@[i - 1]);
                assert(old_done.push(old_cur).drop_last() =~= old_done);
            } else {
                assert(cur@ =~= seq![c]);
                assert(now.len() >= 2 ==> now[now.len() - 2] == chars@[i - 1]);
                open = true;
            }
        }
        i += 1;
    }
    assert(chars@.subrange(start as int, chars.len() as int) == chars@.skip(start as int));
    if open {
        let ghost old_done = done.deep_view();
        let ghost old_cur = cur@;
        done.push(cur);
        assert(done.deep_view() =~= old_done.push(old_cur));
    }
    done
}

/// The first position at or after `from` that holds no white space.
pub(crate) fn skip_whitespace(chars: &Vec<char>, from: usize) -> (r: usize)
    requires
        from <= chars.len(),
    ensures
        from <= r <= chars.len(),
        r == from + leading_whitespace(chars@.skip(from as int)),
{
    let mut i: usize = from;
    while i < chars.len() && char_is_whitespace(chars[i])
        invariant
            from <= i <= chars.len(),
            leading_whitespace(chars@.skip(from as int)) == (i - from) + leading_whitespace(
                chars@.skip(i as int),
            ),
        decreases chars.len() - i,
    {
        assert(chars@.skip(i as int).drop_first() == chars@.skip(i + 1));
        i += 1;
    }
    i
}

/// The first position at or after `from` that holds no colon.
pub(crate) fn skip_colons(chars: &Vec<char>, from: usize) -> (r: usize)
    requires
        from <= chars.len(),
    ensures
        from <= r <= chars.len(),
        r == from + leading_colons(chars@.skip(from as int)),
{
    let mut i: usize = from;
    while i < chars.len() && chars[i] == ':'
        invariant
            from <= i <= chars.len(),
            leading_colons(chars@.skip(from as int)) == (i - from) + leading_colons(
                chars@.skip(i as int),
            ),
        decreases chars.len() - i,
    {
        assert(chars@.skip(i as int).drop_first() == chars@.skip(i + 1));
        i += 1;
    }
    i
}

/// Whether `chars` holds `prefix` at position `from`.
pub(crate) fn has_prefix_at(chars: &Vec<char>, from: usize, prefix: &Vec<char>) -> (r: bool)
    requires
        from <= chars.len(),
    ensures
        r == starts_with(chars@.skip(from as int), prefix@),
{
    if prefix.len() > chars.len() - from {
        return false;
    }
    let mut k: usize = 0;
    while k < prefix.len()
        invariant
            k <= prefix.len(),
            from + prefix.len() <= chars.len(),
            chars@.skip(from as int).take(k as int) == prefix@.take(k as int),
        decreases prefix.len() - k,
    {
        if chars[from + k] != prefix[k] {
            assert(chars@.skip(from as int).take(prefix.len() as int)[k as int] != prefix@[k as int]);
            return false;
        }
        assert(chars@.skip(from as int).take(k + 1) =~= chars@.skip(from as int).take(k as int).push(
            chars@[from + k],
        ));
        assert(prefix@.take(k + 1) =~= prefix@.take(k as int).push(prefix@[k as int]));
        k += 1;
    }
    assert(prefix@.take(prefix.len() as int) == prefix@);
    true
}

/// Whether two lists hold the same names in the same order.
pub fn same_names(a: &Vec<String>, b: &Vec<String>) -> (r: bool)
    ensures
        r == (a.deep_view() == b.deep_view()),
{
    if a.len() != b.len() {
        assert(a.deep_view().len() != b.deep_view().len());
        return false;
    }
    let mut i: usize = 0;
    while i < a.len()
        invariant
            a.len() == b.len(),
            i <= a.len(),
            forall|k: int| 0 <= k < i ==> a[k]@ == b[k]@,
        decreases a.len() - i,
    {
        if a[i] != b[i] {
            assert(a.deep_view()[i as int] != b.deep_view()[i as int]);
            return false;
        }
        i += 1;
    }
    assert(a.deep_view() =~= b.deep_view());
    true
}

} // verus!
