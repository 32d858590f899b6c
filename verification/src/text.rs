//! Small text helpers shared by the rest of the library.
use vstd::prelude::*;

verus! {

/// The character of a decimal digit `d` (`0 <= d < 10`).
pub open spec fn digit_char(d: nat) -> char {
    ('0' as nat + d) as char
}

/// The decimal representation of `n`, most significant digit first,
/// without leading zeros (`0` is written `"0"`).
pub open spec fn decimal(n: nat) -> Seq<char>
    decreases n,
{
    if n < 10 {
        seq![digit_char(n)]
    } else {
        decimal(n / 10).push(digit_char(n % 10))
    }
}

/// The number that a text of decimal digits writes, most significant
/// digit first.
pub open spec fn digits_value(s: Seq<char>) -> int
    decreases s.len(),
{
    if s.len() == 0 {
        0
    } else {
        digits_value(s.drop_last()) * 10 + (s.last() as int - '0' as int)
    }
}

/// `decimal(n)` is a non-empty text of decimal digits that writes `n`,
/// and it starts with `0` only where it is `0` itself.
pub proof fn law_decimal_writes_the_number(n: nat)
    ensures
        decimal(n).len() > 0,
        forall|i: int| 0 <= i < decimal(n).len() ==> '0' as int <= #[trigger] decimal(n)[i] as int <= '9' as int,
        decimal(n)[0] == '0' ==> n == 0 && decimal(n).len() == 1,
        digits_value(decimal(n)) == n,
    decreases n,
{
    assert(digit_char(n % 10) as int == '0' as int + n % 10);
    if n >= 10 {
        law_decimal_writes_the_number(n / 10);
        let p = decimal(n / 10);
        let s = decimal(n);
        assert(s == p.push(digit_char(n % 10)));
        assert(s.drop_last() =~= p);
        assert forall|i: int| 0 <= i < s.len() implies '0' as int <= #[trigger] s[i] as int <= '9' as int by {
            if i < p.len() {
                assert(s[i] == p[i]);
            }
        }
        assert(s[0] == p[0]);
        assert(digits_value(s) == digits_value(p) * 10 + n % 10);
        assert((n / 10) * 10 + n % 10 == n) by (nonlinear_arith);
    } else {
        assert(decimal(n) == seq![digit_char(n)]);
        assert(seq![digit_char(n)].drop_last() =~= Seq::<char>::empty());
        assert(digits_value(seq![digit_char(n)].drop_last()) == 0);
        assert(seq![digit_char(n)].last() == digit_char(n));
        assert(n % 10 == n);
    }
}

/// Appends one character to a string (`String::push`).
#[verifier::external_body]
pub(crate) fn push_char(s: &mut String, c: char)
    ensures
        final(s)@ == old(s)@.push(c),
{
    s.push(c);
}

/// The decimal digit character for `d`.
pub fn digit_to_char(d: u64) -> (c: char)
    requires
        d < 10,
    ensures
        c == digit_char(d as nat),
{
    let b: u8 = 48u8 + (d as u8);
    b as char
}

/// Writes `n` in decimal, as `format!("{}", n)` does.
pub fn decimal_string(n: u64) -> (s: String)
    ensures
        s@ == decimal(n as nat),
    decreases n,
{
    if n < 10 {
        let mut s = String::new();
        push_char(&mut s, digit_to_char(n));
        s
    } else {
        let mut s = decimal_string(n / 10);
        push_char(&mut s, digit_to_char(n % 10));
        s
    }
}

/// Whether two texts are the same, character for character.
pub fn same_text(a: &str, b: &str) -> (r: bool)
    ensures
        r == (a@ == b@),
{
    let n: usize = a.unicode_len();
    if n != b.unicode_len() {
        return false;
    }
    let mut i: usize = 0;
    while i < n
        invariant
            n == a@.len(),
            n == b@.len(),
            0 <= i <= n,
            forall|j: int| 0 <= j < i ==> a@[j] == b@[j],
        decreases n - i,
    {
        if a.get_char(i) != b.get_char(i) {
            return false;
        }
        i = i + 1;
    }
    assert(a@ =~= b@);
    true
}

/// The views of a list of strings.
pub open spec fn string_views(v: Seq<String>) -> Seq<Seq<char>> {
    v.map_values(|s: String| s@)
}

/// The views of a list of strings keep its length and order.
pub proof fn law_string_views_in_order(v: Seq<String>)
    ensures
        string_views(v).len() == v.len(),
        forall|i: int| 0 <= i < v.len() ==> #[trigger] string_views(v)[i] == v[i]@,
{
}

/// Whether `c` has the Unicode `White_Space` property: the characters
/// U+0009 to U+000D, U+0020, U+0085, U+00A0, U+1680, U+2000 to U+200A,
/// U+2028, U+2029, U+202F, U+205F and U+3000.
pub open spec fn is_white_space(c: char) -> bool {
    let n = c as u32;
    ||| 0x9 <= n <= 0xD
    ||| n == 0x20
    ||| n == 0x85
    ||| n == 0xA0
    ||| n == 0x1680
    ||| 0x2000 <= n <= 0x200A
    ||| n == 0x2028
    ||| n == 0x2029
    ||| n == 0x202F
    ||| n == 0x205F
    ||| n == 0x3000
}

/// Whether `c` has the Unicode `White_Space` property, as
/// `char::is_whitespace` tells.
pub fn char_is_whitespace(c: char) -> (r: bool)
    ensures
        r == is_white_space(c),
{
    let n: u32 = c as u32;
    (0x9 <= n && n <= 0xD) || n == 0x20 || n == 0x85 || n == 0xA0 || n == 0x1680
        || (0x2000 <= n && n <= 0x200A) || n == 0x2028 || n == 0x2029 || n == 0x202F
        || n == 0x205F || n == 0x3000
}

/// The words of `s`: its maximal runs of characters that are not white
/// space, in order (what `str::split_whitespace` yields).
pub open spec fn words(s: Seq<char>) -> Seq<Seq<char>>
    decreases s.len(),
{
    if s.len() == 0 {
        Seq::empty()
    } else {
        let prev = words(s.drop_last());
        let c = s.last();
        if is_white_space(c) {
            prev
        } else if s.len() == 1 || is_white_space(s[s.len() - 2]) {
            prev.push(seq![c])
        } else {
            prev.update(prev.len() - 1, prev.last().push(c))
        }
    }
}

/// A text that ends in a character that is not white space has a word.
pub proof fn lemma_words_nonempty(s: Seq<char>)
    requires
        s.len() > 0,
        !is_white_space(s.last()),
    ensures
        words(s).len() > 0,
    decreases s.len(),
{
    if s.len() >= 2 && !is_white_space(s[s.len() - 2]) {
        lemma_words_nonempty(s.drop_last());
    }
}

/// Every word is non-empty and holds no white space, as the pieces that
/// `str::split_whitespace` yields are.
pub proof fn law_words_are_nonempty_runs(s: Seq<char>)
    ensures
        forall|i: int| 0 <= i < words(s).len() ==> #[trigger] words(s)[i].len() > 0,
        forall|i: int, j: int|
            0 <= i < words(s).len() && 0 <= j < words(s)[i].len() ==> !is_white_space(#[trigger] words(s)[i][j]),
    decreases s.len(),
{
    if s.len() > 0 {
        let p = s.drop_last();
        law_words_are_nonempty_runs(p);
        let c = s.last();
        if !is_white_space(c) && !(s.len() == 1 || is_white_space(s[s.len() - 2])) {
            assert(p.last() == s[s.len() - 2]);
            lemma_words_nonempty(p);
            let prev = words(p);
            let k: int = prev.len() - 1;
            assert forall|i: int, j: int|
                0 <= i < words(s).len() && 0 <= j < words(s)[i].len() implies !is_white_space(#[trigger] words(s)[i][j]) by {
                if i == k {
                    if j < prev[k].len() {
                        assert(words(s)[i][j] == prev[k][j]);
                    }
                } else {
                    assert(words(s)[i] == prev[i]);
                }
            }
        } else if !is_white_space(c) {
            let prev = words(p);
            assert forall|i: int, j: int|
                0 <= i < words(s).len() && 0 <= j < words(s)[i].len() implies !is_white_space(#[trigger] words(s)[i][j]) by {
                if i < prev.len() {
                    assert(words(s)[i] == prev[i]);
                }
            }
        }
    }
}

/// A text of white space alone, the empty text among them, has no words.
pub proof fn law_white_space_has_no_words(s: Seq<char>)
    requires
        forall|i: int| 0 <= i < s.len() ==> is_white_space(#[trigger] s[i]),
    ensures
        words(s) == Seq::<Seq<char>>::empty(),
    decreases s.len(),
{
    if s.len() > 0 {
        let p = s.drop_last();
        assert forall|i: int| 0 <= i < p.len() implies is_white_space(#[trigger] p[i]) by {
            assert(p[i] == s[i]);
        }
        law_white_space_has_no_words(p);
        assert(is_white_space(s[s.len() - 1]));
    }
}

/// A text without white space is one word, the whole text.
pub proof fn law_text_without_white_space_is_one_word(s: Seq<char>)
    requires
        s.len() > 0,
        forall|i: int| 0 <= i < s.len() ==> !is_white_space(#[trigger] s[i]),
    ensures
        words(s) == seq![s],
    decreases s.len(),
{
    if s.len() == 1 {
        assert(words(s.drop_last()) =~= Seq::<Seq<char>>::empty());
        assert(seq![s.last()] =~= s);
    } else {
        let p = s.drop_last();
        assert forall|i: int| 0 <= i < p.len() implies !is_white_space(#[trigger] p[i]) by {
            assert(p[i] == s[i]);
        }
        law_text_without_white_space_is_one_word(p);
        assert(s[s.len() - 2] == p[p.len() - 1]);
        assert(p.push(s.last()) =~= s);
    }
}

/// Splitting at a white-space character splits the words: the words of
/// `a`, a white-space character `w`, then `b` are the words of `a`
/// followed by those of `b`, whatever `a` and `b` are.
pub proof fn law_words_split_at_white_space(a: Seq<char>, w: char, b: Seq<char>)
    requires
        is_white_space(w),
    ensures
        words(a.push(w) + b) == words(a) + words(b),
    decreases b.len(),
{
    let aw = a.push(w);
    if b.len() == 0 {
        assert(aw + b =~= aw);
        assert(aw.drop_last() =~= a);
        assert(words(b) =~= Seq::<Seq<char>>::empty());
        assert(words(a) + words(b) =~= words(a));
    } else {
        let bp = b.drop_last();
        let c = b.last();
        law_words_split_at_white_space(a, w, bp);
        let s = aw + b;
        assert(s.drop_last() =~= aw + bp);
        assert(s.last() == c);
        let prev = words(aw + bp);
        assert(prev == words(a) + words(bp));
        if is_white_space(c) {
            assert(words(b) == words(bp));
        } else {
            assert(s.len() >= 2);
            if bp.len() == 0 {
                assert(s[s.len() - 2] == w);
                assert(words(bp) =~= Seq::<Seq<char>>::empty());
                assert(words(b) == words(bp).push(seq![c]));
                assert(words(s) == prev.push(seq![c]));
                assert(words(s) =~= words(a) + words(b));
            } else {
                assert(s[s.len() - 2] == bp.last());
                assert(b[b.len() - 2] == bp.last());
                if is_white_space(bp.last()) {
                    assert(words(b) == words(bp).push(seq![c]));
                    assert(words(s) == prev.push(seq![c]));
                    assert(words(s) =~= words(a) + words(b));
                } else {
                    lemma_words_nonempty(bp);
                    let wb = words(bp);
                    assert(words(b) == wb.update(wb.len() - 1, wb.last().push(c)));
                    assert(prev.last() == wb.last());
                    assert(words(s) == prev.update(prev.len() - 1, prev.last().push(c)));
                    assert(words(s) =~= words(a) + words(b));
                }
            }
        }
    }
}

/// Splits `s` into its words, as `str::split_whitespace` does.
pub fn split_words(s: &str) -> (r: Vec<String>)
    ensures
        string_views(r@) == words(s@),
{
    let n: usize = s.unicode_len();
    let mut r: Vec<String> = Vec::new();
    let mut in_word = false;
    let mut i: usize = 0;
    assert(s@.take(0) =~= Seq::<char>::empty());
    while i < n
        invariant
            n == s@.len(),
            0 <= i <= n,
            string_views(r@) == words(s@.take(i as int)),
            in_word == (i > 0 && !is_white_space(s@[i - 1])),
        decreases n - i,
    {
        let c = s.get_char(i);
        let ghost t = s@.take(i + 1);
        assert(t.drop_last() =~= s@.take(i as int));
        assert(t.last() == c);
        if char_is_whitespace(c) {
            in_word = false;
        } else if !in_word {
            let mut w = String::new();
            push_char(&mut w, c);
            r.push(w);
            in_word = true;
            assert(t.len() == 1 || t[t.len() - 2] == s@[i - 1]);
            assert(string_views(r@) =~= words(t));
        } else {
            proof {
                assert(t[t.len() - 2] == s@[i - 1]);
                lemma_words_nonempty(s@.take(i as int));
            }
            let ghost before = string_views(r@);
            let last: usize = r.len() - 1;
            let mut w = r.remove(last);
            push_char(&mut w, c);
            r.push(w);
            assert(string_views(r@) =~= before.update(before.len() - 1, before.last().push(c)));
            in_word = true;
        }
        i = i + 1;
    }
    assert(s@.take(n as int) =~= s@);
    r
}

} // verus!
