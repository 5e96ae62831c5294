//! Character-level text primitives shared by the rest of the crate.
//!
//! Strings are modelled by their view, a `Seq<char>`. Everything here is
//! stated over that model.

use vstd::prelude::*;

verus! {

/// The predicate that holds of exactly the character `c`.
pub open spec fn is_char(c: char) -> spec_fn(char) -> bool {
    |x: char| x == c
}

/// Index of the first character of `s` that satisfies `pred`, or `s.len()`
/// when there is none.
pub open spec fn first_match(s: Seq<char>, pred: spec_fn(char) -> bool) -> int
    decreases s.len(),
{
    if s.len() == 0 || pred(s[0]) {
        0
    } else {
        1 + first_match(s.drop_first(), pred)
    }
}

/// The pieces of `s` between the characters that satisfy `sep`. A text with
/// `n` separators has `n + 1` pieces, some of which may be empty.
pub open spec fn split(s: Seq<char>, sep: spec_fn(char) -> bool) -> Seq<Seq<char>>
    decreases s.len(),
{
    let i = first_match(s, sep);
    if 0 <= i < s.len() {
        seq![s.take(i)] + split(s.skip(i + 1), sep)
    } else {
        seq![s]
    }
}

/// The parts written one after another with `sep` between neighbours.
pub open spec fn join(parts: Seq<Seq<char>>, sep: Seq<char>) -> Seq<char>
    decreases parts.len(),
{
    if parts.len() == 0 {
        Seq::empty()
    } else if parts.len() == 1 {
        parts[0]
    } else {
        join(parts.drop_last(), sep) + sep + parts.last()
    }
}

/// `needle` occurs in `s` as a contiguous run of characters.
pub open spec fn contains(s: Seq<char>, needle: Seq<char>) -> bool {
    exists|i: int| occurs_at(s, needle, i)
}

/// `needle` occurs in `s` starting at index `i`.
pub open spec fn occurs_at(s: Seq<char>, needle: Seq<char>, i: int) -> bool {
    0 <= i && i + needle.len() <= s.len() && s.subrange(i, i + needle.len()) == needle
}

/// `first_match` stays within the text, stops on a match, and skips no match.
pub proof fn lemma_first_match(s: Seq<char>, pred: spec_fn(char) -> bool)
    ensures
        0 <= first_match(s, pred) <= s.len(),
        first_match(s, pred) < s.len() ==> pred(s[first_match(s, pred)]),
        forall|j: int| 0 <= j < first_match(s, pred) ==> !pred(#[trigger] s[j]),
    decreases s.len(),
{
    if s.len() == 0 || pred(s[0]) {
    } else {
        let rest = s.drop_first();
        lemma_first_match(rest, pred);
        assert forall|j: int| 0 <= j < first_match(s, pred) implies !pred(#[trigger] s[j]) by {
            if j > 0 {
                assert(s[j] == rest[j - 1]);
            }
        }
    }
}

/// An index that matches, with no match before it, is the first match.
pub proof fn lemma_first_match_is(s: Seq<char>, pred: spec_fn(char) -> bool, i: int)
    requires
        0 <= i <= s.len(),
        i < s.len() ==> pred(s[i]),
        forall|j: int| 0 <= j < i ==> !pred(#[trigger] s[j]),
    ensures
        first_match(s, pred) == i,
{
    lemma_first_match(s, pred);
    let k = first_match(s, pred);
    if k < i {
        assert(!pred(s[k]));
    } else if i < k {
        assert(!pred(s[i]));
    }
}

/// Every text has at least one piece, and its first piece ends at the first
/// separator.
pub proof fn lemma_split_first(s: Seq<char>, sep: spec_fn(char) -> bool)
    ensures
        split(s, sep).len() >= 1,
        split(s, sep)[0] == s.take(first_match(s, sep)),
        split(s, sep).len() >= 2 <==> first_match(s, sep) < s.len(),
        first_match(s, sep) < s.len() ==> split(s, sep).drop_first() == split(
            s.skip(first_match(s, sep) + 1),
            sep,
        ),
    decreases s.len(),
{
    lemma_first_match(s, sep);
    let i = first_match(s, sep);
    if i < s.len() {
        let rest = s.skip(i + 1);
        lemma_split_first(rest, sep);
        assert(split(s, sep).drop_first() =~= split(rest, sep));
    } else {
        assert(s.take(i) =~= s);
    }
}

/// How the pieces change when one character is added at the end: a
/// separator opens a new, empty piece; any other character joins the last
/// piece.
pub proof fn lemma_split_push(s: Seq<char>, c: char, sep: spec_fn(char) -> bool)
    ensures
        split(s, sep).len() >= 1,
        sep(c) ==> split(s.push(c), sep) == split(s, sep).push(Seq::empty()),
        !sep(c) ==> split(s.push(c), sep) == split(s, sep).drop_last().push(
            split(s, sep).last().push(c),
        ),
    decreases s.len(),
{
    lemma_first_match(s, sep);
    let i = first_match(s, sep);
    let t = s.push(c);
    if i < s.len() {
        assert forall|j: int| 0 <= j < i implies !sep(#[trigger] t[j]) by {
            assert(t[j] == s[j]);
        }
        lemma_first_match_is(t, sep, i);
        let rest = s.skip(i + 1);
        assert(t.skip(i + 1) =~= rest.push(c));
        assert(t.take(i) =~= s.take(i));
        lemma_split_push(rest, c, sep);
        if sep(c) {
            assert(split(t, sep) =~= split(s, sep).push(Seq::empty()));
        } else {
            assert(split(t, sep) =~= split(s, sep).drop_last().push(
                split(s, sep).last().push(c),
            ));
        }
    } else {
        assert forall|j: int| 0 <= j < s.len() implies !sep(#[trigger] t[j]) by {
            assert(t[j] == s[j]);
        }
        if sep(c) {
            lemma_first_match_is(t, sep, s.len() as int);
            assert(t.take(s.len() as int) =~= s);
            assert(t.skip(s.len() as int + 1) =~= Seq::<char>::empty());
            assert(split(Seq::<char>::empty(), sep) =~= seq![Seq::<char>::empty()]);
            assert(split(t, sep) =~= split(s, sep).push(Seq::empty()));
        } else {
            lemma_first_match_is(t, sep, t.len() as int);
            assert(split(t, sep) =~= split(s, sep).drop_last().push(
                split(s, sep).last().push(c),
            ));
        }
    }
}

/// Text without a separator, added at the end, extends the last piece.
pub proof fn lemma_split_extend(s: Seq<char>, more: Seq<char>, sep: spec_fn(char) -> bool)
    requires
        forall|j: int| 0 <= j < more.len() ==> !sep(#[trigger] more[j]),
    ensures
        split(s, sep).len() >= 1,
        split(s + more, sep) == split(s, sep).drop_last().push(split(s, sep).last() + more),
    decreases more.len(),
{
    lemma_split_first(s, sep);
    let pieces = split(s, sep);
    if more.len() == 0 {
        assert(s + more =~= s);
        assert(pieces.last() + more =~= pieces.last());
        assert(pieces.drop_last().push(pieces.last()) =~= pieces);
    } else {
        let init = more.drop_last();
        assert forall|j: int| 0 <= j < init.len() implies !sep(#[trigger] init[j]) by {
            assert(init[j] == more[j]);
        }
        lemma_split_extend(s, init, sep);
        lemma_split_push(s + init, more.last(), sep);
        assert((s + init).push(more.last()) =~= s + more);
        let grown = pieces.drop_last().push(pieces.last() + init);
        assert(grown.drop_last() =~= pieces.drop_last());
        assert((pieces.last() + init).push(more.last()) =~= pieces.last() + more);
    }
}

/// Parts that hold no `c`, joined by `c`, split at `c` into the same parts.
pub proof fn lemma_split_join(parts: Seq<Seq<char>>, c: char)
    requires
        parts.len() >= 1,
        forall|i: int| 0 <= i < parts.len() ==> !(#[trigger] parts[i]).contains(c),
    ensures
        split(join(parts, seq![c]), is_char(c)) == parts,
    decreases parts.len(),
{
    let sep = is_char(c);
    let last = parts.last();
    assert forall|j: int| 0 <= j < last.len() implies !sep(#[trigger] last[j]) by {
        assert(!last.contains(c));
    }
    if parts.len() == 1 {
        let none = Seq::<char>::empty();
        assert(split(none, sep) =~= seq![none]);
        lemma_split_extend(none, last, sep);
        assert(none + last =~= last);
        assert(seq![none].drop_last().push(none + last) =~= parts);
    } else {
        let init = parts.drop_last();
        assert forall|i: int| 0 <= i < init.len() implies !(#[trigger] init[i]).contains(c) by {
            assert(init[i] == parts[i]);
        }
        lemma_split_join(init, c);
        let head = join(init, seq![c]);
        lemma_split_push(head, c, sep);
        assert(head.push(c) =~= head + seq![c]);
        lemma_split_extend(head + seq![c], last, sep);
        let opened = init.push(Seq::<char>::empty());
        assert(opened.drop_last() =~= init);
        assert(Seq::<char>::empty() + last =~= last);
        assert(init.push(last) =~= parts);
    }
}

/// The characters of `s`, in order.
pub fn chars_of(s: &str) -> (v: Vec<char>)
    ensures
        v@ == s@,
{
    let mut v: Vec<char> = Vec::new();
    for c in it: s.chars()
        invariant
            v@ == it.seq().take(it.index() as int),
            it.seq() == s@,
    {
        v.push(c);
    }
    v
}

/// The text whose characters are `v`, in order.
pub fn string_of(v: &Vec<char>) -> (s: String)
    ensures
        s@ == v@,
{
    string_of_range(v, 0, v.len())
}

/// The text made of the characters of `v` from index `from` up to, not
/// including, index `to`.
pub(crate) fn string_of_range(v: &Vec<char>, from: usize, to: usize) -> (s: String)
    requires
        from <= to <= v.len(),
    ensures
        s@ == v@.subrange(from as int, to as int),
{
    let mut s = String::new();
    let mut i: usize = from;
    while i < to
        invariant
            from <= i <= to <= v.len(),
            s@ == v@.subrange(from as int, i as int),
        decreases to - i,
    {
        push_char(&mut s, v[i]);
        i += 1;
    }
    s
}

/// The first index in `from..to` at which `v` holds `c`, or `to` when it
/// holds none there.
pub(crate) fn find_char(v: &Vec<char>, from: usize, to: usize, c: char) -> (at: usize)
    requires
        from <= to <= v.len(),
    ensures
        from <= at <= to,
        at == from + first_match(v@.subrange(from as int, to as int), is_char(c)),
{
    let mut i: usize = from;
    while i < to && v[i] != c
        invariant
            from <= i <= to <= v.len(),
            forall|j: int| from <= j < i ==> v@[j] != c,
        decreases to - i,
    {
        i += 1;
    }
    proof {
        let part = v@.subrange(from as int, to as int);
        assert forall|j: int| 0 <= j < i - from implies !is_char(c)(#[trigger] part[j]) by {
            assert(part[j] == v@[from + j]);
        }
        lemma_first_match_is(part, is_char(c), i - from);
    }
    i
}

/// Whether `needle` occurs in `s` as a contiguous run of characters.
pub fn has_substring(s: &Vec<char>, needle: &Vec<char>) -> (found: bool)
    ensures
        found == contains(s@, needle@),
{
    if needle.len() > s.len() {
        return false;
    }
    let last: usize = s.len() - needle.len();
    let mut i: usize = 0;
    loop
        invariant
            last == s.len() - needle.len(),
            0 <= i <= last,
            forall|j: int| 0 <= j < i ==> !occurs_at(s@, needle@, j),
        decreases last - i,
    {
        if matches_at(s, needle, i) {
            assert(occurs_at(s@, needle@, i as int));
            return true;
        }
        if i == last {
            return false;
        }
        i += 1;
    }
}

/// Whether `needle` occurs in `s` starting at index `at`.
pub(crate) fn matches_at(s: &Vec<char>, needle: &Vec<char>, at: usize) -> (found: bool)
    requires
        at + needle.len() <= s.len(),
    ensures
        found == occurs_at(s@, needle@, at as int),
{
    let mut k: usize = 0;
    while k < needle.len()
        invariant
            at + needle.len() <= s.len(),
            0 <= k <= needle.len(),
            forall|j: int| 0 <= j < k ==> s@[at + j] == needle@[j],
        decreases needle.len() - k,
    {
        if s[at + k] != needle[k] {
            assert(s@.subrange(at as int, at + needle.len())[k as int] != needle@[k as int]);
            return false;
        }
        k += 1;
    }
    assert(s@.subrange(at as int, at + needle.len()) =~= needle@);
    true
}

/// The decimal digit for a value below ten.
pub open spec fn digit_char(d: nat) -> char {
    if d == 0 {
        '0'
    } else if d == 1 {
        '1'
    } else if d == 2 {
        '2'
    } else if d == 3 {
        '3'
    } else if d == 4 {
        '4'
    } else if d == 5 {
        '5'
    } else if d == 6 {
        '6'
    } else if d == 7 {
        '7'
    } else if d == 8 {
        '8'
    } else {
        '9'
    }
}

/// A number written in decimal digits, without leading zeros.
pub open spec fn decimal(n: nat) -> Seq<char>
    decreases n,
{
    if n < 10 {
        seq![digit_char(n)]
    } else {
        decimal(n / 10).push(digit_char(n % 10))
    }
}

/// The decimal digit for a value below ten.
fn digit_of(d: u64) -> (c: char)
    requires
        d < 10,
    ensures
        c == digit_char(d as nat),
{
    if d == 0 {
        '0'
    } else if d == 1 {
        '1'
    } else if d == 2 {
        '2'
    } else if d == 3 {
        '3'
    } else if d == 4 {
        '4'
    } else if d == 5 {
        '5'
    } else if d == 6 {
        '6'
    } else if d == 7 {
        '7'
    } else if d == 8 {
        '8'
    } else {
        '9'
    }
}

/// A number written in decimal digits.
pub fn decimal_of(n: u64) -> (res: String)
    ensures
        res@ == decimal(n as nat),
{
    let mut low: Vec<char> = Vec::new();
    let mut rest: u64 = n;
    while rest >= 10
        invariant
            decimal(n as nat) == decimal(rest as nat) + low@.reverse(),
        decreases rest,
    {
        proof {
            let d = digit_char((rest % 10) as nat);
            assert(low@.push(d).reverse() =~= seq![d] + low@.reverse());
            assert(decimal((rest / 10) as nat).push(d) + low@.reverse() =~= decimal(
                (rest / 10) as nat,
            ) + (seq![d] + low@.reverse()));
        }
        low.push(digit_of(rest % 10));
        rest = rest / 10;
    }
    let mut res = String::new();
    push_char(&mut res, digit_of(rest));
    let mut i: usize = low.len();
    while i > 0
        invariant
            0 <= i <= low.len(),
            res@ == decimal(rest as nat) + low@.reverse().take(low.len() - i),
            rest < 10,
        decreases i,
    {
        i -= 1;
        proof {
            let r = low@.reverse();
            let k = low.len() - i - 1;
            assert(r[k] == low@[i as int]);
            assert(r.take(k + 1) =~= r.take(k).push(r[k]));
            assert((decimal(rest as nat) + r.take(k)).push(r[k]) =~= decimal(rest as nat)
                + r.take(k + 1));
        }
        push_char(&mut res, low[i]);
    }
    proof {
        let r = low@.reverse();
        assert(r.take(low.len() as int) =~= r);
    }
    res
}

/// What `str::to_lowercase` returns for a text. It maps whole texts, not
/// single characters: one character may become several, and a letter's
/// lowercase form may depend on its neighbours.
pub uninterp spec fn lowercased(s: Seq<char>) -> Seq<char>;

/// Whether `char::is_alphanumeric` holds of a character: it is alphabetic
/// or numeric in the sense of the Unicode character database.
pub uninterp spec fn unicode_alphanumeric(c: char) -> bool;

/// Calls `str::to_lowercase`. The contract only names the result: it is a
/// function of the text alone.
#[verifier::external_body]
pub(crate) fn lowercase(s: &str) -> (res: String)
    ensures
        res@ == lowercased(s@),
{
    s.to_lowercase()
}

/// Calls `char::is_alphanumeric`. The contract only names the result: it is
/// a function of the character alone.
#[verifier::external_body]
pub(crate) fn is_unicode_alphanumeric(c: char) -> (res: bool)
    ensures
        res == unicode_alphanumeric(c),
{
    c.is_alphanumeric()
}

/// Calls `String::push`, which appends one character to the end of the text.
#[verifier::external_body]
pub(crate) fn push_char(s: &mut String, c: char)
    ensures
        final(s)@ == old(s)@.push(c),
{
    s.push(c)
}

} // verus!
