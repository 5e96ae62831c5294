//! The branch naming convention: `prefix/TICKET-123/short_summary`.
//!
//! A branch name is made from a ticket identifier and the ticket's summary,
//! and the identifier is read back from a branch name.

use crate::errors::{DevFlowError, ErrorModel};
use crate::text::{
    chars_of, contains, find_char, first_match, is_char, is_unicode_alphanumeric, join,
    lemma_first_match, lemma_first_match_is, lemma_split_first, lemma_split_join,
    lemma_split_push, lowercase, lowercased, occurs_at, split, string_of, string_of_range,
    unicode_alphanumeric,
};
use vstd::prelude::*;

verus! {

/// A slug holds at most this many words.
pub const MAX_SLUG_WORDS: usize = 5;

/// A slug word has at least this many characters.
pub const MIN_WORD_LENGTH: usize = 2;

/// The characters at which a summary is cut into words.
pub open spec fn is_separator(c: char) -> bool {
    c == ' ' || c == ':' || c == '!' || c == '?' || c == ',' || c == ';' || c == '.'
}

/// [`is_separator`] as a predicate value.
pub open spec fn separator() -> spec_fn(char) -> bool {
    |c: char| is_separator(c)
}

/// The characters that a slug word keeps: letters and digits. Within ASCII
/// these are `0-9`, `a-z` and `A-Z`; beyond it, what Unicode calls
/// alphabetic or numeric.
pub open spec fn is_word_char(c: char) -> bool {
    if c <= '\u{7f}' {
        ('0' <= c <= '9') || ('a' <= c <= 'z') || ('A' <= c <= 'Z')
    } else {
        unicode_alphanumeric(c)
    }
}

/// [`is_word_char`] as a predicate value.
pub open spec fn word_char() -> spec_fn(char) -> bool {
    |c: char| is_word_char(c)
}

/// A piece of the summary with everything but letters and digits removed.
pub open spec fn clean(piece: Seq<char>) -> Seq<char> {
    piece.filter(word_char())
}

/// A cleaned word is kept when it has at least [`MIN_WORD_LENGTH`]
/// characters.
pub open spec fn is_kept(word: Seq<char>) -> bool {
    word.len() >= MIN_WORD_LENGTH
}

/// The slug word that a piece of the summary gives, if it gives one.
pub open spec fn slug_word(piece: Seq<char>) -> Option<Seq<char>> {
    if is_kept(clean(piece)) {
        Some(clean(piece))
    } else {
        None
    }
}

/// [`slug_word`] as a function value.
pub open spec fn to_slug_word() -> spec_fn(Seq<char>) -> Option<Seq<char>> {
    |piece: Seq<char>| slug_word(piece)
}

/// All the words that a lower-cased summary offers to a slug, in order.
pub open spec fn slug_words(lowered: Seq<char>) -> Seq<Seq<char>> {
    split(lowered, separator()).filter_map(to_slug_word())
}

/// The first [`MAX_SLUG_WORDS`] of the words, or all of them if they are fewer.
pub open spec fn leading(words: Seq<Seq<char>>) -> Seq<Seq<char>> {
    if words.len() > MAX_SLUG_WORDS {
        words.take(MAX_SLUG_WORDS as int)
    } else {
        words
    }
}

/// The slug of a lower-cased summary: its leading words joined by `_`.
pub open spec fn slug(lowered: Seq<char>) -> Seq<char> {
    join(leading(slug_words(lowered)), seq!['_'])
}

/// The branch name for a ticket whose summary, in lower case, is `lowered`.
pub open spec fn branch_name(prefix: Seq<char>, ticket_id: Seq<char>, lowered: Seq<char>) -> Seq<
    char,
> {
    if slug(lowered).len() == 0 {
        prefix + seq!['/'] + ticket_id
    } else {
        prefix + seq!['/'] + ticket_id + seq!['/'] + slug(lowered)
    }
}

/// The ticket identifier that a branch name carries, if it carries one: the
/// first two `-`-separated tokens of its second `/`-separated segment.
pub open spec fn ticket_in_branch(branch: Seq<char>) -> Option<Seq<char>> {
    let segments = split(branch, is_char('/'));
    if segments.len() < 2 {
        None
    } else if !segments[1].contains('-') {
        None
    } else {
        let id = join(split(segments[1], is_char('-')).take(2), seq!['-']);
        if id.len() == 0 {
            None
        } else {
            Some(id)
        }
    }
}

/// The slug words of the pieces that are already closed by a separator.
pub open spec fn closed_words(text: Seq<char>) -> Seq<Seq<char>> {
    split(text, separator()).drop_last().filter_map(to_slug_word())
}

/// Whether a summary is cut at this character.
fn is_separator_char(c: char) -> (res: bool)
    ensures
        res == is_separator(c),
{
    c == ' ' || c == ':' || c == '!' || c == '?' || c == ',' || c == ';' || c == '.'
}

/// Whether a slug word keeps this character.
fn is_letter_or_digit(c: char) -> (res: bool)
    ensures
        res == is_word_char(c),
{
    if c <= '\u{7f}' {
        ('0' <= c && c <= '9') || ('a' <= c && c <= 'z') || ('A' <= c && c <= 'Z')
    } else {
        is_unicode_alphanumeric(c)
    }
}

/// Whether a cleaned word is kept.
fn keeps(word: &Vec<char>) -> (res: bool)
    ensures
        res == is_kept(word@),
{
    word.len() >= MIN_WORD_LENGTH
}

/// Closes the current word: appends it to the slug if it is kept and the
/// slug has room, and empties it for the next piece.
fn close_word(
    out: &mut Vec<char>,
    kept: &mut usize,
    word: &mut Vec<char>,
    Ghost(before): Ghost<Seq<Seq<char>>>,
)
    requires
        old(out)@ == join(leading(before), seq!['_']),
        *old(kept) == leading(before).len(),
    ensures
        final(out)@ == join(leading(with_word(before, old(word)@)), seq!['_']),
        *final(kept) == leading(with_word(before, old(word)@)).len(),
        final(word)@ == Seq::<char>::empty(),
{
    let ghost after = with_word(before, word@);
    if keeps(word) {
        if *kept < MAX_SLUG_WORDS {
            assert(before.len() == *kept);
            assert(leading(after) == after);
            assert(after.drop_last() =~= before);
            if *kept > 0 {
                out.push('_');
                assert(out@ =~= join(before, seq!['_']) + seq!['_']);
            }
            out.append(word);
            *kept = *kept + 1;
        } else {
            assert(leading(after) =~= leading(before));
            word.clear();
        }
    } else {
        word.clear();
    }
}

/// The words after a piece that cleans to `word` has been closed.
pub open spec fn with_word(words: Seq<Seq<char>>, word: Seq<char>) -> Seq<Seq<char>> {
    if is_kept(word) {
        words.push(word)
    } else {
        words
    }
}

/// Closing the last piece adds its slug word, if it has one.
proof fn lemma_close_piece(pieces: Seq<Seq<char>>)
    requires
        pieces.len() >= 1,
    ensures
        pieces.filter_map(to_slug_word()) == with_word(
            pieces.drop_last().filter_map(to_slug_word()),
            clean(pieces.last()),
        ),
{
    let f = to_slug_word();
    assert(f(pieces.last()) == slug_word(pieces.last()));
    if is_kept(clean(pieces.last())) {
        assert(pieces.filter_map(f) =~= pieces.drop_last().filter_map(f).push(
            clean(pieces.last()),
        ));
    }
}

/// The slug of a summary that is already in lower case.
pub fn slug_of(lowered: &str) -> (res: String)
    ensures
        res@ == slug(lowered@),
{
    let chars = chars_of(lowered);
    let mut out: Vec<char> = Vec::new();
    let mut kept: usize = 0;
    let mut word: Vec<char> = Vec::new();
    let mut i: usize = 0;
    proof {
        let none = Seq::<char>::empty();
        assert(chars@.take(0) =~= none);
        assert(split(none, separator()) =~= seq![none]);
        assert(split(none, separator()).drop_last() =~= Seq::<Seq<char>>::empty());
        reveal(Seq::filter);
        assert(clean(none) =~= none);
    }
    while i < chars.len()
        invariant
            0 <= i <= chars.len(),
            split(chars@.take(i as int), separator()).len() >= 1,
            word@ == clean(split(chars@.take(i as int), separator()).last()),
            kept == leading(closed_words(chars@.take(i as int))).len(),
            out@ == join(leading(closed_words(chars@.take(i as int))), seq!['_']),
        decreases chars.len() - i,
    {
        let c = chars[i];
        let ghost read = chars@.take(i as int);
        let ghost pieces = split(read, separator());
        proof {
            lemma_split_push(read, c, separator());
            assert(chars@.take(i + 1) =~= read.push(c));
        }
        if is_separator_char(c) {
            proof {
                lemma_close_piece(pieces);
                assert(pieces.push(Seq::empty()).drop_last() =~= pieces);
                reveal(Seq::filter);
                assert(clean(Seq::<char>::empty()) =~= Seq::<char>::empty());
            }
            close_word(&mut out, &mut kept, &mut word, Ghost(closed_words(read)));
        } else {
            proof {
                let last = pieces.last().push(c);
                assert(pieces.drop_last().push(last).drop_last() =~= pieces.drop_last());
                pieces.last().lemma_filter_push(c, word_char());
            }
            if is_letter_or_digit(c) {
                word.push(c);
            }
        }
        i += 1;
    }
    proof {
        assert(chars@.take(i as int) =~= chars@);
        lemma_close_piece(split(chars@, separator()));
    }
    close_word(&mut out, &mut kept, &mut word, Ghost(closed_words(chars@)));
    string_of(&out)
}

/// The branch name for a ticket, given its summary already in lower case.
pub fn branch_name_for(prefix: &str, ticket_id: &str, lowered: &str) -> (name: String)
    ensures
        name@ == branch_name(prefix@, ticket_id@, lowered@),
{
    let words = slug_of(lowered);
    let mut name = String::from_str(prefix);
    proof {
        reveal_strlit("/");
        assert("/"@ =~= seq!['/']);
    }
    name.append("/");
    name.append(ticket_id);
    if words.as_str().unicode_len() > 0 {
        name.append("/");
        name.append(words.as_str());
    }
    name
}

/// The branch name for a ticket: `prefix/ticket_id/slug`, where the slug is
/// made of the first words of the summary in lower case, or
/// `prefix/ticket_id` when the summary has no word to offer.
pub fn format_branch_name(prefix: &str, ticket_id: &str, summary: &str) -> (name: String)
    ensures
        name@ == branch_name(prefix@, ticket_id@, lowercased(summary@)),
{
    let lowered = lowercase(summary);
    branch_name_for(prefix, ticket_id, lowered.as_str())
}

/// The ticket identifier that a branch name carries. A name without a
/// second segment, or whose second segment has no `-`, carries none.
pub fn extract_ticket_id(branch_name: &str) -> (res: Result<String, DevFlowError>)
    ensures
        match res {
            Ok(id) => ticket_in_branch(branch_name@) == Some(id@),
            Err(e) => ticket_in_branch(branch_name@) is None && e@
                == ErrorModel::BranchHasNoTicketId(branch_name@),
        },
{
    let chars = chars_of(branch_name);
    let n = chars.len();
    let slash = find_char(&chars, 0, n, '/');
    proof {
        assert(chars@.subrange(0, n as int) =~= chars@);
        lemma_split_first(chars@, is_char('/'));
    }
    if slash >= n {
        return Err(DevFlowError::BranchHasNoTicketId(String::from_str(branch_name)));
    }
    let start = slash + 1;
    let end = find_char(&chars, start, n, '/');
    let ghost rest = chars@.skip(start as int);
    let ghost segment = chars@.subrange(start as int, end as int);
    proof {
        assert(chars@.subrange(start as int, n as int) =~= rest);
        lemma_split_first(rest, is_char('/'));
        assert(split(chars@, is_char('/'))[1] == split(chars@, is_char('/')).drop_first()[0]);
        assert(rest.take(end - start) =~= segment);
        lemma_first_match(segment, is_char('-'));
        lemma_split_first(segment, is_char('-'));
    }
    let dash = find_char(&chars, start, end, '-');
    if dash >= end {
        proof {
            assert forall|j: int| 0 <= j < segment.len() implies segment[j] != '-' by {
                assert(!is_char('-')(segment[j]));
            }
        }
        return Err(DevFlowError::BranchHasNoTicketId(String::from_str(branch_name)));
    }
    let stop = find_char(&chars, dash + 1, end, '-');
    proof {
        let d = dash - start;
        let tail = segment.skip(d + 1);
        assert(segment[d] == '-');
        assert(chars@.subrange(dash + 1, end as int) =~= tail);
        lemma_split_first(tail, is_char('-'));
        let tokens = split(segment, is_char('-'));
        assert(tokens[1] == tokens.drop_first()[0]);
        assert(tokens[0] == segment.take(d));
        assert(tokens[1] == tail.take(stop - dash - 1));
        let two = tokens.take(2);
        assert(two.drop_last() =~= seq![tokens[0]]);
        assert(join(two.drop_last(), seq!['-']) == tokens[0]);
        assert(join(two, seq!['-']) == tokens[0] + seq!['-'] + tokens[1]);
        assert(tokens[0] + seq!['-'] + tokens[1] =~= chars@.subrange(start as int, stop as int));
    }
    Ok(string_of_range(&chars, start, stop))
}

/// A branch name carries no identifier exactly when it has no second
/// segment or its second segment has no `-`: what the first two tokens of
/// such a segment give is never empty. An identifier that it carries
/// stands in the name as it is.
pub proof fn lemma_ticket_in_branch(branch: Seq<char>)
    ensures
        ticket_in_branch(branch) is None <==> (!branch.contains('/') || !split(
            branch,
            is_char('/'),
        )[1].contains('-')),
        ticket_in_branch(branch) matches Some(id) ==> id.len() > 0 && contains(branch, id),
{
    let slash = is_char('/');
    let dash = is_char('-');
    let i = first_match(branch, slash);
    lemma_first_match(branch, slash);
    lemma_split_first(branch, slash);
    if branch.contains('/') {
        let k = choose|k: int| 0 <= k < branch.len() && branch[k] == '/';
        assert(slash(branch[k]));
    }
    if i < branch.len() {
        assert(branch.contains(branch[i]));
        let rest = branch.skip(i + 1);
        lemma_first_match(rest, slash);
        lemma_split_first(rest, slash);
        let segment = split(branch, slash)[1];
        assert(split(branch, slash).drop_first()[0] == segment);
        if segment.contains('-') {
            let k = choose|k: int| 0 <= k < segment.len() && segment[k] == '-';
            assert(dash(segment[k]));
            let d = first_match(segment, dash);
            lemma_first_match(segment, dash);
            lemma_split_first(segment, dash);
            let tail = segment.skip(d + 1);
            lemma_first_match(tail, dash);
            lemma_split_first(tail, dash);
            let tokens = split(segment, dash);
            assert(tokens.drop_first()[0] == tokens[1]);
            let two = tokens.take(2);
            assert(two.drop_last() =~= seq![tokens[0]]);
            assert(join(two.drop_last(), seq!['-']) == tokens[0]);
            let id = join(two, seq!['-']);
            assert(id == tokens[0] + seq!['-'] + tokens[1]);
            assert(branch.subrange(i + 1, i + 1 + id.len()) =~= id);
            assert(occurs_at(branch, id, i + 1));
        }
    }
}

/// A project key is made of the uppercase letters and the digits of ASCII.
pub open spec fn is_project_key(key: Seq<char>) -> bool {
    &&& key.len() > 0
    &&& forall|i: int|
        0 <= i < key.len() ==> ('A' <= #[trigger] key[i] <= 'Z') || ('0' <= key[i] <= '9')
}

/// A positive number written in decimal digits.
pub open spec fn is_positive_number(digits: Seq<char>) -> bool {
    &&& digits.len() > 0
    &&& forall|i: int| 0 <= i < digits.len() ==> '0' <= #[trigger] digits[i] <= '9'
    &&& exists|i: int| 0 <= i < digits.len() && #[trigger] digits[i] != '0'
}

/// `id` is a project key, a `-` at index `dash`, and a positive number.
pub open spec fn is_ticket_id_at(id: Seq<char>, dash: int) -> bool {
    &&& 0 <= dash < id.len()
    &&& id[dash] == '-'
    &&& is_project_key(id.take(dash))
    &&& is_positive_number(id.skip(dash + 1))
}

/// A ticket identifier has the form `PROJECT-NUMBER`.
pub open spec fn is_ticket_id(id: Seq<char>) -> bool {
    exists|dash: int| is_ticket_id_at(id, dash)
}

/// A ticket identifier holds no `/`, and its first two `-`-separated tokens
/// are all of it.
pub proof fn lemma_ticket_id_shape(id: Seq<char>)
    requires
        is_ticket_id(id),
    ensures
        id.len() > 0,
        !id.contains('/'),
        id.contains('-'),
        join(split(id, is_char('-')).take(2), seq!['-']) == id,
{
    let dash = choose|dash: int| is_ticket_id_at(id, dash);
    let key = id.take(dash);
    let number = id.skip(dash + 1);
    assert forall|j: int| 0 <= j < id.len() && j != dash implies id[j] != '-' && id[j] != '/' by {
        if j < dash {
            assert(id[j] == key[j]);
        } else {
            assert(id[j] == number[j - dash - 1]);
        }
    }
    assert forall|j: int| 0 <= j < dash implies !is_char('-')(#[trigger] id[j]) by {}
    assert forall|j: int| 0 <= j < number.len() implies !is_char('-')(#[trigger] number[j]) by {
        assert(number[j] == id[j + dash + 1]);
    }
    lemma_first_match_is(id, is_char('-'), dash);
    lemma_first_match_is(number, is_char('-'), number.len() as int);
    lemma_split_first(id, is_char('-'));
    lemma_split_first(number, is_char('-'));
    let tokens = split(id, is_char('-'));
    assert(tokens.drop_first()[0] == tokens[1]);
    assert(tokens =~= seq![key, number]);
    assert(tokens.take(2) =~= tokens);
    assert(tokens.drop_last() =~= seq![key]);
    assert(join(tokens.drop_last(), seq!['-']) == key);
    assert(key + seq!['-'] + number =~= id);
}

/// What a name that starts with `first`, then `/`, then `second`, carries
/// is decided by `second` alone, when neither holds a `/` and the name goes
/// on, if at all, with another `/`.
proof fn lemma_second_segment(first: Seq<char>, second: Seq<char>, more: Seq<char>)
    requires
        !first.contains('/'),
        !second.contains('/'),
        more.len() == 0 || more[0] == '/',
    ensures
        split(first + seq!['/'] + second + more, is_char('/')).len() >= 2,
        split(first + seq!['/'] + second + more, is_char('/'))[1] == second,
{
    let slash = is_char('/');
    let name = first + seq!['/'] + second + more;
    let rest = second + more;
    assert forall|j: int| 0 <= j < first.len() implies !slash(#[trigger] name[j]) by {
        assert(name[j] == first[j]);
        assert(first.contains(first[j]));
    }
    lemma_first_match_is(name, slash, first.len() as int);
    assert(name.skip(first.len() as int + 1) =~= rest);
    assert forall|j: int| 0 <= j < second.len() implies !slash(#[trigger] rest[j]) by {
        assert(rest[j] == second[j]);
        assert(second.contains(second[j]));
    }
    lemma_first_match_is(rest, slash, second.len() as int);
    lemma_split_first(name, slash);
    lemma_split_first(rest, slash);
    assert(split(name, slash).drop_first()[0] == split(name, slash)[1]);
    assert(rest.take(second.len() as int) =~= second);
}

/// A prefix that holds a `/` hides what follows it: the name is read as the
/// prefix alone would be.
pub proof fn lemma_slash_in_prefix(prefix: Seq<char>, rest: Seq<char>)
    requires
        prefix.contains('/'),
    ensures
        ticket_in_branch(prefix + seq!['/'] + rest) == ticket_in_branch(prefix),
{
    let slash = is_char('/');
    let name = prefix + seq!['/'] + rest;
    lemma_first_match(prefix, slash);
    let i = first_match(prefix, slash);
    if i >= prefix.len() {
        let k = choose|k: int| 0 <= k < prefix.len() && prefix[k] == '/';
        assert(slash(prefix[k]));
    }
    assert forall|j: int| 0 <= j < i implies !slash(#[trigger] name[j]) by {
        assert(name[j] == prefix[j]);
    }
    assert(name[i] == prefix[i]);
    lemma_first_match_is(name, slash, i);
    let tail = prefix.skip(i + 1);
    let long_tail = name.skip(i + 1);
    assert(long_tail =~= tail + seq!['/'] + rest);
    lemma_first_match(tail, slash);
    let k = first_match(tail, slash);
    assert forall|j: int| 0 <= j < k implies !slash(#[trigger] long_tail[j]) by {
        assert(long_tail[j] == tail[j]);
    }
    if k < tail.len() {
        assert(long_tail[k] == tail[k]);
    } else {
        assert(long_tail[k] == '/');
    }
    lemma_first_match_is(long_tail, slash, k);
    lemma_split_first(prefix, slash);
    lemma_split_first(name, slash);
    lemma_split_first(tail, slash);
    lemma_split_first(long_tail, slash);
    assert(split(prefix, slash).drop_first()[0] == split(prefix, slash)[1]);
    assert(split(name, slash).drop_first()[0] == split(name, slash)[1]);
    assert(long_tail.take(k) =~= tail.take(k));
}

/// Reading back the name made for a ticket gives the ticket's identifier.
///
/// This holds when the prefix has no `/`. A prefix with a `/` in it takes
/// the place of the ticket's segment, so with such a prefix it holds only
/// when the prefix itself carries the same identifier.
pub proof fn lemma_round_trip(prefix: Seq<char>, ticket_id: Seq<char>, summary: Seq<char>)
    requires
        is_ticket_id(ticket_id),
        !prefix.contains('/') || ticket_in_branch(prefix) == Some(ticket_id),
    ensures
        ticket_in_branch(branch_name(prefix, ticket_id, lowercased(summary))) == Some(ticket_id),
{
    let words = slug(lowercased(summary));
    let name = branch_name(prefix, ticket_id, lowercased(summary));
    let more = if words.len() == 0 {
        Seq::<char>::empty()
    } else {
        seq!['/'] + words
    };
    assert(name =~= prefix + seq!['/'] + ticket_id + more);
    if prefix.contains('/') {
        assert(name =~= prefix + seq!['/'] + (ticket_id + more));
        lemma_slash_in_prefix(prefix, ticket_id + more);
    } else {
        lemma_ticket_id_shape(ticket_id);
        lemma_second_segment(prefix, ticket_id, more);
    }
}

/// With a `/` in the prefix, reading back the name made for a ticket gives
/// what the prefix carries, whatever the ticket is.
pub proof fn lemma_round_trip_lost(prefix: Seq<char>, ticket_id: Seq<char>, summary: Seq<char>)
    requires
        prefix.contains('/'),
    ensures
        ticket_in_branch(branch_name(prefix, ticket_id, lowercased(summary))) == ticket_in_branch(
            prefix,
        ),
{
    let words = slug(lowercased(summary));
    let name = branch_name(prefix, ticket_id, lowercased(summary));
    if words.len() == 0 {
        assert(name =~= prefix + seq!['/'] + ticket_id);
        lemma_slash_in_prefix(prefix, ticket_id);
    } else {
        assert(name =~= prefix + seq!['/'] + (ticket_id + seq!['/'] + words));
        lemma_slash_in_prefix(prefix, ticket_id + seq!['/'] + words);
    }
}

/// Every slug word is kept, and is made of letters and digits only.
pub proof fn lemma_slug_words_clean(pieces: Seq<Seq<char>>)
    ensures
        forall|i: int|
            0 <= i < pieces.filter_map(to_slug_word()).len() ==> {
                let word = #[trigger] pieces.filter_map(to_slug_word())[i];
                &&& is_kept(word)
                &&& forall|j: int| 0 <= j < word.len() ==> is_word_char(#[trigger] word[j])
            },
    decreases pieces.len(),
{
    if pieces.len() > 0 {
        lemma_slug_words_clean(pieces.drop_last());
        lemma_close_piece(pieces);
        let last = clean(pieces.last());
        assert forall|j: int| 0 <= j < last.len() implies is_word_char(#[trigger] last[j]) by {
            pieces.last().lemma_filter_pred(word_char(), j);
        }
    }
}

/// A slug splits at `_` into the words it was joined from: the first
/// [`MAX_SLUG_WORDS`] slug words of the summary, in their order.
pub proof fn lemma_slug_splits_back(lowered: Seq<char>)
    requires
        slug_words(lowered).len() >= 1,
    ensures
        split(slug(lowered), is_char('_')) == leading(slug_words(lowered)),
        slug(lowered).len() > 0,
{
    let words = slug_words(lowered);
    let first = leading(words);
    lemma_slug_words_clean(split(lowered, separator()));
    assert forall|i: int| 0 <= i < first.len() implies !(#[trigger] first[i]).contains('_') by {
        assert(first[i] == words[i]);
        if first[i].contains('_') {
            let j = choose|j: int| 0 <= j < first[i].len() && first[i][j] == '_';
            assert(is_word_char(first[i][j]));
        }
    }
    lemma_split_join(first, '_');
    lemma_first_word_in_slug(first);
}

/// What is joined is at least as long as its first part.
proof fn lemma_first_word_in_slug(parts: Seq<Seq<char>>)
    requires
        parts.len() >= 1,
    ensures
        join(parts, seq!['_']).len() >= parts[0].len(),
    decreases parts.len(),
{
    if parts.len() > 1 {
        lemma_first_word_in_slug(parts.drop_last());
    }
}

/// A summary with more than [`MAX_SLUG_WORDS`] slug words gives a slug of
/// exactly that many words: the first ones, in their order, joined by `_`.
pub proof fn lemma_slug_truncation(summary: Seq<char>)
    requires
        slug_words(lowercased(summary)).len() > MAX_SLUG_WORDS,
    ensures
        slug(lowercased(summary)) == join(
            slug_words(lowercased(summary)).take(MAX_SLUG_WORDS as int),
            seq!['_'],
        ),
        split(slug(lowercased(summary)), is_char('_')) == slug_words(lowercased(summary)).take(
            MAX_SLUG_WORDS as int,
        ),
        split(slug(lowercased(summary)), is_char('_')).len() == MAX_SLUG_WORDS,
{
    lemma_slug_splits_back(lowercased(summary));
}

/// Words after the first [`MAX_SLUG_WORDS`] add nothing to a slug: two
/// summaries that agree on those first words have the same slug.
pub proof fn lemma_slug_ignores_later_words(one: Seq<char>, other: Seq<char>)
    requires
        slug_words(lowercased(one)).len() >= MAX_SLUG_WORDS,
        slug_words(lowercased(other)).len() >= MAX_SLUG_WORDS,
        slug_words(lowercased(one)).take(MAX_SLUG_WORDS as int) == slug_words(
            lowercased(other),
        ).take(MAX_SLUG_WORDS as int),
    ensures
        slug(lowercased(one)) == slug(lowercased(other)),
{
    let a = slug_words(lowercased(one));
    let b = slug_words(lowercased(other));
    assert(leading(a) =~= a.take(MAX_SLUG_WORDS as int));
    assert(leading(b) =~= b.take(MAX_SLUG_WORDS as int));
}

/// A summary without slug words gives the name `prefix/ticket_id`, with no
/// third segment and no `/` at the end; any other summary gives a longer name.
pub proof fn lemma_empty_slug(prefix: Seq<char>, ticket_id: Seq<char>, summary: Seq<char>)
    ensures
        slug_words(lowercased(summary)).len() == 0 <==> branch_name(
            prefix,
            ticket_id,
            lowercased(summary),
        ) == prefix + seq!['/'] + ticket_id,
        slug_words(lowercased(summary)).len() == 0 && !prefix.contains('/') && !ticket_id.contains(
            '/',
        ) ==> split(branch_name(prefix, ticket_id, lowercased(summary)), is_char('/')) == seq![
            prefix,
            ticket_id,
        ],
{
    let lowered = lowercased(summary);
    let short = prefix + seq!['/'] + ticket_id;
    if slug_words(lowered).len() == 0 {
        assert(slug(lowered).len() == 0);
        if !prefix.contains('/') && !ticket_id.contains('/') {
            let parts = seq![prefix, ticket_id];
            assert(parts.drop_last() =~= seq![prefix]);
            assert(join(parts.drop_last(), seq!['/']) == prefix);
            assert(join(parts, seq!['/']) == short);
            lemma_split_join(parts, '/');
        }
    } else {
        lemma_slug_splits_back(lowered);
        assert(branch_name(prefix, ticket_id, lowered).len() > short.len());
    }
}

} // verus!
