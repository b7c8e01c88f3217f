//! Cleaning of media titles: a title is cut at its first delimiter, freed of
//! surrounding whitespace, and has every ampersand spelled out.
//!
//! Which characters are whitespace is for the standard library to say. The
//! cleaning itself works on characters that carry that answer with them, so
//! that it is defined, and can be tried, apart from it.

use vstd::prelude::*;
use vstd::string::StringExecFns;

verus! {

/// Whether `c` counts as whitespace: the answer of `char::is_whitespace`,
/// which goes by the Unicode property `White_Space`.
pub uninterp spec fn is_whitespace(c: char) -> bool;

/// `char::is_whitespace` of the standard library. Its answer for a given
/// character is fixed by the Unicode tables; the contract gives that answer
/// a name and claims nothing about which characters it holds for.
pub assume_specification[ char::is_whitespace ](c: char) -> (blank: bool)
    ensures
        blank == is_whitespace(c),
;

/// `String::push` of the standard library, which appends one character to
/// the end of the string and leaves the rest as it was.
pub assume_specification[ std::string::String::push ](text: &mut std::string::String, c: char)
    ensures
        final(text)@ == old(text)@.push(c),
;

/// A character of a title, marked as whitespace or not.
#[derive(Clone, Copy, Debug, PartialEq, Eq)]
pub struct Mark {
    pub symbol: char,
    pub blank: bool,
}

impl Mark {
    /// The character `symbol`, marked with what the standard library says
    /// of it.
    pub open spec fn spec_of(symbol: char) -> Mark {
        Mark { symbol, blank: is_whitespace(symbol) }
    }

    /// Marks `symbol` with what the standard library says of it.
    pub fn of(symbol: char) -> (mark: Mark)
        ensures
            mark == Mark::spec_of(symbol),
    {
        Mark { symbol, blank: symbol.is_whitespace() }
    }
}

/// Whether `c` ends the part of a title that is kept.
pub open spec fn is_delimiter(c: char) -> bool {
    c == '-' || c == '|' || c == '/'
}

/// The position of the first delimiter in `text`, or the length of `text`
/// where it holds none.
pub open spec fn first_delimiter(text: Seq<Mark>) -> int
    decreases text.len(),
{
    if text.len() == 0 || is_delimiter(text.first().symbol) {
        0
    } else {
        1 + first_delimiter(text.drop_first())
    }
}

/// The number of whitespace characters that `text` begins with.
pub open spec fn leading_blanks(text: Seq<Mark>) -> int
    decreases text.len(),
{
    if text.len() == 0 || !text.first().blank {
        0
    } else {
        1 + leading_blanks(text.drop_first())
    }
}

/// The number of whitespace characters that `text` ends with.
pub open spec fn trailing_blanks(text: Seq<Mark>) -> int
    decreases text.len(),
{
    if text.len() == 0 || !text.last().blank {
        0
    } else {
        1 + trailing_blanks(text.drop_last())
    }
}

/// `text` up to its first delimiter.
pub open spec fn before_delimiter(text: Seq<Mark>) -> Seq<Mark> {
    text.take(first_delimiter(text))
}

/// `text` without the whitespace it begins and ends with.
pub open spec fn trimmed(text: Seq<Mark>) -> Seq<Mark> {
    let rest = text.skip(leading_blanks(text));
    rest.take(rest.len() - trailing_blanks(rest))
}

/// What a character of the title becomes: an ampersand turns into the word
/// `and`, every other character stays.
pub open spec fn spelling(c: char) -> Seq<char> {
    if c == '&' {
        seq!['a', 'n', 'd']
    } else {
        seq![c]
    }
}

/// The characters of `text`, with every ampersand replaced by the word
/// `and`.
pub open spec fn spelled_out(text: Seq<Mark>) -> Seq<char>
    decreases text.len(),
{
    if text.len() == 0 {
        Seq::empty()
    } else {
        spelled_out(text.drop_last()) + spelling(text.last().symbol)
    }
}

/// The clean form of a raw title: what stands before its first delimiter,
/// trimmed, with its ampersands spelled out.
pub open spec fn cleaned(raw: Seq<Mark>) -> Seq<char> {
    spelled_out(trimmed(before_delimiter(raw)))
}

/// The characters of `text`, each marked with what the standard library
/// says of it.
pub open spec fn marked(text: Seq<char>) -> Seq<Mark> {
    Seq::new(text.len(), |i: int| Mark::spec_of(text[i]))
}

/// If no delimiter stands before position `n`, and `n` is the end of the
/// text or holds a delimiter, then `n` is the position of the first
/// delimiter.
proof fn lemma_first_delimiter_is(text: Seq<Mark>, n: int)
    requires
        0 <= n <= text.len(),
        forall|i: int| 0 <= i < n ==> !is_delimiter(text[i].symbol),
        n < text.len() ==> is_delimiter(text[n].symbol),
    ensures
        first_delimiter(text) == n,
    decreases n,
{
    if n > 0 {
        lemma_first_delimiter_is(text.drop_first(), n - 1);
    }
}

/// If the first `n` characters are whitespace, and position `n` is the end
/// of the text or holds another character, the text begins with `n`
/// whitespace characters.
proof fn lemma_leading_blanks_is(text: Seq<Mark>, n: int)
    requires
        0 <= n <= text.len(),
        forall|i: int| 0 <= i < n ==> text[i].blank,
        n < text.len() ==> !text[n].blank,
    ensures
        leading_blanks(text) == n,
    decreases n,
{
    if n > 0 {
        lemma_leading_blanks_is(text.drop_first(), n - 1);
    }
}

/// If the last `n` characters are whitespace, and the one before them is
/// the start of the text or another character, the text ends with `n`
/// whitespace characters.
proof fn lemma_trailing_blanks_is(text: Seq<Mark>, n: int)
    requires
        0 <= n <= text.len(),
        forall|i: int| text.len() - n <= i < text.len() ==> text[i].blank,
        n < text.len() ==> !text[text.len() - n - 1].blank,
    ensures
        trailing_blanks(text) == n,
    decreases n,
{
    if n > 0 {
        lemma_trailing_blanks_is(text.drop_last(), n - 1);
    }
}

/// Spelling out never shortens a text.
proof fn lemma_spelled_out_is_no_shorter(text: Seq<Mark>)
    ensures
        spelled_out(text).len() >= text.len(),
    decreases text.len(),
{
    if text.len() > 0 {
        lemma_spelled_out_is_no_shorter(text.drop_last());
    }
}

/// The first delimiter stands within the text or at its end, and no
/// delimiter stands before it.
pub proof fn lemma_first_delimiter_is_first(text: Seq<Mark>)
    ensures
        0 <= first_delimiter(text) <= text.len(),
        forall|i: int| 0 <= i < first_delimiter(text) ==> !is_delimiter(text[i].symbol),
        first_delimiter(text) < text.len() ==> is_delimiter(text[first_delimiter(text)].symbol),
    decreases text.len(),
{
    if text.len() > 0 && !is_delimiter(text.first().symbol) {
        let rest = text.drop_first();
        lemma_first_delimiter_is_first(rest);
        assert forall|i: int| 0 <= i < first_delimiter(text) implies !is_delimiter(
            text[i].symbol,
        ) by {
            if i > 0 {
                assert(text[i] == rest[i - 1]);
            }
        }
        if first_delimiter(text) < text.len() {
            assert(text[first_delimiter(text)] == rest[first_delimiter(rest)]);
        }
    }
}

/// The whitespace that a text begins with is counted in full: every
/// character counted is whitespace, and the one after them is not.
pub proof fn lemma_leading_blanks_are_blank(text: Seq<Mark>)
    ensures
        0 <= leading_blanks(text) <= text.len(),
        forall|i: int| 0 <= i < leading_blanks(text) ==> text[i].blank,
        leading_blanks(text) < text.len() ==> !text[leading_blanks(text)].blank,
    decreases text.len(),
{
    if text.len() > 0 && text.first().blank {
        let rest = text.drop_first();
        lemma_leading_blanks_are_blank(rest);
        assert forall|i: int| 0 <= i < leading_blanks(text) implies text[i].blank by {
            if i > 0 {
                assert(text[i] == rest[i - 1]);
            }
        }
        if leading_blanks(text) < text.len() {
            assert(text[leading_blanks(text)] == rest[leading_blanks(rest)]);
        }
    }
}

/// The whitespace that a text ends with is counted in full: every
/// character counted is whitespace, and the one before them is not.
pub proof fn lemma_trailing_blanks_are_blank(text: Seq<Mark>)
    ensures
        0 <= trailing_blanks(text) <= text.len(),
        forall|i: int| text.len() - trailing_blanks(text) <= i < text.len() ==> text[i].blank,
        trailing_blanks(text) < text.len() ==> !text[text.len() - trailing_blanks(text) - 1].blank,
    decreases text.len(),
{
    if text.len() > 0 && text.last().blank {
        let rest = text.drop_last();
        lemma_trailing_blanks_are_blank(rest);
        assert forall|i: int|
            text.len() - trailing_blanks(text) <= i < text.len() implies text[i].blank by {
            if i < text.len() - 1 {
                assert(text[i] == rest[i]);
            }
        }
        if trailing_blanks(text) < text.len() {
            assert(text[text.len() - trailing_blanks(text) - 1] == rest[rest.len()
                - trailing_blanks(rest) - 1]);
        }
    }
}

/// A trimmed text is a stretch of the text it was made from, and it neither
/// begins nor ends with whitespace.
pub proof fn lemma_trimmed_has_no_blank_ends(text: Seq<Mark>)
    ensures
        trimmed(text).len() > 0 ==> !trimmed(text).first().blank && !trimmed(text).last().blank,
        exists|from: int, to: int|
            0 <= from <= to <= text.len() && trimmed(text) == text.subrange(from, to),
{
    lemma_leading_blanks_are_blank(text);
    let rest = text.skip(leading_blanks(text));
    lemma_trailing_blanks_are_blank(rest);
    let from = leading_blanks(text);
    let to = text.len() - trailing_blanks(rest);
    assert(trimmed(text) =~= text.subrange(from, to));
    if trimmed(text).len() > 0 {
        assert(trimmed(text).first() == rest[0]);
        assert(trimmed(text).last() == rest[rest.len() - trailing_blanks(rest) - 1]);
    }
}

/// Spelling out leaves no ampersand behind, and brings in no delimiter.
pub proof fn lemma_spelled_out_is_plain(text: Seq<Mark>)
    requires
        forall|i: int| 0 <= i < text.len() ==> !is_delimiter(text[i].symbol),
    ensures
        forall|i: int|
            0 <= i < spelled_out(text).len() ==> spelled_out(text)[i] != '&' && !is_delimiter(
                spelled_out(text)[i],
            ),
    decreases text.len(),
{
    if text.len() > 0 {
        let front = spelled_out(text.drop_last());
        let back = spelling(text.last().symbol);
        lemma_spelled_out_is_plain(text.drop_last());
        assert forall|i: int| 0 <= i < spelled_out(text).len() implies spelled_out(text)[i] != '&'
            && !is_delimiter(spelled_out(text)[i]) by {
            if i < front.len() {
                assert(spelled_out(text)[i] == front[i]);
            } else {
                assert(spelled_out(text)[i] == back[i - front.len()]);
            }
        }
    }
}

/// A text without an ampersand is spelled out as its own characters.
pub proof fn lemma_spelled_out_without_ampersand(text: Seq<Mark>)
    requires
        forall|i: int| 0 <= i < text.len() ==> text[i].symbol != '&',
    ensures
        spelled_out(text) == text.map_values(|mark: Mark| mark.symbol),
    decreases text.len(),
{
    let symbols = text.map_values(|mark: Mark| mark.symbol);
    if text.len() > 0 {
        lemma_spelled_out_without_ampersand(text.drop_last());
        assert(text.drop_last().map_values(|mark: Mark| mark.symbol).push(text.last().symbol)
            =~= symbols);
    } else {
        assert(spelled_out(text) =~= symbols);
    }
}

/// A clean title holds neither a delimiter nor an ampersand.
pub proof fn lemma_clean_title_is_plain(raw: Seq<Mark>)
    ensures
        forall|i: int|
            0 <= i < cleaned(raw).len() ==> cleaned(raw)[i] != '&' && !is_delimiter(
                cleaned(raw)[i],
            ),
{
    lemma_first_delimiter_is_first(raw);
    let segment = before_delimiter(raw);
    lemma_trimmed_has_no_blank_ends(segment);
    lemma_spelled_out_is_plain(trimmed(segment));
}

/// A raw title made of nothing but delimiters and whitespace has an empty
/// clean form.
pub proof fn lemma_blank_title_cleans_to_nothing(raw: Seq<Mark>)
    requires
        forall|i: int| 0 <= i < raw.len() ==> is_delimiter(raw[i].symbol) || raw[i].blank,
    ensures
        cleaned(raw).len() == 0,
{
    lemma_first_delimiter_is_first(raw);
    let segment = before_delimiter(raw);
    lemma_leading_blanks_is(segment, segment.len() as int);
}

/// A raw title in which the standard library finds nothing but delimiters
/// and whitespace has an empty clean form.
pub proof fn lemma_blank_text_cleans_to_nothing(raw: Seq<char>)
    requires
        forall|i: int| 0 <= i < raw.len() ==> is_delimiter(raw[i]) || is_whitespace(raw[i]),
    ensures
        cleaned(marked(raw)).len() == 0,
{
    lemma_blank_title_cleans_to_nothing(marked(raw));
}

/// A raw title that holds no delimiter and has no whitespace around it is
/// kept whole, with its ampersands spelled out.
pub proof fn lemma_plain_title_is_kept(raw: Seq<Mark>)
    requires
        forall|i: int| 0 <= i < raw.len() ==> !is_delimiter(raw[i].symbol),
        raw.len() > 0 ==> !raw.first().blank && !raw.last().blank,
    ensures
        cleaned(raw) == spelled_out(raw),
{
    lemma_first_delimiter_is(raw, raw.len() as int);
    assert(before_delimiter(raw) =~= raw);
    lemma_leading_blanks_is(raw, 0);
    assert(raw.skip(0) =~= raw);
    lemma_trailing_blanks_is(raw, 0);
    assert(trimmed(raw) =~= raw);
}

/// Cleans a title whose characters are marked: keeps what stands before the
/// first of the delimiters `-`, `|` and `/`, drops the characters marked as
/// whitespace around it, and writes `and` for every `&`. Gives `None` where
/// nothing is left.
pub fn clean_marked(raw: &Vec<Mark>) -> (title: Option<String>)
    ensures
        cleaned(raw@).len() == 0 ==> title is None,
        cleaned(raw@).len() > 0 ==> title is Some && title->0@ == cleaned(raw@),
{
    let mut cut: usize = 0;
    while cut < raw.len() && !(raw[cut].symbol == '-' || raw[cut].symbol == '|' || raw[cut].symbol
        == '/')
        invariant
            cut <= raw.len(),
            forall|i: int| 0 <= i < cut ==> !is_delimiter(raw@[i].symbol),
        decreases raw.len() - cut,
    {
        cut = cut + 1;
    }
    let mut start: usize = 0;
    while start < cut && raw[start].blank
        invariant
            start <= cut <= raw.len(),
            forall|i: int| 0 <= i < start ==> raw@[i].blank,
        decreases cut - start,
    {
        start = start + 1;
    }
    let mut end: usize = cut;
    while end > start && raw[end - 1].blank
        invariant
            start <= end <= cut <= raw.len(),
            forall|i: int| end <= i < cut ==> raw@[i].blank,
        decreases end,
    {
        end = end - 1;
    }
    let ghost kept = raw@.subrange(start as int, end as int);
    proof {
        let segment = before_delimiter(raw@);
        lemma_first_delimiter_is(raw@, cut as int);
        assert(segment =~= raw@.take(cut as int));
        lemma_leading_blanks_is(segment, start as int);
        let rest = segment.skip(start as int);
        lemma_trailing_blanks_is(rest, cut - end);
        assert(trimmed(segment) =~= kept);
        lemma_spelled_out_is_no_shorter(kept);
    }
    if start == end {
        return None;
    }
    let mut title: String = String::new();
    let mut index: usize = start;
    while index < end
        invariant
            start <= index <= end <= raw.len(),
            kept == raw@.subrange(start as int, end as int),
            title@ == spelled_out(kept.take(index - start)),
        decreases end - index,
    {
        let c: char = raw[index].symbol;
        proof {
            let done = kept.take(index - start + 1);
            assert(done.drop_last() =~= kept.take(index - start));
            assert(done.last().symbol == c);
            reveal_strlit("and");
            assert("and"@ =~= seq!['a', 'n', 'd']);
        }
        if c == '&' {
            title.append("and");
        } else {
            title.push(c);
        }
        index = index + 1;
    }
    assert(kept.take(end - start) =~= kept);
    Some(title)
}

/// Marks every character of `text` with what the standard library says of
/// it.
pub fn mark(text: &str) -> (marks: Vec<Mark>)
    ensures
        marks@ == marked(text@),
{
    let mut marks: Vec<Mark> = Vec::new();
    for c in it: text.chars()
        invariant
            it.seq() == text@,
            marks@.len() == it.index(),
            marks@ =~= marked(text@).take(it.index()),
    {
        marks.push(Mark::of(c));
    }
    marks
}

/// Cleans a raw media title: keeps what stands before the first of the
/// delimiters `-`, `|` and `/`, drops the whitespace around it, and writes
/// `and` for every `&`. Gives `None` where nothing is left.
pub fn clean_title(raw: &str) -> (title: Option<String>)
    ensures
        cleaned(marked(raw@)).len() == 0 ==> title is None,
        cleaned(marked(raw@)).len() > 0 ==> title is Some && title->0@ == cleaned(marked(raw@)),
{
    let marks: Vec<Mark> = mark(raw);
    clean_marked(&marks)
}

} // verus!
