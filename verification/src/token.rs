//! The grammar of generator tokens.
//!
//! A token is one of
//!
//! * the name of a generator of the registry, such as `address.cityName`;
//! * `ref.` followed by the name of a collection: one of the identifiers that
//!   were allotted to that collection;
//! * `from.` followed by literals with `|` between them: one of the literals.
//!
//! What follows `ref.` or `from.` ends at the next dot, if there is one.
//! Every other text is no token.

use crate::registry::{find_generator, registry, Generator};
use vstd::prelude::*;
use vstd::string::{StrSliceExecFns, StringExecFns};

verus! {

/// What a token asks for.
pub enum Token {
    /// A value of a generator of the registry.
    Scalar(Generator),
    /// An identifier of the named collection.
    Reference(Seq<char>),
    /// One of the literals of the list, which is still unsplit.
    Choice(Seq<char>),
    /// The text is no token.
    Unknown,
}

/// What a token asks for, as parsing hands it out.
#[derive(Debug, PartialEq, Eq)]
pub enum ParsedToken {
    /// A value of a generator of the registry.
    Scalar(Generator),
    /// An identifier of the named collection.
    Reference(String),
    /// One of the literals of the list, which is still unsplit.
    Choice(String),
    /// The text is no token.
    Unknown,
}

impl View for ParsedToken {
    type V = Token;

    open spec fn view(&self) -> Token {
        match self {
            ParsedToken::Scalar(generator) => Token::Scalar(*generator),
            ParsedToken::Reference(name) => Token::Reference(name@),
            ParsedToken::Choice(list) => Token::Choice(list@),
            ParsedToken::Unknown => Token::Unknown,
        }
    }
}

/// `text` begins with `prefix`.
pub open spec fn has_prefix(text: Seq<char>, prefix: Seq<char>) -> bool {
    prefix.len() <= text.len() && text.subrange(0, prefix.len() as int) == prefix
}

/// The position of the first `wanted` in `text` at or after `from`, or the
/// length of `text` where there is none.
pub open spec fn find_char(text: Seq<char>, wanted: char, from: int) -> int
    decreases text.len() - from,
{
    if from < 0 || from >= text.len() {
        text.len() as int
    } else if text[from] == wanted {
        from
    } else {
        find_char(text, wanted, from + 1)
    }
}

/// The part of `text` that begins at `from` and ends before the next dot.
pub open spec fn segment_from(text: Seq<char>, from: int) -> Seq<char> {
    text.subrange(from, find_char(text, '.', from))
}

/// What `token` asks for.
pub open spec fn parse(token: Seq<char>) -> Token {
    match registry(token) {
        Some(generator) => Token::Scalar(generator),
        None => if has_prefix(token, "ref."@) {
            Token::Reference(segment_from(token, 4))
        } else if has_prefix(token, "from."@) {
            Token::Choice(segment_from(token, 5))
        } else {
            Token::Unknown
        },
    }
}

/// The pieces of `text` between its separators, in order. A text with `n`
/// separators has `n + 1` pieces, of which any may be empty.
pub open spec fn split(text: Seq<char>, separator: char) -> Seq<Seq<char>>
    decreases text.len(),
{
    if text.len() == 0 {
        seq![Seq::<char>::empty()]
    } else {
        let before = split(text.drop_last(), separator);
        if text.last() == separator {
            before.push(Seq::<char>::empty())
        } else {
            before.drop_last().push(before.last().push(text.last()))
        }
    }
}

/// The literals that a list holds: none where the list is empty, else its
/// pieces between the `|`.
pub open spec fn literals(list: Seq<char>) -> Seq<Seq<char>> {
    if list.len() == 0 {
        Seq::<Seq<char>>::empty()
    } else {
        split(list, '|')
    }
}

/// Each text of `texts` by its characters.
pub open spec fn texts_view(texts: Seq<String>) -> Seq<Seq<char>> {
    Seq::new(texts.len(), |i: int| texts[i]@)
}

/// A text always has a first piece.
pub proof fn lemma_split_is_inhabited(text: Seq<char>, separator: char)
    ensures
        split(text, separator).len() >= 1,
    decreases text.len(),
{
    if text.len() > 0 {
        lemma_split_is_inhabited(text.drop_last(), separator);
    }
}

/// `find_char` stops at the first `wanted` at or after `from`: there is none
/// before the position it gives, and one at that position unless the text
/// has ended.
pub proof fn lemma_find_char_finds_the_first(text: Seq<char>, wanted: char, from: int)
    requires
        0 <= from <= text.len(),
    ensures
        from <= find_char(text, wanted, from) <= text.len(),
        forall|i: int| from <= i < find_char(text, wanted, from) ==> text[i] != wanted,
        find_char(text, wanted, from) < text.len() ==> text[find_char(text, wanted, from)]
            == wanted,
    decreases text.len() - from,
{
    if from < text.len() && text[from] != wanted {
        lemma_find_char_finds_the_first(text, wanted, from + 1);
    }
}

/// `pieces` put together again, with a separator between each two.
pub open spec fn join(pieces: Seq<Seq<char>>, separator: char) -> Seq<char>
    decreases pieces.len(),
{
    if pieces.len() == 0 {
        Seq::<char>::empty()
    } else if pieces.len() == 1 {
        pieces[0]
    } else {
        join(pieces.drop_last(), separator) + seq![separator] + pieces.last()
    }
}

/// The pieces of a text hold no separator, and put together again they are
/// the text.
pub proof fn lemma_split_then_join(text: Seq<char>, separator: char)
    ensures
        join(split(text, separator), separator) == text,
        forall|i: int|
            0 <= i < split(text, separator).len() ==> !(#[trigger] split(
                text,
                separator,
            )[i]).contains(separator),
    decreases text.len(),
{
    let pieces = split(text, separator);
    if text.len() == 0 {
        assert(pieces[0] =~= text);
    } else {
        let shorter = text.drop_last();
        let before = split(shorter, separator);
        lemma_split_then_join(shorter, separator);
        lemma_split_is_inhabited(shorter, separator);
        assert(text =~= shorter.push(text.last()));
        if text.last() == separator {
            assert(pieces.drop_last() =~= before);
            assert(join(pieces, separator) =~= shorter + seq![separator] + Seq::<char>::empty());
            assert(join(pieces, separator) =~= text);
            assert forall|i: int| 0 <= i < pieces.len() implies !(#[trigger] pieces[i]).contains(
                separator,
            ) by {
                if i < before.len() {
                    assert(pieces[i] == before[i]);
                }
            }
        } else {
            let grown = before.last().push(text.last());
            if before.len() == 1 {
                assert(before.last() == before[0]);
                assert(join(pieces, separator) =~= text);
            } else {
                assert(pieces.drop_last() =~= before.drop_last());
                assert(join(pieces, separator) =~= (join(before.drop_last(), separator)
                    + seq![separator] + before.last()).push(text.last()));
                assert(join(pieces, separator) =~= text);
            }
            assert forall|i: int| 0 <= i < pieces.len() implies !(#[trigger] pieces[i]).contains(
                separator,
            ) by {
                if i < before.len() - 1 {
                    assert(pieces[i] == before[i]);
                } else {
                    assert(pieces[i] == grown);
                    assert(!before[before.len() - 1].contains(separator));
                    if grown.contains(separator) {
                        let k = choose|k: int| 0 <= k < grown.len() && grown[k] == separator;
                        assert(before.last()[k] == separator);
                    }
                }
            }
        }
    }
}

/// A list has no literal exactly when it is empty.
pub proof fn lemma_literals_empty(list: Seq<char>)
    ensures
        literals(list).len() == 0 <==> list.len() == 0,
{
    lemma_split_is_inhabited(list, '|');
}

/// Whether `text` begins with `prefix`.
pub fn starts_with(text: &str, prefix: &str) -> (found: bool)
    ensures
        found == has_prefix(text@, prefix@),
{
    let wanted = prefix.unicode_len();
    if text.unicode_len() < wanted {
        return false;
    }
    let mut i: usize = 0;
    while i < wanted
        invariant
            i <= wanted,
            wanted == prefix@.len(),
            wanted <= text@.len(),
            forall|j: int| 0 <= j < i ==> text@[j] == prefix@[j],
        decreases wanted - i,
    {
        if text.get_char(i) != prefix.get_char(i) {
            assert(text@.subrange(0, wanted as int)[i as int] != prefix@[i as int]);
            return false;
        }
        i += 1;
    }
    assert(text@.subrange(0, wanted as int) =~= prefix@);
    true
}

/// The part of `text` that begins at `from` and ends before the next dot.
fn take_segment(text: &str, from: usize) -> (segment: String)
    requires
        from <= text@.len(),
    ensures
        segment@ == segment_from(text@, from as int),
{
    let length = text.unicode_len();
    let mut end: usize = from;
    while end < length && text.get_char(end) != '.'
        invariant
            from <= end <= length,
            length == text@.len(),
            find_char(text@, '.', from as int) == find_char(text@, '.', end as int),
        decreases length - end,
    {
        end += 1;
    }
    String::from_str(text.substring_char(from, end))
}

/// Parses `token`.
pub fn parse_token(token: &str) -> (parsed: ParsedToken)
    ensures
        parsed@ == parse(token@),
{
    proof {
        reveal_strlit("ref.");
        reveal_strlit("from.");
    }
    match find_generator(token) {
        Some(generator) => ParsedToken::Scalar(generator),
        None => if starts_with(token, "ref.") {
            ParsedToken::Reference(take_segment(token, 4))
        } else if starts_with(token, "from.") {
            ParsedToken::Choice(take_segment(token, 5))
        } else {
            ParsedToken::Unknown
        },
    }
}

/// Splits a list into its literals.
pub fn split_literals(list: &str) -> (pieces: Vec<String>)
    ensures
        texts_view(pieces@) == literals(list@),
{
    let length = list.unicode_len();
    let mut pieces: Vec<String> = Vec::new();
    if length == 0 {
        assert(texts_view(pieces@) =~= literals(list@));
        return pieces;
    }
    let mut start: usize = 0;
    let mut i: usize = 0;
    assert(list@.subrange(0, 0) =~= Seq::<char>::empty());
    assert(texts_view(pieces@).push(Seq::<char>::empty()) =~= seq![Seq::<char>::empty()]);
    while i < length
        invariant
            start <= i <= length,
            length == list@.len(),
            split(list@.subrange(0, i as int), '|') == texts_view(pieces@).push(
                list@.subrange(start as int, i as int),
            ),
        decreases length - i,
    {
        let ghost done = list@.subrange(0, i as int);
        let ghost next = list@.subrange(0, i + 1);
        let ghost shown = texts_view(pieces@);
        assert(next.drop_last() =~= done);
        assert(next.last() == list@[i as int]);
        if list.get_char(i) == '|' {
            pieces.push(String::from_str(list.substring_char(start, i)));
            assert(texts_view(pieces@) =~= shown.push(list@.subrange(start as int, i as int)));
            start = i + 1;
            assert(list@.subrange(start as int, i + 1) =~= Seq::<char>::empty());
        } else {
            assert(shown.push(list@.subrange(start as int, i as int)).drop_last() =~= shown);
            assert(list@.subrange(start as int, i as int).push(list@[i as int])
                =~= list@.subrange(start as int, i + 1));
        }
        i += 1;
    }
    let ghost shown = texts_view(pieces@);
    pieces.push(String::from_str(list.substring_char(start, length)));
    assert(list@.subrange(0, length as int) =~= list@);
    assert(texts_view(pieces@) =~= shown.push(list@.subrange(start as int, length as int)));
    pieces
}

} // verus!
