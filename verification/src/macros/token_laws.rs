//! What holds of the search for literals that `syn` does not know.

use super::tokens::{
    calls_macro, defines_macro, find_unknown_in_args, find_unknown_in_attribute,
    find_unknown_in_item, is_boolean, is_keyword, is_number_at, is_punct, is_separator,
    opens_params, opens_verbatim, reached, starts_path, unknown_from, unknown_in_args,
    unknown_in_item, Bracket, Place, Token, TokenView,
};
use vstd::prelude::*;

verus! {

/// Whether a literal starts as strings, byte strings, bytes, characters and numbers do.
pub open spec fn starts_as_known(literal: Seq<char>) -> bool {
    literal.len() > 0 && (literal[0] == '"' || literal[0] == 'r' || literal[0] == 'b'
        || literal[0] == '\'' || '0' <= literal[0] <= '9')
}

proof fn lemma_unknown_from(tokens: Seq<TokenView>, i: int, depth: nat, defining: bool)
    requires
        0 <= i,
    ensures
        unknown_from(tokens, i, depth, defining) matches Some(text) ==> exists|k: int|
            {
                &&& i <= k < tokens.len()
                &&& #[trigger] tokens[k] == TokenView::Literal(text)
                &&& !starts_as_known(text)
            },
    decreases tokens.len() - i,
{
    if i < tokens.len() {
        let first = tokens[i];
        lemma_unknown_from(tokens, i + 1, depth + 1, defining);
        lemma_unknown_from(tokens, i + 1, depth, depth > 0 && defining);
        lemma_unknown_from(tokens, i + 1, 1, false);
        lemma_unknown_from(tokens, i + 1, 1, opens_params(tokens, i));
        lemma_unknown_from(tokens, i + 1, 0, false);
        if depth > 0 {
            lemma_unknown_from(tokens, i + 1, (depth - 1) as nat, defining);
        }
    }
}

proof fn lemma_reached(tokens: Seq<TokenView>, i: int, depth: nat, place: Place, listed: bool)
    requires
        0 <= i,
    ensures
        reached(tokens, i, depth, place, listed) matches Some(text) ==> exists|k: int|
            {
                &&& i <= k < tokens.len()
                &&& #[trigger] tokens[k] == TokenView::Literal(text)
                &&& !starts_as_known(text)
            },
    decreases tokens.len() - i, place.rank(),
{
    if i < tokens.len() {
        let first = tokens[i];
        let outer = (if depth > 0 {
            depth - 1
        } else {
            0
        }) as nat;
        match place {
            Place::Meta => {
                if is_separator(tokens, i) {
                    lemma_reached(tokens, i + 2, depth, Place::Segment, listed);
                } else {
                    lemma_reached(tokens, i, depth, Place::Segment, listed);
                }
            },
            Place::Segment => {
                lemma_reached(tokens, i + 1, depth, Place::Name, listed);
            },
            Place::Name => {
                if is_separator(tokens, i) {
                    lemma_reached(tokens, i + 2, depth, Place::Segment, listed);
                } else {
                    lemma_reached(tokens, i + 1, depth + 1, Place::Entry, listed);
                    lemma_reached(tokens, i + 1, depth, Place::Value, listed);
                    lemma_reached(tokens, i, depth, Place::Behind, listed);
                }
            },
            Place::Value => {
                lemma_reached(tokens, i + 1, depth, Place::Behind, listed);
                if is_number_at(tokens, i + 1) {
                    lemma_reached(tokens, i + 2, depth, Place::Behind, listed);
                }
            },
            Place::Entry => {
                lemma_reached(tokens, i + 1, outer, Place::Behind, listed);
                lemma_reached(tokens, i, depth, Place::Meta, listed);
                lemma_reached(tokens, i, depth, Place::Value, listed);
            },
            Place::Behind => {
                lemma_reached(tokens, i + 1, outer, Place::Behind, listed);
                lemma_reached(tokens, i + 1, depth, Place::Entry, listed);
            },
        }
    }
}

/// Nothing is refused for a literal that is not there or that is known: what is found
/// is a literal among the tokens, and none that starts as strings, byte strings, bytes,
/// characters and numbers do.
pub proof fn law_found_literals_are_unknown(
    tokens: &Vec<Token>,
    in_item: Option<String>,
    in_args: Option<String>,
    in_attribute: Option<String>,
    found: Seq<char>,
)
    requires
        call_ensures(find_unknown_in_item, (tokens,), in_item),
        call_ensures(find_unknown_in_args, (tokens,), in_args),
        call_ensures(find_unknown_in_attribute, (tokens,), in_attribute),
        in_item.deep_view() == Some(found) || in_args.deep_view() == Some(found)
            || in_attribute.deep_view() == Some(found),
    ensures
        !starts_as_known(found),
        exists|k: int|
            0 <= k < tokens@.len() && (#[trigger] tokens@[k] matches Token::Literal(text) && text@
                == found),
{
    let all = tokens.deep_view();
    lemma_unknown_from(all, 0, 0, false);
    lemma_reached(all, 0, 0, Place::Entry, true);
    lemma_reached(all, 1, 0, Place::Meta, false);
    let k = choose|k: int|
        {
            &&& 0 <= k < all.len()
            &&& #[trigger] all[k] == TokenView::Literal(found)
            &&& !starts_as_known(found)
        };
    assert(all[k] == tokens@[k].deep_view());
    assert(tokens@[k] matches Token::Literal(text) && text@ == found);
}

proof fn lemma_unknown_is_found(tokens: Seq<TokenView>, i: int)
    requires
        0 <= i,
        forall|k: int|
            #![trigger tokens[k]]
            0 <= k < tokens.len() ==> !is_punct(tokens, k, '#') && !is_punct(tokens, k, '!')
                && tokens[k] != TokenView::Ident("macro"@),
        unknown_from(tokens, i, 0, false) is None,
    ensures
        forall|k: int|
            i <= k < tokens.len() ==> (#[trigger] tokens[k] matches TokenView::Literal(text)
                ==> starts_as_known(text)),
    decreases tokens.len() - i,
{
    if i < tokens.len() {
        let first = tokens[i];
        if i >= 1 {
            let before = tokens[i - 1];
        }
        if i >= 2 {
            let before = tokens[i - 2];
        }
        assert(!opens_verbatim(tokens, i));
        lemma_unknown_is_found(tokens, i + 1);
    }
}

/// An item without attributes, macro calls and `macro` items is refused for every
/// literal that is not known: if nothing is found, all its literals start as known ones
/// do.
pub proof fn law_unknown_literals_are_found(tokens: &Vec<Token>, in_item: Option<String>, k: int)
    requires
        call_ensures(find_unknown_in_item, (tokens,), in_item),
        in_item is None,
        forall|j: int|
            0 <= j < tokens@.len() ==> match #[trigger] tokens@[j] {
                Token::Punct(character, _) => character != '#' && character != '!',
                Token::Ident(word) => word@ != "macro"@,
                _ => true,
            },
        0 <= k < tokens@.len(),
        tokens@[k] is Literal,
    ensures
        starts_as_known(tokens@[k]->Literal_0@),
{
    let all = tokens.deep_view();
    assert forall|j: int|
        #![trigger all[j]]
        0 <= j < all.len() implies !is_punct(all, j, '#') && !is_punct(all, j, '!') && all[j]
        != TokenView::Ident("macro"@) by {
        assert(all[j] == tokens@[j].deep_view());
    }
    lemma_unknown_is_found(all, 0);
    assert(all[k] == tokens@[k].deep_view());
}

/// What is read from a place on rests on the tokens from there on alone.
proof fn lemma_reached_shift(
    front: Seq<TokenView>,
    tokens: Seq<TokenView>,
    i: int,
    depth: nat,
    place: Place,
    listed: bool,
)
    requires
        0 <= i,
    ensures
        reached(front + tokens, front.len() + i, depth, place, listed) == reached(
            tokens,
            i,
            depth,
            place,
            listed,
        ),
    decreases tokens.len() - i, place.rank(),
{
    let all = front + tokens;
    let at = front.len() + i;
    if i < tokens.len() {
        assert(all[at] == tokens[i]);
        if i + 1 < tokens.len() {
            assert(all[at + 1] == tokens[i + 1]);
        }
        let outer = (if depth > 0 {
            depth - 1
        } else {
            0
        }) as nat;
        assert(is_separator(all, at) == is_separator(tokens, i));
        assert(is_boolean(all, at) == is_boolean(tokens, i));
        assert(starts_path(all, at) == starts_path(tokens, i));
        assert(is_number_at(all, at + 1) == is_number_at(tokens, i + 1));
        match place {
            Place::Meta => {
                if is_separator(tokens, i) {
                    lemma_reached_shift(front, tokens, i + 2, depth, Place::Segment, listed);
                } else {
                    lemma_reached_shift(front, tokens, i, depth, Place::Segment, listed);
                }
            },
            Place::Segment => {
                lemma_reached_shift(front, tokens, i + 1, depth, Place::Name, listed);
            },
            Place::Name => {
                if is_separator(tokens, i) {
                    lemma_reached_shift(front, tokens, i + 2, depth, Place::Segment, listed);
                } else {
                    lemma_reached_shift(front, tokens, i + 1, depth + 1, Place::Entry, listed);
                    lemma_reached_shift(front, tokens, i + 1, depth, Place::Value, listed);
                    lemma_reached_shift(front, tokens, i, depth, Place::Behind, listed);
                }
            },
            Place::Value => {
                lemma_reached_shift(front, tokens, i + 1, depth, Place::Behind, listed);
                if is_number_at(tokens, i + 1) {
                    lemma_reached_shift(front, tokens, i + 2, depth, Place::Behind, listed);
                }
            },
            Place::Entry => {
                lemma_reached_shift(front, tokens, i + 1, outer, Place::Behind, listed);
                lemma_reached_shift(front, tokens, i, depth, Place::Meta, listed);
                lemma_reached_shift(front, tokens, i, depth, Place::Value, listed);
            },
            Place::Behind => {
                lemma_reached_shift(front, tokens, i + 1, outer, Place::Behind, listed);
                lemma_reached_shift(front, tokens, i + 1, depth, Place::Entry, listed);
            },
        }
    }
}

/// What is come to inside of some lists is come to inside of one more, too.
proof fn lemma_reached_deeper(
    tokens: Seq<TokenView>,
    i: int,
    depth: nat,
    place: Place,
    listed: bool,
)
    requires
        0 <= i,
        reached(tokens, i, depth, place, listed) is Some,
    ensures
        reached(tokens, i, depth + 1, place, listed) == reached(tokens, i, depth, place, listed),
    decreases tokens.len() - i, place.rank(),
{
    let outer = (if depth > 0 {
        depth - 1
    } else {
        0
    }) as nat;
    match place {
        Place::Meta => {
            if is_separator(tokens, i) {
                lemma_reached_deeper(tokens, i + 2, depth, Place::Segment, listed);
            } else {
                lemma_reached_deeper(tokens, i, depth, Place::Segment, listed);
            }
        },
        Place::Segment => {
            lemma_reached_deeper(tokens, i + 1, depth, Place::Name, listed);
        },
        Place::Name => {
            if is_separator(tokens, i) {
                lemma_reached_deeper(tokens, i + 2, depth, Place::Segment, listed);
            } else if tokens[i] == TokenView::Open(Bracket::Round) {
                lemma_reached_deeper(tokens, i + 1, depth + 1, Place::Entry, listed);
            } else if is_punct(tokens, i, '=') {
                lemma_reached_deeper(tokens, i + 1, depth, Place::Value, listed);
            } else {
                lemma_reached_deeper(tokens, i, depth, Place::Behind, listed);
            }
        },
        Place::Value => {
            if reached(tokens, i + 1, depth, Place::Behind, listed) is Some {
                lemma_reached_deeper(tokens, i + 1, depth, Place::Behind, listed);
            }
            if is_number_at(tokens, i + 1) && reached(tokens, i + 2, depth, Place::Behind, listed)
                is Some {
                lemma_reached_deeper(tokens, i + 2, depth, Place::Behind, listed);
            }
        },
        Place::Entry => {
            if tokens[i] is Close {
                lemma_reached_deeper(tokens, i + 1, outer, Place::Behind, listed);
            } else if starts_path(tokens, i) {
                lemma_reached_deeper(tokens, i, depth, Place::Meta, listed);
            } else {
                lemma_reached_deeper(tokens, i, depth, Place::Value, listed);
            }
        },
        Place::Behind => {
            if tokens[i] is Close && depth > 0 {
                lemma_reached_deeper(tokens, i + 1, outer, Place::Behind, listed);
            } else {
                lemma_reached_deeper(tokens, i + 1, depth, Place::Entry, listed);
            }
        },
    }
}

/// In the arguments of an attribute a literal that is not known is come to as the first
/// entry, and as the value of the first entry, whatever stands behind it.
pub proof fn law_first_value_is_read(name: Seq<char>, literal: Seq<char>, behind: Seq<TokenView>)
    requires
        !starts_as_known(literal),
    ensures
        unknown_in_args(seq![TokenView::Literal(literal)] + behind) == Some(literal),
        unknown_in_args(
            seq![
                TokenView::Ident(name),
                TokenView::Punct('=', false),
                TokenView::Literal(literal),
            ] + behind,
        ) == Some(literal),
{
    let one = seq![TokenView::Literal(literal)] + behind;
    assert(one[0] == TokenView::Literal(literal));
    assert(!starts_path(one, 0));
    assert(reached(one, 0, 0, Place::Value, true) == Some(literal));
    let three = seq![
        TokenView::Ident(name),
        TokenView::Punct('=', false),
        TokenView::Literal(literal),
    ] + behind;
    assert(three[0] == TokenView::Ident(name));
    assert(three[1] == TokenView::Punct('=', false));
    assert(three[2] == TokenView::Literal(literal));
    assert(starts_path(three, 0));
    assert(reached(three, 2, 0, Place::Value, true) == Some(literal));
    assert(reached(three, 1, 0, Place::Name, true) == Some(literal));
    assert(reached(three, 0, 0, Place::Segment, true) == Some(literal));
    assert(reached(three, 0, 0, Place::Meta, true) == Some(literal));
}

/// A name alone, in front of other entries, makes no difference.
pub proof fn law_entries_in_front_are_passed(name: Seq<char>, behind: Seq<TokenView>)
    ensures
        unknown_in_args(
            seq![TokenView::Ident(name), TokenView::Punct(',', false)] + behind,
        ) == unknown_in_args(behind),
{
    let front = seq![TokenView::Ident(name), TokenView::Punct(',', false)];
    let all = front + behind;
    assert(all[0] == TokenView::Ident(name));
    assert(all[1] == TokenView::Punct(',', false));
    lemma_reached_shift(front, behind, 0, 0, Place::Entry, true);
    assert(reached(all, 1, 0, Place::Behind, true) == unknown_in_args(behind));
    assert(reached(all, 1, 0, Place::Name, true) == unknown_in_args(behind));
    assert(reached(all, 0, 0, Place::Segment, true) == unknown_in_args(behind));
    assert(reached(all, 0, 0, Place::Meta, true) == unknown_in_args(behind));
    assert(reached(all, 0, 0, Place::Value, true) == if is_boolean(all, 0) {
        unknown_in_args(behind)
    } else {
        None
    });
}

/// What is come to among entries is come to where they stand in a list, too.
pub proof fn law_lists_are_entered(name: Seq<char>, entries: Seq<TokenView>)
    requires
        unknown_in_args(entries) is Some,
        name != "true"@,
        name != "false"@,
    ensures
        unknown_in_args(
            seq![TokenView::Ident(name), TokenView::Open(Bracket::Round)] + entries,
        ) == unknown_in_args(entries),
{
    let front = seq![TokenView::Ident(name), TokenView::Open(Bracket::Round)];
    let all = front + entries;
    assert(all[0] == TokenView::Ident(name));
    assert(all[1] == TokenView::Open(Bracket::Round));
    lemma_reached_deeper(entries, 0, 0, Place::Entry, true);
    lemma_reached_shift(front, entries, 0, 1, Place::Entry, true);
    assert(reached(all, 1, 0, Place::Name, true) == unknown_in_args(entries));
    assert(reached(all, 0, 0, Place::Segment, true) == unknown_in_args(entries));
    assert(reached(all, 0, 0, Place::Meta, true) == unknown_in_args(entries));
}

proof fn lemma_verbatim_is_passed(tokens: Seq<TokenView>, i: int, end: int)
    requires
        0 <= i <= end <= tokens.len(),
        forall|k: int|
            i <= k < end ==> !(#[trigger] tokens[k] is Open) && !(tokens[k] is Close),
    ensures
        unknown_from(tokens, i, 1, false) == unknown_from(tokens, end, 1, false),
    decreases end - i,
{
    if i < end {
        let first = tokens[i];
        lemma_verbatim_is_passed(tokens, i + 1, end);
    }
}

/// Whatever stands in an attribute of an item, or in the arguments of a macro that is
/// called there by a word that is no keyword, makes no difference; it is not read.
pub proof fn law_attributes_and_macro_calls_are_not_read(
    name: Seq<char>,
    bracket: Bracket,
    inner: Seq<TokenView>,
)
    requires
        !is_keyword(name),
        forall|k: int|
            0 <= k < inner.len() ==> !(#[trigger] inner[k] is Open) && !(inner[k] is Close),
    ensures
        unknown_in_item(
            seq![TokenView::Punct('#', false), TokenView::Open(bracket)] + inner + seq![
                TokenView::Close,
            ],
        ) is None,
        unknown_in_item(
            seq![TokenView::Ident(name), TokenView::Punct('!', false), TokenView::Open(bracket)]
                + inner + seq![TokenView::Close],
        ) is None,
{
    let count: int = inner.len() as int;
    let one = seq![TokenView::Punct('#', false), TokenView::Open(bracket)] + inner + seq![
        TokenView::Close,
    ];
    assert(one[0] == TokenView::Punct('#', false) && one[1] == TokenView::Open(bracket));
    assert forall|k: int| 2 <= k < 2 + count implies !(#[trigger] one[k] is Open) && !(
    one[k] is Close) by {
        assert(one[k] == inner[k - 2]);
    }
    lemma_verbatim_is_passed(one, 2, 2 + count);
    assert(one[2 + count] is Close);
    assert(unknown_from(one, 3 + count, 0, false) is None);
    assert(!defines_macro(one, 0));
    assert(unknown_from(one, 1, 0, false) is None);
    let two = seq![
        TokenView::Ident(name),
        TokenView::Punct('!', false),
        TokenView::Open(bracket),
    ] + inner + seq![TokenView::Close];
    assert(two[0] == TokenView::Ident(name) && two[1] == TokenView::Punct('!', false));
    assert(two[2] == TokenView::Open(bracket));
    assert forall|k: int| 3 <= k < 3 + count implies !(#[trigger] two[k] is Open) && !(
    two[k] is Close) by {
        assert(two[k] == inner[k - 3]);
    }
    lemma_verbatim_is_passed(two, 3, 3 + count);
    assert(two[3 + count] is Close);
    assert(unknown_from(two, 4 + count, 0, false) is None);
    assert(calls_macro(two, 1));
    assert(!defines_macro(two, 1));
    assert(unknown_from(two, 2, 0, false) is None);
    assert(unknown_from(two, 1, 0, false) is None);
}

} // verus!
