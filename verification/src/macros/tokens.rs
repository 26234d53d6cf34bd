//! The tokens of source text, as `proc_macro2` finds them, and which of its literals
//! `syn` can read.

use crate::text::same_text;
use proc_macro2::{Delimiter, Spacing, TokenTree};
use vstd::prelude::*;

verus! {

/// Source text that was taken apart into tokens, as `proc_macro2` holds it.
#[verifier::external_type_specification]
#[verifier::external_body]
pub struct ExTokenStream(proc_macro2::TokenStream);

/// A kind of brackets.
#[derive(Clone, Copy, Debug, PartialEq, Eq, Structural)]
pub enum Bracket {
    /// `( .. )`
    Round,
    /// `[ .. ]`
    Square,
    /// `{ .. }`
    Curly,
    /// Brackets that are not written.
    Invisible,
}

/// A token. A group in brackets is flattened: it is opened, holds its tokens, and is
/// closed.
#[derive(Debug, PartialEq, Eq)]
pub enum Token {
    /// An opening bracket.
    Open(Bracket),
    /// A closing bracket, of the kind that was opened last.
    Close,
    /// An identifier or a keyword.
    Ident(String),
    /// One character of punctuation, and whether the next one directly follows it.
    Punct(char, bool),
    /// A literal, as it is written.
    Literal(String),
}

/// What a [`Token`] says.
pub enum TokenView {
    Open(Bracket),
    Close,
    Ident(Seq<char>),
    Punct(char, bool),
    Literal(Seq<char>),
}

impl DeepView for Token {
    type V = TokenView;

    open spec fn deep_view(&self) -> TokenView {
        match *self {
            Token::Open(bracket) => TokenView::Open(bracket),
            Token::Close => TokenView::Close,
            Token::Ident(name) => TokenView::Ident(name@),
            Token::Punct(character, joint) => TokenView::Punct(character, joint),
            Token::Literal(text) => TokenView::Literal(text@),
        }
    }
}

/// The tokens of a text, or what is wrong with it, as `proc_macro2`'s own lexer tells.
pub uninterp spec fn lexed(text: Seq<char>) -> Result<proc_macro2::TokenStream, Seq<char>>;

/// What a `proc_macro2::TokenStream` holds.
pub uninterp spec fn stream_tokens(stream: proc_macro2::TokenStream) -> Seq<TokenView>;

/// The string literal that `proc_macro2` itself writes for a text.
pub uninterp spec fn string_literal_text(text: Seq<char>) -> Seq<char>;

/// `proc_macro2::TokenStream::from_str` takes a text apart into tokens. Its own lexer
/// does so, not that of the compiler, because of `fallback::force`. In an empty text
/// it finds nothing.
#[verifier::external_body]
pub(crate) fn lex(text: &str) -> (r: Result<proc_macro2::TokenStream, String>)
    ensures
        match r {
            Ok(stream) => lexed(text@) == Ok::<proc_macro2::TokenStream, Seq<char>>(stream),
            Err(error) => lexed(text@) == Err::<proc_macro2::TokenStream, Seq<char>>(error@),
        },
        text@.len() == 0 ==> r is Ok && stream_tokens(r->Ok_0).len() == 0,
{
    proc_macro2::fallback::force();
    text.parse().map_err(|error: proc_macro2::LexError| error.to_string())
}

/// The tokens that a `proc_macro2::TokenStream` hands out as an iterator, each group
/// flattened. How deep groups may be nested rests on the stack of the machine, and is
/// left unsaid.
#[verifier::external_body]
pub(crate) fn tokens_of(stream: &proc_macro2::TokenStream) -> (r: Vec<Token>)
    ensures
        r.deep_view() == stream_tokens(*stream),
{
    stream.clone().into_iter().flat_map(|tree| match tree {
        TokenTree::Group(group) => {
            let open = Token::Open(match group.delimiter() {
                Delimiter::Parenthesis => Bracket::Round,
                Delimiter::Bracket => Bracket::Square,
                Delimiter::Brace => Bracket::Curly,
                Delimiter::None => Bracket::Invisible,
            });
            let inner = tokens_of(&group.stream());
            std::iter::once(open).chain(inner).chain([Token::Close]).collect()
        },
        TokenTree::Ident(ident) => vec![Token::Ident(ident.to_string())],
        TokenTree::Punct(it) => vec![Token::Punct(it.as_char(), it.spacing() == Spacing::Joint)],
        TokenTree::Literal(literal) => vec![Token::Literal(literal.to_string())],
    }).collect()
}

/// `proc_macro2::Literal::string` makes a string literal of a text, by its own rules,
/// not by those of the compiler, because of `fallback::force`.
#[verifier::external_body]
pub(crate) fn string_literal(text: &str) -> (r: String)
    ensures
        r@ == string_literal_text(text@),
{
    proc_macro2::fallback::force();
    proc_macro2::Literal::string(text).to_string()
}

/// Whether `syn` knows literals that are written so: strings, byte strings, bytes,
/// characters and numbers. It does not know C strings, nor the mark that the compiler
/// leaves for an error, and stops the program on them.
pub open spec fn is_known(literal: Seq<char>) -> bool {
    literal.len() > 0 && {
        ||| literal[0] == '"'
        ||| literal[0] == 'r'
        ||| literal[0] == 'b'
        ||| literal[0] == '\''
        ||| '0' <= literal[0] <= '9'
    }
}

/// Whether a literal that is written so is a number.
pub open spec fn is_number(literal: Seq<char>) -> bool {
    literal.len() > 0 && '0' <= literal[0] <= '9'
}

/// Whether the token at `i` is this character of punctuation.
pub open spec fn is_punct(tokens: Seq<TokenView>, i: int, character: char) -> bool {
    0 <= i < tokens.len() && (tokens[i] matches TokenView::Punct(found, _) && found == character)
}

/// Whether the token at `i` is an identifier or a keyword.
pub open spec fn is_word(tokens: Seq<TokenView>, i: int) -> bool {
    0 <= i < tokens.len() && tokens[i] is Ident
}

/// Whether a word is a keyword, in use or reserved, that can be no macro's name.
pub open spec fn is_keyword(word: Seq<char>) -> bool {
    ||| word == "as"@
    ||| word == "break"@
    ||| word == "const"@
    ||| word == "continue"@
    ||| word == "else"@
    ||| word == "enum"@
    ||| word == "extern"@
    ||| word == "false"@
    ||| word == "fn"@
    ||| word == "for"@
    ||| word == "if"@
    ||| word == "impl"@
    ||| word == "in"@
    ||| word == "let"@
    ||| word == "loop"@
    ||| word == "match"@
    ||| word == "mod"@
    ||| word == "move"@
    ||| word == "mut"@
    ||| word == "pub"@
    ||| word == "ref"@
    ||| word == "return"@
    ||| word == "static"@
    ||| word == "struct"@
    ||| word == "trait"@
    ||| word == "true"@
    ||| word == "type"@
    ||| word == "unsafe"@
    ||| word == "use"@
    ||| word == "where"@
    ||| word == "while"@
    ||| word == "abstract"@
    ||| word == "become"@
    ||| word == "box"@
    ||| word == "do"@
    ||| word == "final"@
    ||| word == "macro"@
    ||| word == "override"@
    ||| word == "priv"@
    ||| word == "typeof"@
    ||| word == "unsized"@
    ||| word == "virtual"@
    ||| word == "yield"@
}

/// Whether the tokens up to `i` end as the call of a macro does in front of its
/// arguments: with the macro's name, which is no keyword and no label, and a `!`.
pub open spec fn calls_macro(tokens: Seq<TokenView>, i: int) -> bool {
    &&& is_punct(tokens, i, '!')
    &&& 1 <= i
    &&& tokens[i - 1] matches TokenView::Ident(name) && !is_keyword(name)
    &&& !is_punct(tokens, i - 2, '\'')
}

/// Whether the tokens up to `i` end as a `macro` item does in front of its parameters:
/// with the word `macro`, which is no label, and a name.
pub open spec fn defines_macro(tokens: Seq<TokenView>, i: int) -> bool {
    &&& is_word(tokens, i)
    &&& is_word(tokens, i - 1)
    &&& tokens[i - 1] == TokenView::Ident("macro"@)
    &&& !is_punct(tokens, i - 2, '\'')
}

/// Whether the bracket at `i` opens what an item takes as it is: the contents of an
/// attribute, behind `#` or `#!`; the arguments of a macro, behind its name and `!`, and
/// one more name for a macro that defines something; or a part of a `macro` item.
pub open spec fn opens_verbatim(tokens: Seq<TokenView>, i: int) -> bool {
    ||| is_punct(tokens, i - 1, '#')
    ||| is_punct(tokens, i - 1, '!') && is_punct(tokens, i - 2, '#')
    ||| calls_macro(tokens, i - 1)
    ||| is_word(tokens, i - 1) && calls_macro(tokens, i - 2)
    ||| defines_macro(tokens, i - 1)
}

/// Whether the bracket at `i` opens the parameters of a `macro` item.
pub open spec fn opens_params(tokens: Seq<TokenView>, i: int) -> bool {
    0 <= i < tokens.len() && tokens[i] == TokenView::Open(Bracket::Round) && defines_macro(
        tokens,
        i - 1,
    )
}

/// The first literal from `i` on that is not known and stands outside of what an item
/// takes as it is. The token at `i` stands inside of `depth` brackets in such.
/// `defining` says that the outermost of them opens the parameters of a `macro` item or,
/// where there is none, that the token at `i` directly follows such parameters.
pub open spec fn unknown_from(
    tokens: Seq<TokenView>,
    i: int,
    depth: nat,
    defining: bool,
) -> Option<Seq<char>>
    decreases tokens.len() - i,
{
    if i < 0 || i >= tokens.len() {
        None
    } else {
        match tokens[i] {
            TokenView::Open(_) => if depth > 0 {
                unknown_from(tokens, i + 1, depth + 1, defining)
            } else if defining {
                unknown_from(tokens, i + 1, 1, false)
            } else if opens_verbatim(tokens, i) {
                unknown_from(tokens, i + 1, 1, opens_params(tokens, i))
            } else {
                unknown_from(tokens, i + 1, 0, false)
            },
            TokenView::Close => if depth > 0 {
                unknown_from(tokens, i + 1, (depth - 1) as nat, defining)
            } else {
                unknown_from(tokens, i + 1, 0, false)
            },
            TokenView::Literal(text) => if depth == 0 && !is_known(text) {
                Some(text)
            } else {
                unknown_from(tokens, i + 1, depth, depth > 0 && defining)
            },
            _ => unknown_from(tokens, i + 1, depth, depth > 0 && defining),
        }
    }
}

/// The first literal of an item that is not known, where there is one. Those in
/// attributes, in the arguments of macros and in `macro` items do not count: they are
/// not read.
pub open spec fn unknown_in_item(tokens: Seq<TokenView>) -> Option<Seq<char>> {
    unknown_from(tokens, 0, 0, false)
}

/// A place in the arguments of an attribute, by what is read there.
#[derive(Clone, Copy, Debug, PartialEq, Eq, Structural)]
pub enum Place {
    /// A path, with or without something behind it.
    Meta,
    /// A name in a path.
    Segment,
    /// What stands behind a name in a path: more of the path, a list, or a value.
    Name,
    /// A value: a literal.
    Value,
    /// An entry of a list, or the end of the list.
    Entry,
    /// What stands behind an entry: a comma, or the end of the list.
    Behind,
}

impl Place {
    /// How many places may follow at the same token.
    pub open spec fn rank(self) -> nat {
        match self {
            Place::Entry => 2,
            Place::Meta | Place::Name => 1,
            _ => 0,
        }
    }
}

/// Whether the separator `::` of a path stands at `i`.
pub open spec fn is_separator(tokens: Seq<TokenView>, i: int) -> bool {
    0 <= i < tokens.len() && tokens[i] == TokenView::Punct(':', true) && is_punct(
        tokens,
        i + 1,
        ':',
    )
}

/// Whether the word `true` or `false` stands at `i`.
pub open spec fn is_boolean(tokens: Seq<TokenView>, i: int) -> bool {
    0 <= i < tokens.len() && (tokens[i] == TokenView::Ident("true"@) || tokens[i]
        == TokenView::Ident("false"@))
}

/// Whether a path, not a literal, stands at `i` where an entry of a list starts.
pub open spec fn starts_path(tokens: Seq<TokenView>, i: int) -> bool {
    is_separator(tokens, i) || is_word(tokens, i) && (is_boolean(tokens, i) ==> is_punct(
        tokens,
        i + 1,
        '=',
    ))
}

/// The first literal that is not known and that the reading of attribute arguments
/// comes to, from this place at `i` on, inside of `depth` lists. It reads a path, alone
/// or with a value or a list of entries, and ends where that is complete or where
/// something else stands. `listed` says that such entries with commas between them are
/// read, not one path.
pub open spec fn reached(
    tokens: Seq<TokenView>,
    i: int,
    depth: nat,
    place: Place,
    listed: bool,
) -> Option<Seq<char>>
    decreases tokens.len() - i, place.rank(),
{
    if i < 0 || i >= tokens.len() {
        None
    } else {
        match place {
            Place::Meta => if is_separator(tokens, i) {
                reached(tokens, i + 2, depth, Place::Segment, listed)
            } else {
                reached(tokens, i, depth, Place::Segment, listed)
            },
            Place::Segment => if is_word(tokens, i) {
                reached(tokens, i + 1, depth, Place::Name, listed)
            } else {
                None
            },
            Place::Name => if is_separator(tokens, i) {
                reached(tokens, i + 2, depth, Place::Segment, listed)
            } else if tokens[i] == TokenView::Open(Bracket::Round) {
                reached(tokens, i + 1, depth + 1, Place::Entry, listed)
            } else if is_punct(tokens, i, '=') {
                reached(tokens, i + 1, depth, Place::Value, listed)
            } else {
                reached(tokens, i, depth, Place::Behind, listed)
            },
            Place::Value => match tokens[i] {
                TokenView::Literal(text) => if is_known(text) {
                    reached(tokens, i + 1, depth, Place::Behind, listed)
                } else {
                    Some(text)
                },
                _ => if is_boolean(tokens, i) {
                    reached(tokens, i + 1, depth, Place::Behind, listed)
                } else if is_punct(tokens, i, '-') && is_number_at(tokens, i + 1) {
                    reached(tokens, i + 2, depth, Place::Behind, listed)
                } else {
                    None
                },
            },
            Place::Entry => if tokens[i] is Close {
                if depth > 0 {
                    reached(tokens, i + 1, (depth - 1) as nat, Place::Behind, listed)
                } else {
                    None
                }
            } else if starts_path(tokens, i) {
                reached(tokens, i, depth, Place::Meta, listed)
            } else {
                reached(tokens, i, depth, Place::Value, listed)
            },
            Place::Behind => if tokens[i] is Close && depth > 0 {
                reached(tokens, i + 1, (depth - 1) as nat, Place::Behind, listed)
            } else if is_punct(tokens, i, ',') && (listed || depth > 0) {
                reached(tokens, i + 1, depth, Place::Entry, listed)
            } else {
                None
            },
        }
    }
}

/// Whether a number stands at `i`.
pub open spec fn is_number_at(tokens: Seq<TokenView>, i: int) -> bool {
    0 <= i < tokens.len() && (tokens[i] matches TokenView::Literal(text) && is_number(text))
}

/// The first literal that is not known and that is read in the arguments of an
/// attribute, where they stand alone, without brackets.
pub open spec fn unknown_in_args(tokens: Seq<TokenView>) -> Option<Seq<char>> {
    reached(tokens, 0, 0, Place::Entry, true)
}

/// Where the bracket is closed that is the outermost of `depth` open ones at `i`.
pub open spec fn closing(tokens: Seq<TokenView>, i: int, depth: nat) -> int
    decreases tokens.len() - i,
{
    if i < 0 || i >= tokens.len() {
        tokens.len() as int
    } else {
        match tokens[i] {
            TokenView::Open(_) => closing(tokens, i + 1, depth + 1),
            TokenView::Close => if depth <= 1 {
                i
            } else {
                closing(tokens, i + 1, (depth - 1) as nat)
            },
            _ => closing(tokens, i + 1, depth),
        }
    }
}

/// Whether the tokens are one group in brackets.
pub open spec fn is_group(tokens: Seq<TokenView>) -> bool {
    tokens.len() > 0 && tokens[0] is Open && closing(tokens, 1, 1) == tokens.len() - 1
}

/// The first literal that is not known and that is read in what stands behind the path
/// of an attribute: in the brackets, where there is nothing else.
pub open spec fn unknown_in_attribute(tokens: Seq<TokenView>) -> Option<Seq<char>> {
    if is_group(tokens) {
        reached(tokens, 1, 0, Place::Meta, false)
    } else {
        None
    }
}

/// What is said of a literal that is not known.
pub open spec fn unrecognized(literal: Seq<char>) -> Seq<char> {
    "Unrecognized literal: `"@ + literal + "`"@
}

/// Says that a literal is not known.
pub(crate) fn unrecognized_message(literal: &str) -> (r: String)
    ensures
        r@ == unrecognized(literal@),
{
    let mut message = "Unrecognized literal: `".to_owned();
    message.append(literal);
    message.append("`");
    message
}

/// Whether a literal is a number.
fn number(literal: &str) -> (r: bool)
    ensures
        r == is_number(literal@),
{
    if literal.unicode_len() == 0 {
        return false;
    }
    let first = literal.get_char(0);
    '0' <= first && first <= '9'
}

/// Whether `syn` knows literals that are written so.
fn known(literal: &str) -> (r: bool)
    ensures
        r == is_known(literal@),
{
    if literal.unicode_len() == 0 {
        return false;
    }
    let first = literal.get_char(0);
    first == '"' || first == 'r' || first == 'b' || first == '\'' || number(literal)
}

/// Whether a word is a keyword that can be no macro's name.
fn keyword(word: &str) -> (r: bool)
    ensures
        r == is_keyword(word@),
{
    same_text(word, "as") || same_text(word, "break") || same_text(word, "const")
        || same_text(word, "continue") || same_text(word, "else") || same_text(word, "enum")
        || same_text(word, "extern") || same_text(word, "false") || same_text(word, "fn")
        || same_text(word, "for") || same_text(word, "if") || same_text(word, "impl")
        || same_text(word, "in") || same_text(word, "let") || same_text(word, "loop")
        || same_text(word, "match") || same_text(word, "mod") || same_text(word, "move")
        || same_text(word, "mut") || same_text(word, "pub") || same_text(word, "ref")
        || same_text(word, "return") || same_text(word, "static") || same_text(word, "struct")
        || same_text(word, "trait") || same_text(word, "true") || same_text(word, "type")
        || same_text(word, "unsafe") || same_text(word, "use") || same_text(word, "where")
        || same_text(word, "while") || same_text(word, "abstract") || same_text(word, "become")
        || same_text(word, "box") || same_text(word, "do") || same_text(word, "final")
        || same_text(word, "macro") || same_text(word, "override") || same_text(word, "priv")
        || same_text(word, "typeof") || same_text(word, "unsized") || same_text(word, "virtual")
        || same_text(word, "yield")
}

/// Whether the token at `i` is this punctuation.
fn punct_at(tokens: &Vec<Token>, i: usize, character: char) -> (r: bool)
    ensures
        r == is_punct(tokens.deep_view(), i as int, character),
{
    if i >= tokens.len() {
        return false;
    }
    assert(tokens.deep_view()[i as int] == tokens@[i as int].deep_view());
    match &tokens[i] {
        Token::Punct(found, _) => *found == character,
        _ => false,
    }
}

/// Whether the token that stands `back` tokens before `i` is this punctuation.
fn punct_before(tokens: &Vec<Token>, i: usize, back: usize, character: char) -> (r: bool)
    ensures
        r == is_punct(tokens.deep_view(), i - back, character),
{
    i >= back && punct_at(tokens, i - back, character)
}

/// Whether the token at `i` is an identifier or a keyword.
fn word_at(tokens: &Vec<Token>, i: usize) -> (r: bool)
    ensures
        r == is_word(tokens.deep_view(), i as int),
{
    if i >= tokens.len() {
        return false;
    }
    assert(tokens.deep_view()[i as int] == tokens@[i as int].deep_view());
    match &tokens[i] {
        Token::Ident(_) => true,
        _ => false,
    }
}

/// Whether the token that stands `back` tokens before `i` ends the head of a macro
/// call.
fn call_before(tokens: &Vec<Token>, i: usize, back: usize) -> (r: bool)
    requires
        i < tokens.len(),
        1 <= back <= 2,
    ensures
        r == calls_macro(tokens.deep_view(), i - back),
{
    if i <= back || !punct_before(tokens, i, back, '!') {
        return false;
    }
    assert(tokens.deep_view()[i - back - 1] == tokens@[i - back - 1].deep_view());
    match &tokens[i - back - 1] {
        Token::Ident(name) => !keyword(name.as_str()) && !punct_before(tokens, i, back + 2, '\''),
        _ => false,
    }
}

/// Whether the token before `i` ends the head of a `macro` item.
fn definition_before(tokens: &Vec<Token>, i: usize) -> (r: bool)
    requires
        i < tokens.len(),
    ensures
        r == defines_macro(tokens.deep_view(), i - 1),
{
    if i < 2 || !word_at(tokens, i - 1) {
        return false;
    }
    assert(tokens.deep_view()[i - 2] == tokens@[i - 2].deep_view());
    match &tokens[i - 2] {
        Token::Ident(word) => same_text(word.as_str(), "macro") && !punct_before(
            tokens,
            i,
            3,
            '\'',
        ),
        _ => false,
    }
}

/// Whether the bracket at `i` opens what an item takes as it is.
fn verbatim_at(tokens: &Vec<Token>, i: usize) -> (r: bool)
    requires
        i < tokens.len(),
    ensures
        r == opens_verbatim(tokens.deep_view(), i as int),
{
    punct_before(tokens, i, 1, '#') || (punct_before(tokens, i, 1, '!') && punct_before(
        tokens,
        i,
        2,
        '#',
    )) || call_before(tokens, i, 1) || (i >= 1 && word_at(tokens, i - 1) && call_before(
        tokens,
        i,
        2,
    )) || definition_before(tokens, i)
}

/// Finds the first literal of an item that is not known.
pub fn find_unknown_in_item(tokens: &Vec<Token>) -> (r: Option<String>)
    ensures
        r.deep_view() == unknown_in_item(tokens.deep_view()),
{
    let count = tokens.len();
    let mut depth: usize = 0;
    let mut defining = false;
    let ghost all = tokens.deep_view();
    for i in 0..count
        invariant
            count == tokens.len(),
            all == tokens.deep_view(),
            depth <= i,
            unknown_in_item(all) == unknown_from(all, i as int, depth as nat, defining),
    {
        assert(all[i as int] == tokens@[i as int].deep_view());
        match &tokens[i] {
            Token::Open(bracket) => {
                if depth > 0 {
                    depth = depth + 1;
                } else if defining {
                    depth = 1;
                    defining = false;
                } else if verbatim_at(tokens, i) {
                    depth = 1;
                    defining = definition_before(tokens, i) && *bracket == Bracket::Round;
                }
            },
            Token::Close => {
                if depth > 0 {
                    depth = depth - 1;
                } else {
                    defining = false;
                }
            },
            Token::Literal(text) => {
                if depth == 0 && !known(text.as_str()) {
                    return Some(text.clone());
                }
                defining = depth > 0 && defining;
            },
            _ => {
                defining = depth > 0 && defining;
            },
        }
    }
    None
}

/// Whether the separator of a path stands at `i`.
fn separator_at(tokens: &Vec<Token>, i: usize) -> (r: bool)
    requires
        i < tokens.len(),
    ensures
        r == is_separator(tokens.deep_view(), i as int),
{
    assert(tokens.deep_view()[i as int] == tokens@[i as int].deep_view());
    match &tokens[i] {
        Token::Punct(character, joint) => *character == ':' && *joint && punct_at(
            tokens,
            i + 1,
            ':',
        ),
        _ => false,
    }
}

/// Whether the word `true` or `false` stands at `i`.
fn boolean_at(tokens: &Vec<Token>, i: usize) -> (r: bool)
    requires
        i < tokens.len(),
    ensures
        r == is_boolean(tokens.deep_view(), i as int),
{
    assert(tokens.deep_view()[i as int] == tokens@[i as int].deep_view());
    match &tokens[i] {
        Token::Ident(word) => same_text(word.as_str(), "true") || same_text(
            word.as_str(),
            "false",
        ),
        _ => false,
    }
}

/// Whether a number stands at `i`.
fn number_at(tokens: &Vec<Token>, i: usize) -> (r: bool)
    ensures
        r == is_number_at(tokens.deep_view(), i as int),
{
    if i >= tokens.len() {
        return false;
    }
    assert(tokens.deep_view()[i as int] == tokens@[i as int].deep_view());
    match &tokens[i] {
        Token::Literal(text) => number(text.as_str()),
        _ => false,
    }
}

/// What a step of reading gives.
enum Reading {
    /// It goes on at this token, inside of so many lists, at this place.
    On(usize, usize, Place),
    /// It comes to this literal, which is not known.
    Unknown(String),
    /// It ends.
    End,
}

/// Reads on at a place in the arguments of an attribute.
fn read_on(tokens: &Vec<Token>, i: usize, depth: usize, place: Place, listed: bool) -> (r: Reading)
    requires
        i < tokens.len(),
        depth <= i,
    ensures
        match r {
            Reading::On(next, inside, following) => {
                &&& i <= next <= tokens.len()
                &&& i == next ==> following.rank() < place.rank()
                &&& inside <= next
                &&& reached(tokens.deep_view(), i as int, depth as nat, place, listed) == reached(
                    tokens.deep_view(),
                    next as int,
                    inside as nat,
                    following,
                    listed,
                )
            },
            Reading::Unknown(text) => reached(
                tokens.deep_view(),
                i as int,
                depth as nat,
                place,
                listed,
            ) == Some(text@),
            Reading::End => reached(
                tokens.deep_view(),
                i as int,
                depth as nat,
                place,
                listed,
            ) is None,
        },
{
    assert(tokens.deep_view()[i as int] == tokens@[i as int].deep_view());
    match place {
        Place::Meta => {
            if separator_at(tokens, i) {
                Reading::On(i + 2, depth, Place::Segment)
            } else {
                Reading::On(i, depth, Place::Segment)
            }
        },
        Place::Segment => {
            if word_at(tokens, i) {
                Reading::On(i + 1, depth, Place::Name)
            } else {
                Reading::End
            }
        },
        Place::Name => {
            if separator_at(tokens, i) {
                return Reading::On(i + 2, depth, Place::Segment);
            }
            if let Token::Open(Bracket::Round) = &tokens[i] {
                return Reading::On(i + 1, depth + 1, Place::Entry);
            }
            if punct_at(tokens, i, '=') {
                Reading::On(i + 1, depth, Place::Value)
            } else {
                Reading::On(i, depth, Place::Behind)
            }
        },
        Place::Value => {
            if let Token::Literal(text) = &tokens[i] {
                if known(text.as_str()) {
                    return Reading::On(i + 1, depth, Place::Behind);
                }
                return Reading::Unknown(text.clone());
            }
            if boolean_at(tokens, i) {
                Reading::On(i + 1, depth, Place::Behind)
            } else if punct_at(tokens, i, '-') && number_at(tokens, i + 1) {
                Reading::On(i + 2, depth, Place::Behind)
            } else {
                Reading::End
            }
        },
        Place::Entry => {
            if let Token::Close = &tokens[i] {
                return if depth > 0 {
                    Reading::On(i + 1, depth - 1, Place::Behind)
                } else {
                    Reading::End
                };
            }
            if separator_at(tokens, i) || (word_at(tokens, i) && (!boolean_at(tokens, i)
                || punct_at(tokens, i + 1, '='))) {
                Reading::On(i, depth, Place::Meta)
            } else {
                Reading::On(i, depth, Place::Value)
            }
        },
        Place::Behind => {
            if let Token::Close = &tokens[i] {
                return if depth > 0 {
                    Reading::On(i + 1, depth - 1, Place::Behind)
                } else {
                    Reading::End
                };
            }
            if punct_at(tokens, i, ',') && (listed || depth > 0) {
                Reading::On(i + 1, depth, Place::Entry)
            } else {
                Reading::End
            }
        },
    }
}

/// Finds the first literal that is not known and that reading from a place at `from`
/// comes to.
fn find_reached(tokens: &Vec<Token>, from: usize, start: Place, listed: bool) -> (r: Option<String>)
    ensures
        r.deep_view() == reached(tokens.deep_view(), from as int, 0, start, listed),
{
    let mut i: usize = from;
    let mut depth: usize = 0;
    let mut place = start;
    let ghost goal = reached(tokens.deep_view(), from as int, 0, start, listed);
    while i < tokens.len()
        invariant
            depth <= i,
            goal == reached(tokens.deep_view(), from as int, 0, start, listed),
            goal == reached(tokens.deep_view(), i as int, depth as nat, place, listed),
        decreases tokens.len() - i, place.rank(),
    {
        match read_on(tokens, i, depth, place, listed) {
            Reading::On(next, inside, following) => {
                i = next;
                depth = inside;
                place = following;
            },
            Reading::Unknown(text) => return Some(text),
            Reading::End => return None,
        }
    }
    None
}

/// Finds the first literal that is not known and that is read in the arguments of an
/// attribute, where they stand alone, without brackets.
pub fn find_unknown_in_args(tokens: &Vec<Token>) -> (r: Option<String>)
    ensures
        r.deep_view() == unknown_in_args(tokens.deep_view()),
{
    find_reached(tokens, 0, Place::Entry, true)
}

/// Whether the tokens are one group in brackets.
fn group(tokens: &Vec<Token>) -> (r: bool)
    ensures
        r == is_group(tokens.deep_view()),
{
    if tokens.len() == 0 {
        return false;
    }
    let ghost all = tokens.deep_view();
    assert(all[0] == tokens@[0].deep_view());
    match &tokens[0] {
        Token::Open(_) => {},
        _ => return false,
    }
    let count = tokens.len();
    let mut depth: usize = 1;
    for i in 1..count
        invariant
            count == tokens.len(),
            all == tokens.deep_view(),
            all[0] is Open,
            1 <= depth <= i,
            closing(all, 1, 1) == closing(all, i as int, depth as nat),
    {
        assert(all[i as int] == tokens@[i as int].deep_view());
        match &tokens[i] {
            Token::Open(_) => {
                depth = depth + 1;
            },
            Token::Close => {
                if depth == 1 {
                    return i == count - 1;
                }
                depth = depth - 1;
            },
            _ => {},
        }
    }
    false
}

/// Finds the first literal that is not known and that is read in what stands behind the
/// path of an attribute.
pub fn find_unknown_in_attribute(tokens: &Vec<Token>) -> (r: Option<String>)
    ensures
        r.deep_view() == unknown_in_attribute(tokens.deep_view()),
{
    if group(tokens) {
        find_reached(tokens, 1, Place::Meta, false)
    } else {
        None
    }
}

} // verus!
