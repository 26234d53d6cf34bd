//! The parts of a trait declaration that the `rpc` attribute reads, as `syn` finds
//! them in the source text.

use super::tokens::{
    find_unknown_in_args, find_unknown_in_attribute, find_unknown_in_item, lex, lexed,
    stream_tokens, tokens_of, unknown_in_args, unknown_in_attribute, unknown_in_item,
    unrecognized, unrecognized_message,
};
use quote::ToTokens;
use vstd::prelude::*;

verus! {

/// A method in a trait declaration, as `syn` holds it.
#[verifier::external_type_specification]
#[verifier::external_body]
pub struct ExTraitItemMethod(syn::TraitItemMethod);

/// An attribute, as `syn` holds it.
#[verifier::external_type_specification]
#[verifier::external_body]
pub struct ExAttribute(syn::Attribute);

/// One argument of the `rpc` attribute itself.
#[derive(Debug, PartialEq, Eq)]
pub enum NestedArg {
    /// A path, with or without a value; the name is there where the path is a
    /// single identifier.
    Meta(Option<String>),
    /// A literal.
    Literal,
}

/// What a [`NestedArg`] says.
pub enum NestedArgView {
    Meta(Option<Seq<char>>),
    Literal,
}

impl DeepView for NestedArg {
    type V = NestedArgView;

    open spec fn deep_view(&self) -> NestedArgView {
        match *self {
            NestedArg::Meta(name) => NestedArgView::Meta(name.deep_view()),
            NestedArg::Literal => NestedArgView::Literal,
        }
    }
}

/// What stands behind the path in the argument of an attribute.
#[derive(Debug, PartialEq, Eq)]
pub enum MetaValue {
    /// Nothing.
    Path,
    /// A list in parentheses.
    List,
    /// An equals sign and a string literal of this text.
    Str(String),
    /// An equals sign and some other literal.
    Lit,
}

/// What a [`MetaValue`] says.
pub enum MetaValueView {
    Path,
    List,
    Str(Seq<char>),
    Lit,
}

impl DeepView for MetaValue {
    type V = MetaValueView;

    open spec fn deep_view(&self) -> MetaValueView {
        match *self {
            MetaValue::Path => MetaValueView::Path,
            MetaValue::List => MetaValueView::List,
            MetaValue::Str(text) => MetaValueView::Str(text@),
            MetaValue::Lit => MetaValueView::Lit,
        }
    }
}

/// The argument of an attribute in front of a method.
#[derive(Debug, PartialEq, Eq)]
pub struct MetaArg {
    /// The name, where the path is a single identifier.
    pub ident: Option<String>,
    /// What stands behind the path.
    pub value: MetaValue,
}

/// What a [`MetaArg`] says.
pub struct MetaArgView {
    pub ident: Option<Seq<char>>,
    pub value: MetaValueView,
}

impl DeepView for MetaArg {
    type V = MetaArgView;

    open spec fn deep_view(&self) -> MetaArgView {
        MetaArgView { ident: self.ident.deep_view(), value: self.value.deep_view() }
    }
}

/// What an attribute in front of a method holds.
#[derive(Debug, PartialEq, Eq)]
pub enum AttrArg {
    /// No argument, or none that can be read.
    Unread,
    /// This argument.
    Meta(MetaArg),
    /// An argument in which this literal is read, which is not known.
    Literal(String),
}

/// What an [`AttrArg`] says.
pub enum AttrArgView {
    Unread,
    Meta(MetaArgView),
    Literal(Seq<char>),
}

impl DeepView for AttrArg {
    type V = AttrArgView;

    open spec fn deep_view(&self) -> AttrArgView {
        match *self {
            AttrArg::Unread => AttrArgView::Unread,
            AttrArg::Meta(meta) => AttrArgView::Meta(meta.deep_view()),
            AttrArg::Literal(text) => AttrArgView::Literal(text@),
        }
    }
}

/// A method in a trait declaration.
#[derive(Debug, PartialEq, Eq)]
pub struct MethodDecl {
    /// What the attributes hold, in their order.
    pub attrs: Vec<AttrArg>,
    /// The name of the method.
    pub ident: String,
    /// The type of each argument; the receiver `self` has none.
    pub inputs: Vec<Option<String>>,
    /// The type that the method returns, where one is written.
    pub output: Option<String>,
}

/// What a [`MethodDecl`] says.
pub struct MethodDeclView {
    pub attrs: Seq<AttrArgView>,
    pub ident: Seq<char>,
    pub inputs: Seq<Option<Seq<char>>>,
    pub output: Option<Seq<char>>,
}

impl DeepView for MethodDecl {
    type V = MethodDeclView;

    open spec fn deep_view(&self) -> MethodDeclView {
        MethodDeclView {
            attrs: self.attrs.deep_view(),
            ident: self.ident@,
            inputs: self.inputs.deep_view(),
            output: self.output.deep_view(),
        }
    }
}

/// An item in a trait declaration.
#[derive(Debug, PartialEq, Eq)]
pub enum TraitEntry {
    /// A method.
    Method(MethodDecl),
    /// A constant, a type, or something else.
    Other,
}

/// What a [`TraitEntry`] says.
pub enum TraitEntryView {
    Method(MethodDeclView),
    Other,
}

impl DeepView for TraitEntry {
    type V = TraitEntryView;

    open spec fn deep_view(&self) -> TraitEntryView {
        match *self {
            TraitEntry::Method(method) => TraitEntryView::Method(method.deep_view()),
            TraitEntry::Other => TraitEntryView::Other,
        }
    }
}

/// A trait declaration.
#[derive(Debug, PartialEq, Eq)]
pub struct TraitDecl {
    /// The whole declaration.
    pub text: String,
    /// The name of the trait.
    pub ident: String,
    /// The items, in their order.
    pub items: Vec<TraitEntry>,
}

/// What a [`TraitDecl`] says.
pub struct TraitDeclView {
    pub text: Seq<char>,
    pub ident: Seq<char>,
    pub items: Seq<TraitEntryView>,
}

impl DeepView for TraitDecl {
    type V = TraitDeclView;

    open spec fn deep_view(&self) -> TraitDeclView {
        TraitDeclView {
            text: self.text@,
            ident: self.ident@,
            items: self.items.deep_view(),
        }
    }
}

/// Why a text cannot be read.
#[derive(Debug, PartialEq, Eq)]
pub enum ReadError {
    /// It is not what was expected; this says how.
    Syntax(String),
    /// It holds this literal, which is not known.
    Literal(String),
}

/// What a [`ReadError`] says.
pub enum ReadErrorView {
    Syntax(Seq<char>),
    Literal(Seq<char>),
}

impl View for ReadError {
    type V = ReadErrorView;

    open spec fn view(&self) -> ReadErrorView {
        match *self {
            ReadError::Syntax(message) => ReadErrorView::Syntax(message@),
            ReadError::Literal(text) => ReadErrorView::Literal(text@),
        }
    }
}

impl ReadErrorView {
    /// The error in words.
    pub open spec fn words(self) -> Seq<char> {
        match self {
            ReadErrorView::Syntax(message) => message,
            ReadErrorView::Literal(text) => unrecognized(text),
        }
    }
}

impl ReadError {
    /// The error in words.
    pub fn message(&self) -> (r: String)
        ensures
            r@ == self@.words(),
    {
        match self {
            ReadError::Syntax(message) => message.clone(),
            ReadError::Literal(text) => unrecognized_message(text.as_str()),
        }
    }
}

/// A trait declaration whose methods were not taken apart yet.
pub(crate) struct RawTrait {
    ident: String,
    items: Vec<Option<syn::TraitItemMethod>>,
}

/// A method that was taken apart, but for its attributes.
pub(crate) struct RawMethod {
    attrs: Vec<syn::Attribute>,
    ident: String,
    inputs: Vec<Option<String>>,
    output: Option<String>,
}

/// A trait declaration: its name, and for each item the method, where it is one.
pub struct RawTraitView {
    pub ident: Seq<char>,
    pub items: Seq<Option<syn::TraitItemMethod>>,
}

/// A method: its attributes, its name, the types of its arguments where they have
/// one, and the type that it returns where one is written.
pub struct RawMethodView {
    pub attrs: Seq<syn::Attribute>,
    pub ident: Seq<char>,
    pub inputs: Seq<Option<Seq<char>>>,
    pub output: Option<Seq<char>>,
}

/// What `syn` reads a text as where it is the arguments of an attribute, or what is
/// wrong with it.
pub uninterp spec fn syn_attribute_args(text: Seq<char>) -> Result<Seq<NestedArgView>, Seq<char>>;

/// What `syn` reads a text as where it is a trait declaration, or what is wrong with
/// it.
pub uninterp spec fn syn_item_trait(text: Seq<char>) -> Result<RawTraitView, Seq<char>>;

/// The parts that `syn` finds in a method.
pub uninterp spec fn syn_method(method: syn::TraitItemMethod) -> RawMethodView;

/// The tokens behind the path of an attribute.
pub uninterp spec fn syn_attribute_stream(attribute: syn::Attribute) -> proc_macro2::TokenStream;

/// What `syn` reads the argument of an attribute as, where it can.
pub uninterp spec fn syn_attribute_meta(attribute: syn::Attribute) -> Option<MetaArgView>;

/// Whether a text consists of tokens, and its literals outside of attributes and macro
/// calls are known.
pub open spec fn is_readable(text: Seq<char>) -> bool {
    lexed(text) matches Ok(stream) && unknown_in_item(stream_tokens(stream)) is None
}

/// Whether a method was read from a text.
pub open spec fn is_read_method(method: syn::TraitItemMethod) -> bool {
    exists|text: Seq<char>, i: int|
        {
            &&& is_readable(text)
            &&& syn_item_trait(text) matches Ok(raw)
            &&& 0 <= i < raw.items.len()
            &&& #[trigger] syn_item_trait(text)->Ok_0.items[i] == Some(method)
        }
}

/// Whether an attribute belongs to a method that was read from a text.
pub open spec fn is_read_attribute(attribute: syn::Attribute) -> bool {
    exists|method: syn::TraitItemMethod, i: int|
        {
            &&& is_read_method(method)
            &&& 0 <= i < syn_method(method).attrs.len()
            &&& #[trigger] syn_method(method).attrs[i] == attribute
        }
}

/// `syn` reads a text as arguments of an attribute with commas between them and
/// perhaps one behind the last, by `Parser::parse_str` on
/// `Punctuated::parse_terminated`. In an empty text it finds no arguments. A literal
/// that it comes to has to be one that it knows. The lexer is that of `proc_macro2`
/// itself because of `fallback::force`.
#[verifier::external_body]
pub(crate) fn parse_attribute_args(text: &str) -> (r: Result<Vec<NestedArg>, String>)
    requires
        lexed(text@) matches Ok(stream) ==> unknown_in_args(stream_tokens(stream)) is None,
    ensures
        match r {
            Ok(args) => syn_attribute_args(text@) == Ok::<Seq<NestedArgView>, Seq<char>>(
                args.deep_view(),
            ),
            Err(error) => syn_attribute_args(text@) == Err::<Seq<NestedArgView>, Seq<char>>(
                error@,
            ),
        },
        text@.len() == 0 ==> r is Ok && r->Ok_0@.len() == 0,
{
    proc_macro2::fallback::force();
    let parser = syn::punctuated::Punctuated::<syn::NestedMeta, syn::token::Comma>::parse_terminated;
    let args = syn::parse::Parser::parse_str(parser, text).map_err(|error| error.to_string())?;
    Ok(args.iter().map(|arg| match arg {
        syn::NestedMeta::Meta(meta) => {
            NestedArg::Meta(meta.path().get_ident().map(|ident| ident.to_string()))
        },
        syn::NestedMeta::Lit(_) => NestedArg::Literal,
    }).collect())
}

/// `syn::parse_str` reads a text as a trait declaration. A literal outside of
/// attributes and macro calls, whose contents it takes as they are, has to be one that
/// it knows. The lexer is that of `proc_macro2` itself because of `fallback::force`. How
/// deep brackets may be nested rests on the stack of the machine, and is left unsaid.
#[verifier::external_body]
pub(crate) fn parse_item_trait(text: &str) -> (r: Result<RawTrait, String>)
    requires
        lexed(text@) matches Ok(stream) ==> unknown_in_item(stream_tokens(stream)) is None,
    ensures
        match r {
            Ok(raw) => syn_item_trait(text@) == Ok::<RawTraitView, Seq<char>>(raw@),
            Err(error) => syn_item_trait(text@) == Err::<RawTraitView, Seq<char>>(error@),
        },
{
    proc_macro2::fallback::force();
    let parsed = syn::parse_str::<syn::ItemTrait>(text).map_err(|error| error.to_string())?;
    Ok(RawTrait {
        ident: parsed.ident.to_string(),
        items: parsed.items.into_iter().map(|item| match item {
            syn::TraitItem::Method(method) => Some(method),
            _ => None,
        }).collect(),
    })
}

/// The fields of a `syn::TraitItemMethod`, its types written out by `quote`'s
/// `to_token_stream`, in the form of `proc_macro2` itself because of `fallback::force`.
#[verifier::external_body]
pub(crate) fn method_parts(method: &syn::TraitItemMethod) -> (r: RawMethod)
    requires
        is_read_method(*method),
    ensures
        r@ == syn_method(*method),
{
    proc_macro2::fallback::force();
    RawMethod {
        attrs: method.attrs.clone(),
        ident: method.sig.ident.to_string(),
        inputs: method.sig.inputs.iter().map(|input| match input {
            syn::FnArg::Typed(typed) => Some(typed.ty.to_token_stream().to_string()),
            syn::FnArg::Receiver(_) => None,
        }).collect(),
        output: match &method.sig.output {
            syn::ReturnType::Type(_, output) => Some(output.to_token_stream().to_string()),
            syn::ReturnType::Default => None,
        },
    }
}

/// The field `tokens` of a `syn::Attribute`.
#[verifier::external_body]
pub(crate) fn attribute_stream(attribute: &syn::Attribute) -> (r: proc_macro2::TokenStream)
    ensures
        r == syn_attribute_stream(*attribute),
{
    attribute.tokens.clone()
}

/// `syn::Attribute::parse_args` reads what stands between the parentheses of an
/// attribute as a path, a path with a list, or a path with a literal; where it
/// cannot, there is no argument. A string literal is told by `syn::LitStr::value`. A
/// literal that it comes to has to be one that it knows, and all tokens those of
/// `proc_macro2` itself, as they are in what was read from a text.
#[verifier::external_body]
pub(crate) fn attribute_meta(attribute: &syn::Attribute) -> (r: Option<MetaArg>)
    requires
        is_read_attribute(*attribute),
        unknown_in_attribute(stream_tokens(syn_attribute_stream(*attribute))) is None,
    ensures
        r.deep_view() == syn_attribute_meta(*attribute),
{
    proc_macro2::fallback::force();
    let meta = attribute.parse_args::<syn::Meta>().ok()?;
    let ident = meta.path().get_ident().map(|ident| ident.to_string());
    let value = match meta {
        syn::Meta::Path(_) => MetaValue::Path,
        syn::Meta::List(_) => MetaValue::List,
        syn::Meta::NameValue(meta) => match meta.lit {
            syn::Lit::Str(lit) => MetaValue::Str(lit.value()),
            _ => MetaValue::Lit,
        },
    };
    Some(MetaArg { ident, value })
}

impl View for RawTrait {
    type V = RawTraitView;

    closed spec fn view(&self) -> RawTraitView {
        RawTraitView { ident: self.ident@, items: self.items@ }
    }
}

impl View for RawMethod {
    type V = RawMethodView;

    closed spec fn view(&self) -> RawMethodView {
        RawMethodView {
            attrs: self.attrs@,
            ident: self.ident@,
            inputs: self.inputs.deep_view(),
            output: self.output.deep_view(),
        }
    }
}

/// What an attribute holds.
pub open spec fn attr_arg(attribute: syn::Attribute) -> AttrArgView {
    match unknown_in_attribute(stream_tokens(syn_attribute_stream(attribute))) {
        Some(text) => AttrArgView::Literal(text),
        None => match syn_attribute_meta(attribute) {
            Some(meta) => AttrArgView::Meta(meta),
            None => AttrArgView::Unread,
        },
    }
}

/// The parts of a method, with those of its attributes.
pub open spec fn method_decl(method: syn::TraitItemMethod) -> MethodDeclView {
    let raw = syn_method(method);
    MethodDeclView {
        attrs: raw.attrs.map_values(|attribute: syn::Attribute| attr_arg(attribute)),
        ident: raw.ident,
        inputs: raw.inputs,
        output: raw.output,
    }
}

/// An item of a trait declaration.
pub open spec fn trait_entry(item: Option<syn::TraitItemMethod>) -> TraitEntryView {
    match item {
        Some(method) => TraitEntryView::Method(method_decl(method)),
        None => TraitEntryView::Other,
    }
}

/// The arguments of an attribute that a text is read as, or what is wrong with it.
pub open spec fn attribute_args(text: Seq<char>) -> Result<Seq<NestedArgView>, ReadErrorView> {
    match lexed(text) {
        Err(error) => Err(ReadErrorView::Syntax(error)),
        Ok(stream) => match unknown_in_args(stream_tokens(stream)) {
            Some(literal) => Err(ReadErrorView::Literal(literal)),
            None => match syn_attribute_args(text) {
                Err(error) => Err(ReadErrorView::Syntax(error)),
                Ok(args) => Ok(args),
            },
        },
    }
}

/// The trait declaration that a text is read as, or what is wrong with it.
pub open spec fn trait_decl(text: Seq<char>) -> Result<TraitDeclView, ReadErrorView> {
    match lexed(text) {
        Err(error) => Err(ReadErrorView::Syntax(error)),
        Ok(stream) => match unknown_in_item(stream_tokens(stream)) {
            Some(literal) => Err(ReadErrorView::Literal(literal)),
            None => match syn_item_trait(text) {
                Err(error) => Err(ReadErrorView::Syntax(error)),
                Ok(raw) => Ok(
                    TraitDeclView {
                        text,
                        ident: raw.ident,
                        items: raw.items.map_values(
                            |item: Option<syn::TraitItemMethod>| trait_entry(item),
                        ),
                    },
                ),
            },
        },
    }
}

/// Reads the arguments of an attribute.
pub fn read_attribute_args(text: &str) -> (r: Result<Vec<NestedArg>, ReadError>)
    ensures
        match r {
            Ok(args) => attribute_args(text@) == Ok::<Seq<NestedArgView>, ReadErrorView>(
                args.deep_view(),
            ),
            Err(error) => attribute_args(text@) == Err::<Seq<NestedArgView>, ReadErrorView>(
                error@,
            ),
        },
        text@.len() == 0 ==> r is Ok && r->Ok_0@.len() == 0,
{
    let stream = match lex(text) {
        Ok(stream) => stream,
        Err(error) => return Err(ReadError::Syntax(error)),
    };
    if let Some(literal) = find_unknown_in_args(&tokens_of(&stream)) {
        return Err(ReadError::Literal(literal));
    }
    match parse_attribute_args(text) {
        Ok(args) => Ok(args),
        Err(error) => Err(ReadError::Syntax(error)),
    }
}

/// Reads an attribute.
fn read_attribute(attribute: &syn::Attribute) -> (r: AttrArg)
    requires
        is_read_attribute(*attribute),
    ensures
        r.deep_view() == attr_arg(*attribute),
{
    if let Some(literal) = find_unknown_in_attribute(&tokens_of(&attribute_stream(attribute))) {
        return AttrArg::Literal(literal);
    }
    match attribute_meta(attribute) {
        Some(meta) => AttrArg::Meta(meta),
        None => AttrArg::Unread,
    }
}

/// Takes a method apart.
fn read_method(method: &syn::TraitItemMethod) -> (r: MethodDecl)
    requires
        is_read_method(*method),
    ensures
        r.deep_view() == method_decl(*method),
{
    let raw = method_parts(method);
    let mut attrs: Vec<AttrArg> = Vec::new();
    let count = raw.attrs.len();
    for i in 0..count
        invariant
            count == raw.attrs.len(),
            raw@ == syn_method(*method),
            is_read_method(*method),
            attrs@.len() == i,
            forall|j: int|
                0 <= j < i ==> (#[trigger] attrs@[j]).deep_view() == attr_arg(raw.attrs@[j]),
    {
        assert(syn_method(*method).attrs[i as int] == raw.attrs@[i as int]);
        attrs.push(read_attribute(&raw.attrs[i]));
    }
    assert(attrs.deep_view() =~= raw.attrs@.map_values(
        |attribute: syn::Attribute| attr_arg(attribute),
    ));
    MethodDecl { attrs, ident: raw.ident, inputs: raw.inputs, output: raw.output }
}

/// Reads a trait declaration.
pub fn read_trait(text: &str) -> (r: Result<TraitDecl, ReadError>)
    ensures
        match r {
            Ok(decl) => trait_decl(text@) == Ok::<TraitDeclView, ReadErrorView>(decl.deep_view()),
            Err(error) => trait_decl(text@) == Err::<TraitDeclView, ReadErrorView>(error@),
        },
{
    let stream = match lex(text) {
        Ok(stream) => stream,
        Err(error) => return Err(ReadError::Syntax(error)),
    };
    if let Some(literal) = find_unknown_in_item(&tokens_of(&stream)) {
        return Err(ReadError::Literal(literal));
    }
    let raw = match parse_item_trait(text) {
        Ok(raw) => raw,
        Err(error) => return Err(ReadError::Syntax(error)),
    };
    let mut items: Vec<TraitEntry> = Vec::new();
    let count = raw.items.len();
    for i in 0..count
        invariant
            count == raw.items.len(),
            is_readable(text@),
            syn_item_trait(text@) == Ok::<RawTraitView, Seq<char>>(raw@),
            items@.len() == i,
            forall|j: int|
                0 <= j < i ==> (#[trigger] items@[j]).deep_view() == trait_entry(raw.items@[j]),
    {
        assert(syn_item_trait(text@)->Ok_0.items[i as int] == raw.items@[i as int]);
        items.push(
            match &raw.items[i] {
                Some(method) => TraitEntry::Method(read_method(method)),
                None => TraitEntry::Other,
            },
        );
    }
    assert(items.deep_view() =~= raw.items@.map_values(
        |item: Option<syn::TraitItemMethod>| trait_entry(item),
    ));
    Ok(TraitDecl { text: text.to_owned(), ident: raw.ident, items })
}

} // verus!
