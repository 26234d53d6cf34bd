//! What the `rpc` attribute makes of a trait declaration.

use super::syntax::{
    attribute_args, read_attribute_args, read_trait, trait_decl, AttrArg, AttrArgView, MetaValue,
    MetaValueView, MethodDecl, MethodDeclView, NestedArg, NestedArgView, ReadError, ReadErrorView,
    TraitDecl, TraitDeclView, TraitEntry, TraitEntryView,
};
use super::tokens::{string_literal, string_literal_text, unrecognized, unrecognized_message};
use crate::text::{same_text, trim_quotes, trimmed};
use vstd::prelude::*;

verus! {

/// Why no name could be told under which a method is to be registered.
#[derive(Debug, PartialEq, Eq)]
pub enum NameError {
    /// The first attribute with a `name` gives it no string literal.
    ExpectedStringLiteral,
    /// No attribute has a `name`.
    MissingName,
    /// Before any `name`, an attribute holds this literal, which is not known.
    Literal(String),
}

/// What a [`NameError`] says.
pub enum NameErrorView {
    ExpectedStringLiteral,
    MissingName,
    Literal(Seq<char>),
}

impl View for NameError {
    type V = NameErrorView;

    open spec fn view(&self) -> NameErrorView {
        match *self {
            NameError::ExpectedStringLiteral => NameErrorView::ExpectedStringLiteral,
            NameError::MissingName => NameErrorView::MissingName,
            NameError::Literal(text) => NameErrorView::Literal(text@),
        }
    }
}

impl NameErrorView {
    /// The error in words.
    pub open spec fn words(self) -> Seq<char> {
        match self {
            NameErrorView::ExpectedStringLiteral =>
                "expected string literal for `#[rpc(name = ???)]` attribute"@,
            NameErrorView::MissingName => "expected `#[rpc(name = \"foo\")]` attribute"@,
            NameErrorView::Literal(text) => unrecognized(text),
        }
    }
}

impl NameError {
    /// The error in words.
    pub fn message(&self) -> (r: String)
        ensures
            r@ == self@.words(),
    {
        match self {
            NameError::ExpectedStringLiteral => {
                "expected string literal for `#[rpc(name = ???)]` attribute".to_owned()
            },
            NameError::MissingName => "expected `#[rpc(name = \"foo\")]` attribute".to_owned(),
            NameError::Literal(text) => unrecognized_message(text.as_str()),
        }
    }
}

/// A method that is to be registered as a handler.
#[derive(Debug, PartialEq, Eq)]
pub struct MethodCall {
    /// The name under which it is registered.
    pub rpc_name: String,
    /// The name that it has in the trait.
    pub handler_name: String,
    /// The type of its parameters, where it has any.
    pub params: Option<String>,
    /// The type of its result, where it has one.
    pub result: Option<String>,
}

/// What a [`MethodCall`] says.
pub struct MethodCallView {
    pub rpc_name: Seq<char>,
    pub handler_name: Seq<char>,
    pub params: Option<Seq<char>>,
    pub result: Option<Seq<char>>,
}

impl DeepView for MethodCall {
    type V = MethodCallView;

    open spec fn deep_view(&self) -> MethodCallView {
        MethodCallView {
            rpc_name: self.rpc_name@,
            handler_name: self.handler_name@,
            params: self.params.deep_view(),
            result: self.result.deep_view(),
        }
    }
}

/// Whether an attribute has a `name`.
pub open spec fn has_name(attr: AttrArgView) -> bool {
    attr matches AttrArgView::Meta(meta) && meta.ident == Some("name"@)
}

/// Whether an attribute settles the name of its method: it has a `name`, or it holds
/// a literal that is not known.
pub open spec fn settles_name(attr: AttrArgView) -> bool {
    has_name(attr) || attr is Literal
}

/// The name that an attribute gives its method where it settles it: the value, without
/// the quotes around it.
pub open spec fn settled_name(attr: AttrArgView) -> Result<Seq<char>, NameErrorView> {
    match attr {
        AttrArgView::Literal(text) => Err(NameErrorView::Literal(text)),
        AttrArgView::Meta(meta) => match meta.value {
            MetaValueView::Str(value) => Ok(trimmed(value)),
            _ => Err(NameErrorView::ExpectedStringLiteral),
        },
        AttrArgView::Unread => Err(NameErrorView::MissingName),
    }
}

/// The name that the attributes of a method give it, by the first that settles it.
pub open spec fn rpc_name(attrs: Seq<AttrArgView>) -> Result<Seq<char>, NameErrorView>
    decreases attrs.len(),
{
    if attrs.len() == 0 {
        Err(NameErrorView::MissingName)
    } else if settles_name(attrs[0]) {
        settled_name(attrs[0])
    } else {
        rpc_name(attrs.drop_first())
    }
}

/// The type of the argument behind the receiver, where there is one.
pub open spec fn params_type(inputs: Seq<Option<Seq<char>>>) -> Option<Seq<char>> {
    if inputs.len() >= 2 {
        inputs[1]
    } else {
        None
    }
}

/// How a method is to be registered.
pub open spec fn method_call(method: MethodDeclView) -> Result<MethodCallView, NameErrorView> {
    match rpc_name(method.attrs) {
        Ok(rpc_name) => Ok(
            MethodCallView {
                rpc_name,
                handler_name: method.ident,
                params: params_type(method.inputs),
                result: method.output,
            },
        ),
        Err(error) => Err(error),
    }
}

/// How the methods among these items are to be registered, in their order.
pub open spec fn method_calls(items: Seq<TraitEntryView>) -> Result<
    Seq<MethodCallView>,
    NameErrorView,
>
    decreases items.len(),
{
    if items.len() == 0 {
        Ok(Seq::empty())
    } else {
        match method_calls(items.drop_last()) {
            Err(error) => Err(error),
            Ok(calls) => match items.last() {
                TraitEntryView::Other => Ok(calls),
                TraitEntryView::Method(method) => match method_call(method) {
                    Err(error) => Err(error),
                    Ok(call) => Ok(calls.push(call)),
                },
            },
        }
    }
}

/// Once a method has no name, nothing behind it changes the error.
proof fn lemma_first_error_stays(items: Seq<TraitEntryView>, count: int)
    requires
        0 <= count <= items.len(),
        method_calls(items.take(count)) is Err,
    ensures
        method_calls(items) == method_calls(items.take(count)),
    decreases items.len(),
{
    if count == items.len() {
        assert(items.take(count) =~= items);
    } else {
        assert(items.drop_last().take(count) =~= items.take(count));
        lemma_first_error_stays(items.drop_last(), count);
    }
}

/// Whether a text, where there is one, is `name`.
fn is_name(ident: &Option<String>) -> (r: bool)
    ensures
        r == (ident.deep_view() == Some("name"@)),
{
    match ident {
        Some(ident) => same_text(ident.as_str(), "name"),
        None => false,
    }
}

/// A copy of a text, where there is one.
fn copy_text(text: &Option<String>) -> (r: Option<String>)
    ensures
        r.deep_view() == text.deep_view(),
{
    match text {
        Some(text) => Some(text.clone()),
        None => None,
    }
}

/// Finds the name that the attributes of a method give it.
fn parse_name(attrs: &Vec<AttrArg>) -> (r: Result<String, NameError>)
    ensures
        match r {
            Ok(name) => rpc_name(attrs.deep_view()) == Ok::<Seq<char>, NameErrorView>(name@),
            Err(error) => rpc_name(attrs.deep_view()) == Err::<Seq<char>, NameErrorView>(error@),
        },
{
    let count = attrs.len();
    let ghost all = attrs.deep_view();
    assert(all.skip(0) =~= all);
    for i in 0..count
        invariant
            count == attrs.len(),
            all == attrs.deep_view(),
            rpc_name(all) == rpc_name(all.skip(i as int)),
    {
        proof {
            assert(all.skip(i as int)[0] == attrs@[i as int].deep_view());
            assert(all.skip(i as int).drop_first() =~= all.skip(i + 1));
        }
        match &attrs[i] {
            AttrArg::Literal(text) => return Err(NameError::Literal(text.clone())),
            AttrArg::Meta(meta) => {
                if is_name(&meta.ident) {
                    return match &meta.value {
                        MetaValue::Str(value) => Ok(trim_quotes(value.as_str())),
                        _ => Err(NameError::ExpectedStringLiteral),
                    };
                }
            },
            AttrArg::Unread => {},
        }
    }
    Err(NameError::MissingName)
}

/// Finds out how a method is to be registered.
fn parse_method_call(method: &MethodDecl) -> (r: Result<MethodCall, NameError>)
    ensures
        match r {
            Ok(call) => method_call(method.deep_view()) == Ok::<MethodCallView, NameErrorView>(
                call.deep_view(),
            ),
            Err(error) => method_call(method.deep_view()) == Err::<MethodCallView, NameErrorView>(
                error@,
            ),
        },
{
    let rpc_name = match parse_name(&method.attrs) {
        Ok(rpc_name) => rpc_name,
        Err(error) => return Err(error),
    };
    let params = if method.inputs.len() >= 2 {
        copy_text(&method.inputs[1])
    } else {
        None
    };
    Ok(
        MethodCall {
            rpc_name,
            handler_name: method.ident.clone(),
            params,
            result: copy_text(&method.output),
        },
    )
}

/// Finds out how the methods of a trait are to be registered.
pub fn parse_method_calls(lang_server_trait: &TraitDecl) -> (r: Result<Vec<MethodCall>, NameError>)
    ensures
        match r {
            Ok(calls) => method_calls(lang_server_trait.deep_view().items) == Ok::<
                Seq<MethodCallView>,
                NameErrorView,
            >(calls.deep_view()),
            Err(error) => method_calls(lang_server_trait.deep_view().items) == Err::<
                Seq<MethodCallView>,
                NameErrorView,
            >(error@),
        },
{
    let items = &lang_server_trait.items;
    let mut calls: Vec<MethodCall> = Vec::new();
    let count = items.len();
    let ghost all = items.deep_view();
    assert(calls.deep_view() =~= Seq::empty());
    for i in 0..count
        invariant
            count == items.len(),
            all == items.deep_view(),
            all == lang_server_trait.deep_view().items,
            method_calls(all.take(i as int)) == Ok::<Seq<MethodCallView>, NameErrorView>(
                calls.deep_view(),
            ),
    {
        proof {
            assert(all.take(i + 1).drop_last() =~= all.take(i as int));
            assert(all.take(i + 1).last() == items@[i as int].deep_view());
        }
        if let TraitEntry::Method(method) = &items[i] {
            let ghost before = calls.deep_view();
            match parse_method_call(method) {
                Ok(call) => {
                    calls.push(call);
                    assert(calls.deep_view() =~= before.push(call.deep_view()));
                },
                Err(error) => {
                    proof {
                        lemma_first_error_stays(all, i + 1);
                    }
                    return Err(error);
                },
            }
        }
    }
    assert(all.take(count as int) =~= all);
    Ok(calls)
}

/// The parameter of the function around a method, where the method has one.
pub open spec fn params_source(params: Option<Seq<char>>) -> Seq<char> {
    match params {
        Some(params) => ", params: "@ + params,
        None => Seq::empty(),
    }
}

/// The argument that the function around a method passes on.
pub open spec fn argument_source(params: Option<Seq<char>>) -> Seq<char> {
    match params {
        Some(_) => "params"@,
        None => Seq::empty(),
    }
}

/// The result of the function around a method, where the method has one.
pub open spec fn result_source(result: Option<Seq<char>>) -> Seq<char> {
    match result {
        Some(result) => " -> "@ + result,
        None => Seq::empty(),
    }
}

/// The function around a method: an `async` function of the server, and of the
/// parameters where there are any, which calls the method and awaits its result.
pub open spec fn handler_source(call: MethodCallView) -> Seq<char> {
    "async fn "@ + call.handler_name + "<S: LanguageServer>(server: &S"@ + params_source(
        call.params,
    ) + ")"@ + result_source(call.result) + " { server."@ + call.handler_name + "("@
        + argument_source(call.params) + ").await } "@
}

/// The registration of a method: the function around it, and the statement that
/// registers this function under the name of the method.
pub open spec fn registration_source(call: MethodCallView) -> Seq<char> {
    handler_source(call) + "router.register_method("@ + string_literal_text(call.rpc_name) + ", "@
        + call.handler_name + "); "@
}

/// The registrations of these methods, in their order.
pub open spec fn registrations_source(calls: Seq<MethodCallView>) -> Seq<char>
    decreases calls.len(),
{
    if calls.len() == 0 {
        Seq::empty()
    } else {
        registrations_source(calls.drop_last()) + registration_source(calls.last())
    }
}

/// The module around the function that registers the methods of a trait: what
/// stands before the registrations.
pub open spec fn router_head(trait_name: Seq<char>) -> Seq<char> {
    "mod generated { use std::sync::Arc; use lsp_types::*; use lsp_types::notification::*; use lsp_types::request::*; use serde_json::Value; use super::"@
        + trait_name
        + "; use crate::jsonrpc::{Result, Router}; pub(crate) fn register_lsp_methods<S>(mut router: Router<S>) -> Router<S> where S: "@
        + trait_name + ", { "@
}

/// What stands behind the registrations: a handler of `exit` that does nothing.
pub open spec fn router_tail() -> Seq<char> {
    "router.register_method(\"exit\", |_: &S| std::future::ready(())); router } }"@
}

/// The module with the function that registers the methods of a trait.
pub open spec fn router_source(trait_name: Seq<char>, calls: Seq<MethodCallView>) -> Seq<char> {
    router_head(trait_name) + registrations_source(calls) + router_tail()
}

/// Writes the function around a method.
fn gen_handler(call: &MethodCall) -> (r: String)
    ensures
        r@ == handler_source(call.deep_view()),
{
    let mut source = "async fn ".to_owned();
    source.append(call.handler_name.as_str());
    source.append("<S: LanguageServer>(server: &S");
    if let Some(params) = &call.params {
        let ghost before = source@;
        source.append(", params: ");
        source.append(params.as_str());
        assert(source@ =~= before + params_source(call.deep_view().params));
    } else {
        assert(source@ =~= source@ + params_source(call.deep_view().params));
    }
    source.append(")");
    if let Some(result) = &call.result {
        let ghost before = source@;
        source.append(" -> ");
        source.append(result.as_str());
        assert(source@ =~= before + result_source(call.deep_view().result));
    } else {
        assert(source@ =~= source@ + result_source(call.deep_view().result));
    }
    source.append(" { server.");
    source.append(call.handler_name.as_str());
    source.append("(");
    if call.params.is_some() {
        source.append("params");
    } else {
        assert(source@ =~= source@ + argument_source(call.deep_view().params));
    }
    source.append(").await } ");
    source
}

/// Writes the module with the function that registers the methods of a trait.
pub fn gen_server_router(trait_name: &str, methods: &Vec<MethodCall>) -> (r: String)
    ensures
        r@ == router_source(trait_name@, methods.deep_view()),
{
    let mut source =
        "mod generated { use std::sync::Arc; use lsp_types::*; use lsp_types::notification::*; use lsp_types::request::*; use serde_json::Value; use super::".to_owned();
    source.append(trait_name);
    source.append(
        "; use crate::jsonrpc::{Result, Router}; pub(crate) fn register_lsp_methods<S>(mut router: Router<S>) -> Router<S> where S: ",
    );
    source.append(trait_name);
    source.append(", { ");
    let count = methods.len();
    let ghost all = methods.deep_view();
    assert(source@ =~= source@ + registrations_source(all.take(0)));
    for i in 0..count
        invariant
            count == methods.len(),
            all == methods.deep_view(),
            source@ == router_head(trait_name@) + registrations_source(all.take(i as int)),
    {
        let ghost before = source@;
        let call = &methods[i];
        source.append(gen_handler(call).as_str());
        source.append("router.register_method(");
        source.append(string_literal(call.rpc_name.as_str()).as_str());
        source.append(", ");
        source.append(call.handler_name.as_str());
        source.append("); ");
        proof {
            assert(all.take(i + 1).drop_last() =~= all.take(i as int));
            assert(all.take(i + 1).last() == call.deep_view());
            assert(source@ =~= before + registration_source(call.deep_view()));
            assert(source@ =~= router_head(trait_name@) + registrations_source(all.take(i + 1)));
        }
    }
    assert(all.take(count as int) =~= all);
    source.append("router.register_method(\"exit\", |_: &S| std::future::ready(())); router } }");
    source
}

/// What the `rpc` attribute stands in front of.
#[derive(Clone, Copy, Debug, PartialEq, Eq, Structural)]
pub enum Target {
    /// A server trait, which is to be expanded.
    ServerTrait,
    /// A method of such a trait, which the attribute gives its name.
    NamedMethod,
}

/// What the arguments of the `rpc` attribute say that it stands in front of, where
/// they are valid.
pub open spec fn target(args: Seq<NestedArgView>) -> Option<Target> {
    if args.len() == 0 {
        Some(Target::ServerTrait)
    } else if args.len() == 1 && args[0] == NestedArgView::Meta(Some("name"@)) {
        Some(Target::NamedMethod)
    } else {
        None
    }
}

/// Tells from the arguments of the `rpc` attribute what it stands in front of.
pub fn parse_target(args: &Vec<NestedArg>) -> (r: Option<Target>)
    ensures
        r == target(args.deep_view()),
{
    if args.len() == 0 {
        return Some(Target::ServerTrait);
    }
    assert(args.deep_view()[0] == args@[0].deep_view());
    if args.len() == 1 {
        if let NestedArg::Meta(ident) = &args[0] {
            if is_name(ident) {
                return Some(Target::NamedMethod);
            }
        }
    }
    None
}

/// The declaration of a server trait and, behind it, the module with the function
/// that registers its methods.
pub open spec fn expanded(decl: TraitDeclView) -> Result<Seq<char>, NameErrorView> {
    match method_calls(decl.items) {
        Ok(calls) => Ok(decl.text + "\n"@ + router_source(decl.ident, calls)),
        Err(error) => Err(error),
    }
}

/// Expands the declaration of a server trait.
pub fn expand_trait(decl: &TraitDecl) -> (r: Result<String, NameError>)
    ensures
        match r {
            Ok(source) => expanded(decl.deep_view()) == Ok::<Seq<char>, NameErrorView>(source@),
            Err(error) => expanded(decl.deep_view()) == Err::<Seq<char>, NameErrorView>(error@),
        },
{
    match parse_method_calls(decl) {
        Ok(calls) => {
            let mut source = decl.text.clone();
            source.append("\n");
            source.append(gen_server_router(decl.ident.as_str(), &calls).as_str());
            Ok(source)
        },
        Err(error) => Err(error),
    }
}

/// Why the `rpc` attribute cannot be expanded.
#[derive(Debug, PartialEq, Eq)]
pub enum RpcError {
    /// The arguments, or the item, cannot be read.
    Read(ReadError),
    /// The arguments are not those of the attribute.
    UnexpectedArguments,
    /// A method has no name.
    Name(NameError),
}

/// What an [`RpcError`] says.
pub enum RpcErrorView {
    Read(ReadErrorView),
    UnexpectedArguments,
    Name(NameErrorView),
}

impl View for RpcError {
    type V = RpcErrorView;

    open spec fn view(&self) -> RpcErrorView {
        match *self {
            RpcError::Read(error) => RpcErrorView::Read(error@),
            RpcError::UnexpectedArguments => RpcErrorView::UnexpectedArguments,
            RpcError::Name(error) => RpcErrorView::Name(error@),
        }
    }
}

impl RpcErrorView {
    /// The error in words.
    pub open spec fn words(self) -> Seq<char> {
        match self {
            RpcErrorView::Read(error) => error.words(),
            RpcErrorView::UnexpectedArguments => "unexpected attribute arguments"@,
            RpcErrorView::Name(error) => error.words(),
        }
    }
}

impl RpcError {
    /// The error in words.
    pub fn message(&self) -> (r: String)
        ensures
            r@ == self@.words(),
    {
        match self {
            RpcError::Read(error) => error.message(),
            RpcError::UnexpectedArguments => "unexpected attribute arguments".to_owned(),
            RpcError::Name(error) => error.message(),
        }
    }
}

/// What the `rpc` attribute without arguments makes of `item`: the item as it is, and
/// the module behind it.
pub open spec fn trait_expansion(item: Seq<char>) -> Result<Seq<char>, RpcErrorView> {
    match trait_decl(item) {
        Err(error) => Err(RpcErrorView::Read(error)),
        Ok(decl) => match method_calls(decl.items) {
            Ok(calls) => Ok(item + "\n"@ + router_source(decl.ident, calls)),
            Err(error) => Err(RpcErrorView::Name(error)),
        },
    }
}

/// What the `rpc` attribute with the arguments `attr` makes of `item`.
pub open spec fn rpc_expansion(attr: Seq<char>, item: Seq<char>) -> Result<
    Seq<char>,
    RpcErrorView,
> {
    match attribute_args(attr) {
        Err(error) => Err(RpcErrorView::Read(error)),
        Ok(args) => match target(args) {
            None => Err(RpcErrorView::UnexpectedArguments),
            Some(Target::NamedMethod) => Ok(item),
            Some(Target::ServerTrait) => trait_expansion(item),
        },
    }
}

/// Expands the `rpc` attribute with the arguments `attr` in front of `item`.
///
/// A method of a server trait is left as it is. A server trait is left as it is, too,
/// and gets behind it a module with the function `register_lsp_methods()`, which
/// registers all the methods of the trait as handlers.
pub fn rpc(attr: &str, item: &str) -> (r: Result<String, RpcError>)
    ensures
        match r {
            Ok(source) => rpc_expansion(attr@, item@) == Ok::<Seq<char>, RpcErrorView>(source@),
            Err(error) => rpc_expansion(attr@, item@) == Err::<Seq<char>, RpcErrorView>(error@),
        },
        attr@.len() == 0 ==> match r {
            Ok(source) => trait_expansion(item@) == Ok::<Seq<char>, RpcErrorView>(source@),
            Err(error) => trait_expansion(item@) == Err::<Seq<char>, RpcErrorView>(error@),
        },
{
    let args = match read_attribute_args(attr) {
        Ok(args) => args,
        Err(error) => return Err(RpcError::Read(error)),
    };
    match parse_target(&args) {
        None => Err(RpcError::UnexpectedArguments),
        Some(Target::NamedMethod) => Ok(item.to_owned()),
        Some(Target::ServerTrait) => match read_trait(item) {
            Err(error) => Err(RpcError::Read(error)),
            Ok(decl) => match expand_trait(&decl) {
                Ok(source) => Ok(source),
                Err(error) => Err(RpcError::Name(error)),
            },
        },
    }
}

} // verus!
