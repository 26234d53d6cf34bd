//! What holds of every expansion of the `rpc` attribute.

use super::expand::{
    expanded, gen_server_router, has_name, method_call, method_calls, parse_method_calls,
    parse_target, registration_source, registrations_source, router_head, router_source,
    router_tail, rpc, rpc_name, settled_name, settles_name, trait_expansion, MethodCall,
    MethodCallView, NameError, NameErrorView, RpcError, RpcErrorView, Target,
};
use super::syntax::{
    attr_arg, attribute_args, read_attribute_args, read_trait, syn_attribute_args,
    syn_attribute_meta, syn_attribute_stream, syn_item_trait, syn_method, trait_decl, AttrArgView, MetaValueView, MethodDeclView, NestedArg, NestedArgView, ReadError,
    TraitDecl, TraitDeclView, TraitEntryView,
};
use super::tokens::{
    lexed, stream_tokens, string_literal_text, unknown_in_args, unknown_in_attribute,
    unknown_in_item,
};
use crate::text::{is_unquoted, law_only_quotes_are_trimmed, trimmed_end, trimmed_start};
use vstd::prelude::*;

verus! {

/// The methods among the items of a trait, in their order.
pub open spec fn methods(items: Seq<TraitEntryView>) -> Seq<MethodDeclView>
    decreases items.len(),
{
    if items.len() == 0 {
        Seq::empty()
    } else {
        match items.last() {
            TraitEntryView::Method(method) => methods(items.drop_last()).push(method),
            TraitEntryView::Other => methods(items.drop_last()),
        }
    }
}

/// Every method of a trait is registered, once and in its place; nothing else is.
/// A trait with a method that has no name is not expanded, and the first such method
/// tells why.
pub proof fn law_methods_in_order(items: Seq<TraitEntryView>)
    ensures
        match method_calls(items) {
            Ok(calls) => {
                &&& calls.len() == methods(items).len()
                &&& forall|k: int|
                    0 <= k < calls.len() ==> method_call(#[trigger] methods(items)[k]) == Ok::<
                        MethodCallView,
                        NameErrorView,
                    >(calls[k])
            },
            Err(error) => exists|k: int|
                {
                    &&& 0 <= k < methods(items).len()
                    &&& method_call(#[trigger] methods(items)[k]) == Err::<
                        MethodCallView,
                        NameErrorView,
                    >(error)
                    &&& forall|j: int|
                        0 <= j < k ==> method_call(#[trigger] methods(items)[j]) is Ok
                },
        },
    decreases items.len(),
{
    if items.len() > 0 {
        law_methods_in_order(items.drop_last());
        let before = methods(items.drop_last());
        let all = methods(items);
        match method_calls(items.drop_last()) {
            Err(error) => {
                let k = choose|k: int|
                    {
                        &&& 0 <= k < before.len()
                        &&& method_call(#[trigger] before[k]) == Err::<MethodCallView, NameErrorView>(
                            error,
                        )
                        &&& forall|j: int|
                            0 <= j < k ==> method_call(#[trigger] before[j]) is Ok
                    };
                assert(all[k] == before[k]);
                assert forall|j: int| 0 <= j < k implies method_call(#[trigger] all[j]) is Ok by {
                    assert(all[j] == before[j]);
                }
            },
            Ok(calls) => {
                assert forall|j: int| 0 <= j < before.len() implies method_call(
                    #[trigger] all[j],
                ) == Ok::<MethodCallView, NameErrorView>(calls[j]) by {
                    assert(all[j] == before[j]);
                }
                if items.last() is Method {
                    assert(all[before.len() as int] == items.last()->Method_0);
                }
            },
        }
    }
}

proof fn lemma_first_name(attrs: Seq<AttrArgView>, i: int)
    requires
        0 <= i < attrs.len(),
        settles_name(attrs[i]),
        forall|j: int| 0 <= j < i ==> !settles_name(#[trigger] attrs[j]),
    ensures
        rpc_name(attrs) == settled_name(attrs[i]),
    decreases attrs.len(),
{
    if i > 0 {
        assert(!settles_name(attrs[0]));
        let rest = attrs.drop_first();
        assert forall|j: int| 0 <= j < i - 1 implies !settles_name(#[trigger] rest[j]) by {
            assert(rest[j] == attrs[j + 1]);
        }
        lemma_first_name(rest, i - 1);
    }
}

/// Every method of a trait is named by its first attribute that settles its name; what
/// stands behind that attribute makes no difference.
pub proof fn law_first_name_counts(attrs: Seq<AttrArgView>, i: int, behind: Seq<AttrArgView>)
    requires
        0 <= i < attrs.len(),
        settles_name(attrs[i]),
        forall|j: int| 0 <= j < i ==> !settles_name(#[trigger] attrs[j]),
    ensures
        rpc_name(attrs) == settled_name(attrs[i]),
        rpc_name(attrs.take(i + 1) + behind) == rpc_name(attrs),
{
    let other = attrs.take(i + 1) + behind;
    assert forall|j: int| 0 <= j < i implies !settles_name(#[trigger] other[j]) by {
        assert(other[j] == attrs[j]);
    }
    assert(other[i] == attrs[i]);
    lemma_first_name(attrs, i);
    lemma_first_name(other, i);
}

/// A method has no name if and only if none of its attributes settles it.
pub proof fn law_missing_name(attrs: Seq<AttrArgView>)
    ensures
        rpc_name(attrs) == Err::<Seq<char>, NameErrorView>(NameErrorView::MissingName) <==> forall|i: int|
            0 <= i < attrs.len() ==> !settles_name(#[trigger] attrs[i]),
    decreases attrs.len(),
{
    if attrs.len() > 0 {
        let rest = attrs.drop_first();
        law_missing_name(rest);
        assert(forall|i: int| 0 <= i < rest.len() ==> #[trigger] rest[i] == attrs[i + 1]);
        if !settles_name(attrs[0]) {
            if forall|i: int| 0 <= i < rest.len() ==> !settles_name(#[trigger] rest[i]) {
                assert forall|i: int| 0 <= i < attrs.len() implies !settles_name(
                    #[trigger] attrs[i],
                ) by {
                    if i > 0 {
                        assert(rest[i - 1] == attrs[i]);
                    }
                }
            }
        }
    }
}

proof fn lemma_trimmed_start(text: Seq<char>)
    ensures
        trimmed_start(text).len() > 0 ==> trimmed_start(text)[0] != '"',
    decreases text.len(),
{
    if text.len() > 0 && text[0] == '"' {
        lemma_trimmed_start(text.drop_first());
    }
}

proof fn lemma_trimmed_end(text: Seq<char>)
    ensures
        trimmed_end(text).len() > 0 ==> trimmed_end(text).last() != '"' && trimmed_end(text)[0]
            == text[0],
    decreases text.len(),
{
    if text.len() > 0 && text.last() == '"' {
        lemma_trimmed_end(text.drop_last());
    }
}

/// The names of methods have no quotes around them.
pub proof fn law_names_are_bare(attrs: Seq<AttrArgView>)
    ensures
        rpc_name(attrs) matches Ok(name) ==> name.len() > 0 ==> name[0] != '"' && name.last()
            != '"',
    decreases attrs.len(),
{
    if attrs.len() > 0 {
        if settles_name(attrs[0]) {
            if let AttrArgView::Meta(meta) = attrs[0] {
                if let MetaValueView::Str(value) = meta.value {
                    lemma_trimmed_start(value);
                    lemma_trimmed_end(trimmed_start(value));
                }
            }
        } else {
            law_names_are_bare(attrs.drop_first());
        }
    }
}

/// Whether the path of an attribute's argument is the word `name`.
pub open spec fn says_name(attr: AttrArgView) -> bool {
    attr matches AttrArgView::Meta(meta) && meta.ident == Some("name"@)
}

/// The first attribute of a method that says `name`, or comes to a literal that is not
/// known, decides: the name is the string that stands there, with nothing but quotes
/// taken from its two ends. Anything else there is an error.
pub proof fn law_name_is_the_value(attrs: Seq<AttrArgView>, i: int)
    requires
        0 <= i < attrs.len(),
        says_name(attrs[i]) || attrs[i] is Literal,
        forall|j: int|
            0 <= j < i ==> !says_name(#[trigger] attrs[j]) && !(attrs[j] is Literal),
    ensures
        match attrs[i] {
            AttrArgView::Literal(text) => rpc_name(attrs) == Err::<Seq<char>, NameErrorView>(
                NameErrorView::Literal(text),
            ),
            AttrArgView::Meta(meta) => match meta.value {
                MetaValueView::Str(value) => rpc_name(attrs) matches Ok(name) && is_unquoted(
                    value,
                    name,
                ),
                _ => rpc_name(attrs) == Err::<Seq<char>, NameErrorView>(
                    NameErrorView::ExpectedStringLiteral,
                ),
            },
            AttrArgView::Unread => false,
        },
    decreases attrs.len(),
{
    if i > 0 {
        assert(!says_name(attrs[0]) && !(attrs[0] is Literal));
        let rest = attrs.drop_first();
        assert(rest[i - 1] == attrs[i]);
        assert forall|j: int| 0 <= j < i - 1 implies !says_name(#[trigger] rest[j]) && !(
        rest[j] is Literal) by {
            assert(rest[j] == attrs[j + 1]);
        }
        law_name_is_the_value(rest, i - 1);
    } else if let AttrArgView::Meta(meta) = attrs[0] {
        if let MetaValueView::Str(value) = meta.value {
            law_only_quotes_are_trimmed(value);
        }
    }
}

/// A method none of whose attributes says `name` or comes to a literal that is not known
/// has no name; every other method has one, or another error.
pub proof fn law_nameless_methods(attrs: Seq<AttrArgView>)
    ensures
        rpc_name(attrs) == Err::<Seq<char>, NameErrorView>(NameErrorView::MissingName)
            <==> forall|i: int|
            0 <= i < attrs.len() ==> !says_name(#[trigger] attrs[i]) && !(attrs[i] is Literal),
{
    if exists|i: int|
        0 <= i < attrs.len() && (says_name(#[trigger] attrs[i]) || attrs[i] is Literal) {
        lemma_first_decides(attrs);
    } else {
        assert forall|i: int| 0 <= i < attrs.len() implies !settles_name(#[trigger] attrs[i]) by {
            assert(!says_name(attrs[i]) && !(attrs[i] is Literal));
        }
        law_missing_name(attrs);
    }
}

proof fn lemma_first_decides(attrs: Seq<AttrArgView>)
    requires
        exists|i: int|
            0 <= i < attrs.len() && (says_name(#[trigger] attrs[i]) || attrs[i] is Literal),
    ensures
        rpc_name(attrs) != Err::<Seq<char>, NameErrorView>(NameErrorView::MissingName),
    decreases attrs.len(),
{
    let i = choose|i: int|
        0 <= i < attrs.len() && (says_name(#[trigger] attrs[i]) || attrs[i] is Literal);
    if says_name(attrs[0]) || attrs[0] is Literal {
        law_name_is_the_value(attrs, 0);
    } else {
        let rest = attrs.drop_first();
        assert(rest[i - 1] == attrs[i]);
        lemma_first_decides(rest);
    }
}

/// Whether a method is to be registered as its declaration says.
pub open spec fn tells(call: MethodCall, method: MethodDeclView) -> bool {
    &&& call.handler_name@ == method.ident
    &&& call.params.deep_view() == (if method.inputs.len() >= 2 {
        method.inputs[1]
    } else {
        None
    })
    &&& call.result.deep_view() == method.output
    &&& rpc_name(method.attrs) == Ok::<Seq<char>, NameErrorView>(call.rpc_name@)
}

/// What is told of a method that is to be registered is what its declaration says: its
/// own name, the type of the argument behind the receiver, the type that it returns, and
/// the name that its attributes give it.
pub proof fn law_calls_tell_their_methods(
    decl: &TraitDecl,
    found: Result<Vec<MethodCall>, NameError>,
)
    requires
        call_ensures(parse_method_calls, (decl,), found),
    ensures
        found matches Ok(calls) ==> {
            &&& calls@.len() == methods(decl.deep_view().items).len()
            &&& forall|k: int|
                0 <= k < calls@.len() ==> tells(
                    #[trigger] calls@[k],
                    methods(decl.deep_view().items)[k],
                )
        },
        found matches Err(error) ==> exists|k: int|
            {
                &&& 0 <= k < methods(decl.deep_view().items).len()
                &&& rpc_name((#[trigger] methods(decl.deep_view().items)[k]).attrs) == Err::<
                    Seq<char>,
                    NameErrorView,
                >(error@)
                &&& forall|j: int|
                    0 <= j < k ==> rpc_name(
                        (#[trigger] methods(decl.deep_view().items)[j]).attrs,
                    ) is Ok
            },
{
    let all = methods(decl.deep_view().items);
    law_methods_in_order(decl.deep_view().items);
    match found {
        Ok(calls) => {
            assert forall|k: int| 0 <= k < calls@.len() implies tells(
                #[trigger] calls@[k],
                all[k],
            ) by {
                assert(calls.deep_view()[k] == calls@[k].deep_view());
                assert(method_call(all[k]) is Ok);
            }
        },
        Err(error) => {
            let k = choose|k: int|
                {
                    &&& 0 <= k < all.len()
                    &&& method_call(#[trigger] all[k]) == Err::<MethodCallView, NameErrorView>(
                        error@,
                    )
                    &&& forall|j: int| 0 <= j < k ==> method_call(#[trigger] all[j]) is Ok
                };
            assert(rpc_name(all[k].attrs) == Err::<Seq<char>, NameErrorView>(error@));
            assert forall|j: int| 0 <= j < k implies rpc_name((#[trigger] all[j]).attrs) is Ok by {
                assert(method_call(all[j]) is Ok);
            }
        },
    }
}

/// A method is registered under its name as a handler, which is an `async` function of
/// the same name that takes the server, and the parameters where there are any, calls
/// the method of the server with them, and gives what it gives.
pub proof fn law_registration_text(call: MethodCallView)
    ensures
        registration_source(call) == "async fn "@ + call.handler_name
            + "<S: LanguageServer>(server: &S"@ + (match call.params {
            Some(params) => ", params: "@ + params,
            None => Seq::empty(),
        }) + ")"@ + (match call.result {
            Some(result) => " -> "@ + result,
            None => Seq::empty(),
        }) + " { server."@ + call.handler_name + "("@ + (match call.params {
            Some(_) => "params"@,
            None => Seq::empty(),
        }) + ").await } "@ + "router.register_method("@ + string_literal_text(call.rpc_name)
            + ", "@ + call.handler_name + "); "@,
{
}

/// The registrations of one method more are those of the others and, behind them, its
/// own; those of no methods are empty.
pub proof fn law_registrations_grow(calls: Seq<MethodCallView>, call: MethodCallView)
    ensures
        registrations_source(Seq::empty()) == Seq::<char>::empty(),
        registrations_source(calls.push(call)) == registrations_source(calls)
            + registration_source(call),
{
    assert(calls.push(call).drop_last() =~= calls);
}

/// The generated module: it imports the trait, and its function `register_lsp_methods`
/// takes a router of any server with this trait, registers the methods and, last, `exit`
/// with a handler that does nothing, and gives the router back.
pub proof fn law_module_text(trait_name: &str, calls: &Vec<MethodCall>, module: String)
    requires
        call_ensures(gen_server_router, (trait_name, calls), module),
    ensures
        module@
            == "mod generated { use std::sync::Arc; use lsp_types::*; use lsp_types::notification::*; use lsp_types::request::*; use serde_json::Value; use super::"@
            + trait_name@
            + "; use crate::jsonrpc::{Result, Router}; pub(crate) fn register_lsp_methods<S>(mut router: Router<S>) -> Router<S> where S: "@
            + trait_name@ + ", { "@ + registrations_source(calls.deep_view())
            + "router.register_method(\"exit\", |_: &S| std::future::ready(())); router } }"@,
{
}

/// What the attribute stands in front of is told by its arguments alone: a server trait
/// by none, a method by one, whose path is `name`.
pub proof fn law_targets(args: &Vec<NestedArg>, told: Option<Target>)
    requires
        call_ensures(parse_target, (args,), told),
    ensures
        told == Some(Target::ServerTrait) <==> args@.len() == 0,
        told == Some(Target::NamedMethod) <==> args@.len() == 1 && (
        args@[0] matches NestedArg::Meta(Some(name)) && name@ == "name"@),
{
    if args@.len() > 0 {
        assert(args.deep_view()[0] == args@[0].deep_view());
    }
}

/// What the attribute makes of an item: a named method stays as it is, letter for
/// letter; with no arguments a trait that is read is expanded, with its methods; other
/// arguments, and what cannot be read, are refused.
pub proof fn law_rpc(attr: &str, item: &str, made: Result<String, RpcError>)
    requires
        call_ensures(rpc, (attr, item), made),
    ensures
        match attribute_args(attr@) {
            Err(error) => made matches Err(RpcError::Read(given)) && given@ == error,
            Ok(args) => if args.len() == 1 && args[0] == NestedArgView::Meta(Some("name"@)) {
                made matches Ok(source) && source@ == item@
            } else if args.len() > 0 {
                made matches Err(RpcError::UnexpectedArguments)
            } else {
                match trait_decl(item@) {
                    Err(error) => made matches Err(RpcError::Read(given)) && given@ == error,
                    Ok(decl) => match method_calls(decl.items) {
                        Err(error) => made matches Err(RpcError::Name(given)) && given@ == error,
                        Ok(calls) => made matches Ok(source) && source@ == item@ + "\n"@
                            + router_source(decl.ident, calls),
                    },
                }
            },
        },
{
}

/// What is read of a trait is what `syn` finds in it, item for item: of each method its
/// name, the types of its arguments, the type that it returns, and its attributes in
/// their order.
pub proof fn law_items_are_those_of_the_trait(item: Seq<char>, k: int)
    requires
        trait_decl(item) is Ok,
        0 <= k < trait_decl(item)->Ok_0.items.len(),
    ensures
        syn_item_trait(item) matches Ok(raw) && {
            let decl = trait_decl(item)->Ok_0;
            &&& decl.text == item
            &&& decl.ident == raw.ident
            &&& decl.items.len() == raw.items.len()
            &&& match raw.items[k] {
                None => decl.items[k] is Other,
                Some(method) => decl.items[k] matches TraitEntryView::Method(found) && {
                    let parts = syn_method(method);
                    &&& found.ident == parts.ident
                    &&& found.inputs == parts.inputs
                    &&& found.output == parts.output
                    &&& found.attrs.len() == parts.attrs.len()
                    &&& forall|j: int|
                        0 <= j < parts.attrs.len() ==> #[trigger] found.attrs[j] == attr_arg(
                            parts.attrs[j],
                        )
                },
            }
        },
{
}

/// A text is read in three steps, as arguments and as a trait alike: what is wrong with
/// its tokens, then the first literal that would be read and is not known, then what
/// `syn` says is wrong, is the error; else it is read as `syn` reads it.
pub proof fn law_texts_are_read(
    text: &str,
    args: Result<Vec<NestedArg>, ReadError>,
    decl: Result<TraitDecl, ReadError>,
)
    requires
        call_ensures(read_attribute_args, (text,), args),
        call_ensures(read_trait, (text,), decl),
    ensures
        match lexed(text@) {
            Err(error) => {
                &&& args matches Err(ReadError::Syntax(message)) && message@ == error
                &&& decl matches Err(ReadError::Syntax(message)) && message@ == error
            },
            Ok(stream) => {
                &&& match unknown_in_args(stream_tokens(stream)) {
                    Some(literal) => args matches Err(ReadError::Literal(given)) && given@
                        == literal,
                    None => match syn_attribute_args(text@) {
                        Err(error) => args matches Err(ReadError::Syntax(message)) && message@
                            == error,
                        Ok(found) => args matches Ok(given) && given.deep_view() == found,
                    },
                }
                &&& match unknown_in_item(stream_tokens(stream)) {
                    Some(literal) => decl matches Err(ReadError::Literal(given)) && given@
                        == literal,
                    None => match syn_item_trait(text@) {
                        Err(error) => decl matches Err(ReadError::Syntax(message)) && message@
                            == error,
                        Ok(raw) => decl matches Ok(given) && given.text@ == text@ && given.ident@
                            == raw.ident && given.items@.len() == raw.items.len(),
                    },
                }
            },
        },
{
    if let Ok(given) = decl {
        assert(given.items.deep_view().len() == given.items@.len());
    }
}

/// What an attribute holds is what `syn` reads in it, unless it would come to a literal
/// that it does not know.
pub proof fn law_attributes_are_read(attribute: syn::Attribute)
    ensures
        match unknown_in_attribute(stream_tokens(syn_attribute_stream(attribute))) {
            Some(text) => attr_arg(attribute) == AttrArgView::Literal(text),
            None => match syn_attribute_meta(attribute) {
                Some(meta) => attr_arg(attribute) == AttrArgView::Meta(meta),
                None => attr_arg(attribute) is Unread,
            },
        },
{
}

/// The errors in words.
pub proof fn law_error_messages(error: RpcError, message: String)
    requires
        call_ensures(RpcError::message, (&error,), message),
    ensures
        message@ == match error {
            RpcError::UnexpectedArguments => "unexpected attribute arguments"@,
            RpcError::Read(ReadError::Syntax(text)) => text@,
            RpcError::Read(ReadError::Literal(text)) => "Unrecognized literal: `"@ + text@ + "`"@,
            RpcError::Name(NameError::Literal(text)) => "Unrecognized literal: `"@ + text@ + "`"@,
            RpcError::Name(NameError::MissingName) =>
                "expected `#[rpc(name = \"foo\")]` attribute"@,
            RpcError::Name(NameError::ExpectedStringLiteral) =>
                "expected string literal for `#[rpc(name = ???)]` attribute"@,
        },
{
}

/// The registrations of a list are those of its two parts.
proof fn lemma_registrations_split(calls: Seq<MethodCallView>, k: int)
    requires
        0 <= k <= calls.len(),
    ensures
        registrations_source(calls) == registrations_source(calls.take(k)) + registrations_source(
            calls.skip(k),
        ),
    decreases calls.len(),
{
    if k == calls.len() {
        assert(calls.take(k) =~= calls);
        assert(calls.skip(k) =~= Seq::empty());
        assert(registrations_source(calls) =~= registrations_source(calls) + Seq::<char>::empty());
    } else {
        let init = calls.drop_last();
        lemma_registrations_split(init, k);
        assert(init.take(k) =~= calls.take(k));
        assert(calls.skip(k).drop_last() =~= init.skip(k));
        assert(calls.skip(k).last() == calls.last());
        assert(registrations_source(calls) =~= registrations_source(calls.take(k))
            + registrations_source(calls.skip(k)));
    }
}

/// The generated function holds the registration of each method, behind those of
/// the methods before it.
pub proof fn law_source_holds_registration(
    trait_name: Seq<char>,
    calls: Seq<MethodCallView>,
    k: int,
)
    requires
        0 <= k < calls.len(),
    ensures
        router_source(trait_name, calls) == router_head(trait_name) + registrations_source(
            calls.take(k),
        ) + registration_source(calls[k]) + registrations_source(calls.skip(k + 1))
            + router_tail(),
{
    lemma_registrations_split(calls, k + 1);
    assert(calls.take(k + 1).drop_last() =~= calls.take(k));
    assert(calls.take(k + 1).last() == calls[k]);
    assert(router_source(trait_name, calls) =~= router_head(trait_name) + registrations_source(
        calls.take(k),
    ) + registration_source(calls[k]) + registrations_source(calls.skip(k + 1)) + router_tail());
}

/// The place of a method among the methods of a trait.
proof fn lemma_method_place(items: Seq<TraitEntryView>, i: int) -> (k: int)
    requires
        0 <= i < items.len(),
        items[i] is Method,
    ensures
        0 <= k < methods(items).len(),
        methods(items)[k] == items[i]->Method_0,
    decreases items.len(),
{
    if i == items.len() - 1 {
        methods(items.drop_last()).len() as int
    } else {
        lemma_method_place(items.drop_last(), i)
    }
}

/// The expansion of a trait is its declaration and, behind it, a module that
/// registers every method of the trait.
pub proof fn law_expansion_registers_every_method(decl: TraitDeclView, i: int)
    requires
        expanded(decl) is Ok,
        0 <= i < decl.items.len(),
        decl.items[i] is Method,
    ensures
        method_call(decl.items[i]->Method_0) is Ok,
        exists|before: Seq<char>, after: Seq<char>|
            expanded(decl)->Ok_0 == #[trigger] (decl.text + "\n"@ + before + registration_source(
                method_call(decl.items[i]->Method_0)->Ok_0,
            ) + after),
{
    let calls = method_calls(decl.items)->Ok_0;
    law_methods_in_order(decl.items);
    let k = lemma_method_place(decl.items, i);
    law_source_holds_registration(decl.ident, calls, k);
    let before = router_head(decl.ident) + registrations_source(calls.take(k));
    let after = registrations_source(calls.skip(k + 1)) + router_tail();
    assert(methods(decl.items)[k] == decl.items[i]->Method_0);
    assert(expanded(decl)->Ok_0 =~= decl.text + "\n"@ + before + registration_source(
        method_call(decl.items[i]->Method_0)->Ok_0,
    ) + after);
}

/// Whether the attributes of a method give it a name: the first that has a `name` has a
/// string there, and none before it makes `syn` come to a literal that it does not
/// know.
pub open spec fn is_named(attrs: Seq<AttrArgView>) -> bool {
    exists|i: int|
        {
            &&& 0 <= i < attrs.len()
            &&& has_name(#[trigger] attrs[i])
            &&& attrs[i]->Meta_0.value is Str
            &&& forall|j: int| 0 <= j < i ==> !settles_name(#[trigger] attrs[j])
        }
}

proof fn lemma_named_methods(items: Seq<TraitEntryView>)
    requires
        forall|k: int|
            0 <= k < items.len() ==> (#[trigger] items[k] matches TraitEntryView::Method(method)
                ==> is_named(method.attrs)),
    ensures
        method_calls(items) is Ok,
    decreases items.len(),
{
    if items.len() > 0 {
        let before = items.drop_last();
        assert forall|k: int| 0 <= k < before.len() implies (
        #[trigger] before[k] matches TraitEntryView::Method(method) ==> is_named(method.attrs)) by {
            assert(before[k] == items[k]);
        }
        lemma_named_methods(before);
        let last = items[items.len() - 1];
        if let TraitEntryView::Method(method) = last {
            let attrs = method.attrs;
            let i = choose|i: int|
                {
                    &&& 0 <= i < attrs.len()
                    &&& has_name(#[trigger] attrs[i])
                    &&& attrs[i]->Meta_0.value is Str
                    &&& forall|j: int| 0 <= j < i ==> !settles_name(#[trigger] attrs[j])
                };
            lemma_first_name(attrs, i);
        }
    }
}

/// A server trait whose methods all have a name is expanded: to the trait itself and,
/// behind it, the module that registers every method under its name. Whatever else
/// stands in the attributes makes no difference.
pub proof fn law_named_trait_expands(item: Seq<char>)
    requires
        trait_decl(item) is Ok,
        forall|k: int|
            0 <= k < trait_decl(item)->Ok_0.items.len() ==> (
            #[trigger] trait_decl(item)->Ok_0.items[k] matches TraitEntryView::Method(method)
                ==> is_named(method.attrs)),
    ensures
        method_calls(trait_decl(item)->Ok_0.items) is Ok,
        trait_expansion(item) == Ok::<Seq<char>, RpcErrorView>(
            item + "\n"@ + router_source(
                trait_decl(item)->Ok_0.ident,
                method_calls(trait_decl(item)->Ok_0.items)->Ok_0,
            ),
        ),
{
    lemma_named_methods(trait_decl(item)->Ok_0.items);
}

/// A server trait is kept as it is, letter for letter, in front of what it is expanded
/// to.
pub proof fn law_trait_is_kept(item: Seq<char>)
    ensures
        trait_expansion(item) matches Ok(source) ==> {
            &&& item.is_prefix_of(source)
            &&& trait_decl(item) matches Ok(decl) && decl.text == item && expanded(decl) == Ok::<
                Seq<char>,
                NameErrorView,
            >(source)
        },
{
    if let Ok(source) = trait_expansion(item) {
        assert(source.take(item.len() as int) =~= item);
    }
}

} // verus!
