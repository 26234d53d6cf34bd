use lsp_service::macros::expand::{
    expand_trait, gen_server_router, parse_method_calls, parse_target, rpc, MethodCall,
    NameError, RpcError, Target,
};
use lsp_service::macros::syntax::{
    read_attribute_args, read_trait, AttrArg, MetaArg, MetaValue, MethodDecl, NestedArg, ReadError,
    TraitDecl, TraitEntry,
};
use lsp_service::macros::tokens::{
    find_unknown_in_args, find_unknown_in_attribute, find_unknown_in_item, Bracket, Token,
};
use proc_macro2::{TokenStream, TokenTree};

const SERVER: &str = "
    pub trait LanguageServer: Send + Sync + 'static {
        const LIMIT: usize;
        /// Starts the server.
        #[rpc(name = \"initialize\")]
        async fn initialize(&self, params: InitializeParams) -> Result<InitializeResult>;
        #[rpc(name = \"initialized\")]
        async fn initialized(&self, params: InitializedParams) { let _ = params; }
        type Extra;
        #[allow(unused)]
        #[rpc(name = \"\\\"shutdown\\\"\")]
        async fn shutdown(&self) -> Result<()>;
        #[rpc(name = \"custom/\\\\ping\")]
        async fn ping(&self);
    }";

fn flatten(stream: TokenStream, tokens: &mut Vec<String>) {
    for token in stream {
        match token {
            TokenTree::Group(group) => {
                tokens.push(format!("open {:?}", group.delimiter()));
                flatten(group.stream(), tokens);
                tokens.push(format!("close {:?}", group.delimiter()));
            }
            other => tokens.push(other.to_string()),
        }
    }
}

fn tokens(source: &str) -> Vec<String> {
    let mut tokens = vec![];
    flatten(source.parse().unwrap(), &mut tokens);
    tokens
}

fn text(text: &str) -> Option<String> {
    Some(text.to_owned())
}

fn string(value: &str) -> MetaValue {
    MetaValue::Str(value.to_owned())
}

fn name(value: &str) -> AttrArg {
    AttrArg::Meta(MetaArg { ident: text("name"), value: string(value) })
}

fn method(attrs: Vec<AttrArg>) -> TraitEntry {
    TraitEntry::Method(MethodDecl {
        attrs,
        ident: "hover".to_owned(),
        inputs: vec![None, text("HoverParams"), text("u8")],
        output: None,
    })
}

fn decl(items: Vec<TraitEntry>) -> TraitDecl {
    TraitDecl { text: "trait T { }".to_owned(), ident: "T".to_owned(), items }
}

#[test]
fn expands_a_server_trait() {
    let expected = [
        SERVER,
        "mod generated {
            use std::sync::Arc;
            use lsp_types::*;
            use lsp_types::notification::*;
            use lsp_types::request::*;
            use serde_json::Value;
            use super::LanguageServer;
            use crate::jsonrpc::{Result, Router};
            pub(crate) fn register_lsp_methods<S>(mut router: Router<S>) -> Router<S>
            where
                S: LanguageServer,
            {
                async fn initialize<S: LanguageServer>(
                    server: &S, params: InitializeParams
                ) -> Result<InitializeResult> {
                    server.initialize(params).await
                }
                router.register_method(\"initialize\", initialize);
                async fn initialized<S: LanguageServer>(server: &S, params: InitializedParams) {
                    server.initialized(params).await
                }
                router.register_method(\"initialized\", initialized);
                async fn shutdown<S: LanguageServer>(server: &S) -> Result<()> {
                    server.shutdown().await
                }
                router.register_method(\"shutdown\", shutdown);
                async fn ping<S: LanguageServer>(server: &S) {
                    server.ping().await
                }
                router.register_method(\"custom/\\\\ping\", ping);
                router.register_method(\"exit\", |_: &S| std::future::ready(()));
                router
            }
        }",
    ]
    .concat();
    assert_eq!(tokens(&rpc("", SERVER).unwrap()), tokens(&expected));
}

#[test]
fn leaves_named_methods_alone() {
    let item = "async fn  hover(&self) ;";
    assert_eq!(rpc("name = \"textDocument/hover\"", item), Ok(item.to_owned()));
    assert_eq!(rpc("name", "anything at all"), Ok("anything at all".to_owned()));
    assert_eq!(rpc("name = 3,", item), Ok(item.to_owned()));
}

#[test]
fn refuses_other_arguments() {
    for attr in ["names = \"a\"", "a::name", "\"name\"", "name, name", "other(name)"] {
        assert_eq!(rpc(attr, SERVER), Err(RpcError::UnexpectedArguments));
    }
    assert_eq!(RpcError::UnexpectedArguments.message(), "unexpected attribute arguments");
}

#[test]
fn refuses_what_cannot_be_read() {
    let error = syn::parse_str::<syn::ItemTrait>("struct S;").map(|_| ()).unwrap_err();
    let refused = rpc("", "struct S;").unwrap_err();
    assert_eq!(refused, RpcError::Read(ReadError::Syntax(error.to_string())));
    assert_eq!(refused.message(), error.to_string());
    assert!(matches!(rpc("name = ", SERVER), Err(RpcError::Read(ReadError::Syntax(_)))));
    assert!(matches!(rpc("name name", SERVER), Err(RpcError::Read(ReadError::Syntax(_)))));
}

#[test]
fn refuses_methods_without_names() {
    let missing = rpc("", "trait T { async fn a(&self); }").unwrap_err();
    assert_eq!(missing, RpcError::Name(NameError::MissingName));
    assert_eq!(missing.message(), "expected `#[rpc(name = \"foo\")]` attribute");
    for item in [
        "trait T { #[rpc(name)] async fn a(&self); }",
        "trait T { #[rpc(name = 1)] async fn a(&self); async fn b(&self); }",
        "trait T { #[rpc(name(\"a\"))] #[rpc(name = \"a\")] async fn a(&self); }",
    ] {
        let error = rpc("", item).unwrap_err();
        assert_eq!(error, RpcError::Name(NameError::ExpectedStringLiteral));
        assert_eq!(
            error.message(),
            "expected string literal for `#[rpc(name = ???)]` attribute"
        );
    }
}

#[test]
fn reads_a_trait() {
    let read = read_trait(SERVER).unwrap();
    assert_eq!(read.text, SERVER);
    assert_eq!(read.ident, "LanguageServer");
    assert_eq!(read.items.len(), 6);
    assert_eq!(read.items[0], TraitEntry::Other);
    assert_eq!(
        read.items[1],
        TraitEntry::Method(MethodDecl {
            attrs: vec![AttrArg::Unread, name("initialize")],
            ident: "initialize".to_owned(),
            inputs: vec![None, text("InitializeParams")],
            output: text("Result < InitializeResult >"),
        })
    );
    assert_eq!(
        read.items[4],
        TraitEntry::Method(MethodDecl {
            attrs: vec![
                AttrArg::Meta(MetaArg { ident: text("unused"), value: MetaValue::Path }),
                name("\"shutdown\""),
            ],
            ident: "shutdown".to_owned(),
            inputs: vec![None],
            output: text("Result < () >"),
        })
    );
    assert!(read_trait("").is_err());
}

#[test]
fn first_name_counts() {
    let calls = parse_method_calls(&decl(vec![
        TraitEntry::Other,
        method(vec![
            AttrArg::Unread,
            AttrArg::Meta(MetaArg { ident: None, value: string("x") }),
            AttrArg::Meta(MetaArg { ident: text("names"), value: string("y") }),
            name("\"\"a\"b\"\"\""),
            name("c"),
        ]),
    ]));
    assert_eq!(
        calls,
        Ok(vec![MethodCall {
            rpc_name: "a\"b".to_owned(),
            handler_name: "hover".to_owned(),
            params: text("HoverParams"),
            result: None,
        }])
    );
}

#[test]
fn names_of_quotes_alone_are_empty() {
    for value in ["", "\"", "\"\"\""] {
        let calls = parse_method_calls(&decl(vec![method(vec![name(value)])])).unwrap();
        assert_eq!(calls[0].rpc_name, "");
    }
}

#[test]
fn first_nameless_method_tells_why() {
    let valueless = || AttrArg::Meta(MetaArg { ident: text("name"), value: MetaValue::Path });
    let items = vec![method(vec![name("a")]), method(vec![valueless()]), method(vec![])];
    assert_eq!(parse_method_calls(&decl(items)), Err(NameError::ExpectedStringLiteral));
    let items = vec![method(vec![name("a")]), method(vec![]), method(vec![valueless()])];
    assert_eq!(parse_method_calls(&decl(items)), Err(NameError::MissingName));
    assert_eq!(expand_trait(&decl(vec![method(vec![])])), Err(NameError::MissingName));
}

#[test]
fn trait_without_methods_registers_exit() {
    let module = gen_server_router("T", &vec![]);
    assert!(module.contains("S: T, { router.register_method(\"exit\", |_: &S|"));
    assert_eq!(expand_trait(&decl(vec![])), Ok(format!("trait T {{ }}\n{}", module)));
}

#[test]
fn targets() {
    assert_eq!(parse_target(&vec![]), Some(Target::ServerTrait));
    assert_eq!(parse_target(&vec![NestedArg::Meta(text("name"))]), Some(Target::NamedMethod));
    assert_eq!(parse_target(&vec![NestedArg::Meta(None)]), None);
    assert_eq!(parse_target(&vec![NestedArg::Literal]), None);
}

#[test]
fn reads_all_kinds_of_arguments() {
    let source = "trait T {
        #[a(name)]
        #[a(name(x))]
        #[a(name = \"x\\n\")]
        #[a(name = 1)]
        #[a(x::name = \"x\")]
        #[a(1)]
        #[a]
        fn f();
    }";
    let read = read_trait(source).unwrap();
    let arg = |value| AttrArg::Meta(MetaArg { ident: text("name"), value });
    assert_eq!(
        read.items[0],
        TraitEntry::Method(MethodDecl {
            attrs: vec![
                arg(MetaValue::Path),
                arg(MetaValue::List),
                arg(string("x\n")),
                arg(MetaValue::Lit),
                AttrArg::Meta(MetaArg { ident: None, value: string("x") }),
                AttrArg::Unread,
                AttrArg::Unread,
            ],
            ident: "f".to_owned(),
            inputs: vec![],
            output: None,
        })
    );
}

fn literal(text: &str) -> ReadError {
    ReadError::Literal(text.to_owned())
}

#[test]
fn keeps_the_trait_as_it_is() {
    let item = "trait  T { } // the end";
    let source = rpc("", item).unwrap();
    assert!(source.starts_with(item));
    assert_eq!(source[item.len()..], format!("\n{}", gen_server_router("T", &vec![])));
    assert_eq!(tokens(&source)[..4], tokens("trait T { }"));
}

#[test]
fn refuses_arguments_with_unknown_literals() {
    for attr in ["c\"x\"", "name = c\"x\"", "a, c\"x\"", "a(c\"x\")", "a(b = c\"x\")"] {
        assert_eq!(rpc(attr, SERVER), Err(RpcError::Read(literal("c\"x\""))));
    }
    let error = read_attribute_args("a(1, \"b\", (/*ERROR*/))").unwrap_err();
    assert_eq!(error, literal("(/*ERROR*/)"));
    assert_eq!(error.message(), "Unrecognized literal: `(/*ERROR*/)`");
    assert_eq!(read_attribute_args("cr#\"x\"#"), Err(literal("cr#\"x\"#")));
    assert!(matches!(read_attribute_args("a c\"x\""), Err(ReadError::Syntax(_))));
    assert!(matches!(read_attribute_args("a = -c\"x\""), Err(ReadError::Syntax(_))));
}

#[test]
fn reads_arguments_with_all_known_literals() {
    let args = read_attribute_args(
        "a = \"x\", r\"x\", r#\"x\"#, b\"x\", br\"x\", b'x', 'x', ''', 1, 1.5, 1e5, 1.0e, 1e_+5, \
         0b1e5, 0xffu8, 1e, -1, true",
    )
    .unwrap();
    assert_eq!(args.len(), 18);
    assert_eq!(args[0], NestedArg::Meta(text("a")));
    assert!(args[1..].iter().all(|arg| *arg == NestedArg::Literal));
}

#[test]
fn refuses_traits_with_unknown_literals() {
    for item in [
        "trait T { const A: X = c\"x\"; }",
        "trait T { fn f() { g(c\"x\") } }",
        "trait T { fn f() { return !(c\"x\"); } }",
        "trait T { fn f() { 'a: loop { break 'a !(c\"x\") } } }",
        "trait T { fn f() -> ! { c\"x\" } }",
        "trait T { extern c\"x\" fn f(); }",
        "trait T { fn f() { macro m { } (c\"x\") } }",
        "trait T { fn f() { macro m(a) { } { c\"x\" } } }",
        "trait T { fn f() { loop { break 'macro m(c\"x\") } } }",
        "trait T { fn f() { m! { } (c\"x\") } }",
        "trait T { fn f() { a.b(m!(c\"y\")) + c\"x\" } }",
    ] {
        assert_eq!(rpc("", item), Err(RpcError::Read(literal("c\"x\""))));
    }
}

#[test]
fn takes_attributes_and_macro_calls_as_they_are() {
    let item = "trait T {
        #![a = c\"x\"]
        m! { c\"x\" }
        const A: m!(c\"x\") = a::m![c\"x\"];
        #[doc = c\"x\"]
        #[b(c\"x\")]
        #[rpc(name = \"a\")]
        fn f() {
            macro_rules! n { (c\"x\") => { } }
            m!(c\"x\");
            let m!(c\"x\") = 1;
            macro o(c\"x\") { c\"x\" }
            pub macro p { (c\"x\") => { } }
            (try!(c\"x\"), async!(c\"x\"), await!(c\"x\"), dyn![c\"x\"]);
            (self!(c\"x\"), Self!(c\"x\"), super!(c\"x\"), a::crate::m!(c\"x\"), crate!(c\"x\"))
        }
    }";
    let module = gen_server_router(
        "T",
        &vec![MethodCall {
            rpc_name: "a".to_owned(),
            handler_name: "f".to_owned(),
            params: None,
            result: None,
        }],
    );
    assert_eq!(rpc("", item), Ok(format!("{}\n{}", item, module)));
}

#[test]
fn attributes_behind_the_name_make_no_difference() {
    let item = "trait T { #[rpc(name = \"a\")] #[x(y = c\"z\")] async fn f(&self); }";
    assert!(rpc("", item).unwrap().contains("router.register_method(\"a\", f);"));
    for item in [
        "trait T { #[x(y = c\"z\")] #[rpc(name = \"a\")] async fn f(&self); }",
        "trait T { #[x(y(c\"z\"))] #[rpc(name = \"a\")] async fn f(&self); }",
        "trait T { #[x(y = c\"z\")] async fn f(&self); async fn g(&self); }",
    ] {
        let error = rpc("", item).unwrap_err();
        assert_eq!(error, RpcError::Name(NameError::Literal("c\"z\"".to_owned())));
        assert_eq!(error.message(), "Unrecognized literal: `c\"z\"`");
    }
    let item = "trait T { async fn g(&self); #[x(y = c\"z\")] async fn f(&self); }";
    assert_eq!(rpc("", item), Err(RpcError::Name(NameError::MissingName)));
}

#[test]
fn ignores_arguments_that_are_no_meta_item() {
    for attribute in [
        "#[foo(1, b(c\"z\"))]",
        "#[instrument(skip(self), fields(x = c\"y\"))]",
        "#[cfg_attr(feature = \"x\", doc(c\"z\"))]",
        "#[foo(a = [c\"z\"])]",
        "#[foo(a[c\"z\"])]",
        "#[foo(c\"z\")]",
        "#[foo(a c\"z\")]",
        "#[foo(a == c\"z\")]",
        "#[foo(a = -c\"z\")]",
        "#[foo(a: :b = c\"z\")]",
        "#[foo(a:: = c\"z\")]",
        "#[foo(= c\"z\")]",
        "#[foo(a = 1, b = c\"z\")]",
        "#[foo(a(b, = c\"z\"))]",
        "#[foo(a(b c = c\"z\"))]",
        "#[foo(a(true c\"z\"))]",
        "#[foo(a((c\"z\")))]",
        "#[foo(a(b = c\"z\")) c]",
        "#[foo(a = c\"z\")(b)]",
        "#[foo = c\"z\"]",
        "#[foo]",
    ] {
        let item = format!("trait T {{ {} #[rpc(name = \"a\")] async fn f(&self); }}", attribute);
        let source = rpc("", &item).unwrap();
        assert!(source.starts_with(&item));
        assert!(source.contains("router.register_method(\"a\", f);"));
    }
}

#[test]
fn refuses_meta_items_with_unknown_literals() {
    for attribute in [
        "#[foo(a = c\"z\")]",
        "#[foo[a = c\"z\"]]",
        "#[foo{::a::fn = c\"z\"}]",
        "#[foo(a = c\"z\", b)]",
        "#[foo(a = c\"z\" b)]",
        "#[foo(a(c\"z\"))]",
        "#[foo(a(b, c\"z\"))]",
        "#[foo(a(b(), ::c(1, -1.5, true, 'x', false = 2), d = c\"z\"))]",
        "#[foo(a(true = c\"z\"))]",
        "#[foo(a(b, c\"z\") d)]",
    ] {
        let item = format!("trait T {{ {} #[rpc(name = \"a\")] async fn f(&self); }}", attribute);
        assert_eq!(
            rpc("", &item),
            Err(RpcError::Name(NameError::Literal("c\"z\"".to_owned())))
        );
    }
}

#[test]
fn finds_unknown_literals_among_tokens() {
    let round = || Token::Open(Bracket::Round);
    let square = || Token::Open(Bracket::Square);
    let lit = || Token::Literal("c\"\"".to_owned());
    let ident = |name: &str| Token::Ident(name.to_owned());
    let punct = |character| Token::Punct(character, false);
    let found = || Some("c\"\"".to_owned());

    assert_eq!(find_unknown_in_item(&vec![lit()]), found());
    assert_eq!(find_unknown_in_item(&vec![punct('#'), square(), lit()]), None);
    let call = vec![ident("m"), punct('!'), round(), square(), Token::Close, lit()];
    assert_eq!(find_unknown_in_item(&call), None);
    let call = vec![ident("m"), punct('!'), round(), Token::Close, lit()];
    assert_eq!(find_unknown_in_item(&call), found());
    let call = vec![ident("yield"), punct('!'), round(), lit()];
    assert_eq!(find_unknown_in_item(&call), found());
    let call = vec![ident("try"), punct('!'), round(), lit()];
    assert_eq!(find_unknown_in_item(&call), None);

    assert_eq!(find_unknown_in_args(&vec![lit()]), found());
    assert_eq!(find_unknown_in_args(&vec![ident("a"), round(), lit()]), found());
    assert_eq!(find_unknown_in_args(&vec![ident("a"), square(), lit()]), None);
    assert_eq!(find_unknown_in_args(&vec![round(), lit()]), None);

    assert_eq!(find_unknown_in_attribute(&vec![lit()]), None);
    let nested = vec![round(), round(), lit(), Token::Close, Token::Close];
    assert_eq!(find_unknown_in_attribute(&nested), None);
    let list = vec![square(), ident("a"), round(), lit(), Token::Close, Token::Close];
    assert_eq!(find_unknown_in_attribute(&list), found());
}
