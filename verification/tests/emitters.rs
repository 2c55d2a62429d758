use dubbo_build::attributes::{match_name, Attributes};
use dubbo_build::client;
use dubbo_build::emit::{emit_operation, is_identifier, names_are_identifiers, same_identifier};
use dubbo_build::error::GenerateError;
use dubbo_build::server;
use dubbo_build::service::{select_shape, DubboMethod, DubboService, Method, Service, Shape};
use dubbo_build::template::{
    build_module_name, build_rpc_path, build_service_path, build_struct_name,
    generate_doc_comments, primitive_name, render_forwarding, render_operation,
    render_request_parameter, render_response_type, splice, Role,
};
use dubbo_build::text::{clone_strings, concat_all};

fn method(name: &str, client_streaming: bool, server_streaming: bool) -> DubboMethod {
    let mut proto_name = String::new();
    for (i, c) in name.chars().enumerate() {
        if i == 0 {
            proto_name.extend(c.to_uppercase());
        } else {
            proto_name.push(c);
        }
    }
    DubboMethod::new(
        name.to_string(),
        proto_name,
        vec![format!(" Calls {}.", name)],
        "HelloRequest".to_string(),
        "HelloReply".to_string(),
        ".greet.v1.HelloRequest".to_string(),
        ".greet.v1.HelloReply".to_string(),
        client_streaming,
        server_streaming,
    )
}

fn four_shapes() -> DubboService {
    DubboService::new(
        "Greeter".to_string(),
        "Greeter".to_string(),
        "greet.v1".to_string(),
        vec![
            method("one", false, false),
            method("two", false, true),
            method("three", true, false),
            method("four", true, true),
        ],
        vec![" The greeting service.".to_string()],
    )
}

fn impl_methods(file: &syn::File, struct_name: &str) -> Vec<syn::ImplItemFn> {
    let mut found = Vec::new();
    for item in &file.items {
        if let syn::Item::Mod(module) = item {
            let (_, items) = module.content.as_ref().unwrap();
            for inner in items {
                if let syn::Item::Impl(block) = inner {
                    if let syn::Type::Path(p) = &*block.self_ty {
                        assert_eq!(p.path.segments.last().unwrap().ident.to_string(), struct_name);
                    }
                    for entry in &block.items {
                        if let syn::ImplItem::Fn(m) = entry {
                            found.push(m.clone());
                        }
                    }
                }
            }
        }
    }
    found
}

fn compact(text: &str) -> String {
    text.chars().filter(|c| !c.is_whitespace()).collect()
}

fn signature_text(m: &syn::ImplItemFn) -> String {
    let mut parts = Vec::new();
    for input in &m.sig.inputs {
        if let syn::FnArg::Typed(t) = input {
            parts.push(type_text(&t.ty));
        }
    }
    if let syn::ReturnType::Type(_, ty) = &m.sig.output {
        parts.push(type_text(ty));
    }
    parts.join(" -> ")
}

fn type_text(ty: &syn::Type) -> String {
    let file = syn::File {
        shebang: None,
        attrs: Vec::new(),
        items: vec![syn::Item::Type(syn::ItemType {
            attrs: Vec::new(),
            vis: syn::Visibility::Inherited,
            type_token: Default::default(),
            ident: syn::Ident::new("T", proc_macro2::Span::call_site()),
            generics: Default::default(),
            eq_token: Default::default(),
            ty: Box::new(ty.clone()),
            semi_token: Default::default(),
        })],
    };
    compact(&prettyplease::unparse(&file))
}

#[test]
fn shape_dispatch_covers_the_four_combinations() {
    assert_eq!(select_shape(false, false), Shape::Unary);
    assert_eq!(select_shape(false, true), Shape::ServerStreaming);
    assert_eq!(select_shape(true, false), Shape::ClientStreaming);
    assert_eq!(select_shape(true, true), Shape::BidiStreaming);
}

#[test]
fn greeter_say_hello_path_and_shape() {
    assert_eq!(build_rpc_path("greet.v1", "Greeter", "SayHello"), "/greet.v1.Greeter/SayHello");
    assert_eq!(select_shape(false, false), Shape::Unary);
    let m = DubboMethod::new(
        "say_hello".to_string(),
        "SayHello".to_string(),
        Vec::new(),
        "HelloRequest".to_string(),
        "HelloReply".to_string(),
        ".greet.v1.HelloRequest".to_string(),
        ".greet.v1.HelloReply".to_string(),
        false,
        false,
    );
    let s = DubboService::new(
        "Greeter".to_string(),
        "Greeter".to_string(),
        "greet.v1".to_string(),
        vec![m],
        Vec::new(),
    );
    let ops = client::generate_operations(&s, true, "super", false).unwrap();
    assert_eq!(ops.len(), 1);
    assert!(ops[0].contains("from_static(\"/greet.v1.Greeter/SayHello\")"));
    assert!(ops[0].contains("self.inner.unary(request, codec, path).await"));
    assert!(ops[0].starts_with("pub async fn say_hello(&mut self, request: Request<super::HelloRequest\n>)"));
}

#[test]
fn empty_package_gives_no_leading_dot() {
    assert_eq!(build_rpc_path("", "Ping", "Method"), "/Ping/Method");
    assert_eq!(build_service_path("", "Ping"), "Ping");
    assert_eq!(build_service_path("a.b", "Ping"), "a.b.Ping");
}

#[test]
fn paths_are_not_trimmed_or_recased() {
    assert_eq!(build_rpc_path(" a ", "sVc", "m/ethod"), "/ a .sVc/m/ethod");
    assert_eq!(build_rpc_path("p", "", ""), "/p./");
}

#[test]
fn package_is_left_out_on_request() {
    let ops = client::generate_operations(&four_shapes(), false, "super", false).unwrap();
    assert!(ops[0].contains("from_static(\"/Greeter/One\")"));
}

#[test]
fn operation_text_is_exact() {
    let text = render_operation(
        Role::Client,
        Shape::Unary,
        "ping",
        "super::In",
        "super::Out",
        "triple::codec::prost::ProstCodec",
        "/Ping/Method",
    );
    assert_eq!(
        text,
        "pub async fn ping(&mut self, request: Request<super::In\n>) -> \
         Result<Response<super::Out\n>, triple::status::Status> { let codec = \
         triple::codec::prost::ProstCodec\n::<super::In\n, super::Out\n>::default(); let path = \
         http::uri::PathAndQuery::from_static(\"/Ping/Method\"); self.inner.unary(request, codec, \
         path).await }\n"
    );
}

#[test]
fn path_literal_is_escaped() {
    let text = render_operation(Role::Client, Shape::Unary, "p", "A", "B", "C", "/a\"b/c\\d");
    assert!(text.contains("from_static(\"/a\\\"b/c\\\\d\")"));
}

#[test]
fn shapes_differ_in_parameter_and_response() {
    assert_eq!(render_request_parameter(Shape::Unary, "A"), "Request<A\n>");
    assert_eq!(render_request_parameter(Shape::ServerStreaming, "A"), "Request<A\n>");
    assert_eq!(
        render_request_parameter(Shape::ClientStreaming, "A"),
        "impl IntoStreamingRequest<Message = A\n>"
    );
    assert_eq!(
        render_request_parameter(Shape::BidiStreaming, "A"),
        "impl IntoStreamingRequest<Message = A\n>"
    );
    assert_eq!(render_response_type(Shape::Unary, "B"), "Response<B\n>");
    assert_eq!(render_response_type(Shape::ClientStreaming, "B"), "Response<B\n>");
    assert_eq!(render_response_type(Shape::ServerStreaming, "B"), "Response<Decoding<B\n>>");
    assert_eq!(render_response_type(Shape::BidiStreaming, "B"), "Response<Decoding<B\n>>");
    assert_eq!(primitive_name(Shape::Unary), "unary");
    assert_eq!(primitive_name(Shape::ServerStreaming), "server_streaming");
    assert_eq!(primitive_name(Shape::ClientStreaming), "client_streaming");
    assert_eq!(primitive_name(Shape::BidiStreaming), "bidi_streaming");
}

#[test]
fn roles_differ_in_forwarding() {
    assert_eq!(
        render_forwarding(Role::Client, Shape::BidiStreaming),
        "self.inner.bidi_streaming(request, codec, path).await"
    );
    assert_eq!(
        render_forwarding(Role::Server, Shape::Unary),
        "triple::server::TripleServer::new(codec).unary(&mut self.inner, request, path).await"
    );
}

#[test]
fn names_follow_the_role() {
    assert_eq!(build_struct_name(Role::Client, "Greeter"), "GreeterClient");
    assert_eq!(build_struct_name(Role::Server, "Greeter"), "GreeterServer");
    assert_eq!(build_module_name(Role::Client, "EchoService"), "echo_service_client");
    assert_eq!(build_module_name(Role::Server, "EchoService"), "echo_service_server");
}

#[test]
fn doc_comments_become_attributes() {
    let lines = vec![" first".to_string(), "say \"hi\"".to_string()];
    assert_eq!(
        generate_doc_comments(&lines),
        "#[doc = \" first\"]\n#[doc = \"say \\\"hi\\\"\"]\n"
    );
    assert_eq!(generate_doc_comments(&Vec::new()), "");
}

#[test]
fn fragments_are_spliced_unchanged() {
    let fragments = vec!["#[a]".to_string(), "#[b(c)]".to_string()];
    assert_eq!(splice(&fragments), "#[a]\n#[b(c)]\n");
    assert_eq!(splice(&Vec::new()), "");
    assert_eq!(concat_all(&fragments), "#[a]#[b(c)]");
    assert_eq!(clone_strings(&fragments), fragments);
}

#[test]
fn one_operation_per_method_in_declaration_order() {
    let s = four_shapes();
    for ops in [
        client::generate_operations(&s, true, "super", false).unwrap(),
        server::generate_operations(&s, true, "super", false).unwrap(),
    ] {
        assert_eq!(ops.len(), 4);
        let names = ["one", "two", "three", "four"];
        for (op, name) in ops.iter().zip(names) {
            assert!(op.starts_with(&format!("#[doc = \" Calls {}.\"]\npub async fn {}(", name, name)));
        }
    }
    let none = DubboService::new("E".to_string(), "E".to_string(), String::new(), Vec::new(), Vec::new());
    assert_eq!(client::generate_operations(&none, true, "super", false).unwrap().len(), 0);
    assert_eq!(client::generate_methods(&none, true, "super", false).unwrap(), "");
}

#[test]
fn methods_text_is_the_operations_joined() {
    let s = four_shapes();
    let ops = client::generate_operations(&s, true, "super", false).unwrap();
    assert_eq!(client::generate_methods(&s, true, "super", false).unwrap(), ops.concat());
    let ops = server::generate_operations(&s, true, "super", false).unwrap();
    assert_eq!(server::generate_methods(&s, true, "super", false).unwrap(), ops.concat());
}

#[test]
fn generated_client_parses_back_to_four_distinct_signatures() {
    let text = client::generate(&four_shapes(), true, "super", false, &Attributes::new()).unwrap();
    let file = syn::parse_file(&text).unwrap();
    let methods = impl_methods(&file, "GreeterClient");
    let names: Vec<String> = methods.iter().map(|m| m.sig.ident.to_string()).collect();
    assert_eq!(names, ["new", "with_uri", "one", "two", "three", "four"]);
    let signatures: Vec<String> = methods[2..].iter().map(signature_text).collect();
    assert_eq!(
        signatures,
        [
            compact("type T = Request<super::HelloRequest>; -> type T = Result<Response<super::HelloReply>, triple::status::Status>;"),
            compact("type T = Request<super::HelloRequest>; -> type T = Result<Response<Decoding<super::HelloReply>>, triple::status::Status>;"),
            compact("type T = impl IntoStreamingRequest<Message = super::HelloRequest>; -> type T = Result<Response<super::HelloReply>, triple::status::Status>;"),
            compact("type T = impl IntoStreamingRequest<Message = super::HelloRequest>; -> type T = Result<Response<Decoding<super::HelloReply>>, triple::status::Status>;"),
        ]
        .map(|s| s.replace("->", " -> "))
    );
    for i in 0..4 {
        for j in (i + 1)..4 {
            assert_ne!(signatures[i], signatures[j]);
        }
    }
}

#[test]
fn generated_server_parses_back_to_one_operation_per_method() {
    let text = server::generate(&four_shapes(), true, "super", false, &Attributes::new()).unwrap();
    let file = syn::parse_file(&text).unwrap();
    let methods = impl_methods(&file, "GreeterServer");
    let names: Vec<String> = methods.iter().map(|m| m.sig.ident.to_string()).collect();
    assert_eq!(names, ["new", "one", "two", "three", "four"]);
    assert!(text.contains("pub mod greeter_server {"));
    assert!(text.contains("triple::codec::serde_codec::SerdeCodec\n::<super::HelloRequest\n, super::HelloReply\n>"));
}

#[test]
fn client_module_carries_docs_and_attributes() {
    let mut attributes = Attributes::new();
    attributes.push_mod("greet.v1".to_string(), "#[cfg(feature = \"client\")]".to_string());
    attributes.push_mod("other".to_string(), "#[never]".to_string());
    attributes.push_struct(".".to_string(), "#[derive(PartialEq)]".to_string());
    attributes.push_struct("greet.v1.Greeter".to_string(), "#[must_use]".to_string());
    let text = client::generate(&four_shapes(), true, "super", false, &attributes).unwrap();
    assert!(text.starts_with(
        "/// Generated client implementations.\n#[cfg(feature = \"client\")]\npub mod greeter_client {\n"
    ));
    assert!(text.contains(
        "#[doc = \" The greeting service.\"]\n#[derive(PartialEq)]\n#[must_use]\n#[derive(Debug, Clone)]\npub struct GreeterClient {"
    ));
    assert!(!text.contains("#[never]"));
    assert!(text.contains("triple::codec::prost::ProstCodec\n::<super::HelloRequest\n, super::HelloReply\n>"));
    assert!(syn::parse_file(&text).is_ok());
}

#[test]
fn a_malformed_type_aborts_the_emitter() {
    let bad = DubboMethod::new(
        "bad".to_string(),
        "Bad".to_string(),
        Vec::new(),
        "Hello Request".to_string(),
        "HelloReply".to_string(),
        ".greet.v1.HelloRequest".to_string(),
        ".greet.v1.HelloReply".to_string(),
        false,
        false,
    );
    assert_eq!(
        bad.try_request_response_name("super", false),
        Err(GenerateError::MalformedTypeReference)
    );
    assert_eq!(
        emit_operation(Role::Server, Shape::Unary, &bad, "C", "super", false, "/p"),
        Err(GenerateError::MalformedTypeReference)
    );
    assert_eq!(
        client::generate_unary(&bad, "super", false, "/p".to_string()),
        Err(GenerateError::MalformedTypeReference)
    );
    let s = DubboService::new(
        "S".to_string(),
        "S".to_string(),
        "p".to_string(),
        vec![method("good", false, false), bad],
        Vec::new(),
    );
    assert_eq!(
        client::generate(&s, true, "super", false, &Attributes::new()),
        Err(GenerateError::MalformedTypeReference)
    );
    assert_eq!(
        server::generate(&s, true, "super", false, &Attributes::new()),
        Err(GenerateError::MalformedTypeReference)
    );
    assert_eq!(
        client::generate_methods(&s, true, "super", false),
        Err(GenerateError::MalformedTypeReference)
    );
}

#[test]
fn a_codec_that_is_no_path_aborts_the_operation() {
    let m = method("call", false, false);
    assert_eq!(
        emit_operation(Role::Client, Shape::Unary, &m, "not a codec", "super", false, "/p"),
        Err(GenerateError::MalformedTypeReference)
    );
    assert!(emit_operation(Role::Client, Shape::Unary, &m, "a::Codec", "super", false, "/p").is_ok());
}

#[test]
fn each_client_shape_function_writes_its_shape() {
    let m = method("call", false, false);
    let path = || "/p.S/Call".to_string();
    let unary = client::generate_unary(&m, "super", false, path()).unwrap();
    let server_streaming = client::generate_server_streaming(&m, "super", false, path()).unwrap();
    let client_streaming = client::generate_client_streaming(&m, "super", false, path()).unwrap();
    let streaming = client::generate_streaming(&m, "super", false, path()).unwrap();
    assert!(unary.contains("self.inner.unary("));
    assert!(server_streaming.contains("self.inner.server_streaming("));
    assert!(client_streaming.contains("self.inner.client_streaming("));
    assert!(streaming.contains("self.inner.bidi_streaming("));
    assert!(unary.contains("-> Result<Response<super::HelloReply\n>, triple::status::Status>"));
    assert!(streaming.contains("request: impl IntoStreamingRequest<Message = super::HelloRequest\n>"));
    assert!(streaming.contains("-> Result<Response<Decoding<super::HelloReply\n>>, triple::status::Status>"));
}

#[test]
fn request_and_response_are_resolved_in_order() {
    let m = DubboMethod::new(
        "m".to_string(),
        "M".to_string(),
        Vec::new(),
        "()".to_string(),
        "crate::pb::Reply".to_string(),
        ".google.protobuf.Empty".to_string(),
        ".pb.Reply".to_string(),
        false,
        true,
    );
    assert_eq!(
        m.try_request_response_name("super", false),
        Ok(("()".to_string(), "crate::pb::Reply".to_string()))
    );
    assert_eq!(
        m.request_response_name("super", false),
        ("()".to_string(), "crate::pb::Reply".to_string())
    );
    assert_eq!(m.codec_path(), "triple::codec::serde_codec::SerdeCodec");
    assert_eq!(client::CODEC_PATH, "triple::codec::prost::ProstCodec");
    assert_eq!(server::CODEC_PATH, "triple::codec::serde_codec::SerdeCodec");
}

#[test]
fn a_comment_at_the_end_of_a_name_closes_with_it() {
    let m = DubboMethod::new(
        "call".to_string(),
        "Call".to_string(),
        Vec::new(),
        "::a::In // request".to_string(),
        "::a::Out // response".to_string(),
        ".a.In".to_string(),
        ".a.Out".to_string(),
        false,
        true,
    );
    let s = DubboService::new("S".to_string(), "S".to_string(), "p".to_string(), vec![m], Vec::new());
    let text = client::generate(&s, true, "super", false, &Attributes::new()).unwrap();
    let file = syn::parse_file(&text).unwrap();
    let methods = impl_methods(&file, "SClient");
    assert_eq!(methods.len(), 3);
    assert_eq!(
        signature_text(&methods[2]),
        compact("type T = Request<::a::In>; -> type T = Result<Response<Decoding<::a::Out>>, triple::status::Status>;")
            .replace("->", " -> ")
    );
}

#[test]
fn the_response_is_not_tested_after_a_malformed_request() {
    let m = DubboMethod::new(
        "m".to_string(),
        "M".to_string(),
        Vec::new(),
        "Hello World".to_string(),
        "Also Bad".to_string(),
        ".greet.v1.Hello".to_string(),
        ".greet.v1.Reply".to_string(),
        false,
        false,
    );
    assert_eq!(
        m.try_request_response_name("super", false),
        Err(GenerateError::MalformedTypeReference)
    );
    let half = DubboMethod::new(
        "m".to_string(),
        "M".to_string(),
        Vec::new(),
        "Hello".to_string(),
        "Also Bad".to_string(),
        ".greet.v1.Hello".to_string(),
        ".greet.v1.Reply".to_string(),
        false,
        false,
    );
    assert_eq!(
        half.try_request_response_name("super", false),
        Err(GenerateError::MalformedTypeReference)
    );
}

#[test]
fn an_identifier_is_a_name_only_by_itself() {
    assert!(is_identifier("call"));
    assert!(is_identifier("_x1"));
    assert!(is_identifier("r#type"));
    assert!(!is_identifier("type"));
    assert!(!is_identifier("_"));
    assert!(!is_identifier(""));
    assert!(!is_identifier("two words"));
    assert!(!is_identifier(" call"));
    assert!(!is_identifier("call "));
    assert!(!is_identifier("call // x"));
    assert!(!is_identifier("call /* x */"));
    assert!(!is_identifier("1st"));
    assert!(!is_identifier("a::b"));
    assert!(same_identifier("call", Some("call".to_string())));
    assert!(!same_identifier("call // x", Some("call".to_string())));
    assert!(!same_identifier("call", None));
}

#[test]
fn names_are_tested_for_each_role() {
    let commented = DubboService::new(
        "Echo // x".to_string(),
        "Echo".to_string(),
        String::new(),
        Vec::new(),
        Vec::new(),
    );
    assert!(!names_are_identifiers(Role::Client, &commented));
    assert!(names_are_identifiers(Role::Client, &four_shapes()));
    assert!(names_are_identifiers(Role::Server, &four_shapes()));
    let raw = DubboService::new(
        "r#type".to_string(),
        "Type".to_string(),
        String::new(),
        vec![method("r#type", false, false)],
        Vec::new(),
    );
    assert!(names_are_identifiers(Role::Client, &raw));
    let keyword = DubboService::new(
        "Echo".to_string(),
        "Echo".to_string(),
        String::new(),
        vec![method("one", false, false), method("fn", false, false)],
        Vec::new(),
    );
    assert!(!names_are_identifiers(Role::Client, &keyword));
    assert!(!names_are_identifiers(Role::Server, &keyword));
    let spaced = DubboService::new("Ec ho".to_string(), "Echo".to_string(), String::new(), Vec::new(), Vec::new());
    assert!(!names_are_identifiers(Role::Client, &spaced));
    let none = DubboService::new("Echo".to_string(), "Echo".to_string(), String::new(), Vec::new(), Vec::new());
    assert!(names_are_identifiers(Role::Server, &none));
}

#[test]
fn accessors_return_what_was_given() {
    let s = four_shapes();
    assert_eq!(s.name(), "Greeter");
    assert_eq!(s.identifier(), "Greeter");
    assert_eq!(s.package(), "greet.v1");
    assert_eq!(s.comment(), &vec![" The greeting service.".to_string()]);
    assert!(s.has_identifier());
    let methods = s.methods();
    assert_eq!(methods.len(), 4);
    assert_eq!(methods[1].name(), "two");
    assert_eq!(methods[1].identifier(), "Two");
    assert!(!methods[1].client_streaming());
    assert!(methods[1].server_streaming());
    assert_eq!(methods[1].comment(), &vec![" Calls two.".to_string()]);
    let unnamed = DubboService::new(String::new(), String::new(), String::new(), Vec::new(), Vec::new());
    assert!(!unnamed.has_identifier());
}

#[test]
fn copies_generate_the_same_text() {
    let s = four_shapes();
    let copy = s.clone();
    drop(s);
    let again = four_shapes();
    assert_eq!(
        client::generate(&copy, true, "super", false, &Attributes::new()),
        client::generate(&again, true, "super", false, &Attributes::new())
    );
    let m = method("x", true, true).clone();
    assert_eq!(m.name(), "x");
    assert_eq!(m.identifier(), "X");
    assert!(m.client_streaming() && m.server_streaming());
}

#[test]
fn attribute_lookup_is_best_effort() {
    let mut attributes = Attributes::default();
    assert!(attributes.for_mod("a").is_empty());
    assert!(attributes.for_struct("a.B").is_empty());
    attributes.push_mod(".".to_string(), "#[all]".to_string());
    attributes.push_mod("a".to_string(), "#[a]".to_string());
    attributes.push_mod("b".to_string(), "#[b]".to_string());
    attributes.push_struct("a.B".to_string(), "#[s]".to_string());
    assert_eq!(attributes.for_mod("a"), ["#[all]", "#[a]"]);
    assert_eq!(attributes.for_mod("c"), ["#[all]"]);
    assert_eq!(attributes.for_struct("a.B"), ["#[s]"]);
    assert!(attributes.for_struct("a.C").is_empty());
    assert!(match_name(".", "anything"));
    assert!(match_name("x.y", "x.y"));
    assert!(!match_name("x", "x.y"));
    assert!(!match_name("", "x"));
}
