//! The text of the generated items, piece by piece.
//!
//! Every function here is plain text assembly: it takes the pieces that the
//! emitters have chosen and writes them into a fixed frame. Layout is left to
//! a formatter; only the sequence of tokens matters.

use vstd::prelude::*;
use vstd::string::*;
use crate::service::Shape;
use crate::syntax::{string_literal, string_literal_text};

verus! {

/// The side of a call that a stub stands on.
#[derive(Clone, Copy, Debug, PartialEq, Eq, Structural)]
pub enum Role {
    /// The caller.
    Client,
    /// The callee.
    Server,
}

/// The path of a service: its package and its wire name, with a dot between
/// them where there is a package.
pub open spec fn service_path(package: Seq<char>, service: Seq<char>) -> Seq<char> {
    package + (if package.len() == 0 {
        ""@
    } else {
        "."@
    }) + service
}

/// The path under which a method is called.
pub open spec fn rpc_path(package: Seq<char>, service: Seq<char>, method: Seq<char>) -> Seq<char> {
    "/"@ + package + (if package.len() == 0 {
        ""@
    } else {
        "."@
    }) + service + "/"@ + method
}

/// Writes the path of a service.
pub fn build_service_path(package: &str, service: &str) -> (path: String)
    ensures
        path@ == service_path(package@, service@),
{
    let mut path = String::from_str(package);
    path.append(
        if package.is_empty() {
            ""
        } else {
            "."
        },
    );
    path.append(service);
    path
}

/// Writes the path under which a method is called. Nothing is trimmed and no
/// case is changed.
pub fn build_rpc_path(package: &str, service: &str, method: &str) -> (path: String)
    ensures
        path@ == rpc_path(package@, service@, method@),
{
    let mut path = String::from_str("/");
    path.append(package);
    path.append(
        if package.is_empty() {
            ""
        } else {
            "."
        },
    );
    path.append(service);
    path.append("/");
    path.append(method);
    path
}

/// The path of a method, character by character: a slash, the package and a
/// dot where there is a package, the service, a slash, the method.
pub proof fn lemma_rpc_path(package: Seq<char>, service: Seq<char>, method: Seq<char>)
    ensures
        package.len() == 0 ==> rpc_path(package, service, method) == seq!['/'] + service + seq![
            '/',
        ] + method,
        package.len() > 0 ==> rpc_path(package, service, method) == seq!['/'] + package + seq![
            '.',
        ] + service + seq!['/'] + method,
        rpc_path(package, service, method) == seq!['/'] + service_path(package, service) + seq![
            '/',
        ] + method,
{
    reveal_strlit("/");
    reveal_strlit(".");
    reveal_strlit("");
    assert("/"@ =~= seq!['/']);
    assert("."@ =~= seq!['.']);
    assert(""@ =~= Seq::<char>::empty());
    if package.len() == 0 {
        assert(package =~= Seq::<char>::empty());
        assert(rpc_path(package, service, method) =~= seq!['/'] + service + seq!['/'] + method);
    } else {
        assert(rpc_path(package, service, method) =~= seq!['/'] + package + seq!['.'] + service
            + seq!['/'] + method);
    }
    assert(rpc_path(package, service, method) =~= seq!['/'] + service_path(package, service)
        + seq!['/'] + method);
}

/// The transport operation that a shape forwards to.
pub open spec fn primitive(shape: Shape) -> Seq<char> {
    match shape {
        Shape::Unary => "unary"@,
        Shape::ServerStreaming => "server_streaming"@,
        Shape::ClientStreaming => "client_streaming"@,
        Shape::BidiStreaming => "bidi_streaming"@,
    }
}

/// The type of the request parameter: one value, or a producer of values.
/// A line break follows the reference, as it does wherever a reference is
/// spliced in, so that a comment at its end closes with it.
pub open spec fn request_parameter(shape: Shape, request: Seq<char>) -> Seq<char> {
    match shape {
        Shape::Unary | Shape::ServerStreaming => "Request<"@ + request + "\n>"@,
        Shape::ClientStreaming | Shape::BidiStreaming => "impl IntoStreamingRequest<Message = "@
            + request + "\n>"@,
    }
}

/// The type of the response: one value, or a decoded sequence of values.
pub open spec fn response_type(shape: Shape, response: Seq<char>) -> Seq<char> {
    match shape {
        Shape::Unary | Shape::ClientStreaming => "Response<"@ + response + "\n>"@,
        Shape::ServerStreaming | Shape::BidiStreaming => "Response<Decoding<"@ + response
            + "\n>>"@,
    }
}

/// The expression that hands the call to the transport.
pub open spec fn forwarding(role: Role, shape: Shape) -> Seq<char> {
    match role {
        Role::Client => "self.inner."@ + primitive(shape) + "(request, codec, path).await"@,
        Role::Server => "triple::server::TripleServer::new(codec)."@ + primitive(shape)
            + "(&mut self.inner, request, path).await"@,
    }
}

/// The text of one operation.
pub open spec fn operation_text(
    role: Role,
    shape: Shape,
    name: Seq<char>,
    request: Seq<char>,
    response: Seq<char>,
    codec: Seq<char>,
    path: Seq<char>,
) -> Seq<char> {
    "pub async fn "@ + name + "(&mut self, request: "@ + request_parameter(shape, request)
        + ") -> Result<"@ + response_type(shape, response)
        + ", triple::status::Status> { let codec = "@ + codec + "\n::<"@ + request + "\n, "@
        + response + "\n>::default(); let path = http::uri::PathAndQuery::from_static("@
        + string_literal_text(
        path,
    ) + "); "@ + forwarding(role, shape) + " }\n"@
}

/// Names the transport operation of a shape.
pub fn primitive_name(shape: Shape) -> (r: &'static str)
    ensures
        r@ == primitive(shape),
{
    match shape {
        Shape::Unary => "unary",
        Shape::ServerStreaming => "server_streaming",
        Shape::ClientStreaming => "client_streaming",
        Shape::BidiStreaming => "bidi_streaming",
    }
}

/// Writes the type of the request parameter.
pub fn render_request_parameter(shape: Shape, request: &str) -> (r: String)
    ensures
        r@ == request_parameter(shape, request@),
{
    let mut out = match shape {
        Shape::Unary | Shape::ServerStreaming => String::from_str("Request<"),
        Shape::ClientStreaming | Shape::BidiStreaming => String::from_str(
            "impl IntoStreamingRequest<Message = ",
        ),
    };
    out.append(request);
    out.append("\n>");
    out
}

/// Writes the type of the response.
pub fn render_response_type(shape: Shape, response: &str) -> (r: String)
    ensures
        r@ == response_type(shape, response@),
{
    match shape {
        Shape::Unary | Shape::ClientStreaming => {
            let mut out = String::from_str("Response<");
            out.append(response);
            out.append("\n>");
            out
        },
        Shape::ServerStreaming | Shape::BidiStreaming => {
            let mut out = String::from_str("Response<Decoding<");
            out.append(response);
            out.append("\n>>");
            out
        },
    }
}

/// Writes the expression that hands the call to the transport.
pub fn render_forwarding(role: Role, shape: Shape) -> (r: String)
    ensures
        r@ == forwarding(role, shape),
{
    match role {
        Role::Client => {
            let mut out = String::from_str("self.inner.");
            out.append(primitive_name(shape));
            out.append("(request, codec, path).await");
            out
        },
        Role::Server => {
            let mut out = String::from_str("triple::server::TripleServer::new(codec).");
            out.append(primitive_name(shape));
            out.append("(&mut self.inner, request, path).await");
            out
        },
    }
}

/// Writes one operation: a function called `name` that builds the codec for
/// the two types, holds the path as a literal and forwards the request.
pub fn render_operation(
    role: Role,
    shape: Shape,
    name: &str,
    request: &str,
    response: &str,
    codec: &str,
    path: &str,
) -> (r: String)
    ensures
        r@ == operation_text(role, shape, name@, request@, response@, codec@, path@),
{
    let parameter = render_request_parameter(shape, request);
    let answer = render_response_type(shape, response);
    let literal = string_literal(path);
    let forward = render_forwarding(role, shape);
    let mut out = String::from_str("pub async fn ");
    out.append(name);
    out.append("(&mut self, request: ");
    out.append(parameter.as_str());
    out.append(") -> Result<");
    out.append(answer.as_str());
    out.append(", triple::status::Status> { let codec = ");
    out.append(codec);
    out.append("\n::<");
    out.append(request);
    out.append("\n, ");
    out.append(response);
    out.append("\n>::default(); let path = http::uri::PathAndQuery::from_static(");
    out.append(literal.as_str());
    out.append("); ");
    out.append(forward.as_str());
    out.append(" }\n");
    out
}

/// The documentation attributes for the lines of a comment, in order.
pub open spec fn docs_text(comments: Seq<Seq<char>>) -> Seq<char>
    decreases comments.len(),
{
    if comments.len() == 0 {
        Seq::empty()
    } else {
        docs_text(comments.drop_last()) + "#[doc = "@ + string_literal_text(comments.last())
            + "]\n"@
    }
}

/// Writes one documentation attribute for each line of a comment.
pub fn generate_doc_comments(comments: &Vec<String>) -> (r: String)
    ensures
        r@ == docs_text(crate::text::views(comments@)),
{
    let ghost all = crate::text::views(comments@);
    let mut out = String::new();
    let mut i: usize = 0;
    while i < comments.len()
        invariant
            i <= comments.len(),
            all == crate::text::views(comments@),
            out@ == docs_text(all.take(i as int)),
        decreases comments.len() - i,
    {
        proof {
            let next = all.take(i + 1);
            assert(next.drop_last() =~= all.take(i as int));
            assert(next.last() == comments@[i as int]@);
        }
        let literal = string_literal(comments[i].as_str());
        out.append("#[doc = ");
        out.append(literal.as_str());
        out.append("]\n");
        i += 1;
    }
    proof {
        assert(all.take(comments.len() as int) =~= all);
    }
    out
}

/// Annotation fragments as they are spliced in: each as it stands, followed
/// by a line break.
pub open spec fn spliced(fragments: Seq<Seq<char>>) -> Seq<char>
    decreases fragments.len(),
{
    if fragments.len() == 0 {
        Seq::empty()
    } else {
        spliced(fragments.drop_last()) + fragments.last() + "\n"@
    }
}

/// Writes annotation fragments one after the other, unchanged.
pub fn splice(fragments: &Vec<String>) -> (r: String)
    ensures
        r@ == spliced(crate::text::views(fragments@)),
{
    let ghost all = crate::text::views(fragments@);
    let mut out = String::new();
    let mut i: usize = 0;
    while i < fragments.len()
        invariant
            i <= fragments.len(),
            all == crate::text::views(fragments@),
            out@ == spliced(all.take(i as int)),
        decreases fragments.len() - i,
    {
        proof {
            let next = all.take(i + 1);
            assert(next.drop_last() =~= all.take(i as int));
            assert(next.last() == fragments@[i as int]@);
        }
        out.append(fragments[i].as_str());
        out.append("\n");
        i += 1;
    }
    proof {
        assert(all.take(fragments.len() as int) =~= all);
    }
    out
}

/// The name of the generated struct.
pub open spec fn struct_name(role: Role, service_name: Seq<char>) -> Seq<char> {
    match role {
        Role::Client => service_name + "Client"@,
        Role::Server => service_name + "Server"@,
    }
}

/// The name of the generated module.
pub open spec fn module_name(role: Role, service_name: Seq<char>) -> Seq<char> {
    match role {
        Role::Client => crate::text::snake_case(service_name) + "_client"@,
        Role::Server => crate::text::snake_case(service_name) + "_server"@,
    }
}

/// Writes the name of the generated struct.
pub fn build_struct_name(role: Role, service_name: &str) -> (r: String)
    ensures
        r@ == struct_name(role, service_name@),
{
    let mut out = String::from_str(service_name);
    match role {
        Role::Client => out.append("Client"),
        Role::Server => out.append("Server"),
    }
    out
}

/// Writes the name of the generated module.
pub fn build_module_name(role: Role, service_name: &str) -> (r: String)
    ensures
        r@ == module_name(role, service_name@),
{
    let mut out = crate::text::naive_snake_case(service_name);
    match role {
        Role::Client => out.append("_client"),
        Role::Server => out.append("_server"),
    }
    out
}

/// The text of a client module: the module, the struct with its constructor
/// and the operations inside its impl.
pub open spec fn client_module_text(
    service_name: Seq<char>,
    module_attributes: Seq<Seq<char>>,
    struct_attributes: Seq<Seq<char>>,
    service_doc: Seq<char>,
    methods: Seq<char>,
) -> Seq<char> {
    "/// Generated client implementations.\n"@ + spliced(module_attributes) + "pub mod "@
        + module_name(Role::Client, service_name)
        + " {\n#![allow(unused_variables, dead_code, missing_docs, clippy::let_unit_value)]\nuse triple::client::TripleClient;\nuse triple::invocation::*;\nuse triple::server::Decoding;\n"@
        + service_doc + spliced(struct_attributes) + "#[derive(Debug, Clone)]\npub struct "@
        + struct_name(Role::Client, service_name) + " { inner: TripleClient, uri: String, }\nimpl "@
        + struct_name(Role::Client, service_name)
        + " {\npub fn new() -> Self { Self { inner: TripleClient::new(), uri: \"\".to_string(), } }\npub fn with_uri(mut self, uri: String) -> Self { self.uri = uri.clone(); self.inner = self.inner.with_host(uri); self }\n"@
        + methods + "}\n}\n"@
}

/// The text of a server module: the module, the struct around the handler
/// and the operations inside its impl.
pub open spec fn server_module_text(
    service_name: Seq<char>,
    module_attributes: Seq<Seq<char>>,
    struct_attributes: Seq<Seq<char>>,
    service_doc: Seq<char>,
    methods: Seq<char>,
) -> Seq<char> {
    "/// Generated server implementations.\n"@ + spliced(module_attributes) + "pub mod "@
        + module_name(Role::Server, service_name)
        + " {\n#![allow(unused_variables, dead_code, missing_docs, clippy::let_unit_value)]\nuse triple::invocation::*;\nuse triple::server::Decoding;\n"@
        + service_doc + spliced(struct_attributes) + "#[derive(Debug)]\npub struct "@
        + struct_name(Role::Server, service_name) + "<T> { inner: T, }\nimpl<T> "@ + struct_name(
        Role::Server,
        service_name,
    ) + "<T> {\npub fn new(inner: T) -> Self { Self { inner } }\n"@ + methods + "}\n}\n"@
}

/// Writes a client module around the text of its operations.
pub fn render_client_module(
    service_name: &str,
    module_attributes: &Vec<String>,
    struct_attributes: &Vec<String>,
    service_doc: &str,
    methods: &str,
) -> (r: String)
    ensures
        r@ == client_module_text(
            service_name@,
            crate::text::views(module_attributes@),
            crate::text::views(struct_attributes@),
            service_doc@,
            methods@,
        ),
{
    let module = build_module_name(Role::Client, service_name);
    let name = build_struct_name(Role::Client, service_name);
    let outer = splice(module_attributes);
    let inner = splice(struct_attributes);
    let mut out = String::from_str("/// Generated client implementations.\n");
    out.append(outer.as_str());
    out.append("pub mod ");
    out.append(module.as_str());
    out.append(
        " {\n#![allow(unused_variables, dead_code, missing_docs, clippy::let_unit_value)]\nuse triple::client::TripleClient;\nuse triple::invocation::*;\nuse triple::server::Decoding;\n",
    );
    out.append(service_doc);
    out.append(inner.as_str());
    out.append("#[derive(Debug, Clone)]\npub struct ");
    out.append(name.as_str());
    out.append(" { inner: TripleClient, uri: String, }\nimpl ");
    out.append(name.as_str());
    out.append(
        " {\npub fn new() -> Self { Self { inner: TripleClient::new(), uri: \"\".to_string(), } }\npub fn with_uri(mut self, uri: String) -> Self { self.uri = uri.clone(); self.inner = self.inner.with_host(uri); self }\n",
    );
    out.append(methods);
    out.append("}\n}\n");
    out
}

/// Writes a server module around the text of its operations.
pub fn render_server_module(
    service_name: &str,
    module_attributes: &Vec<String>,
    struct_attributes: &Vec<String>,
    service_doc: &str,
    methods: &str,
) -> (r: String)
    ensures
        r@ == server_module_text(
            service_name@,
            crate::text::views(module_attributes@),
            crate::text::views(struct_attributes@),
            service_doc@,
            methods@,
        ),
{
    let module = build_module_name(Role::Server, service_name);
    let name = build_struct_name(Role::Server, service_name);
    let outer = splice(module_attributes);
    let inner = splice(struct_attributes);
    let mut out = String::from_str("/// Generated server implementations.\n");
    out.append(outer.as_str());
    out.append("pub mod ");
    out.append(module.as_str());
    out.append(
        " {\n#![allow(unused_variables, dead_code, missing_docs, clippy::let_unit_value)]\nuse triple::invocation::*;\nuse triple::server::Decoding;\n",
    );
    out.append(service_doc);
    out.append(inner.as_str());
    out.append("#[derive(Debug)]\npub struct ");
    out.append(name.as_str());
    out.append("<T> { inner: T, }\nimpl<T> ");
    out.append(name.as_str());
    out.append("<T> {\npub fn new(inner: T) -> Self { Self { inner } }\n");
    out.append(methods);
    out.append("}\n}\n");
    out
}

} // verus!
