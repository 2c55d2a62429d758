//! The service description that the emitters work on.
//!
//! A description is plain data. It is built once for each service that the
//! protocol parser finds and is copied, not shared, between the two roles.

use vstd::prelude::*;
use vstd::string::*;
use crate::error::GenerateError;
use crate::resolve::{reference, resolved, resolves};
use crate::text::{clone_strings, views};

verus! {

/// One of the four calling conventions of a method.
#[derive(Clone, Copy, Debug, PartialEq, Eq, Structural)]
pub enum Shape {
    /// One request, one response.
    Unary,
    /// One request, a sequence of responses.
    ServerStreaming,
    /// A sequence of requests, one response.
    ClientStreaming,
    /// A sequence of requests, a sequence of responses.
    BidiStreaming,
}

/// The calling convention that the two streaming flags select.
pub open spec fn shape_of(client_streaming: bool, server_streaming: bool) -> Shape {
    match (client_streaming, server_streaming) {
        (false, false) => Shape::Unary,
        (false, true) => Shape::ServerStreaming,
        (true, false) => Shape::ClientStreaming,
        (true, true) => Shape::BidiStreaming,
    }
}

/// Selects the calling convention for a pair of streaming flags.
pub fn select_shape(client_streaming: bool, server_streaming: bool) -> (shape: Shape)
    ensures
        shape == shape_of(client_streaming, server_streaming),
{
    match (client_streaming, server_streaming) {
        (false, false) => Shape::Unary,
        (false, true) => Shape::ServerStreaming,
        (true, false) => Shape::ClientStreaming,
        (true, true) => Shape::BidiStreaming,
    }
}

/// Every pair of flags selects exactly one shape, and each shape is selected
/// by exactly one pair of flags.
pub proof fn lemma_shape_dispatch(client_streaming: bool, server_streaming: bool)
    ensures
        shape_of(client_streaming, server_streaming) == Shape::Unary <==> (!client_streaming
            && !server_streaming),
        shape_of(client_streaming, server_streaming) == Shape::ServerStreaming <==> (
        !client_streaming && server_streaming),
        shape_of(client_streaming, server_streaming) == Shape::ClientStreaming <==> (
        client_streaming && !server_streaming),
        shape_of(client_streaming, server_streaming) == Shape::BidiStreaming <==> (client_streaming
            && server_streaming),
        forall|c: bool, s: bool| #[trigger]
            shape_of(c, s) == shape_of(client_streaming, server_streaming) ==> c
                == client_streaming && s == server_streaming,
{
}

/// What a method description holds.
pub ghost struct MethodView {
    pub name: Seq<char>,
    pub proto_name: Seq<char>,
    pub comments: Seq<Seq<char>>,
    pub input_type: Seq<char>,
    pub output_type: Seq<char>,
    pub input_proto_type: Seq<char>,
    pub output_proto_type: Seq<char>,
    pub client_streaming: bool,
    pub server_streaming: bool,
}

/// What a service description holds.
pub ghost struct ServiceView {
    pub name: Seq<char>,
    pub proto_name: Seq<char>,
    pub package: Seq<char>,
    pub methods: Seq<MethodView>,
    pub comments: Seq<Seq<char>>,
}

/// What the emitters need of a method, whatever parser it came from.
pub trait Method: Sized {
    /// What the method description holds.
    spec fn model(&self) -> MethodView;

    /// The name of the generated function.
    fn name(&self) -> (r: &str)
        ensures
            r@ == self.model().name,
    ;

    /// The method's name on the wire.
    fn identifier(&self) -> (r: &str)
        ensures
            r@ == self.model().proto_name,
    ;

    /// The codec that the method asks for.
    fn codec_path(&self) -> (r: &str);

    /// Whether the caller sends a sequence of requests.
    fn client_streaming(&self) -> (r: bool)
        ensures
            r == self.model().client_streaming,
    ;

    /// Whether the callee answers with a sequence of responses.
    fn server_streaming(&self) -> (r: bool)
        ensures
            r == self.model().server_streaming,
    ;

    /// The lines of the method's leading comment.
    fn comment(&self) -> (r: &Vec<String>)
        ensures
            views(r@) == self.model().comments,
    ;

    /// The references to the request type and to the response type, in that
    /// order, of a method whose two types resolve. A method with a type
    /// that does not resolve has no such pair: callers that cannot rule that
    /// out call `try_request_response_name`.
    fn request_response_name(&self, proto_path: &str, compile_well_known_types: bool) -> (r: (
        String,
        String,
    ))
        requires
            request_of(self.model(), proto_path@, compile_well_known_types) is Ok,
            response_of(self.model(), proto_path@, compile_well_known_types) is Ok,
        ensures
            request_of(self.model(), proto_path@, compile_well_known_types) == Ok::<
                Seq<char>,
                GenerateError,
            >(r.0@),
            response_of(self.model(), proto_path@, compile_well_known_types) == Ok::<
                Seq<char>,
                GenerateError,
            >(r.1@),
    ;

    /// Tests whether the two types resolve, the request type first, and
    /// gives the two references where they do. The result is
    /// `MalformedTypeReference` exactly when one of them does not.
    fn try_request_response_name(&self, proto_path: &str, compile_well_known_types: bool) -> (r:
        Result<(String, String), GenerateError>)
        ensures
            match r {
                Ok((request, response)) => {
                    &&& request_of(self.model(), proto_path@, compile_well_known_types) == Ok::<
                        Seq<char>,
                        GenerateError,
                    >(request@)
                    &&& response_of(self.model(), proto_path@, compile_well_known_types) == Ok::<
                        Seq<char>,
                        GenerateError,
                    >(response@)
                },
                Err(e) => {
                    &&& e == GenerateError::MalformedTypeReference
                    &&& (request_of(self.model(), proto_path@, compile_well_known_types) is Err
                        || response_of(self.model(), proto_path@, compile_well_known_types) is Err)
                },
            },
    ;
}

/// What the emitters need of a service, whatever parser it came from.
pub trait Service: Sized {
    /// The methods of the service.
    type Method: Method;

    /// What the service description holds.
    spec fn model(&self) -> ServiceView;

    /// The name that generated items are called after.
    fn name(&self) -> (r: &str)
        ensures
            r@ == self.model().name,
    ;

    /// The dotted namespace of the service; empty where it has none.
    fn package(&self) -> (r: &str)
        ensures
            r@ == self.model().package,
    ;

    /// The service's name on the wire.
    fn identifier(&self) -> (r: &str)
        ensures
            r@ == self.model().proto_name,
    ;

    /// Copies of the methods, in the order of their declaration.
    fn methods(&self) -> (r: Vec<Self::Method>)
        ensures
            method_models(r@) == self.model().methods,
    ;

    /// The lines of the service's leading comment.
    fn comment(&self) -> (r: &Vec<String>)
        ensures
            views(r@) == self.model().comments,
    ;
}

/// The models of a list of methods.
pub open spec fn method_models<M: Method>(methods: Seq<M>) -> Seq<MethodView> {
    methods.map_values(|m: M| m.model())
}

/// One method of a service.
pub struct DubboMethod {
    name: String,
    proto_name: String,
    comments: Vec<String>,
    input_type: String,
    output_type: String,
    input_proto_type: String,
    output_proto_type: String,
    client_streaming: bool,
    server_streaming: bool,
}

impl View for DubboMethod {
    type V = MethodView;

    closed spec fn view(&self) -> MethodView {
        MethodView {
            name: self.name@,
            proto_name: self.proto_name@,
            comments: views(self.comments@),
            input_type: self.input_type@,
            output_type: self.output_type@,
            input_proto_type: self.input_proto_type@,
            output_proto_type: self.output_proto_type@,
            client_streaming: self.client_streaming,
            server_streaming: self.server_streaming,
        }
    }
}

impl DubboMethod {
    /// Builds a method description from its parts.
    pub fn new(
        name: String,
        proto_name: String,
        comments: Vec<String>,
        input_type: String,
        output_type: String,
        input_proto_type: String,
        output_proto_type: String,
        client_streaming: bool,
        server_streaming: bool,
    ) -> (m: DubboMethod)
        ensures
            m@ == (MethodView {
                name: name@,
                proto_name: proto_name@,
                comments: views(comments@),
                input_type: input_type@,
                output_type: output_type@,
                input_proto_type: input_proto_type@,
                output_proto_type: output_proto_type@,
                client_streaming,
                server_streaming,
            }),
    {
        DubboMethod {
            name,
            proto_name,
            comments,
            input_type,
            output_type,
            input_proto_type,
            output_proto_type,
            client_streaming,
            server_streaming,
        }
    }
}

impl Method for DubboMethod {
    open spec fn model(&self) -> MethodView {
        self@
    }

    /// The name of the generated function.
    fn name(&self) -> (r: &str)
        ensures
            r@ == self.model().name,
    {
        self.name.as_str()
    }

    /// The method's name on the wire.
    fn identifier(&self) -> (r: &str)
        ensures
            r@ == self.model().proto_name,
    {
        self.proto_name.as_str()
    }

    /// The codec that the method asks for.
    fn codec_path(&self) -> (r: &str)
        ensures
            r@ == "triple::codec::serde_codec::SerdeCodec"@,
    {
        "triple::codec::serde_codec::SerdeCodec"
    }

    /// Whether the caller sends a sequence of requests.
    fn client_streaming(&self) -> (r: bool)
        ensures
            r == self.model().client_streaming,
    {
        self.client_streaming
    }

    /// Whether the callee answers with a sequence of responses.
    fn server_streaming(&self) -> (r: bool)
        ensures
            r == self.model().server_streaming,
    {
        self.server_streaming
    }

    /// The lines of the method's leading comment.
    fn comment(&self) -> (r: &Vec<String>)
        ensures
            views(r@) == self.model().comments,
    {
        &self.comments
    }

    fn request_response_name(&self, proto_path: &str, compile_well_known_types: bool) -> (r: (
        String,
        String,
    )) {
        let request = reference(
            proto_path,
            self.input_proto_type.as_str(),
            self.input_type.as_str(),
            compile_well_known_types,
        );
        let response = reference(
            proto_path,
            self.output_proto_type.as_str(),
            self.output_type.as_str(),
            compile_well_known_types,
        );
        (request, response)
    }

    fn try_request_response_name(&self, proto_path: &str, compile_well_known_types: bool) -> (r:
        Result<(String, String), GenerateError>) {
        if !resolves(
            proto_path,
            self.input_proto_type.as_str(),
            self.input_type.as_str(),
            compile_well_known_types,
        ) {
            return Err(GenerateError::MalformedTypeReference);
        }
        if !resolves(
            proto_path,
            self.output_proto_type.as_str(),
            self.output_type.as_str(),
            compile_well_known_types,
        ) {
            return Err(GenerateError::MalformedTypeReference);
        }
        Ok(self.request_response_name(proto_path, compile_well_known_types))
    }
}

/// The reference to a method's request type.
pub open spec fn request_of(m: MethodView, proto_path: Seq<char>, compile_well_known_types: bool) -> Result<
    Seq<char>,
    GenerateError,
> {
    resolved(proto_path, m.input_proto_type, m.input_type, compile_well_known_types)
}

/// The reference to a method's response type.
pub open spec fn response_of(m: MethodView, proto_path: Seq<char>, compile_well_known_types: bool) -> Result<
    Seq<char>,
    GenerateError,
> {
    resolved(proto_path, m.output_proto_type, m.output_type, compile_well_known_types)
}

impl Clone for DubboMethod {
    /// A copy that shares nothing with the value it was made from.
    fn clone(&self) -> (m: DubboMethod)
        ensures
            m@ == self@,
    {
        DubboMethod {
            name: self.name.clone(),
            proto_name: self.proto_name.clone(),
            comments: clone_strings(&self.comments),
            input_type: self.input_type.clone(),
            output_type: self.output_type.clone(),
            input_proto_type: self.input_proto_type.clone(),
            output_proto_type: self.output_proto_type.clone(),
            client_streaming: self.client_streaming,
            server_streaming: self.server_streaming,
        }
    }
}

/// A copy of a list of methods that shares nothing with it.
pub fn clone_methods(methods: &Vec<DubboMethod>) -> (r: Vec<DubboMethod>)
    ensures
        method_models(r@) == method_models(methods@),
{
    let mut out: Vec<DubboMethod> = Vec::new();
    let mut i: usize = 0;
    while i < methods.len()
        invariant
            i <= methods.len(),
            out@.len() == i,
            forall|k: int| 0 <= k < i ==> out@[k]@ == methods@[k]@,
        decreases methods.len() - i,
    {
        out.push(methods[i].clone());
        i += 1;
    }
    proof {
        assert(method_models(out@) =~= method_models(methods@));
    }
    out
}

/// One service, with its methods in the order of their declaration.
pub struct DubboService {
    name: String,
    proto_name: String,
    package: String,
    methods: Vec<DubboMethod>,
    comments: Vec<String>,
}

impl View for DubboService {
    type V = ServiceView;

    closed spec fn view(&self) -> ServiceView {
        ServiceView {
            name: self.name@,
            proto_name: self.proto_name@,
            package: self.package@,
            methods: method_models(self.methods@),
            comments: views(self.comments@),
        }
    }
}

impl DubboService {
    /// Builds a service description from its parts. Nothing is checked: the
    /// description is taken as the parser gave it.
    pub fn new(
        name: String,
        proto_name: String,
        package: String,
        methods: Vec<DubboMethod>,
        comments: Vec<String>,
    ) -> (s: DubboService)
        ensures
            s@ == (ServiceView {
                name: name@,
                proto_name: proto_name@,
                package: package@,
                methods: method_models(methods@),
                comments: views(comments@),
            }),
    {
        DubboService { name, proto_name, package, methods, comments }
    }

    /// Whether the description names the service on the wire.
    pub fn has_identifier(&self) -> (r: bool)
        ensures
            r == (self@.proto_name.len() > 0),
    {
        self.proto_name.as_str().unicode_len() > 0
    }
}

impl Service for DubboService {
    type Method = DubboMethod;

    open spec fn model(&self) -> ServiceView {
        self@
    }

    /// The name that generated items are called after.
    fn name(&self) -> (r: &str)
        ensures
            r@ == self.model().name,
    {
        self.name.as_str()
    }

    /// The dotted namespace of the service; empty where it has none.
    fn package(&self) -> (r: &str)
        ensures
            r@ == self.model().package,
    {
        self.package.as_str()
    }

    /// The service's name on the wire.
    fn identifier(&self) -> (r: &str)
        ensures
            r@ == self.model().proto_name,
    {
        self.proto_name.as_str()
    }

    /// Copies of the methods, in the order of their declaration.
    fn methods(&self) -> (r: Vec<DubboMethod>)
        ensures
            method_models(r@) == self.model().methods,
    {
        clone_methods(&self.methods)
    }

    /// The lines of the service's leading comment.
    fn comment(&self) -> (r: &Vec<String>)
        ensures
            views(r@) == self.model().comments,
    {
        &self.comments
    }
}

impl Clone for DubboService {
    /// A copy that shares nothing with the value it was made from.
    fn clone(&self) -> (s: DubboService)
        ensures
            s@ == self@,
    {
        DubboService {
            name: self.name.clone(),
            proto_name: self.proto_name.clone(),
            package: self.package.clone(),
            methods: clone_methods(&self.methods),
            comments: clone_strings(&self.comments),
        }
    }
}

} // verus!
