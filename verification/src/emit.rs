//! What the two emitters have in common: how one method becomes one
//! operation, and what the operations of a service are.

use vstd::prelude::*;
use vstd::string::*;
use crate::error::GenerateError;
use crate::resolve::agrees;
use crate::syntax::{is_path, parsed_identifier, parses_as_path, read_identifier};
use crate::text::str_eq;
use crate::service::{
    method_models, request_of, response_of, shape_of, Method, MethodView, Service, ServiceView,
    Shape,
};
use crate::template::{
    build_module_name, build_struct_name, docs_text, module_name, operation_text,
    render_operation, rpc_path, struct_name, Role,
};

verus! {

/// The package that goes into paths: the service's own, or none.
pub open spec fn emitted_package(s: ServiceView, emit_package: bool) -> Seq<char> {
    if emit_package {
        s.package
    } else {
        ""@
    }
}

/// The text is one identifier and nothing besides: the parser reads an
/// identifier out of it that prints as the text itself. Space or a comment
/// around an identifier is therefore no part of a name.
pub open spec fn plain_identifier(text: Seq<char>) -> bool {
    parsed_identifier(text) == Some(text)
}

/// Decides whether a text is a plain identifier, given what the parser read
/// out of it.
pub fn same_identifier(text: &str, read: Option<String>) -> (r: bool)
    ensures
        r == (read is Some && read.unwrap()@ == text@),
{
    match read {
        Some(found) => str_eq(found.as_str(), text),
        None => false,
    }
}

/// Whether a text is one identifier and nothing besides.
pub fn is_identifier(text: &str) -> (r: bool)
    ensures
        r == plain_identifier(text@),
{
    same_identifier(text, read_identifier(text))
}

/// The name of every method is an identifier.
pub open spec fn methods_named(s: ServiceView) -> bool {
    forall|i: int| 0 <= i < s.methods.len() ==> plain_identifier((#[trigger] s.methods[i]).name)
}

/// Every name that a role writes for a service is an identifier: that of
/// the struct, that of the module, and that of each method.
pub open spec fn named(role: Role, s: ServiceView) -> bool {
    &&& plain_identifier(struct_name(role, s.name))
    &&& plain_identifier(module_name(role, s.name))
    &&& methods_named(s)
}

/// Tests the names that a role writes for a service: the struct's, the
/// module's, and each method's in the order of declaration.
pub fn names_are_identifiers<T: Service>(role: Role, service: &T) -> (r: bool)
    ensures
        r == named(role, service.model()),
{
    let name = build_struct_name(role, service.name());
    if !is_identifier(name.as_str()) {
        return false;
    }
    let module = build_module_name(role, service.name());
    if !is_identifier(module.as_str()) {
        return false;
    }
    let methods = service.methods();
    let mut i: usize = 0;
    while i < methods.len()
        invariant
            i <= methods.len(),
            method_models(methods@) == service.model().methods,
            forall|k: int|
                0 <= k < i ==> plain_identifier((#[trigger] service.model().methods[k]).name),
        decreases methods.len() - i,
    {
        assert(methods@[i as int].model() == service.model().methods[i as int]);
        if !is_identifier(methods[i].name()) {
            return false;
        }
        i += 1;
    }
    true
}

/// The operation for a method in a given shape, or the failure to form one
/// of its references: the codec must be a path, and the request type and the
/// response type must resolve, in that order.
pub open spec fn shaped_operation(
    role: Role,
    shape: Shape,
    m: MethodView,
    codec: Seq<char>,
    proto_path: Seq<char>,
    compile_well_known_types: bool,
    path: Seq<char>,
) -> Result<Seq<char>, GenerateError> {
    if !parses_as_path(codec) {
        Err(GenerateError::MalformedTypeReference)
    } else {
        match request_of(m, proto_path, compile_well_known_types) {
            Err(e) => Err(e),
            Ok(request) => match response_of(m, proto_path, compile_well_known_types) {
                Err(e) => Err(e),
                Ok(response) => Ok(
                    operation_text(role, shape, m.name, request, response, codec, path),
                ),
            },
        }
    }
}

/// The operation for a method of a service: its documentation, then the
/// function in the shape that the method's flags select, under the method's
/// path.
pub open spec fn method_operation(
    role: Role,
    codec: Seq<char>,
    s: ServiceView,
    emit_package: bool,
    m: MethodView,
    proto_path: Seq<char>,
    compile_well_known_types: bool,
) -> Result<Seq<char>, GenerateError> {
    match shaped_operation(
        role,
        shape_of(m.client_streaming, m.server_streaming),
        m,
        codec,
        proto_path,
        compile_well_known_types,
        rpc_path(emitted_package(s, emit_package), s.proto_name, m.proto_name),
    ) {
        Err(e) => Err(e),
        Ok(text) => Ok(docs_text(m.comments) + text),
    }
}

/// Every method of the service has an operation.
pub open spec fn operations_ok(
    role: Role,
    codec: Seq<char>,
    s: ServiceView,
    emit_package: bool,
    proto_path: Seq<char>,
    compile_well_known_types: bool,
) -> bool {
    forall|i: int|
        0 <= i < s.methods.len() ==> method_operation(
            role,
            codec,
            s,
            emit_package,
            #[trigger] s.methods[i],
            proto_path,
            compile_well_known_types,
        ) is Ok
}

/// The operations of a service, one for each method, in the order of the
/// methods.
pub open spec fn operations(
    role: Role,
    codec: Seq<char>,
    s: ServiceView,
    emit_package: bool,
    proto_path: Seq<char>,
    compile_well_known_types: bool,
) -> Seq<Seq<char>> {
    Seq::new(
        s.methods.len(),
        |i: int|
            method_operation(
                role,
                codec,
                s,
                emit_package,
                s.methods[i],
                proto_path,
                compile_well_known_types,
            ).unwrap(),
    )
}

/// A service with N methods has exactly N operations, and the operation at
/// each place is that of the method at the same place, in the shape that the
/// method's flags select and under the method's own path.
pub proof fn lemma_one_operation_per_method(
    role: Role,
    codec: Seq<char>,
    s: ServiceView,
    emit_package: bool,
    proto_path: Seq<char>,
    compile_well_known_types: bool,
)
    requires
        operations_ok(role, codec, s, emit_package, proto_path, compile_well_known_types),
    ensures
        operations(role, codec, s, emit_package, proto_path, compile_well_known_types).len()
            == s.methods.len(),
        forall|i: int|
            0 <= i < s.methods.len() ==> {
                let m = #[trigger] s.methods[i];
                &&& parses_as_path(codec)
                &&& request_of(m, proto_path, compile_well_known_types) is Ok
                &&& response_of(m, proto_path, compile_well_known_types) is Ok
                &&& operations(
                    role,
                    codec,
                    s,
                    emit_package,
                    proto_path,
                    compile_well_known_types,
                )[i] == docs_text(m.comments) + operation_text(
                    role,
                    shape_of(m.client_streaming, m.server_streaming),
                    m.name,
                    request_of(m, proto_path, compile_well_known_types).unwrap(),
                    response_of(m, proto_path, compile_well_known_types).unwrap(),
                    codec,
                    rpc_path(emitted_package(s, emit_package), s.proto_name, m.proto_name),
                )
            },
{
    assert forall|i: int| 0 <= i < s.methods.len() implies {
        let m = #[trigger] s.methods[i];
        &&& parses_as_path(codec)
        &&& request_of(m, proto_path, compile_well_known_types) is Ok
        &&& response_of(m, proto_path, compile_well_known_types) is Ok
        &&& operations(role, codec, s, emit_package, proto_path, compile_well_known_types)[i]
            == docs_text(m.comments) + operation_text(
            role,
            shape_of(m.client_streaming, m.server_streaming),
            m.name,
            request_of(m, proto_path, compile_well_known_types).unwrap(),
            response_of(m, proto_path, compile_well_known_types).unwrap(),
            codec,
            rpc_path(emitted_package(s, emit_package), s.proto_name, m.proto_name),
        )
    } by {
        let m = s.methods[i];
        assert(method_operation(
            role,
            codec,
            s,
            emit_package,
            m,
            proto_path,
            compile_well_known_types,
        ) is Ok);
    }
}

/// The two roles resolve alike: with codecs that are paths, whether every
/// method of a service has an operation depends neither on the role nor on
/// the codec.
pub proof fn lemma_roles_resolve_alike(
    client_codec: Seq<char>,
    server_codec: Seq<char>,
    s: ServiceView,
    emit_package: bool,
    proto_path: Seq<char>,
    compile_well_known_types: bool,
)
    ensures
        parses_as_path(client_codec) && parses_as_path(server_codec) ==> operations_ok(
            Role::Client,
            client_codec,
            s,
            emit_package,
            proto_path,
            compile_well_known_types,
        ) == operations_ok(
            Role::Server,
            server_codec,
            s,
            emit_package,
            proto_path,
            compile_well_known_types,
        ),
{
    if parses_as_path(client_codec) && parses_as_path(server_codec) {
        assert forall|i: int| 0 <= i < s.methods.len() implies (method_operation(
            Role::Client,
            client_codec,
            s,
            emit_package,
            #[trigger] s.methods[i],
            proto_path,
            compile_well_known_types,
        ) is Ok) == (method_operation(
            Role::Server,
            server_codec,
            s,
            emit_package,
            s.methods[i],
            proto_path,
            compile_well_known_types,
        ) is Ok) by {}
    }
}

/// Checks the codec, resolves the two types of a method and writes its
/// operation in the given shape, for the given role, under the given path.
/// The method's name is an identifier: a function cannot be called by
/// anything else.
pub fn emit_operation<M: Method>(
    role: Role,
    shape: Shape,
    method: &M,
    codec: &str,
    proto_path: &str,
    compile_well_known_types: bool,
    path: &str,
) -> (r: Result<String, GenerateError>)
    requires
        plain_identifier(method.model().name),
    ensures
        agrees(
            r,
            shaped_operation(
                role,
                shape,
                method.model(),
                codec@,
                proto_path@,
                compile_well_known_types,
                path@,
            ),
        ),
{
    if !is_path(codec) {
        return Err(GenerateError::MalformedTypeReference);
    }
    match method.try_request_response_name(proto_path, compile_well_known_types) {
        Ok((request, response)) => Ok(
            render_operation(
                role,
                shape,
                method.name(),
                request.as_str(),
                response.as_str(),
                codec,
                path,
            ),
        ),
        Err(e) => Err(e),
    }
}

} // verus!
