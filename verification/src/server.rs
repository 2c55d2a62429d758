//! The emitter for the called side.

use vstd::prelude::*;
use vstd::string::*;
use crate::attributes::{selected, Attributes};
use crate::emit::{methods_named, named, plain_identifier, emit_operation, emitted_package, method_operation, operations, operations_ok};
use crate::error::GenerateError;
use crate::service::{method_models, select_shape, Method, Service, ServiceView};
use crate::template::{
    build_rpc_path, build_service_path, docs_text, generate_doc_comments, render_server_module,
    server_module_text, service_path, Role,
};
use crate::text::{concat_all, joined, views};

verus! {

/// The codec that a server stub binds to.
pub const CODEC_PATH: &'static str = "triple::codec::serde_codec::SerdeCodec";

/// The module that `generate` writes for a service.
pub open spec fn server_module(
    s: ServiceView,
    emit_package: bool,
    proto_path: Seq<char>,
    compile_well_known_types: bool,
    module_rules: Seq<(Seq<char>, Seq<char>)>,
    struct_rules: Seq<(Seq<char>, Seq<char>)>,
) -> Seq<char> {
    server_module_text(
        s.name,
        selected(module_rules, emitted_package(s, emit_package)),
        selected(struct_rules, service_path(emitted_package(s, emit_package), s.proto_name)),
        docs_text(s.comments),
        joined(
            operations(
                Role::Server,
                CODEC_PATH@,
                s,
                emit_package,
                proto_path,
                compile_well_known_types,
            ),
        ),
    )
}

/// Generates the server module of a service: a struct called after the
/// service, with one operation for each method in the order of declaration.
///
/// The names that the module carries are identifiers. Fails with
/// `MalformedTypeReference` exactly when some method has no operation: a
/// type of it cannot be resolved, or the codec is no path.
pub fn generate<T: Service>(
    service: &T,
    emit_package: bool,
    proto_path: &str,
    compile_well_known_types: bool,
    attributes: &Attributes,
) -> (r: Result<String, GenerateError>)
    requires
        named(Role::Server, service.model()),
    ensures
        match r {
            Ok(text) => {
                &&& operations_ok(
                    Role::Server,
                    CODEC_PATH@,
                    service.model(),
                    emit_package,
                    proto_path@,
                    compile_well_known_types,
                )
                &&& text@ == server_module(
                    service.model(),
                    emit_package,
                    proto_path@,
                    compile_well_known_types,
                    attributes.module_rules(),
                    attributes.struct_rules(),
                )
            },
            Err(e) => {
                &&& e == GenerateError::MalformedTypeReference
                &&& !operations_ok(
                    Role::Server,
                    CODEC_PATH@,
                    service.model(),
                    emit_package,
                    proto_path@,
                    compile_well_known_types,
                )
            },
        },
{
    let methods = match generate_methods(
        service,
        emit_package,
        proto_path,
        compile_well_known_types,
    ) {
        Ok(text) => text,
        Err(e) => {
            return Err(e);
        },
    };
    let service_doc = generate_doc_comments(service.comment());
    let package = if emit_package {
        service.package()
    } else {
        ""
    };
    let path = build_service_path(package, service.identifier());
    let mod_attributes = attributes.for_mod(package);
    let struct_attributes = attributes.for_struct(path.as_str());
    Ok(
        render_server_module(
            service.name(),
            &mod_attributes,
            &struct_attributes,
            service_doc.as_str(),
            methods.as_str(),
        ),
    )
}

/// Writes the operations of a service, one for each method, in the order of
/// declaration. Fails at the first method that has no operation.
pub fn generate_operations<T: Service>(
    service: &T,
    emit_package: bool,
    proto_path: &str,
    compile_well_known_types: bool,
) -> (r: Result<Vec<String>, GenerateError>)
    requires
        methods_named(service.model()),
    ensures
        match r {
            Ok(ops) => {
                &&& operations_ok(
                    Role::Server,
                    CODEC_PATH@,
                    service.model(),
                    emit_package,
                    proto_path@,
                    compile_well_known_types,
                )
                &&& ops@.len() == service.model().methods.len()
                &&& views(ops@) == operations(
                    Role::Server,
                    CODEC_PATH@,
                    service.model(),
                    emit_package,
                    proto_path@,
                    compile_well_known_types,
                )
            },
            Err(e) => {
                &&& e == GenerateError::MalformedTypeReference
                &&& !operations_ok(
                    Role::Server,
                    CODEC_PATH@,
                    service.model(),
                    emit_package,
                    proto_path@,
                    compile_well_known_types,
                )
            },
        },
{
    let package = if emit_package {
        service.package()
    } else {
        ""
    };
    let methods = service.methods();
    let mut out: Vec<String> = Vec::new();
    let mut i: usize = 0;
    while i < methods.len()
        invariant
            i <= methods.len(),
            method_models(methods@) == service.model().methods,
            methods_named(service.model()),
            package@ == emitted_package(service.model(), emit_package),
            out@.len() == i,
            forall|k: int|
                0 <= k < i ==> method_operation(
                    Role::Server,
                    CODEC_PATH@,
                    service.model(),
                    emit_package,
                    #[trigger] service.model().methods[k],
                    proto_path@,
                    compile_well_known_types,
                ) == Ok::<Seq<char>, GenerateError>(out@[k]@),
        decreases methods.len() - i,
    {
        let method = &methods[i];
        assert(method.model() == service.model().methods[i as int]);
        assert(plain_identifier(method.model().name));
        let path = build_rpc_path(package, service.identifier(), method.identifier());
        let mut text = generate_doc_comments(method.comment());
        let body = emit_operation(
            Role::Server,
            select_shape(method.client_streaming(), method.server_streaming()),
            method,
            CODEC_PATH,
            proto_path,
            compile_well_known_types,
            path.as_str(),
        );
        match body {
            Ok(b) => {
                text.append(b.as_str());
                out.push(text);
            },
            Err(e) => {
                return Err(e);
            },
        }
        i += 1;
    }
    proof {
        assert(views(out@) =~= operations(
            Role::Server,
            CODEC_PATH@,
            service.model(),
            emit_package,
            proto_path@,
            compile_well_known_types,
        ));
    }
    Ok(out)
}

/// Writes the operations of a service as one text, in the order of
/// declaration.
pub fn generate_methods<T: Service>(
    service: &T,
    emit_package: bool,
    proto_path: &str,
    compile_well_known_types: bool,
) -> (r: Result<String, GenerateError>)
    requires
        methods_named(service.model()),
    ensures
        match r {
            Ok(text) => {
                &&& operations_ok(
                    Role::Server,
                    CODEC_PATH@,
                    service.model(),
                    emit_package,
                    proto_path@,
                    compile_well_known_types,
                )
                &&& text@ == joined(
                    operations(
                        Role::Server,
                        CODEC_PATH@,
                        service.model(),
                        emit_package,
                        proto_path@,
                        compile_well_known_types,
                    ),
                )
            },
            Err(e) => {
                &&& e == GenerateError::MalformedTypeReference
                &&& !operations_ok(
                    Role::Server,
                    CODEC_PATH@,
                    service.model(),
                    emit_package,
                    proto_path@,
                    compile_well_known_types,
                )
            },
        },
{
    match generate_operations(service, emit_package, proto_path, compile_well_known_types) {
        Ok(ops) => Ok(concat_all(&ops)),
        Err(e) => Err(e),
    }
}

} // verus!
