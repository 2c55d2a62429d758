//! Configuration, and the generator that collects the stubs of all services
//! before they are written out.

use vstd::prelude::*;
use vstd::string::*;
use crate::attributes::Attributes;
use crate::client::{client_module, CODEC_PATH};
use crate::emit::{named, names_are_identifiers, operations_ok};
use crate::error::GenerateError;
use crate::server::server_module;
use crate::service::{DubboService, ServiceView};
use crate::syntax::{is_program, parses_as_program};
use crate::template::Role;

verus! {

/// What a generation pass is configured with.
pub struct Builder {
    /// Whether client stubs are generated.
    pub build_client: bool,
    /// Whether server stubs are generated.
    pub build_server: bool,
    /// The prefix under which message types are looked up.
    pub proto_path: String,
    /// Whether the protocol's standard library is compiled like any other
    /// package.
    pub compile_well_known_types: bool,
    /// Arguments handed on to the protocol compiler.
    pub protoc_args: Vec<String>,
    /// Where the file that pulls in the generated modules is written, if
    /// anywhere.
    pub include_file: Option<String>,
    /// Where the generated files are written; the build's own directory if
    /// none is given.
    pub output_dir: Option<String>,
    /// Annotations for server stubs.
    pub server_attributes: Attributes,
    /// Annotations for client stubs.
    pub client_attributes: Attributes,
}

/// The default configuration: both roles, types under `super`, no
/// annotations, the standard library taken from outside.
pub fn configure() -> (b: Builder)
    ensures
        b.build_client,
        b.build_server,
        b.proto_path@ == "super"@,
        !b.compile_well_known_types,
        b.protoc_args@.len() == 0,
        b.include_file is None,
        b.output_dir is None,
        b.server_attributes.module_rules().len() == 0,
        b.server_attributes.struct_rules().len() == 0,
        b.client_attributes.module_rules().len() == 0,
        b.client_attributes.struct_rules().len() == 0,
{
    Builder {
        build_client: true,
        build_server: true,
        proto_path: String::from_str("super"),
        protoc_args: Vec::new(),
        compile_well_known_types: false,
        include_file: None,
        output_dir: None,
        server_attributes: Attributes::default(),
        client_attributes: Attributes::default(),
    }
}

impl Builder {
    /// Sets the directory that the generated files are written to, and
    /// nothing else.
    pub fn output_dir(self, output_dir: String) -> (b: Builder)
        ensures
            b.output_dir == Some(output_dir),
            b.build_client == self.build_client,
            b.build_server == self.build_server,
            b.proto_path == self.proto_path,
            b.compile_well_known_types == self.compile_well_known_types,
            b.protoc_args == self.protoc_args,
            b.include_file == self.include_file,
            b.server_attributes == self.server_attributes,
            b.client_attributes == self.client_attributes,
    {
        let mut b = self;
        b.output_dir = Some(output_dir);
        b
    }
}

/// Chooses the directory that the generated files go to: the configured
/// one, or else the one that the build provides. Where there is neither,
/// there is no output target.
pub fn choose_out_dir(configured: Option<String>, provided: Option<String>) -> (r: Option<String>)
    ensures
        r == (if configured is Some {
            configured
        } else {
            provided
        }),
{
    match configured {
        Some(dir) => Some(dir),
        None => provided,
    }
}

/// Collects the text of the client stubs and of the server stubs of every
/// service, each role in a buffer of its own.
pub struct SvcGenerator {
    builder: Builder,
    clients: String,
    servers: String,
}

/// The text that a role adds for a service: its module where the role is
/// built, nothing where it is not.
pub open spec fn addition(enabled: bool, module: Seq<char>) -> Seq<char> {
    if enabled {
        module
    } else {
        Seq::empty()
    }
}

/// A buffer is due where its role is built and it holds text.
pub open spec fn ready(enabled: bool, text: Seq<char>) -> bool {
    enabled && text.len() > 0
}

/// A buffer can be committed: it is not due, or it holds a program.
pub open spec fn flushable(enabled: bool, text: Seq<char>) -> bool {
    ready(enabled, text) ==> parses_as_program(text)
}

impl SvcGenerator {
    /// The configuration that the generator was made with.
    pub closed spec fn config(&self) -> Builder {
        self.builder
    }

    /// The client stubs collected so far.
    pub closed spec fn clients(&self) -> Seq<char> {
        self.clients@
    }

    /// The server stubs collected so far.
    pub closed spec fn servers(&self) -> Seq<char> {
        self.servers@
    }

    /// A generator with empty buffers. The configuration is taken over and
    /// never changes.
    pub fn new(builder: Builder) -> (g: SvcGenerator)
        ensures
            g.config() == builder,
            g.clients() == Seq::<char>::empty(),
            g.servers() == Seq::<char>::empty(),
    {
        SvcGenerator { builder, clients: String::new(), servers: String::new() }
    }

    /// The client stubs collected so far.
    pub fn client_text(&self) -> (r: &str)
        ensures
            r@ == self.clients(),
    {
        self.clients.as_str()
    }

    /// The server stubs collected so far.
    pub fn server_text(&self) -> (r: &str)
        ensures
            r@ == self.servers(),
    {
        self.servers.as_str()
    }

    /// Whether the stubs of a service can be generated for every role that
    /// is built.
    pub open spec fn generates(&self, s: ServiceView) -> bool {
        &&& self.config().build_server ==> operations_ok(
            Role::Server,
            crate::server::CODEC_PATH@,
            s,
            true,
            self.config().proto_path@,
            self.config().compile_well_known_types,
        )
        &&& self.config().build_client ==> operations_ok(
            Role::Client,
            CODEC_PATH@,
            s,
            true,
            self.config().proto_path@,
            self.config().compile_well_known_types,
        )
    }

    /// Whether every name that a built role writes for a service is an
    /// identifier.
    pub open spec fn names(&self, s: ServiceView) -> bool {
        &&& self.config().build_server ==> named(Role::Server, s)
        &&& self.config().build_client ==> named(Role::Client, s)
    }

    /// Generates the stubs of one service and adds them to the buffers of
    /// the roles that are built.
    ///
    /// The names are tested first: where one that a built role writes is no
    /// identifier, the result is `InvalidIdentifier`. Where the names pass
    /// and a type of the service cannot be resolved, it is
    /// `MalformedTypeReference`. Either way nothing is added to either
    /// buffer.
    pub fn generate(&mut self, service: DubboService) -> (r: Result<(), GenerateError>)
        ensures
            final(self).config() == old(self).config(),
            r is Ok <==> old(self).names(service@) && old(self).generates(service@),
            r is Ok ==> {
                &&& final(self).servers() == old(self).servers() + addition(
                    old(self).config().build_server,
                    server_module(
                        service@,
                        true,
                        old(self).config().proto_path@,
                        old(self).config().compile_well_known_types,
                        old(self).config().server_attributes.module_rules(),
                        old(self).config().server_attributes.struct_rules(),
                    ),
                )
                &&& final(self).clients() == old(self).clients() + addition(
                    old(self).config().build_client,
                    client_module(
                        service@,
                        true,
                        old(self).config().proto_path@,
                        old(self).config().compile_well_known_types,
                        old(self).config().client_attributes.module_rules(),
                        old(self).config().client_attributes.struct_rules(),
                    ),
                )
            },
            r is Err ==> {
                &&& r.unwrap_err() == (if old(self).names(service@) {
                    GenerateError::MalformedTypeReference
                } else {
                    GenerateError::InvalidIdentifier
                })
                &&& final(self).servers() == old(self).servers()
                &&& final(self).clients() == old(self).clients()
            },
    {
        if self.builder.build_server && !names_are_identifiers(Role::Server, &service) {
            return Err(GenerateError::InvalidIdentifier);
        }
        if self.builder.build_client && !names_are_identifiers(Role::Client, &service) {
            return Err(GenerateError::InvalidIdentifier);
        }
        let mut server = String::new();
        if self.builder.build_server {
            match crate::server::generate(
                &service,
                true,
                self.builder.proto_path.as_str(),
                self.builder.compile_well_known_types,
                &self.builder.server_attributes,
            ) {
                Ok(text) => {
                    server = text;
                },
                Err(e) => {
                    return Err(e);
                },
            }
        }
        let mut client = String::new();
        if self.builder.build_client {
            match crate::client::generate(
                &service,
                true,
                self.builder.proto_path.as_str(),
                self.builder.compile_well_known_types,
                &self.builder.client_attributes,
            ) {
                Ok(text) => {
                    client = text;
                },
                Err(e) => {
                    return Err(e);
                },
            }
        }
        self.servers.append(server.as_str());
        self.clients.append(client.as_str());
        Ok(())
    }

    /// Whether the client buffer is due: the role is built and the buffer
    /// holds text.
    pub fn clients_due(&self) -> (r: bool)
        ensures
            r == ready(self.config().build_client, self.clients()),
    {
        self.builder.build_client && !self.clients.as_str().is_empty()
    }

    /// Whether the server buffer is due: the role is built and the buffer
    /// holds text.
    pub fn servers_due(&self) -> (r: bool)
        ensures
            r == ready(self.config().build_server, self.servers()),
    {
        self.builder.build_server && !self.servers.as_str().is_empty()
    }

    /// Commits the client role: where its buffer is due, the formatted text
    /// of the buffer, `laid_out`, is appended to `buf` and the buffer is
    /// emptied. A buffer that is due holds a program, and `laid_out` is what
    /// the formatter made of it.
    pub fn commit_clients(&mut self, buf: &mut String, laid_out: &str)
        requires
            flushable(old(self).config().build_client, old(self).clients()),
        ensures
            final(self).config() == old(self).config(),
            final(buf)@ == old(buf)@ + flushed(
                old(self).config().build_client,
                old(self).clients(),
                laid_out@,
            ),
            final(self).clients() == kept(old(self).config().build_client, old(self).clients()),
            final(self).servers() == old(self).servers(),
    {
        if self.clients_due() {
            buf.append(laid_out);
            self.clients = String::new();
        }
        proof {
            assert(buf@ =~= old(buf)@ + flushed(
                old(self).config().build_client,
                old(self).clients(),
                laid_out@,
            ));
        }
    }

    /// Commits the server role: where its buffer is due, the formatted text
    /// of the buffer, `laid_out`, is appended to `buf` and the buffer is
    /// emptied. A buffer that is due holds a program, and `laid_out` is what
    /// the formatter made of it.
    pub fn commit_servers(&mut self, buf: &mut String, laid_out: &str)
        requires
            flushable(old(self).config().build_server, old(self).servers()),
        ensures
            final(self).config() == old(self).config(),
            final(buf)@ == old(buf)@ + flushed(
                old(self).config().build_server,
                old(self).servers(),
                laid_out@,
            ),
            final(self).servers() == kept(old(self).config().build_server, old(self).servers()),
            final(self).clients() == old(self).clients(),
    {
        if self.servers_due() {
            buf.append(laid_out);
            self.servers = String::new();
        }
        proof {
            assert(buf@ =~= old(buf)@ + flushed(
                old(self).config().build_server,
                old(self).servers(),
                laid_out@,
            ));
        }
    }

    /// Tests the client buffer where it is due and commits the role as
    /// `commit_clients` does where it holds a program. Where it is due and
    /// holds none, the result is `InvalidProgram` and nothing changes.
    pub fn try_commit_clients(&mut self, buf: &mut String, laid_out: &str) -> (r: Result<
        (),
        GenerateError,
    >)
        ensures
            final(self).config() == old(self).config(),
            final(self).servers() == old(self).servers(),
            r is Ok <==> flushable(old(self).config().build_client, old(self).clients()),
            r is Ok ==> {
                &&& final(buf)@ == old(buf)@ + flushed(
                    old(self).config().build_client,
                    old(self).clients(),
                    laid_out@,
                )
                &&& final(self).clients() == kept(
                    old(self).config().build_client,
                    old(self).clients(),
                )
            },
            r is Err ==> {
                &&& r.unwrap_err() == GenerateError::InvalidProgram
                &&& final(buf)@ == old(buf)@
                &&& final(self).clients() == old(self).clients()
            },
    {
        if self.clients_due() && !is_program(self.clients.as_str()) {
            return Err(GenerateError::InvalidProgram);
        }
        self.commit_clients(buf, laid_out);
        Ok(())
    }

    /// Tests the server buffer where it is due and commits the role as
    /// `commit_servers` does where it holds a program. Where it is due and
    /// holds none, the result is `InvalidProgram` and nothing changes.
    pub fn try_commit_servers(&mut self, buf: &mut String, laid_out: &str) -> (r: Result<
        (),
        GenerateError,
    >)
        ensures
            final(self).config() == old(self).config(),
            final(self).clients() == old(self).clients(),
            r is Ok <==> flushable(old(self).config().build_server, old(self).servers()),
            r is Ok ==> {
                &&& final(buf)@ == old(buf)@ + flushed(
                    old(self).config().build_server,
                    old(self).servers(),
                    laid_out@,
                )
                &&& final(self).servers() == kept(
                    old(self).config().build_server,
                    old(self).servers(),
                )
            },
            r is Err ==> {
                &&& r.unwrap_err() == GenerateError::InvalidProgram
                &&& final(buf)@ == old(buf)@
                &&& final(self).servers() == old(self).servers()
            },
    {
        if self.servers_due() && !is_program(self.servers.as_str()) {
            return Err(GenerateError::InvalidProgram);
        }
        self.commit_servers(buf, laid_out);
        Ok(())
    }

    /// Finalizes both roles: the formatted client stubs, then the formatted
    /// server stubs, are appended to `buf`, each only where its role is
    /// built and its buffer holds text. A committed buffer is empty
    /// afterwards.
    ///
    /// Every buffer that is due holds a program, and the two texts are what
    /// the formatter made of the two buffers; a caller that cannot rule out
    /// a buffer that is no program calls `try_finalize`.
    pub fn finalize(&mut self, buf: &mut String, clients_laid_out: &str, servers_laid_out: &str)
        requires
            flushable(old(self).config().build_client, old(self).clients()),
            flushable(old(self).config().build_server, old(self).servers()),
        ensures
            final(self).config() == old(self).config(),
            final(buf)@ == old(buf)@ + flushed(
                old(self).config().build_client,
                old(self).clients(),
                clients_laid_out@,
            ) + flushed(
                old(self).config().build_server,
                old(self).servers(),
                servers_laid_out@,
            ),
            final(self).clients() == kept(old(self).config().build_client, old(self).clients()),
            final(self).servers() == kept(old(self).config().build_server, old(self).servers()),
    {
        self.commit_clients(buf, clients_laid_out);
        self.commit_servers(buf, servers_laid_out);
    }

    /// Tests the buffers that are due, the clients first, and finalizes as
    /// `finalize` does where each holds a program.
    ///
    /// Where the client buffer is due and holds no program, the result is
    /// `InvalidProgram` and nothing changes. Where the client buffer passes
    /// and the server buffer is due and holds no program, the result is
    /// `InvalidProgram` too: the clients have been committed by then, and
    /// nothing of the servers is written.
    pub fn try_finalize(
        &mut self,
        buf: &mut String,
        clients_laid_out: &str,
        servers_laid_out: &str,
    ) -> (r: Result<(), GenerateError>)
        ensures
            final(self).config() == old(self).config(),
            r is Ok <==> flushable(old(self).config().build_client, old(self).clients())
                && flushable(old(self).config().build_server, old(self).servers()),
            r is Err ==> r.unwrap_err() == GenerateError::InvalidProgram,
            final(self).servers() == (if r is Ok {
                kept(old(self).config().build_server, old(self).servers())
            } else {
                old(self).servers()
            }),
            flushable(old(self).config().build_client, old(self).clients()) ==> {
                &&& final(self).clients() == kept(
                    old(self).config().build_client,
                    old(self).clients(),
                )
                &&& final(buf)@ == old(buf)@ + flushed(
                    old(self).config().build_client,
                    old(self).clients(),
                    clients_laid_out@,
                ) + (if r is Ok {
                    flushed(
                        old(self).config().build_server,
                        old(self).servers(),
                        servers_laid_out@,
                    )
                } else {
                    Seq::<char>::empty()
                })
            },
            !flushable(old(self).config().build_client, old(self).clients()) ==> {
                &&& final(self).clients() == old(self).clients()
                &&& final(buf)@ == old(buf)@
            },
    {
        if self.clients_due() && !is_program(self.clients.as_str()) {
            return Err(GenerateError::InvalidProgram);
        }
        if self.servers_due() && !is_program(self.servers.as_str()) {
            self.commit_clients(buf, clients_laid_out);
            proof {
                assert(buf@ =~= old(buf)@ + flushed(
                    old(self).config().build_client,
                    old(self).clients(),
                    clients_laid_out@,
                ) + Seq::<char>::empty());
            }
            return Err(GenerateError::InvalidProgram);
        }
        self.finalize(buf, clients_laid_out, servers_laid_out);
        Ok(())
    }
}

/// What committing a role writes: the formatted text where the buffer is
/// due, nothing where it is not.
pub open spec fn flushed(enabled: bool, text: Seq<char>, laid_out: Seq<char>) -> Seq<char> {
    if ready(enabled, text) {
        laid_out
    } else {
        Seq::empty()
    }
}

/// What committing a role leaves in its buffer.
pub open spec fn kept(enabled: bool, text: Seq<char>) -> Seq<char> {
    if ready(enabled, text) {
        Seq::empty()
    } else {
        text
    }
}

} // verus!
