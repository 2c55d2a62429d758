//! How a message type is referred to in generated code.
//!
//! A message has a protocol-level name and a name in the generated language.
//! The rules below are tried in order and the first that applies decides.

use vstd::prelude::*;
use vstd::string::*;
use crate::error::GenerateError;
use crate::syntax::{is_path, is_token_text, lexes_as_tokens, parses_as_path};
use crate::text::{is_prefix, starts_with, str_eq};

verus! {

/// The rule that decides how a type is referred to.
#[derive(Clone, Copy, Debug, PartialEq, Eq, Structural)]
pub enum ResolutionRule {
    /// A type of the protocol's standard library that is not compiled here.
    WellKnown,
    /// A name that is already qualified from the root.
    RootQualified,
    /// One of the spellings that are types but no paths.
    AllowListed,
    /// A name that is already scoped to the generating crate.
    ModuleRelative,
    /// Any other name: it is looked up under the configured prefix.
    Prefixed,
}

/// The protocol-level name lies in the standard library's namespace.
pub open spec fn google_type(proto_type: Seq<char>) -> bool {
    is_prefix(".google.protobuf"@, proto_type)
}

/// The name is one of the spellings that are types but no paths.
pub open spec fn allow_listed(rust_type: Seq<char>) -> bool {
    rust_type == "()"@
}

/// The first rule that applies to a type.
pub open spec fn rule_for(
    proto_type: Seq<char>,
    rust_type: Seq<char>,
    compile_well_known_types: bool,
) -> ResolutionRule {
    if google_type(proto_type) && !compile_well_known_types {
        ResolutionRule::WellKnown
    } else if is_prefix("::"@, rust_type) {
        ResolutionRule::RootQualified
    } else if allow_listed(rust_type) {
        ResolutionRule::AllowListed
    } else if is_prefix("crate::"@, rust_type) {
        ResolutionRule::ModuleRelative
    } else {
        ResolutionRule::Prefixed
    }
}

/// A rule under which the name is emitted as it stands.
pub open spec fn verbatim(rule: ResolutionRule) -> bool {
    rule != ResolutionRule::Prefixed
}

/// The text that a rule proposes as the reference: the name itself, or the
/// name under the prefix.
pub open spec fn candidate(rule: ResolutionRule, proto_path: Seq<char>, rust_type: Seq<char>) -> Seq<
    char,
> {
    if verbatim(rule) {
        rust_type
    } else {
        proto_path + "::"@ + rust_type
    }
}

/// What the text of a reference must be for the rule to accept it: a path
/// where the rule promises one, tokens of the language otherwise.
pub open spec fn well_formed(rule: ResolutionRule, text: Seq<char>) -> bool {
    match rule {
        ResolutionRule::ModuleRelative | ResolutionRule::Prefixed => parses_as_path(text),
        _ => lexes_as_tokens(text),
    }
}

/// The reference for a type, or the failure to form one.
pub open spec fn resolved(
    proto_path: Seq<char>,
    proto_type: Seq<char>,
    rust_type: Seq<char>,
    compile_well_known_types: bool,
) -> Result<Seq<char>, GenerateError> {
    let rule = rule_for(proto_type, rust_type, compile_well_known_types);
    let text = candidate(rule, proto_path, rust_type);
    if well_formed(rule, text) {
        Ok(text)
    } else {
        Err(GenerateError::MalformedTypeReference)
    }
}

/// An exec result agrees with a spec result.
pub open spec fn agrees(r: Result<String, GenerateError>, expected: Result<Seq<char>, GenerateError>) -> bool {
    match r {
        Ok(s) => expected == Ok::<Seq<char>, GenerateError>(s@),
        Err(e) => expected == Err::<Seq<char>, GenerateError>(e),
    }
}

/// Whether a protocol-level type name belongs to the standard library.
pub fn is_google_type(proto_type: &str) -> (r: bool)
    ensures
        r == google_type(proto_type@),
{
    starts_with(proto_type, ".google.protobuf")
}

/// Whether a name is on the list of spellings that are types but no paths.
pub fn is_allow_listed(rust_type: &str) -> (r: bool)
    ensures
        r == allow_listed(rust_type@),
{
    str_eq(rust_type, "()")
}

/// Picks the first rule that applies to a type.
pub fn select_rule(proto_type: &str, rust_type: &str, compile_well_known_types: bool) -> (rule:
    ResolutionRule)
    ensures
        rule == rule_for(proto_type@, rust_type@, compile_well_known_types),
{
    if is_google_type(proto_type) && !compile_well_known_types {
        ResolutionRule::WellKnown
    } else if starts_with(rust_type, "::") {
        ResolutionRule::RootQualified
    } else if is_allow_listed(rust_type) {
        ResolutionRule::AllowListed
    } else if starts_with(rust_type, "crate::") {
        ResolutionRule::ModuleRelative
    } else {
        ResolutionRule::Prefixed
    }
}

/// Writes the text that a rule proposes as the reference.
pub fn candidate_text(rule: ResolutionRule, proto_path: &str, rust_type: &str) -> (text: String)
    ensures
        text@ == candidate(rule, proto_path@, rust_type@),
{
    match rule {
        ResolutionRule::Prefixed => {
            let mut text = String::from_str(proto_path);
            text.append("::");
            text.append(rust_type);
            text
        },
        _ => String::from_str(rust_type),
    }
}

/// Turns a proposed reference into the result of resolution, given whether
/// the check that its rule asks for accepted the text.
pub fn conclude(text: String, accepted: bool) -> (r: Result<String, GenerateError>)
    ensures
        r is Ok <==> accepted,
        r is Ok ==> r.unwrap() == text,
        r is Err ==> r.unwrap_err() == GenerateError::MalformedTypeReference,
{
    if accepted {
        Ok(text)
    } else {
        Err(GenerateError::MalformedTypeReference)
    }
}

/// Resolves a message type to the reference that generated code uses for it.
///
/// The name is emitted as it stands where it is a standard-library type that
/// is not compiled here, is qualified from the root, is allow-listed, or is
/// scoped to the crate; any other name is put under `proto_path`. The result
/// is `Err(MalformedTypeReference)` exactly when the outside parser refuses
/// the text.
pub fn resolve_type(
    proto_path: &str,
    proto_type: &str,
    rust_type: &str,
    compile_well_known_types: bool,
) -> (r: Result<String, GenerateError>)
    ensures
        agrees(r, resolved(proto_path@, proto_type@, rust_type@, compile_well_known_types)),
{
    let rule = select_rule(proto_type, rust_type, compile_well_known_types);
    let text = candidate_text(rule, proto_path, rust_type);
    let accepted = match rule {
        ResolutionRule::ModuleRelative | ResolutionRule::Prefixed => is_path(text.as_str()),
        _ => is_token_text(text.as_str()),
    };
    conclude(text, accepted)
}

/// Whether a message type resolves: whether the outside parser accepts the
/// text that its rule proposes.
pub fn resolves(
    proto_path: &str,
    proto_type: &str,
    rust_type: &str,
    compile_well_known_types: bool,
) -> (r: bool)
    ensures
        r == (resolved(proto_path@, proto_type@, rust_type@, compile_well_known_types) is Ok),
{
    match resolve_type(proto_path, proto_type, rust_type, compile_well_known_types) {
        Ok(_) => true,
        Err(_) => false,
    }
}

/// The reference for a message type that resolves. A type that does not
/// resolve has no reference: callers that cannot rule that out ask
/// `resolves` first, or call `resolve_type`.
pub fn reference(
    proto_path: &str,
    proto_type: &str,
    rust_type: &str,
    compile_well_known_types: bool,
) -> (text: String)
    requires
        resolved(proto_path@, proto_type@, rust_type@, compile_well_known_types) is Ok,
    ensures
        resolved(proto_path@, proto_type@, rust_type@, compile_well_known_types) == Ok::<
            Seq<char>,
            GenerateError,
        >(text@),
{
    let rule = select_rule(proto_type, rust_type, compile_well_known_types);
    candidate_text(rule, proto_path, rust_type)
}

/// Resolution is idempotent on names that are emitted as they stand: the
/// reference that comes out resolves to itself.
pub proof fn lemma_resolution_idempotent(
    proto_path: Seq<char>,
    proto_type: Seq<char>,
    rust_type: Seq<char>,
    compile_well_known_types: bool,
)
    requires
        verbatim(rule_for(proto_type, rust_type, compile_well_known_types)),
    ensures
        resolved(proto_path, proto_type, rust_type, compile_well_known_types) matches Ok(text) ==> {
            &&& text == rust_type
            &&& resolved(proto_path, proto_type, text, compile_well_known_types) == Ok::<
                Seq<char>,
                GenerateError,
            >(text)
        },
{
}

} // verus!
