//! The calls into the token and syntax-tree crates. Nothing here is proved:
//! each contract names what the outside function returns.
//!
//! The library runs at build time, outside any procedural macro. There
//! `proc_macro2` lexes with its own lexer, which answers from the text alone
//! and reports what it cannot lex as an error; inside a procedural macro the
//! compiler's lexer would answer instead, and nothing here speaks of it.
//!
//! `syn` interprets every literal that the lexer hands it; one that it does
//! not know it keeps as a verbatim token, so that parsing answers with `Ok`
//! or `Err` on every text.

use vstd::prelude::*;

verus! {

/// Whether `syn` accepts the text as a `syn::Path`.
pub uninterp spec fn parses_as_path(src: Seq<char>) -> bool;

/// Whether `proc_macro2` can lex the text into a token stream.
pub uninterp spec fn lexes_as_tokens(src: Seq<char>) -> bool;

/// The source text of the string literal that `proc_macro2` builds for a value.
pub uninterp spec fn string_literal_text(value: Seq<char>) -> Seq<char>;

/// Whether `syn` accepts the text as a whole source file.
pub uninterp spec fn parses_as_program(src: Seq<char>) -> bool;

/// The identifier that `syn` reads out of the text, as it prints; `None`
/// where the text is not one identifier.
pub uninterp spec fn parsed_identifier(src: Seq<char>) -> Option<Seq<char>>;

/// Calls `syn::parse_str::<syn::Path>`, which lexes the text with
/// `proc_macro2` and then parses the tokens, and reports whether it returned
/// `Ok`. The contract only gives that answer a name.
#[verifier::external_body]
pub(crate) fn is_path(src: &str) -> (ok: bool)
    ensures
        ok == parses_as_path(src@),
{
    syn::parse_str::<syn::Path>(src).is_ok()
}

/// Calls `proc_macro2::TokenStream::from_str` (through `str::parse`) and
/// reports whether it returned `Ok`. The contract only gives that answer a
/// name.
#[verifier::external_body]
pub(crate) fn is_token_text(src: &str) -> (ok: bool)
    ensures
        ok == lexes_as_tokens(src@),
{
    src.parse::<proc_macro2::TokenStream>().is_ok()
}

/// Calls `proc_macro2::Literal::string` and prints the literal. The contract
/// only gives the printed text a name; the escaping is the outside crate's.
#[verifier::external_body]
pub(crate) fn string_literal(value: &str) -> (lit: String)
    ensures
        lit@ == string_literal_text(value@),
{
    proc_macro2::Literal::string(value).to_string()
}

/// Calls `syn::parse_file`, which lexes the text with `proc_macro2` and then
/// parses the tokens as the items of a file, and reports whether it returned
/// `Ok`. The contract only gives that answer a name.
#[verifier::external_body]
pub(crate) fn is_program(src: &str) -> (ok: bool)
    ensures
        ok == parses_as_program(src@),
{
    syn::parse_file(src).is_ok()
}

/// Calls `syn::parse_str::<syn::Ident>`, which lexes the text with
/// `proc_macro2` and then accepts one identifier that is no keyword, and
/// prints the identifier where it returned `Ok`. The contract only gives
/// that answer a name.
#[verifier::external_body]
pub(crate) fn read_identifier(src: &str) -> (r: Option<String>)
    ensures
        match r {
            Some(text) => parsed_identifier(src@) == Some(text@),
            None => parsed_identifier(src@) is None,
        },
{
    syn::parse_str::<syn::Ident>(src).ok().map(|ident| ident.to_string())
}

/// `String::push` appends one character.
pub assume_specification[ String::push ](s: &mut String, c: char)
    ensures
        final(s)@ == old(s)@.push(c),
;

} // verus!
