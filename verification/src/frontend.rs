//! The derive pipeline: from declaration source text to generated source
//! text.
//!
//! Parsing leans on `syn` and `quote`: the declaration is read into a
//! `syn::DeriveInput` and its pieces are handed over as plain token text,
//! out of which an [`AggregateDef`] is assembled.  Everything after that —
//! shape validation, planning the implementations, rendering them — is the
//! verified generator of the other modules; [`impl_typemap_macro`] carries
//! its exact contract, and [`typemap_macro_derive`] promises that its output
//! is the expansion of some definition, whatever the parser handed back.

use vstd::prelude::*;

use quote::ToTokens;

use crate::generator::generate;
use crate::model::{
    AggregateDef, DataShape, DefModel, DeriveError, FieldsShape, ShapeError, is_tuple_struct,
    planned_impls, shape_error_of,
};
use crate::render::{render_impls, spec_render_impls};

verus! {

#[verifier::external_type_specification]
#[verifier::external_body]
pub struct ExDeriveInput(syn::DeriveInput);

/// Relies on `syn::parse_str::<syn::DeriveInput>`: parses Rust source text
/// as the input of a derive macro, `None` when the text is not a well-formed
/// type declaration.
#[verifier::external_body]
fn parse_derive_input(src: &str) -> Option<syn::DeriveInput> {
    syn::parse_str(src).ok()
}

/// Relies on `syn::Ident::to_string`: the name of the parsed declaration as
/// plain text.
#[verifier::external_body]
fn derive_name(ast: &syn::DeriveInput) -> String {
    ast.ident.to_string()
}

/// Relies on quote's `ToTokens` for `syn::Generics`: the declaration's
/// generic/lifetime parameter list rendered back to token text, empty when
/// the declaration has none.
#[verifier::external_body]
fn derive_generics(ast: &syn::DeriveInput) -> String {
    ast.generics.to_token_stream().to_string()
}

/// Relies on `syn::Attribute::path` and quote's `ToTokens` for `syn::Path`:
/// the path of each attribute on the declaration rendered back to token
/// text, in order.
#[verifier::external_body]
fn derive_attr_paths(ast: &syn::DeriveInput) -> Vec<String> {
    ast.attrs.iter().map(|a| a.path().to_token_stream().to_string()).collect()
}

/// Relies on `syn::Data` and `syn::Fields`: which kind of declaration was
/// parsed — struct with positional, named or no fields, enum, or union —
/// with the token text of each positional field type, in order.
#[verifier::external_body]
fn derive_data_shape(ast: &syn::DeriveInput) -> DataShape {
    match &ast.data {
        syn::Data::Struct(s) => DataShape::Struct(match &s.fields {
            syn::Fields::Unnamed(f) => FieldsShape::Tuple(
                f.unnamed.iter().map(|e| e.ty.to_token_stream().to_string()).collect(),
            ),
            syn::Fields::Named(_) => FieldsShape::Named,
            syn::Fields::Unit => FieldsShape::Unit,
        }),
        syn::Data::Enum(_) => DataShape::Enum,
        syn::Data::Union(_) => DataShape::Union,
    }
}

/// Reads declaration source text into an aggregate definition, `None` when
/// the text does not parse as a type declaration.
fn parse_aggregate(input: &str) -> Option<AggregateDef> {
    match parse_derive_input(input) {
        Some(ast) => Some(
            AggregateDef {
                name: derive_name(&ast),
                generics: derive_generics(&ast),
                data: derive_data_shape(&ast),
                attrs: derive_attr_paths(&ast),
            },
        ),
        None => None,
    }
}

/// What expansion yields for a definition: the rendered implementation set
/// for a positional aggregate, and the shape error for everything else.
pub open spec fn spec_expand(d: DefModel) -> Result<Seq<char>, ShapeError> {
    if is_tuple_struct(d) {
        Ok(spec_render_impls(planned_impls(d)))
    } else {
        Err(shape_error_of(d))
    }
}

/// Expands one aggregate definition: plans the capability implementations
/// and renders them as source text, or rejects the definition's shape whole.
pub fn impl_typemap_macro(def: &AggregateDef) -> (r: Result<String, ShapeError>)
    ensures
        match r {
            Ok(code) => spec_expand(def@) == Ok::<Seq<char>, ShapeError>(code@),
            Err(e) => spec_expand(def@) == Err::<Seq<char>, ShapeError>(e),
        },
{
    match generate(def) {
        Ok(impls) => Ok(render_impls(&impls)),
        Err(e) => Err(e),
    }
}

/// The whole derive pipeline: parses declaration source text and expands it.
///
/// Whatever definition the parser read out of the text, the result is
/// exactly that definition's expansion: generated source text for a
/// positional aggregate, its shape error otherwise, and `Unparsable` only
/// when the text is not a type declaration at all.
pub fn typemap_macro_derive(input: &str) -> (r: Result<String, DeriveError>)
    ensures
        r matches Ok(code) ==> exists|d: DefModel| #[trigger] spec_expand(d) == Ok::<
            Seq<char>,
            ShapeError,
        >(code@),
        r matches Err(DeriveError::Shape(e)) ==> exists|d: DefModel| #[trigger] spec_expand(d)
            == Err::<Seq<char>, ShapeError>(e),
{
    match parse_aggregate(input) {
        Some(def) => match impl_typemap_macro(&def) {
            Ok(code) => {
                proof {
                    assert(spec_expand(def@) == Ok::<Seq<char>, ShapeError>(code@));
                }
                Ok(code)
            },
            Err(e) => {
                proof {
                    assert(spec_expand(def@) == Err::<Seq<char>, ShapeError>(e));
                }
                Err(DeriveError::Shape(e))
            },
        },
        None => Err(DeriveError::Unparsable),
    }
}

} // verus!
