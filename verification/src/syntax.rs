//! The boundary to `syn`, which reads Rust syntax for this library.
//!
//! Nothing in this file is proved: each contract says what a call into `syn`
//! is taken to do. `syn` and the token library under it are built without
//! their `proc-macro` feature, so what they make of a text does not depend on
//! a compiler being present.

use crate::declaration::{DeclarationView, Shape, VariantView};
use quote::ToTokens;
use vstd::prelude::*;

verus! {

/// `syn::DataEnum`, the body of an enum declaration as `syn` holds it. What
/// this library reads of one is named by [`enum_variants`].
#[verifier::external_type_specification]
#[verifier::external_body]
pub struct ExDataEnum(syn::DataEnum);

/// What `syn::parse_str::<syn::Path>` makes of `text`: `None` where it
/// returns an error, else the tokens of the path it returns, printed.
pub uninterp spec fn path_syntax(text: Seq<char>) -> Option<Seq<char>>;

/// What `syn::parse_str::<syn::DeriveInput>` makes of `text`: `None` where it
/// returns an error, else the declaration it returns. The name is the
/// `ident` of that declaration, printed. The variants are those of the body
/// where its `data` is `Data::Enum`, as [`enum_variants`] names them, and
/// `None` where it is `Data::Struct` or `Data::Union`.
pub uninterp spec fn item_syntax(text: Seq<char>) -> Option<DeclarationView>;

/// The variants that `body.variants` holds, in order. The name of each is its
/// `ident`, printed; its shape is `Bare` for `Fields::Unit`, `Positional` for
/// `Fields::Unnamed` and `Named` for `Fields::Named`.
pub uninterp spec fn enum_variants(body: syn::DataEnum) -> Seq<VariantView>;

/// The variants of a declaration of which [`parse_item`] hands out `body`.
pub open spec fn body_variants(body: Option<syn::DataEnum>) -> Option<Seq<VariantView>> {
    match body {
        Some(body) => Some(enum_variants(body)),
        None => None,
    }
}

/// Calls `syn::parse_str::<syn::Path>` on `text`, and prints the path it
/// returns with `ToTokens::to_token_stream` and `to_string`.
///
/// Taken on trust: the outcome is a function of the characters of `text`.
#[verifier::external_body]
pub(crate) fn parse_path(text: &str) -> (printed: Option<String>)
    ensures
        printed is None <==> path_syntax(text@) is None,
        printed matches Some(path) ==> path_syntax(text@) == Some(path@),
{
    match syn::parse_str::<syn::Path>(text) {
        Ok(path) => Some(path.to_token_stream().to_string()),
        Err(_) => None,
    }
}

/// Calls `syn::parse_str::<syn::DeriveInput>` on `text`. Of the declaration
/// it returns, hands out the `ident`, printed with `to_string`, and the body
/// where `data` is `Data::Enum`.
///
/// Taken on trust: the outcome is a function of the characters of `text`.
#[verifier::external_body]
pub(crate) fn parse_item(text: &str) -> (parsed: Option<(String, Option<syn::DataEnum>)>)
    ensures
        parsed is None <==> item_syntax(text@) is None,
        parsed matches Some((name, body)) ==> item_syntax(text@) == Some(
            DeclarationView { name: name@, variants: body_variants(body) },
        ),
{
    match syn::parse_str::<syn::DeriveInput>(text) {
        Ok(item) => {
            let body = match item.data {
                syn::Data::Enum(body) => Some(body),
                syn::Data::Struct(_) => None,
                syn::Data::Union(_) => None,
            };
            Some((item.ident.to_string(), body))
        },
        Err(_) => None,
    }
}

/// Calls `Punctuated::len` on `body.variants`.
///
/// Taken on trust: it returns the number of variants.
#[verifier::external_body]
pub(crate) fn variant_count(body: &syn::DataEnum) -> (count: usize)
    ensures
        count == enum_variants(*body).len(),
{
    body.variants.len()
}

/// Indexes `body.variants`, which panics past the last variant, and prints
/// the `ident` of the variant found with `to_string`.
///
/// Taken on trust: the variant found is the one at `index` in declared order.
#[verifier::external_body]
pub(crate) fn variant_name(body: &syn::DataEnum, index: usize) -> (name: String)
    requires
        index < enum_variants(*body).len(),
    ensures
        name@ == enum_variants(*body)[index as int].name,
{
    body.variants[index].ident.to_string()
}

/// Indexes `body.variants`, which panics past the last variant, and tells
/// the `fields` of the variant found apart.
///
/// Taken on trust: the variant found is the one at `index` in declared order.
#[verifier::external_body]
pub(crate) fn variant_shape(body: &syn::DataEnum, index: usize) -> (shape: Shape)
    requires
        index < enum_variants(*body).len(),
    ensures
        shape == enum_variants(*body)[index as int].shape,
{
    match body.variants[index].fields {
        syn::Fields::Unit => Shape::Bare,
        syn::Fields::Unnamed(_) => Shape::Positional,
        syn::Fields::Named(_) => Shape::Named,
    }
}

} // verus!
