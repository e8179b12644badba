//! The calls into `syn` that read Rust tokens: the attribute's argument and the
//! annotated function. How `proc_macro2` splits text into tokens, and how it
//! prints them, depends on whether it runs inside the compiler, so of these
//! calls only what holds in every setting is stated.
use vstd::prelude::*;
use quote::ToTokens;
use crate::function::{Attr, FnItem};

verus! {

#[verifier::external_type_specification]
#[verifier::external_body]
pub struct ExSynError(syn::Error);

/// Relies on syn's `Punctuated::<LitStr, Token![,]>::parse_terminated`, run on
/// the whole of `src` by `Parser::parse_str`, and on `LitStr::value` for each
/// literal's value. On empty input the loop of `parse_terminated` stops at once
/// and yields no literal.
#[verifier::external_body]
pub(crate) fn string_literals(src: &str) -> (r: Result<Vec<String>, syn::Error>)
    ensures
        src@.len() == 0 ==> (r is Ok && r->Ok_0@.len() == 0),
{
    let parser = syn::punctuated::Punctuated::<syn::LitStr, syn::token::Comma>::parse_terminated;
    let lits = syn::parse::Parser::parse_str(parser, src)?;
    Ok(lits.iter().map(|l| l.value()).collect())
}

/// Relies on `syn::parse_str::<syn::ItemFn>` to parse the whole of `src` as a
/// function item, and on quote's `ToTokens` for the text of its parts.
#[verifier::external_body]
pub(crate) fn parse_fn_item(src: &str) -> (r: Result<FnItem, syn::Error>) {
    let f = syn::parse_str::<syn::ItemFn>(src)?;
    let attr = |a: &syn::Attribute| Attr {
        inner: matches!(a.style, syn::AttrStyle::Inner(_)),
        text: a.to_token_stream().to_string(),
    };
    Ok(FnItem {
        attrs: f.attrs.iter().map(attr).collect(),
        vis: f.vis.to_token_stream().to_string(),
        sig: f.sig.to_token_stream().to_string(),
        name: f.sig.ident.to_string(),
        is_async: f.sig.asyncness.is_some(),
        block: f.block.to_token_stream().to_string(),
    })
}

} // verus!
