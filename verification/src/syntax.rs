//! The trusted boundary around the host's syntax crates.
//!
//! The directive mini-language arrives as `syn` annotation trees.  Everything
//! the resolution logic reads out of those trees crosses this boundary once,
//! through a small wrapper whose result is either stated exactly or given a
//! name, and the rest of the crate is verified against those contracts.

use vstd::prelude::*;
use syn::parse::Parser;

verus! {

#[verifier::external_type_specification]
#[verifier::external_body]
pub struct ExAttribute(syn::Attribute);

#[verifier::external_type_specification]
#[verifier::external_body]
pub struct ExField(syn::Field);

#[verifier::external_type_specification]
#[verifier::external_body]
pub struct ExExpr(syn::Expr);

#[verifier::external_type_specification]
#[verifier::external_body]
pub struct ExMetaList(syn::MetaList);

#[verifier::external_type_specification]
#[verifier::external_body]
pub struct ExTokenStream(proc_macro2::TokenStream);

pub assume_specification[ <syn::Attribute as Clone>::clone ](a: &syn::Attribute) -> (r: syn::Attribute)
    ensures
        r == *a,
;

pub assume_specification[ <syn::Field as Clone>::clone ](f: &syn::Field) -> (r: syn::Field)
    ensures
        r == *f,
;

/// The form of one annotation in the reserved `boilermates` namespace, as the
/// host's syntax tree presents it.  An annotation outside the namespace has no
/// shape here; `attr_shape` answers `None` for it.
pub enum AttrShape {
    /// The reserved annotation is not in call form (`#[boilermates]`,
    /// `#[boilermates = ...]`): the annotation rendered back to text.
    NotCall(String),
    /// The tokens between the parentheses do not parse as one annotation
    /// form: the syntax parser's message.
    Unparsable(String),
    /// `boilermates(<ident>)`: the bare identifier.
    Word(String),
    /// `boilermates(<ident>(...))`: the identifier, the raw argument tokens,
    /// and the inner form rendered back to text.
    Call(String, proc_macro2::TokenStream, String),
    /// Any other inner form: rendered back to text.
    OtherMeta(String),
}

/// One argument of a directive call.
pub enum NameArg {
    /// A bare identifier, by its text.
    Ident(String),
    /// A string literal, by its value.
    Str(String),
    /// Anything else, rendered back to text.
    Other(String),
}

/// An annotation as it stands in the tree, before any namespace decision:
/// its path where that is one bare identifier, and its call form.
pub enum AttrForm {
    /// The annotation's path is not one bare identifier (`a::b`, `::a`):
    /// never a reserved annotation.
    PathNotIdent,
    /// `#[ident]` or `#[ident = ...]`: the identifier and the annotation
    /// rendered back to text.
    NotCall(String, String),
    /// `#[ident(...)]`: the identifier and the call form, still to be read.
    Call(String, syn::MetaList),
}

/// The path identifier and call form an annotation presents.
pub uninterp spec fn form_of(a: syn::Attribute) -> AttrForm;

/// The directive shape inside a reserved annotation's call form.
pub uninterp spec fn inner_shape_of(l: syn::MetaList) -> AttrShape;

/// The shape an annotation presents, `None` outside the reserved namespace:
/// an annotation is reserved exactly when its path is the bare identifier
/// `boilermates`.
pub open spec fn shape_of(a: syn::Attribute) -> Option<AttrShape> {
    match form_of(a) {
        AttrForm::PathNotIdent => None,
        AttrForm::NotCall(id, t) => if id@ == "boilermates"@ {
            Some(AttrShape::NotCall(t))
        } else {
            None
        },
        AttrForm::Call(id, l) => if id@ == "boilermates"@ {
            Some(inner_shape_of(l))
        } else {
            None
        },
    }
}

/// What the raw argument tokens of a directive call split into.
pub uninterp spec fn args_of(t: proc_macro2::TokenStream) -> Result<Vec<syn::Expr>, String>;

/// How one parsed argument expression reads as a directive name argument.
pub uninterp spec fn name_arg_of(e: syn::Expr) -> NameArg;

/// What a comma-separated identifier list parses to.
pub uninterp spec fn ident_list_of(t: proc_macro2::TokenStream) -> Result<Vec<String>, String>;

/// Whether a text re-parses as one annotation form.
pub uninterp spec fn text_is_annotation(s: Seq<char>) -> bool;

/// The annotation a text re-parses to, where it re-parses at all.
pub uninterp spec fn annotation_of(s: Seq<char>) -> syn::Attribute;

/// The PascalCase rendering of an identifier's text.
pub uninterp spec fn pascal_of(s: Seq<char>) -> Seq<char>;

/// The identifier text of a field, `None` for a tuple field.
pub uninterp spec fn field_name_of(f: syn::Field) -> Option<Seq<char>>;

/// The annotations attached to a field, in source order.
pub uninterp spec fn field_attrs_of(f: syn::Field) -> Seq<syn::Attribute>;

/// The field with its annotation list replaced and everything else kept.
pub uninterp spec fn with_attrs_of(f: syn::Field, attrs: Seq<syn::Attribute>) -> syn::Field;

/// Relies on syn's `Attribute::path` and `Path::get_ident`, and on quote's
/// `ToTokens` rendering: reads the annotation's path identifier and call
/// form.  Which identifier is reserved is decided by verified code.
#[verifier::external_body]
fn attr_form(a: &syn::Attribute) -> (r: AttrForm)
    ensures
        r == form_of(*a),
{
    let id = match a.path().get_ident() {
        Some(i) => i.to_string(),
        None => return AttrForm::PathNotIdent,
    };
    match &a.meta {
        syn::Meta::List(l) => AttrForm::Call(id, l.clone()),
        _ => AttrForm::NotCall(id, quote::ToTokens::to_token_stream(a).to_string()),
    }
}

/// Relies on syn's `MetaList::parse_args` and `Path::get_ident`, and on
/// quote's `ToTokens` rendering: reads which directive form stands between a
/// reserved annotation's parentheses.
#[verifier::external_body]
fn list_shape(l: &syn::MetaList) -> (r: AttrShape)
    ensures
        r == inner_shape_of(*l),
{
    match l.parse_args::<syn::Meta>() {
        Err(e) => AttrShape::Unparsable(e.to_string()),
        Ok(syn::Meta::Path(p)) if p.get_ident().is_some() =>
            AttrShape::Word(p.get_ident().unwrap().to_string()),
        Ok(syn::Meta::List(c)) if c.path.get_ident().is_some() => AttrShape::Call(
            c.path.get_ident().unwrap().to_string(),
            c.tokens.clone(),
            quote::ToTokens::to_token_stream(&c).to_string(),
        ),
        Ok(m) => AttrShape::OtherMeta(quote::ToTokens::to_token_stream(&m).to_string()),
    }
}

/// The shape an annotation presents: `None` for a foreign annotation, the
/// parsed directive form for one in the reserved `boilermates` namespace.
pub fn attr_shape(a: &syn::Attribute) -> (r: Option<AttrShape>)
    ensures
        r == shape_of(*a),
{
    match attr_form(a) {
        AttrForm::PathNotIdent => None,
        AttrForm::NotCall(id, t) => if crate::str_is(&id, "boilermates") {
            Some(AttrShape::NotCall(t))
        } else {
            None
        },
        AttrForm::Call(id, l) => if crate::str_is(&id, "boilermates") {
            Some(list_shape(&l))
        } else {
            None
        },
    }
}

/// Relies on syn's `Punctuated::<Expr, Comma>::parse_terminated`: splits the
/// raw argument tokens of a directive call into a comma-separated expression
/// list, or reports the parser's message.
#[verifier::external_body]
pub fn parse_args(t: &proc_macro2::TokenStream) -> (r: Result<Vec<syn::Expr>, String>)
    ensures
        r == args_of(*t),
{
    let p = syn::punctuated::Punctuated::<syn::Expr, syn::token::Comma>::parse_terminated;
    match p.parse2(t.clone()) {
        Ok(args) => Ok(args.into_iter().collect()),
        Err(e) => Err(e.to_string()),
    }
}

/// Relies on syn's `Expr` tree, `Path::get_ident` and `LitStr::value`, and on
/// quote's `ToTokens` rendering: reads one directive argument as a bare
/// identifier, a string literal, or anything else rendered back to text.
#[verifier::external_body]
pub fn expr_name_arg(e: &syn::Expr) -> (r: NameArg)
    ensures
        r == name_arg_of(*e),
{
    match e {
        syn::Expr::Path(p) if p.qself.is_none() && p.path.get_ident().is_some() =>
            NameArg::Ident(p.path.get_ident().unwrap().to_string()),
        syn::Expr::Lit(l) => match &l.lit {
            syn::Lit::Str(s) => NameArg::Str(s.value()),
            _ => NameArg::Other(quote::ToTokens::to_token_stream(e).to_string()),
        },
        _ => NameArg::Other(quote::ToTokens::to_token_stream(e).to_string()),
    }
}

/// Relies on syn's `Punctuated::<Ident, Comma>::parse_terminated`: reads the
/// comma-separated identifier list that names the derived entities.
#[verifier::external_body]
pub fn parse_ident_list(t: &proc_macro2::TokenStream) -> (r: Result<Vec<String>, String>)
    ensures
        r == ident_list_of(*t),
{
    let p = syn::punctuated::Punctuated::<syn::Ident, syn::token::Comma>::parse_terminated;
    match p.parse2(t.clone()) {
        Ok(ids) => Ok(ids.into_iter().map(|i| i.to_string()).collect()),
        Err(e) => Err(e.to_string()),
    }
}

/// Relies on proc-macro2's token parsing and syn's `parse2::<Meta>`: re-parses
/// the text payload of `attr_for` as one annotation form and wraps it in outer
/// annotation syntax.  Whether it succeeds, and the annotation handed back,
/// depend on the text alone (nothing this crate states observes the source
/// positions attached to the result).
#[verifier::external_body]
pub fn parse_annotation_text(s: &str) -> (r: Option<syn::Attribute>)
    ensures
        (r is Some) == text_is_annotation(s@),
        r is Some ==> r->0 == annotation_of(s@),
{
    let tokens: proc_macro2::TokenStream = match s.parse() {
        Ok(t) => t,
        Err(_) => return None,
    };
    let meta: syn::Meta = match syn::parse2(tokens) {
        Ok(m) => m,
        Err(_) => return None,
    };
    Some(syn::Attribute {
        pound_token: Default::default(),
        style: syn::AttrStyle::Outer,
        bracket_token: Default::default(),
        meta,
    })
}

/// Relies on heck's `ToPascalCase`: the result depends on the characters
/// alone.
#[verifier::external_body]
pub fn pascal_case(s: &str) -> (r: String)
    ensures
        r@ == pascal_of(s@),
{
    heck::ToPascalCase::to_pascal_case(s)
}

/// Relies on syn's `Field`: reads the field's identifier text.
#[verifier::external_body]
pub fn field_name(f: &syn::Field) -> (r: Option<String>)
    ensures
        (r is Some) == (field_name_of(*f) is Some),
        r is Some ==> r->0@ == field_name_of(*f)->0,
{
    f.ident.as_ref().map(|i| i.to_string())
}

/// Relies on syn's `Field` and the derived `Clone`: hands out a copy of the
/// field's annotation list.
#[verifier::external_body]
pub fn field_attrs_vec(f: &syn::Field) -> (r: Vec<syn::Attribute>)
    ensures
        r@ == field_attrs_of(*f),
{
    f.attrs.clone()
}

/// Relies on syn's `Field`: replaces the field's annotation list and changes
/// nothing else, so the result reads back the given annotations and keeps the
/// field's identifier.
#[verifier::external_body]
pub fn field_with_attrs(f: syn::Field, attrs: Vec<syn::Attribute>) -> (r: syn::Field)
    ensures
        r == with_attrs_of(f, attrs@),
        field_attrs_of(r) == attrs@,
        field_name_of(r) == field_name_of(f),
{
    let mut f = f;
    f.attrs = attrs;
    f
}

} // verus!
