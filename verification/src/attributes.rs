//! The directive mini-language attached to the template and its fields.
//!
//! `extract` partitions an annotation list into reserved `boilermates`
//! directives and foreign annotations: the foreign ones stay behind in their
//! original order, each reserved one must parse as a known directive, and the
//! first failure aborts the whole extraction.

use vstd::prelude::*;

use crate::lemma_take_step;
use crate::str_is;
use crate::syntax::args_of;
use crate::syntax::attr_shape;
use crate::syntax::expr_name_arg;
use crate::syntax::name_arg_of;
use crate::syntax::parse_annotation_text;
use crate::syntax::parse_args;
use crate::syntax::shape_of;
use crate::syntax::text_is_annotation;
use crate::syntax::AttrShape;
use crate::syntax::NameArg;

verus! {

/// Why an extraction failed.  Every failure aborts the whole synthesis.
#[derive(Debug, Clone, PartialEq, Eq)]
pub enum Error {
    /// A reserved annotation whose inner form is no known directive: the
    /// offending form rendered back to text.
    UnknownDirective(String),
    /// A reserved annotation whose payload does not parse as annotation
    /// syntax: the syntax parser's message.
    Malformed(String),
    /// `attr_for` needs exactly a target entity and an annotation text: the
    /// offending call rendered back to text.
    AttrForArgs(String),
    /// The second argument of `attr_for` does not re-parse as an annotation.
    BadAnnotationText,
    /// A membership directive argument that is neither an identifier nor a
    /// string literal: the offending argument rendered back to text.
    ExpectedName(String),
    /// A directive named an entity that the family never declared.
    UnknownEntity(String),
}

impl Error {
    /// The user-visible message, naming the offending text where there is one.
    pub open spec fn spec_message(&self) -> Seq<char> {
        match self {
            Error::UnknownDirective(t) => "unknown boilermates attribute: `"@ + t@ + "`"@,
            Error::Malformed(t) => "can't parse boilermates attribute: "@ + t@,
            Error::AttrForArgs(t) =>
                "`attr_for` must have two arguments, a target entity and an annotation text: `"@
                    + t@ + "`"@,
            Error::BadAnnotationText => "can't parse attr"@,
            Error::ExpectedName(t) => "expected an identifier or string literal, found `"@ + t@
                + "`"@,
            Error::UnknownEntity(t) => "unknown entity: `"@ + t@ + "`"@,
        }
    }

    pub fn message(&self) -> (r: String)
        ensures
            r@ == self.spec_message(),
    {
        match self {
            Error::UnknownDirective(t) => String::from_str(
                "unknown boilermates attribute: `",
            ).concat(t.as_str()).concat("`"),
            Error::Malformed(t) => String::from_str("can't parse boilermates attribute: ").concat(
                t.as_str(),
            ),
            Error::AttrForArgs(t) => String::from_str(
                "`attr_for` must have two arguments, a target entity and an annotation text: `",
            ).concat(t.as_str()).concat("`"),
            Error::BadAnnotationText => String::from_str("can't parse attr"),
            Error::ExpectedName(t) => String::from_str(
                "expected an identifier or string literal, found `",
            ).concat(t.as_str()).concat("`"),
            Error::UnknownEntity(t) => String::from_str("unknown entity: `").concat(
                t.as_str(),
            ).concat("`"),
        }
    }
}

/// An extra declaration-level annotation for one named derived entity.
#[derive(Clone)]
pub struct BoilermatesAttrFor {
    pub target_struct: String,
    pub attribute: syn::Attribute,
}

/// A directive attached to the template itself.
#[derive(Clone)]
pub enum BoilermatesStructAttribute {
    AttrFor(BoilermatesAttrFor),
}

/// The entity names of an `only_in` directive, in source order.
#[derive(Debug, Clone, PartialEq, Eq)]
pub struct BoilermatesOnlyIn(pub Vec<String>);

/// The entity names of a `not_in` directive, in source order.
#[derive(Debug, Clone, PartialEq, Eq)]
pub struct BoilermatesNotIn(pub Vec<String>);

/// A directive attached to one template field.  Several may apply to one
/// field; they are applied in source order.
#[derive(Debug, Clone, PartialEq, Eq)]
pub enum BoilermatesFieldAttribute {
    /// Membership becomes exactly these entities.
    OnlyIn(BoilermatesOnlyIn),
    /// These entities are removed from the current membership.
    NotIn(BoilermatesNotIn),
    /// The field has a default value; membership is untouched.
    Default,
    /// Membership becomes exactly the template entity itself.
    OnlyInSelf,
}

/// The annotations an extraction leaves behind: the foreign ones, in order.
pub open spec fn strip_reserved(s: Seq<syn::Attribute>) -> Seq<syn::Attribute>
    decreases s.len(),
{
    if s.len() == 0 {
        Seq::empty()
    } else {
        let rest = strip_reserved(s.drop_last());
        if shape_of(s.last()) is None {
            rest.push(s.last())
        } else {
            rest
        }
    }
}

/// The shapes of the reserved annotations, in order.
pub open spec fn reserved_shapes(s: Seq<syn::Attribute>) -> Seq<AttrShape>
    decreases s.len(),
{
    if s.len() == 0 {
        Seq::empty()
    } else {
        let rest = reserved_shapes(s.drop_last());
        match shape_of(s.last()) {
            Some(sh) => rest.push(sh),
            None => rest,
        }
    }
}

/// What the arguments of a directive call read as, or why they do not parse.
pub open spec fn spec_call_args(t: proc_macro2::TokenStream) -> Result<Seq<NameArg>, Error> {
    match args_of(t) {
        Err(m) => Err(Error::Malformed(m)),
        Ok(es) => Ok(es@.map_values(|e: syn::Expr| name_arg_of(e))),
    }
}

/// An argument read as an entity name.
pub open spec fn spec_name_item(a: NameArg) -> Result<String, Error> {
    match a {
        NameArg::Ident(s) => Ok(s),
        NameArg::Str(s) => Ok(s),
        NameArg::Other(t) => Err(Error::ExpectedName(t)),
    }
}

/// An argument list read as entity names, stopping at the first failure.
pub open spec fn spec_name_list(args: Seq<NameArg>) -> Result<Seq<String>, Error>
    decreases args.len(),
{
    if args.len() == 0 {
        Ok(Seq::empty())
    } else {
        match spec_name_list(args.drop_last()) {
            Err(e) => Err(e),
            Ok(rest) => match spec_name_item(args.last()) {
                Ok(s) => Ok(rest.push(s)),
                Err(e) => Err(e),
            },
        }
    }
}

/// The entity-name list of a membership directive call.
pub open spec fn spec_call_names(t: proc_macro2::TokenStream) -> Result<Seq<String>, Error> {
    match spec_call_args(t) {
        Err(e) => Err(e),
        Ok(args) => spec_name_list(args),
    }
}

/// The text an argument names, for the success case of `attr_for`.
pub open spec fn spec_name_of_arg(a: NameArg) -> Seq<char> {
    match a {
        NameArg::Ident(s) => s@,
        NameArg::Str(s) => s@,
        NameArg::Other(t) => t@,
    }
}

/// Why an `attr_for` argument list is rejected, `None` if it is accepted;
/// `rendered` is the whole call rendered back to text, for the message.
pub open spec fn spec_attr_for_error(args: Seq<NameArg>, rendered: String) -> Option<Error> {
    if args.len() != 2 {
        Some(Error::AttrForArgs(rendered))
    } else if !(args[0] is Ident || args[0] is Str) {
        Some(Error::AttrForArgs(rendered))
    } else {
        match args[1] {
            NameArg::Str(text) => if text_is_annotation(text@) {
                None
            } else {
                Some(Error::BadAnnotationText)
            },
            _ => Some(Error::AttrForArgs(rendered)),
        }
    }
}

/// Why a reserved annotation is rejected at struct level, `None` if it parses.
pub open spec fn spec_struct_error(sh: AttrShape) -> Option<Error> {
    match sh {
        AttrShape::NotCall(t) => Some(Error::UnknownDirective(t)),
        AttrShape::Unparsable(m) => Some(Error::Malformed(m)),
        AttrShape::Word(w) => Some(Error::UnknownDirective(w)),
        AttrShape::OtherMeta(t) => Some(Error::UnknownDirective(t)),
        AttrShape::Call(name, tokens, rendered) => if name@ == "attr_for"@ {
            match spec_call_args(tokens) {
                Err(e) => Some(e),
                Ok(args) => spec_attr_for_error(args, rendered),
            }
        } else {
            Some(Error::UnknownDirective(rendered))
        },
    }
}

/// Whether a parsed struct directive is the one its annotation shape asks
/// for: the first argument names the target entity, and the attached
/// annotation is exactly what the second argument's text re-parses to.
pub open spec fn struct_directive_matches(d: BoilermatesStructAttribute, sh: AttrShape) -> bool {
    match sh {
        AttrShape::Call(name, tokens, rendered) => name@ == "attr_for"@ && match spec_call_args(
            tokens,
        ) {
            Ok(args) => args.len() == 2 && args[1] is Str && d->AttrFor_0.target_struct@
                == spec_name_of_arg(args[0]) && d->AttrFor_0.attribute == crate::syntax::annotation_of(
                args[1]->Str_0@,
            ),
            Err(_) => false,
        },
        _ => false,
    }
}

/// Why a reserved annotation is rejected at field level, `None` if it parses.
pub open spec fn spec_field_error(sh: AttrShape) -> Option<Error> {
    match sh {
        AttrShape::NotCall(t) => Some(Error::UnknownDirective(t)),
        AttrShape::Unparsable(m) => Some(Error::Malformed(m)),
        AttrShape::Word(w) => if w@ == "default"@ || w@ == "only_in_self"@ {
            None
        } else {
            Some(Error::UnknownDirective(w))
        },
        AttrShape::OtherMeta(t) => Some(Error::UnknownDirective(t)),
        AttrShape::Call(name, tokens, rendered) => if name@ == "only_in"@ || name@ == "not_in"@ {
            match spec_call_names(tokens) {
                Ok(_) => None,
                Err(e) => Some(e),
            }
        } else {
            Some(Error::UnknownDirective(rendered))
        },
    }
}

/// Whether a parsed field directive is the one its annotation shape asks for.
pub open spec fn field_directive_matches(d: BoilermatesFieldAttribute, sh: AttrShape) -> bool {
    match sh {
        AttrShape::Word(w) => (w@ == "default"@ && d is Default) || (w@ == "only_in_self"@
            && d is OnlyInSelf),
        AttrShape::Call(name, tokens, rendered) => (name@ == "only_in"@ && d is OnlyIn
            && spec_call_names(tokens) == Ok::<Seq<String>, Error>(d->OnlyIn_0.0@)) || (name@
            == "not_in"@ && d is NotIn && spec_call_names(tokens) == Ok::<Seq<String>, Error>(
            d->NotIn_0.0@,
        )),
        _ => false,
    }
}

/// A failed prefix keeps failing however the list goes on.
proof fn lemma_name_list_err(args: Seq<NameArg>, i: int)
    requires
        0 <= i <= args.len(),
        spec_name_list(args.take(i)) is Err,
    ensures
        spec_name_list(args) == spec_name_list(args.take(i)),
    decreases args.len() - i,
{
    if i < args.len() {
        lemma_take_step(args, i);
        assert(spec_name_list(args.take(i + 1)) == spec_name_list(args.take(i)));
        lemma_name_list_err(args, i + 1);
    } else {
        assert(args.take(i) =~= args);
    }
}

/// Splits an annotation list: the foreign annotations stay, in order, and the
/// shapes of the reserved ones come back, in order.
fn partition_shapes(attributes: &mut Vec<syn::Attribute>) -> (r: Vec<AttrShape>)
    ensures
        final(attributes)@ == strip_reserved(old(attributes)@),
        r@ == reserved_shapes(old(attributes)@),
{
    let ghost all = attributes@;
    let mut kept: Vec<syn::Attribute> = Vec::new();
    let mut shapes: Vec<AttrShape> = Vec::new();
    let mut i: usize = 0;
    while i < attributes.len()
        invariant
            attributes@ == all,
            0 <= i <= all.len(),
            kept@ == strip_reserved(all.take(i as int)),
            shapes@ == reserved_shapes(all.take(i as int)),
        decreases attributes.len() - i,
    {
        proof {
            lemma_take_step(all, i as int);
        }
        match attr_shape(&attributes[i]) {
            None => kept.push(attributes[i].clone()),
            Some(sh) => shapes.push(sh),
        }
        i += 1;
    }
    proof {
        assert(all.take(all.len() as int) =~= all);
    }
    *attributes = kept;
    shapes
}

/// Reads the arguments of one directive call.
fn args_from_tokens(tokens: &proc_macro2::TokenStream) -> (r: Result<Vec<NameArg>, Error>)
    ensures
        match r {
            Ok(v) => spec_call_args(*tokens) == Ok::<Seq<NameArg>, Error>(v@),
            Err(e) => spec_call_args(*tokens) == Err::<Seq<NameArg>, Error>(e),
        },
{
    match parse_args(tokens) {
        Err(m) => Err(Error::Malformed(m)),
        Ok(es) => {
            let ghost mapped = es@.map_values(|e: syn::Expr| name_arg_of(e));
            let mut out: Vec<NameArg> = Vec::new();
            let mut i: usize = 0;
            while i < es.len()
                invariant
                    0 <= i <= es.len(),
                    mapped == es@.map_values(|e: syn::Expr| name_arg_of(e)),
                    out@ == mapped.take(i as int),
                decreases es.len() - i,
            {
                out.push(expr_name_arg(&es[i]));
                proof {
                    assert(out@ =~= mapped.take(i + 1 as int));
                }
                i += 1;
            }
            proof {
                assert(mapped.take(es@.len() as int) =~= mapped);
            }
            Ok(out)
        },
    }
}

/// Reads the entity-name list of a membership directive call.
fn names_from_tokens(tokens: &proc_macro2::TokenStream) -> (r: Result<Vec<String>, Error>)
    ensures
        match r {
            Ok(v) => spec_call_names(*tokens) == Ok::<Seq<String>, Error>(v@),
            Err(e) => spec_call_names(*tokens) == Err::<Seq<String>, Error>(e),
        },
{
    let args = match args_from_tokens(tokens) {
        Ok(args) => args,
        Err(e) => {
            return Err(e);
        },
    };
    let mut out: Vec<String> = Vec::new();
    let mut i: usize = 0;
    while i < args.len()
        invariant
            0 <= i <= args.len(),
            spec_call_args(*tokens) == Ok::<Seq<NameArg>, Error>(args@),
            spec_name_list(args@.take(i as int)) == Ok::<Seq<String>, Error>(out@),
        decreases args.len() - i,
    {
        proof {
            lemma_take_step(args@, i as int);
        }
        match &args[i] {
            NameArg::Ident(s) => out.push(s.clone()),
            NameArg::Str(s) => out.push(s.clone()),
            NameArg::Other(t) => {
                let e = Error::ExpectedName(t.clone());
                proof {
                    lemma_name_list_err(args@, i + 1);
                }
                return Err(e);
            },
        }
        i += 1;
    }
    proof {
        assert(args@.take(args@.len() as int) =~= args@);
    }
    Ok(out)
}

/// Parses one reserved annotation shape as a struct-level directive.
fn parse_struct_shape(sh: AttrShape) -> (r: Result<BoilermatesStructAttribute, Error>)
    ensures
        match r {
            Ok(d) => spec_struct_error(sh) is None && struct_directive_matches(d, sh),
            Err(e) => spec_struct_error(sh) == Some(e),
        },
{
    match sh {
        AttrShape::NotCall(t) => Err(Error::UnknownDirective(t)),
        AttrShape::Unparsable(m) => Err(Error::Malformed(m)),
        AttrShape::Word(w) => Err(Error::UnknownDirective(w)),
        AttrShape::OtherMeta(t) => Err(Error::UnknownDirective(t)),
        AttrShape::Call(name, tokens, rendered) => {
            if !str_is(&name, "attr_for") {
                return Err(Error::UnknownDirective(rendered));
            }
            let args = match args_from_tokens(&tokens) {
                Ok(args) => args,
                Err(e) => {
                    return Err(e);
                },
            };
            if args.len() != 2 {
                return Err(Error::AttrForArgs(rendered));
            }
            let target = match &args[0] {
                NameArg::Ident(s) => s.clone(),
                NameArg::Str(s) => s.clone(),
                NameArg::Other(_) => {
                    return Err(Error::AttrForArgs(rendered));
                },
            };
            let text = match &args[1] {
                NameArg::Str(s) => s,
                NameArg::Ident(_) => {
                    return Err(Error::AttrForArgs(rendered));
                },
                NameArg::Other(_) => {
                    return Err(Error::AttrForArgs(rendered));
                },
            };
            match parse_annotation_text(text.as_str()) {
                Some(attribute) => Ok(
                    BoilermatesStructAttribute::AttrFor(
                        BoilermatesAttrFor { target_struct: target, attribute },
                    ),
                ),
                None => Err(Error::BadAnnotationText),
            }
        },
    }
}

/// Parses one reserved annotation shape as a field-level directive.
fn parse_field_shape(sh: AttrShape) -> (r: Result<BoilermatesFieldAttribute, Error>)
    ensures
        match r {
            Ok(d) => spec_field_error(sh) is None && field_directive_matches(d, sh),
            Err(e) => spec_field_error(sh) == Some(e),
        },
{
    match sh {
        AttrShape::NotCall(t) => Err(Error::UnknownDirective(t)),
        AttrShape::Unparsable(m) => Err(Error::Malformed(m)),
        AttrShape::OtherMeta(t) => Err(Error::UnknownDirective(t)),
        AttrShape::Word(w) => {
            if str_is(&w, "default") {
                Ok(BoilermatesFieldAttribute::Default)
            } else if str_is(&w, "only_in_self") {
                Ok(BoilermatesFieldAttribute::OnlyInSelf)
            } else {
                Err(Error::UnknownDirective(w))
            }
        },
        AttrShape::Call(name, tokens, rendered) => {
            if str_is(&name, "only_in") {
                match names_from_tokens(&tokens) {
                    Ok(names) => Ok(
                        BoilermatesFieldAttribute::OnlyIn(BoilermatesOnlyIn(names)),
                    ),
                    Err(e) => Err(e),
                }
            } else if str_is(&name, "not_in") {
                match names_from_tokens(&tokens) {
                    Ok(names) => Ok(BoilermatesFieldAttribute::NotIn(BoilermatesNotIn(names))),
                    Err(e) => Err(e),
                }
            } else {
                Err(Error::UnknownDirective(rendered))
            }
        },
    }
}

impl BoilermatesStructAttribute {
    /// Extracts every reserved annotation from a struct-level annotation
    /// list, leaving the foreign annotations in their original order.  The
    /// first reserved annotation that is no known struct directive fails the
    /// whole extraction; the list is stripped either way.
    pub fn extract(attributes: &mut Vec<syn::Attribute>) -> (r: Result<
        Vec<BoilermatesStructAttribute>,
        Error,
    >)
        ensures
            final(attributes)@ == strip_reserved(old(attributes)@),
            ({
                let shs = reserved_shapes(old(attributes)@);
                match r {
                    Ok(v) => v@.len() == shs.len() && (forall|i: int|
                        0 <= i < shs.len() ==> #[trigger] spec_struct_error(shs[i]) is None) && (forall|
                        i: int,
                    |
                        0 <= i < shs.len() ==> #[trigger] struct_directive_matches(v@[i], shs[i])),
                    Err(e) => exists|i: int|
                        0 <= i < shs.len() && #[trigger] spec_struct_error(shs[i]) == Some(e)
                            && forall|j: int| 0 <= j < i ==> spec_struct_error(shs[j]) is None,
                }
            }),
    {
        let mut shapes = partition_shapes(attributes);
        let ghost all = shapes@;
        proof {
            assert(all.skip(0) =~= all);
            assert(all.len() == shapes.len());
        }
        let mut out: Vec<BoilermatesStructAttribute> = Vec::new();
        let mut i: usize = 0;
        while shapes.len() > 0
            invariant
                attributes@ == strip_reserved(old(attributes)@),
                all == reserved_shapes(old(attributes)@),
                all.len() <= usize::MAX,
                i + shapes.len() == all.len(),
                shapes@ == all.skip(i as int),
                out@.len() == i,
                forall|j: int| 0 <= j < i ==> #[trigger] spec_struct_error(all[j]) is None,
                forall|j: int|
                    0 <= j < i ==> #[trigger] struct_directive_matches(out@[j], all[j]),
            decreases shapes.len(),
        {
            let sh = shapes.remove(0);
            proof {
                assert(shapes@ =~= all.skip(i as int + 1));
                assert(sh == all[i as int]);
            }
            match parse_struct_shape(sh) {
                Ok(d) => out.push(d),
                Err(e) => {
                    proof {
                        assert(spec_struct_error(all[i as int]) == Some(e));
                    }
                    return Err(e);
                },
            }
            i += 1;
        }
        Ok(out)
    }
}

impl BoilermatesFieldAttribute {
    /// Extracts every reserved annotation from a field's annotation list,
    /// leaving the foreign annotations in their original order.  The first
    /// reserved annotation that is no known field directive fails the whole
    /// extraction; the list is stripped either way.
    pub fn extract(attributes: &mut Vec<syn::Attribute>) -> (r: Result<
        Vec<BoilermatesFieldAttribute>,
        Error,
    >)
        ensures
            final(attributes)@ == strip_reserved(old(attributes)@),
            ({
                let shs = reserved_shapes(old(attributes)@);
                match r {
                    Ok(v) => v@.len() == shs.len() && (forall|i: int|
                        0 <= i < shs.len() ==> #[trigger] spec_field_error(shs[i]) is None) && (forall|
                        i: int,
                    |
                        0 <= i < shs.len() ==> #[trigger] field_directive_matches(v@[i], shs[i])),
                    Err(e) => exists|i: int|
                        0 <= i < shs.len() && #[trigger] spec_field_error(shs[i]) == Some(e)
                            && forall|j: int| 0 <= j < i ==> spec_field_error(shs[j]) is None,
                }
            }),
    {
        let mut shapes = partition_shapes(attributes);
        let ghost all = shapes@;
        proof {
            assert(all.skip(0) =~= all);
            assert(all.len() == shapes.len());
        }
        let mut out: Vec<BoilermatesFieldAttribute> = Vec::new();
        let mut i: usize = 0;
        while shapes.len() > 0
            invariant
                attributes@ == strip_reserved(old(attributes)@),
                all == reserved_shapes(old(attributes)@),
                all.len() <= usize::MAX,
                i + shapes.len() == all.len(),
                shapes@ == all.skip(i as int),
                out@.len() == i,
                forall|j: int| 0 <= j < i ==> #[trigger] spec_field_error(all[j]) is None,
                forall|j: int|
                    0 <= j < i ==> #[trigger] field_directive_matches(out@[j], all[j]),
            decreases shapes.len(),
        {
            let sh = shapes.remove(0);
            proof {
                assert(shapes@ =~= all.skip(i as int + 1));
                assert(sh == all[i as int]);
            }
            match parse_field_shape(sh) {
                Ok(d) => out.push(d),
                Err(e) => {
                    proof {
                        assert(spec_field_error(all[i as int]) == Some(e));
                    }
                    return Err(e);
                },
            }
            i += 1;
        }
        Ok(out)
    }
}

} // verus!
