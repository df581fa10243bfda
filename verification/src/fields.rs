//! The field model: each template field with its resolved default flag and
//! membership list.
//!
//! Membership starts as the full declared entity set and the field's
//! directives are folded over it in source order: `only_in` and `only_in_self`
//! replace it, `not_in` subtracts from it, `default` only sets the flag.

use vstd::prelude::*;

use crate::attributes::field_directive_matches;
use crate::attributes::reserved_shapes;
use crate::attributes::spec_field_error;
use crate::attributes::strip_reserved;
use crate::attributes::BoilermatesFieldAttribute;
use crate::attributes::Error;
use crate::contains_name;
use crate::lemma_take_step;
use crate::seq_contains_str;
use crate::syntax::field_attrs_of;
use crate::syntax::field_name;
use crate::syntax::field_name_of;
use crate::syntax::field_attrs_vec;
use crate::syntax::field_with_attrs;
use crate::syntax::with_attrs_of;
use crate::syntax::AttrShape;

verus! {

/// One template field: its stripped syntax, its identifier text, its default
/// flag, and the entities it belongs to, in order.
pub struct BoilermatesField {
    /// The field's syntax, with the reserved annotations removed.
    pub definition: syn::Field,
    /// The field's identifier text.
    pub name: String,
    /// Whether the field may be left out of an entity's construction.
    pub default: bool,
    /// The entities that receive this field, in declaration order.
    pub in_structs: Vec<String>,
}

/// A membership list with every banned name removed, order kept.
pub open spec fn spec_remove_names(mem: Seq<String>, banned: Seq<String>) -> Seq<String>
    decreases mem.len(),
{
    if mem.len() == 0 {
        Seq::empty()
    } else {
        let rest = spec_remove_names(mem.drop_last(), banned);
        if seq_contains_str(banned, mem.last()@) {
            rest
        } else {
            rest.push(mem.last())
        }
    }
}

/// One directive applied to the current membership.
pub open spec fn spec_apply_directive(
    mem: Seq<String>,
    main: String,
    d: BoilermatesFieldAttribute,
) -> Seq<String> {
    match d {
        BoilermatesFieldAttribute::OnlyIn(l) => l.0@,
        BoilermatesFieldAttribute::NotIn(l) => spec_remove_names(mem, l.0@),
        BoilermatesFieldAttribute::Default => mem,
        BoilermatesFieldAttribute::OnlyInSelf => seq![main],
    }
}

/// The membership a directive list resolves to: the full entity set folded
/// left to right through every directive.
pub open spec fn spec_membership(
    all: Seq<String>,
    main: String,
    ds: Seq<BoilermatesFieldAttribute>,
) -> Seq<String>
    decreases ds.len(),
{
    if ds.len() == 0 {
        all
    } else {
        spec_apply_directive(spec_membership(all, main, ds.drop_last()), main, ds.last())
    }
}

/// Whether a directive list marks the field as having a default value.
pub open spec fn spec_default(ds: Seq<BoilermatesFieldAttribute>) -> bool {
    exists|i: int| 0 <= i < ds.len() && ds[i] is Default
}

/// The default flag over a one-longer directive prefix.
proof fn lemma_default_step(ds: Seq<BoilermatesFieldAttribute>, i: int)
    requires
        0 <= i < ds.len(),
    ensures
        spec_default(ds.take(i + 1)) == (spec_default(ds.take(i)) || ds[i] is Default),
{
    if spec_default(ds.take(i)) {
        let j = choose|j: int| 0 <= j < i && #[trigger] ds.take(i)[j] is Default;
        assert(ds.take(i + 1)[j] is Default);
    }
    if ds[i] is Default {
        assert(ds.take(i + 1)[i] is Default);
    }
    if spec_default(ds.take(i + 1)) && !(ds[i] is Default) {
        let j = choose|j: int| 0 <= j < i + 1 && #[trigger] ds.take(i + 1)[j] is Default;
        assert(ds.take(i)[j] is Default);
    }
}

/// Removes every banned name from a membership list, keeping the order.
fn remove_names(mem: Vec<String>, banned: &Vec<String>) -> (r: Vec<String>)
    ensures
        r@ == spec_remove_names(mem@, banned@),
{
    let mut out: Vec<String> = Vec::new();
    let mut i: usize = 0;
    while i < mem.len()
        invariant
            0 <= i <= mem.len(),
            out@ == spec_remove_names(mem@.take(i as int), banned@),
        decreases mem.len() - i,
    {
        proof {
            lemma_take_step(mem@, i as int);
        }
        if !contains_name(banned, &mem[i]) {
            out.push(mem[i].clone());
        }
        i += 1;
    }
    proof {
        assert(mem@.take(mem@.len() as int) =~= mem@);
    }
    out
}

/// Folds a field's directives, in source order, over the full entity set.
pub fn resolve_membership(
    all_structs: &Vec<String>,
    main_struct: &String,
    directives: Vec<BoilermatesFieldAttribute>,
) -> (r: (Vec<String>, bool))
    ensures
        r.0@ == spec_membership(all_structs@, *main_struct, directives@),
        r.1 == spec_default(directives@),
{
    let ghost all_ds = directives@;
    proof {
        assert(all_ds.skip(0) =~= all_ds);
        assert(all_ds.take(0) =~= Seq::<BoilermatesFieldAttribute>::empty());
        assert(all_ds.len() == directives.len());
    }
    let mut directives = directives;
    let mut membership = clone_names(all_structs);
    let mut default = false;
    let mut i: usize = 0;
    while directives.len() > 0
        invariant
            all_ds.len() <= usize::MAX,
            i + directives.len() == all_ds.len(),
            directives@ == all_ds.skip(i as int),
            membership@ == spec_membership(all_structs@, *main_struct, all_ds.take(i as int)),
            default == spec_default(all_ds.take(i as int)),
        decreases directives.len(),
    {
        let d = directives.remove(0);
        proof {
            assert(directives@ =~= all_ds.skip(i as int + 1));
            assert(d == all_ds[i as int]);
            lemma_take_step(all_ds, i as int);
            lemma_default_step(all_ds, i as int);
        }
        match d {
            BoilermatesFieldAttribute::OnlyIn(l) => {
                membership = l.0;
            },
            BoilermatesFieldAttribute::NotIn(l) => {
                membership = remove_names(membership, &l.0);
            },
            BoilermatesFieldAttribute::Default => {
                default = true;
            },
            BoilermatesFieldAttribute::OnlyInSelf => {
                let mut only_self: Vec<String> = Vec::new();
                only_self.push(main_struct.clone());
                proof {
                    assert(only_self@ =~= seq![*main_struct]);
                }
                membership = only_self;
            },
        }
        i += 1;
    }
    proof {
        assert(all_ds.take(all_ds.len() as int) =~= all_ds);
    }
    (membership, default)
}

/// A copy of a name list, name for name.
pub fn clone_names(names: &Vec<String>) -> (r: Vec<String>)
    ensures
        r@ == names@,
{
    let mut out: Vec<String> = Vec::new();
    let mut i: usize = 0;
    while i < names.len()
        invariant
            0 <= i <= names.len(),
            out@ == names@.take(i as int),
        decreases names.len() - i,
    {
        out.push(names[i].clone());
        proof {
            assert(out@ =~= names@.take(i as int + 1));
        }
        i += 1;
    }
    proof {
        assert(names@.take(names@.len() as int) =~= names@);
    }
    out
}

/// Whether every reserved annotation among a field's annotations parses as a
/// known field directive.
pub open spec fn field_parses(f: syn::Field) -> bool {
    let shs = reserved_shapes(field_attrs_of(f));
    forall|i: int| 0 <= i < shs.len() ==> #[trigger] spec_field_error(shs[i]) is None
}

/// Whether extraction of a field's directives aborts with exactly this error.
pub open spec fn field_fails_with(f: syn::Field, e: Error) -> bool {
    let shs = reserved_shapes(field_attrs_of(f));
    exists|i: int|
        0 <= i < shs.len() && #[trigger] spec_field_error(shs[i]) == Some(e) && (forall|j: int|
            0 <= j < i ==> spec_field_error(shs[j]) is None)
}

/// Whether resolving a field list aborts with exactly this error: some field
/// fails with it and every field before parses.
pub open spec fn fields_abort_with(fs: Seq<syn::Field>, e: Error) -> bool {
    exists|i: int|
        0 <= i < fs.len() && #[trigger] field_fails_with(fs[i], e) && (forall|j: int|
            0 <= j < i ==> field_parses(fs[j]))
}

/// Whether a directive list is the one a shape list asks for, shape by shape.
pub open spec fn directives_match(
    ds: Seq<BoilermatesFieldAttribute>,
    shs: Seq<AttrShape>,
) -> bool {
    ds.len() == shs.len() && forall|i: int|
        0 <= i < shs.len() ==> #[trigger] field_directive_matches(ds[i], shs[i])
}

/// Whether a resolved field is what the raw field's directives ask for: the
/// reserved annotations stripped from its syntax, the name kept, and the
/// membership and default flag the directive fold yields.
pub open spec fn parsed_field_ok(
    b: BoilermatesField,
    f: syn::Field,
    all: Seq<String>,
    main: String,
) -> bool {
    &&& field_parses(f)
    &&& b.definition == with_attrs_of(f, strip_reserved(field_attrs_of(f)))
    &&& field_name_of(b.definition) == field_name_of(f)
    &&& field_attrs_of(b.definition) == strip_reserved(field_attrs_of(f))
    &&& field_name_of(f) is Some && b.name@ == field_name_of(f)->0
    &&& exists|ds: Seq<BoilermatesFieldAttribute>|
        #[trigger] directives_match(ds, reserved_shapes(field_attrs_of(f))) && b.in_structs@
            == spec_membership(all, main, ds) && b.default == spec_default(ds)
}

/// Resolves one raw field: extracts and strips its directives, then folds
/// them over the full entity set.
fn parse_one(f: syn::Field, all: &Vec<String>, main: &String) -> (r: Result<
    BoilermatesField,
    Error,
>)
    requires
        field_name_of(f) is Some,
    ensures
        match r {
            Ok(b) => parsed_field_ok(b, f, all@, *main),
            Err(e) => field_fails_with(f, e),
        },
{
    let mut attrs = field_attrs_vec(&f);
    let ds = match BoilermatesFieldAttribute::extract(&mut attrs) {
        Ok(ds) => ds,
        Err(e) => {
            return Err(e);
        },
    };
    let definition = field_with_attrs(f, attrs);
    let name = field_name(&definition).unwrap();
    let (in_structs, default) = resolve_membership(all, main, ds);
    let b = BoilermatesField { definition, name, default, in_structs };
    proof {
        assert(directives_match(ds@, reserved_shapes(field_attrs_of(f))));
    }
    Ok(b)
}

impl BoilermatesField {
    /// Resolves every template field, in order.  A field whose directives do
    /// not all parse aborts the whole pass with the first failure.
    pub fn parse_all(
        syn_fields: Vec<syn::Field>,
        all_boilermates_structs: Vec<String>,
        main_boilermates_struct: String,
    ) -> (r: Result<Vec<BoilermatesField>, Error>)
        requires
            forall|i: int|
                0 <= i < syn_fields@.len() ==> field_name_of(#[trigger] syn_fields@[i]) is Some,
        ensures
            match r {
                Ok(v) => v@.len() == syn_fields@.len() && forall|i: int|
                    0 <= i < syn_fields@.len() ==> #[trigger] parsed_field_ok(
                        v@[i],
                        syn_fields@[i],
                        all_boilermates_structs@,
                        main_boilermates_struct,
                    ),
                Err(e) => fields_abort_with(syn_fields@, e),
            },
    {
        let mut out: Vec<BoilermatesField> = Vec::new();
        let mut i: usize = 0;
        while i < syn_fields.len()
            invariant
                0 <= i <= syn_fields@.len(),
                forall|k: int|
                    0 <= k < syn_fields@.len() ==> field_name_of(#[trigger] syn_fields@[k]) is Some,
                out@.len() == i,
                forall|j: int| 0 <= j < i ==> #[trigger] field_parses(syn_fields@[j]),
                forall|j: int|
                    0 <= j < i ==> #[trigger] parsed_field_ok(
                        out@[j],
                        syn_fields@[j],
                        all_boilermates_structs@,
                        main_boilermates_struct,
                    ),
            decreases syn_fields.len() - i,
        {
            let f = syn_fields[i].clone();
            match parse_one(f, &all_boilermates_structs, &main_boilermates_struct) {
                Ok(b) => out.push(b),
                Err(e) => {
                    proof {
                        assert(field_fails_with(syn_fields@[i as int], e));
                        assert(fields_abort_with(syn_fields@, e));
                    }
                    return Err(e);
                },
            }
            i += 1;
        }
        Ok(out)
    }

    /// The field's identifier text.
    pub fn name(&self) -> (r: &String)
        ensures
            r@ == self.name@,
    {
        &self.name
    }
}

} // verus!
