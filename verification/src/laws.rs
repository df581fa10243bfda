//! The resolution and relation-query laws the library guarantees, stated and
//! proved over the same spec functions its contracts use.

use vstd::prelude::*;

use crate::attributes::BoilermatesFieldAttribute;
use crate::attributes::BoilermatesNotIn;
use crate::attributes::BoilermatesOnlyIn;
use crate::fields::spec_default;
use crate::fields::spec_apply_directive;
use crate::fields::spec_membership;
use crate::fields::spec_remove_names;
use crate::output::has_field_named;
use crate::output::spec_missing_from;
use crate::output::spec_same_as;
use crate::output::OutputField;

verus! {

/// A field with no directives belongs to every declared entity and has no
/// default value.
pub proof fn lemma_no_directives(all: Seq<String>, main: String)
    ensures
        spec_membership(all, main, Seq::empty()) == all,
        !spec_default(Seq::empty()),
{
}

/// `only_in` discards whatever earlier directives computed: membership
/// becomes exactly its list.
pub proof fn lemma_only_in_overrides(
    all: Seq<String>,
    main: String,
    ds: Seq<BoilermatesFieldAttribute>,
    l: BoilermatesOnlyIn,
)
    ensures
        spec_membership(all, main, ds.push(BoilermatesFieldAttribute::OnlyIn(l))) == l.0@,
{
    let pushed = ds.push(BoilermatesFieldAttribute::OnlyIn(l));
    assert(pushed.drop_last() =~= ds);
}

/// `only_in_self` discards whatever earlier directives computed: membership
/// becomes exactly the template entity itself.
pub proof fn lemma_only_in_self_overrides(
    all: Seq<String>,
    main: String,
    ds: Seq<BoilermatesFieldAttribute>,
)
    ensures
        spec_membership(all, main, ds.push(BoilermatesFieldAttribute::OnlyInSelf)) == seq![main],
{
    let pushed = ds.push(BoilermatesFieldAttribute::OnlyInSelf);
    assert(pushed.drop_last() =~= ds);
}

/// `not_in` right after `only_in` leaves exactly the `only_in` list minus the
/// `not_in` list.
pub proof fn lemma_not_in_after_only_in(
    all: Seq<String>,
    main: String,
    ds: Seq<BoilermatesFieldAttribute>,
    m: BoilermatesOnlyIn,
    l: BoilermatesNotIn,
)
    ensures
        spec_membership(
            all,
            main,
            ds.push(BoilermatesFieldAttribute::OnlyIn(m)).push(
                BoilermatesFieldAttribute::NotIn(l),
            ),
        ) == spec_remove_names(m.0@, l.0@),
{
    let once = ds.push(BoilermatesFieldAttribute::OnlyIn(m));
    let twice = once.push(BoilermatesFieldAttribute::NotIn(l));
    assert(twice.drop_last() =~= once);
    lemma_only_in_overrides(all, main, ds, m);
}

/// `not_in` before any other directive subtracts from the full entity set.
pub proof fn lemma_not_in_first(all: Seq<String>, main: String, l: BoilermatesNotIn)
    ensures
        spec_membership(all, main, seq![BoilermatesFieldAttribute::NotIn(l)])
            == spec_remove_names(all, l.0@),
{
    let one = seq![BoilermatesFieldAttribute::NotIn(l)];
    assert(one.drop_last() =~= Seq::<BoilermatesFieldAttribute>::empty());
    assert(one.last() == BoilermatesFieldAttribute::NotIn(l));
    assert(one.len() == 1);
    assert(spec_membership(all, main, Seq::<BoilermatesFieldAttribute>::empty()) == all);
    assert(spec_membership(all, main, one) == spec_apply_directive(
        all,
        main,
        BoilermatesFieldAttribute::NotIn(l),
    ));
}

/// Membership of a sequence split at its last element.
proof fn lemma_contains_split<A>(s: Seq<A>, f: A)
    requires
        s.len() > 0,
    ensures
        s.contains(f) <==> (s.drop_last().contains(f) || s.last() == f),
{
    if s.contains(f) {
        let j = choose|j: int| 0 <= j < s.len() && s[j] == f;
        if j < s.len() - 1 {
            assert(s.drop_last()[j] == f);
            assert(s.drop_last().contains(f));
        }
    }
    if s.drop_last().contains(f) {
        let j = choose|j: int| 0 <= j < s.drop_last().len() && s.drop_last()[j] == f;
        assert(s[j] == f);
    }
    if s.last() == f {
        assert(s[s.len() - 1] == f);
    }
}

/// The relation queries split an entity's field list completely and
/// disjointly: every field of `fields` lands in exactly one of
/// `missing_fields_from` and `same_fields_as`, according to whether `other`
/// has a field of its name, and nothing else lands in either.
pub proof fn lemma_relation_partition(fields: Seq<OutputField>, other: Seq<OutputField>)
    ensures
        spec_missing_from(fields, other).len() + spec_same_as(fields, other).len() == fields.len(),
        forall|f: OutputField|
            #[trigger] spec_missing_from(fields, other).contains(f) <==> fields.contains(f)
                && !has_field_named(other, f.name@),
        forall|f: OutputField|
            #[trigger] spec_same_as(fields, other).contains(f) <==> fields.contains(f)
                && has_field_named(other, f.name@),
    decreases fields.len(),
{
    if fields.len() == 0 {
        assert forall|f: OutputField| !#[trigger] fields.contains(f) by {
            if fields.contains(f) {
                let j = choose|j: int| 0 <= j < fields.len() && fields[j] == f;
            }
        }
    } else {
        let rest = fields.drop_last();
        let last = fields.last();
        lemma_relation_partition(rest, other);
        assert forall|f: OutputField|
            #[trigger] spec_missing_from(fields, other).contains(f) <==> fields.contains(f)
                && !has_field_named(other, f.name@) by {
            lemma_contains_split(fields, f);
            if has_field_named(other, last.name@) {
                assert(spec_missing_from(fields, other) == spec_missing_from(rest, other));
            } else {
                lemma_contains_split(spec_missing_from(fields, other), f);
                assert(spec_missing_from(fields, other).drop_last() =~= spec_missing_from(
                    rest,
                    other,
                ));
            }
        }
        assert forall|f: OutputField|
            #[trigger] spec_same_as(fields, other).contains(f) <==> fields.contains(f)
                && has_field_named(other, f.name@) by {
            lemma_contains_split(fields, f);
            if has_field_named(other, last.name@) {
                lemma_contains_split(spec_same_as(fields, other), f);
                assert(spec_same_as(fields, other).drop_last() =~= spec_same_as(rest, other));
            } else {
                assert(spec_same_as(fields, other) == spec_same_as(rest, other));
            }
        }
    }
}

} // verus!
