//! The entity family: an insertion-ordered mapping from entity name to the
//! entity's annotations and fields, plus the relation queries over entities.
//!
//! The family is seeded once, with the template and its declared derived
//! entities, and afterwards only the entities' annotation and field lists
//! change.  Lookup goes through an insertion-ordered index whose contents are
//! kept in step with the declaration order.

use vstd::prelude::*;

use crate::attributes::BoilermatesAttrFor;
use crate::attributes::Error;
use crate::fields::clone_names;
use crate::fields::BoilermatesField;
use crate::syntax::field_name;
use crate::syntax::field_name_of;

verus! {

#[verifier::external_type_specification]
#[verifier::external_body]
#[verifier::reject_recursive_types(K)]
#[verifier::reject_recursive_types(V)]
#[verifier::reject_recursive_types(S)]
pub struct ExIndexMap<K, V, S>(indexmap::IndexMap<K, V, S>);

/// What the family's lookup index holds: its name-to-position pairs, in
/// insertion order.
pub uninterp spec fn index_entries(m: indexmap::IndexMap<String, usize>) -> Seq<(Seq<char>, usize)>;

/// Relies on `IndexMap::new`: a fresh map holds nothing.
#[verifier::external_body]
fn index_new() -> (r: indexmap::IndexMap<String, usize>)
    ensures
        index_entries(r) == Seq::<(Seq<char>, usize)>::empty(),
{
    indexmap::IndexMap::new()
}

/// Relies on `IndexMap::insert`: a key that is not yet present is inserted
/// last in order, with its value.
#[verifier::external_body]
fn index_insert(m: &mut indexmap::IndexMap<String, usize>, k: &String, v: usize)
    requires
        forall|i: int|
            0 <= i < index_entries(*old(m)).len() ==> index_entries(*old(m))[i].0 != k@,
    ensures
        index_entries(*final(m)) == index_entries(*old(m)).push((k@, v)),
{
    m.insert(k.clone(), v);
}

/// Relies on `IndexMap::get`: answers the value stored under a name, `None`
/// when no key holds that name.
#[verifier::external_body]
fn index_get(m: &indexmap::IndexMap<String, usize>, k: &str) -> (r: Option<usize>)
    ensures
        match r {
            Some(v) => index_entries(*m).contains((k@, v)),
            None => forall|i: int|
                0 <= i < index_entries(*m).len() ==> index_entries(*m)[i].0 != k@,
        },
{
    m.get(k).copied()
}

/// Reads the comma-separated identifier list that declares the derived
/// entity names, as the template's own reserved annotation supplies it.
pub fn parse_derived_names(tokens: &proc_macro2::TokenStream) -> (r: Result<Vec<String>, Error>)
    ensures
        match r {
            Ok(v) => crate::syntax::ident_list_of(*tokens) == Ok::<Vec<String>, String>(v),
            Err(e) => crate::syntax::ident_list_of(*tokens) is Err && e == Error::Malformed(
                crate::syntax::ident_list_of(*tokens)->Err_0,
            ),
        },
{
    match crate::syntax::parse_ident_list(tokens) {
        Ok(v) => Ok(v),
        Err(m) => Err(Error::Malformed(m)),
    }
}

/// One derived field: its syntax, its identifier text and its default flag.
/// Two output fields count as the same field exactly when their names agree;
/// type and annotations are deliberately ignored.
pub struct OutputField {
    /// The field's syntax, handed through to the declaration emitter.
    pub definition: syn::Field,
    /// The field's identifier text, the only thing equality reads.
    pub name: String,
    /// Whether the field may be left out of the entity's construction.
    pub default: bool,
}

impl OutputField {
    /// Wraps a field's syntax, reading its identifier text.
    pub fn new(definition: syn::Field, default: bool) -> (r: OutputField)
        requires
            field_name_of(definition) is Some,
        ensures
            r.definition == definition,
            r.default == default,
            r.name@ == field_name_of(definition)->0,
    {
        let name = field_name(&definition).unwrap();
        OutputField { definition, name, default }
    }

    /// The field's identifier text.
    pub fn name(&self) -> (r: &String)
        ensures
            r@ == self.name@,
    {
        &self.name
    }

    /// Hands the field's syntax back to the emitter.
    pub fn into_definition(self) -> (r: syn::Field)
        ensures
            r == self.definition,
    {
        self.definition
    }
}

impl Clone for OutputField {
    fn clone(&self) -> (r: Self)
        ensures
            r == *self,
    {
        OutputField {
            definition: self.definition.clone(),
            name: self.name.clone(),
            default: self.default,
        }
    }
}

impl PartialEq for OutputField {
    fn eq(&self, other: &Self) -> (r: bool) {
        self.name.eq(&other.name)
    }
}

impl vstd::std_specs::cmp::PartialEqSpecImpl for OutputField {
    open spec fn obeys_eq_spec() -> bool {
        true
    }

    open spec fn eq_spec(&self, other: &Self) -> bool {
        self.name@ == other.name@
    }
}

impl From<BoilermatesField> for OutputField {
    fn from(value: BoilermatesField) -> (r: Self) {
        OutputField { definition: value.definition, name: value.name, default: value.default }
    }
}

impl vstd::std_specs::convert::FromSpecImpl<BoilermatesField> for OutputField {
    open spec fn obeys_from_spec() -> bool {
        true
    }

    open spec fn from_spec(t: BoilermatesField) -> Self {
        OutputField { definition: t.definition, name: t.name, default: t.default }
    }
}

/// Whether some field in the list carries the given name.
pub open spec fn has_field_named(fields: Seq<OutputField>, name: Seq<char>) -> bool {
    exists|i: int| 0 <= i < fields.len() && fields[i].name@ == name
}

/// The fields whose name has no equal in `other`, in their original order.
pub open spec fn spec_missing_from(fields: Seq<OutputField>, other: Seq<OutputField>) -> Seq<
    OutputField,
>
    decreases fields.len(),
{
    if fields.len() == 0 {
        Seq::empty()
    } else {
        let rest = spec_missing_from(fields.drop_last(), other);
        if has_field_named(other, fields.last().name@) {
            rest
        } else {
            rest.push(fields.last())
        }
    }
}

/// The fields whose name does have an equal in `other`, in their original
/// order.
pub open spec fn spec_same_as(fields: Seq<OutputField>, other: Seq<OutputField>) -> Seq<
    OutputField,
>
    decreases fields.len(),
{
    if fields.len() == 0 {
        Seq::empty()
    } else {
        let rest = spec_same_as(fields.drop_last(), other);
        if has_field_named(other, fields.last().name@) {
            rest.push(fields.last())
        } else {
            rest
        }
    }
}

/// Linear search for a field name.
fn fields_contain_name(fields: &Vec<OutputField>, name: &String) -> (r: bool)
    ensures
        r == has_field_named(fields@, name@),
{
    let mut i: usize = 0;
    while i < fields.len()
        invariant
            0 <= i <= fields.len(),
            forall|j: int| 0 <= j < i ==> fields@[j].name@ != name@,
        decreases fields.len() - i,
    {
        if fields[i].name.eq(name) {
            return true;
        }
        i += 1;
    }
    false
}

/// The position of a name among the declared entity names.
pub open spec fn spec_name_index(names: Seq<Seq<char>>, name: Seq<char>) -> int {
    choose|i: int| 0 <= i < names.len() && names[i] == name
}

/// A mutable borrow of one entity by its position.
fn entry_mut(v: &mut Vec<OutputStruct>, i: usize) -> (r: &mut OutputStruct)
    requires
        i < old(v)@.len(),
    ensures
        *r == old(v)@[i as int],
        final(v)@ == old(v)@.update(i as int, *final(r)),
{
    &mut v[i]
}

/// One derived entity: its extra annotations and its fields, in order.
pub struct OutputStruct {
    pub attributes: Vec<syn::Attribute>,
    pub fields: Vec<OutputField>,
}

impl OutputStruct {
    /// The fields of `self` that `other` lacks, by name, in `self`'s order.
    /// The emitter supplies these explicitly when converting `other` into
    /// `self`.
    pub fn missing_fields_from(&self, other: &Self) -> (r: Vec<OutputField>)
        ensures
            r@ == spec_missing_from(self.fields@, other.fields@),
    {
        let mut out: Vec<OutputField> = Vec::new();
        let mut i: usize = 0;
        while i < self.fields.len()
            invariant
                0 <= i <= self.fields@.len(),
                out@ == spec_missing_from(self.fields@.take(i as int), other.fields@),
            decreases self.fields.len() - i,
        {
            proof {
                crate::lemma_take_step(self.fields@, i as int);
            }
            if !fields_contain_name(&other.fields, &self.fields[i].name) {
                out.push(self.fields[i].clone());
            }
            i += 1;
        }
        proof {
            assert(self.fields@.take(self.fields@.len() as int) =~= self.fields@);
        }
        out
    }

    /// The fields of `self` that `other` also has, by name, in `self`'s
    /// order.  The emitter copies these when converting `other` into `self`.
    pub fn same_fields_as(&self, other: &Self) -> (r: Vec<OutputField>)
        ensures
            r@ == spec_same_as(self.fields@, other.fields@),
    {
        let mut out: Vec<OutputField> = Vec::new();
        let mut i: usize = 0;
        while i < self.fields.len()
            invariant
                0 <= i <= self.fields@.len(),
                out@ == spec_same_as(self.fields@.take(i as int), other.fields@),
            decreases self.fields.len() - i,
        {
            proof {
                crate::lemma_take_step(self.fields@, i as int);
            }
            if fields_contain_name(&other.fields, &self.fields[i].name) {
                out.push(self.fields[i].clone());
            }
            i += 1;
        }
        proof {
            assert(self.fields@.take(self.fields@.len() as int) =~= self.fields@);
        }
        out
    }
}

/// The entity family.  Exactly one entry per declared name, in declaration
/// order; entities are never added or removed after initialization, only
/// their annotation and field lists change.
pub struct OutputStructs {
    pub names: Vec<String>,
    pub structs: Vec<OutputStruct>,
    pub index: indexmap::IndexMap<String, usize>,
}

impl OutputStructs {
    /// The entity names, in declaration order.
    pub open spec fn spec_names(&self) -> Seq<Seq<char>> {
        Seq::new(self.names@.len(), |i: int| self.names@[i]@)
    }

    /// The entities, in declaration order.
    pub open spec fn spec_structs(&self) -> Seq<OutputStruct> {
        self.structs@
    }

    /// The family's shape: one entity per name, the lookup index in step with
    /// the declaration order, and no name declared twice.
    pub open spec fn wf(&self) -> bool {
        &&& self.names@.len() == self.structs@.len()
        &&& index_entries(self.index) == Seq::new(
            self.names@.len(),
            |i: int| (self.names@[i]@, i as usize),
        )
        &&& forall|i: int, j: int|
            0 <= i < j < self.names@.len() ==> self.names@[i]@ != self.names@[j]@
    }

    /// Seeds the family: the template entity first, carrying the template's
    /// own annotations, then one empty entity per derived name, in the order
    /// the names were declared.  The declared names must be distinct and must
    /// not repeat the template's name; that is the caller's contract.
    pub fn initialize(
        template_name: String,
        template_annotations: Vec<syn::Attribute>,
        derived_names: Vec<String>,
    ) -> (r: OutputStructs)
        requires
            forall|i: int, j: int|
                0 <= i < j < derived_names@.len() ==> derived_names@[i]@ != derived_names@[j]@,
            forall|i: int|
                0 <= i < derived_names@.len() ==> #[trigger] derived_names@[i]@ != template_name@,
        ensures
            r.wf(),
            r.spec_names() == seq![template_name@] + Seq::new(
                derived_names@.len(),
                |i: int| derived_names@[i]@,
            ),
            r.spec_structs().len() == 1 + derived_names@.len(),
            r.spec_structs()[0].attributes@ == template_annotations@,
            r.spec_structs()[0].fields@ == Seq::<OutputField>::empty(),
            forall|i: int|
                1 <= i < r.spec_structs().len() ==> (#[trigger] r.spec_structs()[i]).attributes@
                    == Seq::<syn::Attribute>::empty() && r.spec_structs()[i].fields@ == Seq::<
                    OutputField,
                >::empty(),
    {
        let ghost tname = template_name@;
        let mut names: Vec<String> = Vec::new();
        let mut structs: Vec<OutputStruct> = Vec::new();
        let mut index = index_new();
        index_insert(&mut index, &template_name, 0);
        names.push(template_name);
        structs.push(OutputStruct { attributes: template_annotations, fields: Vec::new() });
        proof {
            assert(index_entries(index) =~= Seq::new(
                names@.len(),
                |k: int| (names@[k]@, k as usize),
            ));
        }
        let mut i: usize = 0;
        while i < derived_names.len()
            invariant
                forall|a: int, b: int|
                    0 <= a < b < derived_names@.len() ==> derived_names@[a]@
                        != derived_names@[b]@,
                forall|a: int|
                    0 <= a < derived_names@.len() ==> #[trigger] derived_names@[a]@ != tname,
                0 <= i <= derived_names@.len(),
                names@.len() == i + 1,
                structs@.len() == i + 1,
                names@[0]@ == tname,
                forall|k: int| 1 <= k <= i ==> #[trigger] names@[k]@ == derived_names@[k - 1]@,
                index_entries(index) == Seq::new(
                    names@.len(),
                    |k: int| (names@[k]@, k as usize),
                ),
                structs@[0].attributes@ == template_annotations@,
                structs@[0].fields@ == Seq::<OutputField>::empty(),
                forall|k: int|
                    1 <= k <= i ==> (#[trigger] structs@[k]).attributes@ == Seq::<
                        syn::Attribute,
                    >::empty() && structs@[k].fields@ == Seq::<OutputField>::empty(),
                forall|a: int, b: int| 0 <= a < b < names@.len() ==> names@[a]@ != names@[b]@,
            decreases derived_names.len() - i,
        {
            let n = derived_names[i].clone();
            proof {
                assert(forall|k: int|
                    0 <= k < index_entries(index).len() ==> index_entries(index)[k].0 != n@);
            }
            index_insert(&mut index, &n, names.len());
            names.push(n);
            structs.push(OutputStruct { attributes: Vec::new(), fields: Vec::new() });
            proof {
                assert(index_entries(index) =~= Seq::new(
                    names@.len(),
                    |k: int| (names@[k]@, k as usize),
                ));
            }
            i += 1;
        }
        let r = OutputStructs { names, structs, index };
        proof {
            assert(r.spec_names() =~= seq![tname] + Seq::new(
                derived_names@.len(),
                |k: int| derived_names@[k]@,
            ));
        }
        r
    }

    /// The entity names, in declaration order.
    pub fn names(&self) -> (r: Vec<String>)
        ensures
            r@.len() == self.spec_names().len(),
            forall|i: int| 0 <= i < r@.len() ==> #[trigger] r@[i]@ == self.spec_names()[i],
    {
        clone_names(&self.names)
    }

    /// Looks a name up in the family's index: its position in declaration
    /// order, or `None` for a name the family never declared.
    fn lookup(&self, name: &str) -> (r: Option<usize>)
        requires
            self.wf(),
        ensures
            match r {
                Some(i) => 0 <= i < self.names@.len() && self.spec_names()[i as int] == name@
                    && i as int == spec_name_index(self.spec_names(), name@)
                    && self.spec_names().contains(name@),
                None => !self.spec_names().contains(name@),
            },
    {
        let r = index_get(&self.index, name);
        match r {
            Some(i) => {
                proof {
                    let entries = index_entries(self.index);
                    assert(entries.contains((name@, i)));
                    let k = choose|k: int|
                        0 <= k < entries.len() && #[trigger] entries[k] == (name@, i);
                    assert(entries[k] == (self.names@[k]@, k as usize));
                    assert(self.names.len() == self.names@.len());
                    assert(0 <= k <= usize::MAX);
                    assert(i as int == k);
                    assert(self.names@[k]@ == name@ && k as usize == i);
                    assert(self.spec_names()[i as int] == name@);
                    assert(self.spec_names().contains(name@));
                    let gi = spec_name_index(self.spec_names(), name@);
                    assert(0 <= gi < self.spec_names().len() && self.spec_names()[gi] == name@);
                    assert(self.names@[gi]@ == name@);
                    assert(gi == k);
                }
            },
            None => {
                proof {
                    let entries = index_entries(self.index);
                    assert forall|k: int| 0 <= k < self.names@.len() implies self.names@[k]@
                        != name@ by {
                        assert(entries[k] == (self.names@[k]@, k as usize));
                        assert(entries[k].0 != name@);
                    }
                    assert forall|k: int|
                        0 <= k < self.spec_names().len() implies self.spec_names()[k] != name@ by {
                        assert(self.spec_names()[k] == self.names@[k]@);
                    }
                }
            },
        }
        r
    }

    /// Whether the family declared an entity under this name.
    pub fn contains_entity(&self, name: &str) -> (r: bool)
        requires
            self.wf(),
        ensures
            r == self.spec_names().contains(name@),
    {
        match self.lookup(name) {
            Some(_) => true,
            None => false,
        }
    }

    /// The entity stored under a name, or `None` for a name the family never
    /// declared: the not-found signal for unknown entity references.
    pub fn get(&self, name: &str) -> (r: Option<&OutputStruct>)
        requires
            self.wf(),
        ensures
            match r {
                Some(s) => ({
                    let i = spec_name_index(self.spec_names(), name@);
                    &&& self.spec_names().contains(name@)
                    &&& 0 <= i < self.spec_names().len()
                    &&& self.spec_names()[i] == name@
                    &&& *s == self.spec_structs()[i]
                }),
                None => !self.spec_names().contains(name@),
            },
    {
        match self.lookup(name) {
            Some(i) => Some(&self.structs[i]),
            None => None,
        }
    }

    /// The entity stored under a name, mutable.  The name must be one the
    /// family declared: `get` and `contains_entity` are the not-found signal,
    /// and `apply_attr_for` / `push_field` turn it into the unknown-entity
    /// error.
    pub fn get_mut(&mut self, name: &str) -> (r: &mut OutputStruct)
        requires
            old(self).wf(),
            old(self).spec_names().contains(name@),
        ensures
            ({
                let i = spec_name_index(old(self).spec_names(), name@);
                &&& 0 <= i < old(self).spec_names().len()
                &&& old(self).spec_names()[i] == name@
                &&& *r == old(self).spec_structs()[i]
                &&& final(self).spec_structs() == old(self).spec_structs().update(i, *final(r))
                &&& final(self).spec_names() == old(self).spec_names()
                &&& final(self).wf()
            }),
    {
        let i = match self.lookup(name) {
            Some(i) => i,
            None => {
                proof {
                    assert(false);
                }
                0
            },
        };
        entry_mut(&mut self.structs, i)
    }

    /// Appends an `attr_for` annotation to the entity it names; fails when
    /// the family never declared that entity.
    pub fn apply_attr_for(&mut self, directive: BoilermatesAttrFor) -> (r: Result<(), Error>)
        requires
            old(self).wf(),
        ensures
            final(self).wf(),
            final(self).spec_names() == old(self).spec_names(),
            match r {
                Ok(_) => exists|i: int|
                    {
                        &&& 0 <= i < old(self).spec_names().len()
                        &&& #[trigger] old(self).spec_names()[i] == directive.target_struct@
                        &&& final(self).spec_structs()[i].attributes@ == old(self).spec_structs()[i].attributes@.push(directive.attribute)
                        &&& final(self).spec_structs()[i].fields@ == old(self).spec_structs()[i].fields@
                        &&& forall|j: int|
                            0 <= j < old(self).spec_structs().len() && j != i ==> final(self).spec_structs()[j] == old(self).spec_structs()[j]
                    },
                Err(e) => {
                    &&& e == Error::UnknownEntity(directive.target_struct)
                    &&& *final(self) == *old(self)
                    &&& !old(self).spec_names().contains(directive.target_struct@)
                },
            },
    {
        let BoilermatesAttrFor { target_struct, attribute } = directive;
        if self.contains_entity(target_struct.as_str()) {
            let s = self.get_mut(target_struct.as_str());
            s.attributes.push(attribute);
            Ok(())
        } else {
            Err(Error::UnknownEntity(target_struct))
        }
    }

    /// Appends a resolved field to the entity a name picks out; fails when
    /// the family never declared that entity.
    pub fn push_field(&mut self, name: &String, field: OutputField) -> (r: Result<(), Error>)
        requires
            old(self).wf(),
        ensures
            final(self).wf(),
            final(self).spec_names() == old(self).spec_names(),
            match r {
                Ok(_) => exists|i: int|
                    {
                        &&& 0 <= i < old(self).spec_names().len()
                        &&& #[trigger] old(self).spec_names()[i] == name@
                        &&& final(self).spec_structs()[i].fields@ == old(self).spec_structs()[i].fields@.push(field)
                        &&& final(self).spec_structs()[i].attributes@ == old(self).spec_structs()[i].attributes@
                        &&& forall|j: int|
                            0 <= j < old(self).spec_structs().len() && j != i ==> final(self).spec_structs()[j] == old(self).spec_structs()[j]
                    },
                Err(e) => {
                    &&& e == Error::UnknownEntity(*name)
                    &&& *final(self) == *old(self)
                    &&& !old(self).spec_names().contains(name@)
                },
            },
    {
        if self.contains_entity(name.as_str()) {
            let s = self.get_mut(name.as_str());
            s.fields.push(field);
            Ok(())
        } else {
            Err(Error::UnknownEntity(name.clone()))
        }
    }
}

} // verus!
