//! The field enumerator: it lays a record's fields out once, in declaration
//! order, each with the accessor that reaches it in the record and the scratch
//! identifier that its value is bound to. Every later stage goes by this one
//! sequence.

use crate::descriptor::{FieldDescriptor, FieldView, TypeDescriptor};
use crate::text::{
    index_literal, lemma_scratch_name_injective, positional_accessor, scratch_ident, scratch_name,
};
use vstd::prelude::*;

verus! {

/// One field as the later stages see it.
#[derive(Clone, Debug, PartialEq, Eq)]
pub struct FieldBinding {
    /// How the record reaches the field: its name, or its index if it has
    /// none.
    pub accessor: String,
    /// The local identifier that holds the field's value while it is
    /// converted.
    pub binding: String,
    /// The field's declared type.
    pub ty: String,
}

/// The mathematical content of a `FieldBinding`.
pub struct FieldBindingView {
    pub accessor: Seq<char>,
    pub binding: Seq<char>,
    pub ty: Seq<char>,
}

impl View for FieldBinding {
    type V = FieldBindingView;

    open spec fn view(&self) -> FieldBindingView {
        FieldBindingView { accessor: self.accessor@, binding: self.binding@, ty: self.ty@ }
    }
}

/// The contents of a sequence of field bindings.
pub open spec fn bindings_view(bindings: Seq<FieldBinding>) -> Seq<FieldBindingView> {
    bindings.map_values(|b: FieldBinding| b@)
}

/// The scratch identifiers of the fields, in order.
pub open spec fn binding_names(fields: Seq<FieldBindingView>) -> Seq<Seq<char>> {
    fields.map_values(|f: FieldBindingView| f.binding)
}

/// The declared types of the fields, in order.
pub open spec fn declared_types(fields: Seq<FieldBindingView>) -> Seq<Seq<char>> {
    fields.map_values(|f: FieldBindingView| f.ty)
}

/// The accessor of a field at `index`: the declared name where there is one,
/// the index otherwise.
pub open spec fn accessor_of(field: FieldView, index: nat) -> Seq<char> {
    match field.name {
        Some(name) => name,
        None => positional_accessor(index),
    }
}

/// What the enumerator makes of the field at `index`.
pub open spec fn binding_of(field: FieldView, index: nat) -> FieldBindingView {
    FieldBindingView {
        accessor: accessor_of(field, index),
        binding: scratch_name(index),
        ty: field.ty,
    }
}

/// What the enumerator makes of a field list: one binding per field, in the
/// order of the fields.
pub open spec fn enumeration(fields: Seq<FieldView>) -> Seq<FieldBindingView> {
    Seq::new(fields.len(), |i: int| binding_of(fields[i], i as nat))
}

/// Whether no name occurs twice in `names`.
pub open spec fn distinct(names: Seq<Seq<char>>) -> bool {
    forall|i: int, j: int|
        0 <= i < names.len() && 0 <= j < names.len() && i != j ==> names[i] != names[j]
}

/// The scratch identifiers of an enumeration do not collide: no two fields
/// are bound to the same one.
pub proof fn lemma_bindings_distinct(fields: Seq<FieldView>)
    ensures
        distinct(binding_names(enumeration(fields))),
{
    let names = binding_names(enumeration(fields));
    assert forall|i: int, j: int|
        0 <= i < names.len() && 0 <= j < names.len() && i != j implies names[i] != names[j] by {
        if names[i] == names[j] {
            lemma_scratch_name_injective(i as nat, j as nat);
        }
    }
}

/// Enumerates the fields of `descriptor`: for each, in declaration order, its
/// accessor, a fresh scratch identifier and its declared type.
pub fn enumerate_fields(descriptor: &TypeDescriptor) -> (bindings: Vec<FieldBinding>)
    ensures
        bindings_view(bindings@) == enumeration(descriptor@.fields),
{
    let mut bindings: Vec<FieldBinding> = Vec::new();
    let mut i: usize = 0;
    while i < descriptor.fields.len()
        invariant
            i <= descriptor.fields.len(),
            bindings@.len() == i,
            forall|j: int|
                0 <= j < i ==> (#[trigger] bindings@[j])@ == binding_of(
                    descriptor@.fields[j],
                    j as nat,
                ),
        decreases descriptor.fields.len() - i,
    {
        let field: &FieldDescriptor = &descriptor.fields[i];
        let accessor = match &field.name {
            Some(name) => name.clone(),
            None => index_literal(i as u64),
        };
        let binding = FieldBinding { accessor, binding: scratch_ident(i), ty: field.ty.clone() };
        assert(binding@ == binding_of(descriptor@.fields[i as int], i as nat));
        bindings.push(binding);
        i += 1;
    }
    assert(bindings_view(bindings@) =~= enumeration(descriptor@.fields));
    bindings
}

} // verus!
