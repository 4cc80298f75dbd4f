//! The derivation: from the description of a type to its representation, the
//! constraints of the derived implementation and the two conversions, and
//! from there to the text of the implementation.

use crate::constraints::{
    combined_constraints, lemma_constraints_propagated, obligation, propagate_constraints,
    render_where_clause, where_clause_text,
};
use crate::conversion::{decompose_text, emit_conversions, reconstruct_text, ConversionPair};
use crate::descriptor::{
    parameters_view, texts, DeriveError, TypeDescriptor, TypeDescriptorView, TypeParameter,
    TypeParameterView,
};
use crate::fields::{binding_names, enumerate_fields, enumeration, lemma_bindings_distinct};
use crate::semantics::{
    conforms, decompose, lemma_decompose_conforms, lemma_round_trip, reconstruct,
};
use crate::tree::{
    build_representation, leaf_type, leaf_types, lemma_representation_shape, representation_of,
    Mode, ReprTree, RepresentationNode,
};
use vstd::prelude::*;
use vstd::string::*;

verus! {

/// What is derived for one type.
#[derive(Clone, Debug, PartialEq, Eq)]
pub struct Derivation {
    /// The representation of the type.
    pub representation: RepresentationNode,
    /// The constraints under which the conversions are well typed.
    pub constraints: Vec<String>,
    /// The bodies of the two conversions.
    pub conversions: ConversionPair,
}

/// The mathematical content of a `Derivation`.
pub struct DerivationView {
    pub representation: ReprTree,
    pub constraints: Seq<Seq<char>>,
    pub decompose: Seq<char>,
    pub reconstruct: Seq<char>,
}

impl View for Derivation {
    type V = DerivationView;

    open spec fn view(&self) -> DerivationView {
        DerivationView {
            representation: self.representation@,
            constraints: texts(self.constraints@),
            decompose: self.conversions.decompose@,
            reconstruct: self.conversions.reconstruct@,
        }
    }
}

/// What is derived for a record: every stage works on the one enumeration of
/// its fields, and every field is converted through its own representation.
pub open spec fn derivation_of(descriptor: TypeDescriptorView) -> DerivationView {
    let fields = enumeration(descriptor.fields);
    DerivationView {
        representation: representation_of(fields, Mode::Recursive),
        constraints: combined_constraints(fields, Mode::Recursive, descriptor.constraints),
        decompose: decompose_text(fields, Mode::Recursive),
        reconstruct: reconstruct_text(fields, Mode::Recursive),
    }
}

/// What a generic parameter contributes to a parameter list: its declaration
/// where the list declares the parameters, its name where the list applies
/// the type to them.
pub open spec fn parameter_text(parameter: TypeParameterView, declare: bool) -> Seq<char> {
    if declare {
        parameter.declaration
    } else {
        parameter.name
    }
}

/// The parameters, separated by commas.
pub open spec fn parameter_list_text(params: Seq<TypeParameterView>, declare: bool) -> Seq<char>
    decreases params.len(),
{
    if params.len() == 0 {
        Seq::empty()
    } else if params.len() == 1 {
        parameter_text(params[0], declare)
    } else {
        parameter_list_text(params.drop_last(), declare) + ", "@ + parameter_text(
            params.last(),
            declare,
        )
    }
}

/// The parameter list in angle brackets; nothing for a type without
/// parameters.
pub open spec fn generics_text(params: Seq<TypeParameterView>, declare: bool) -> Seq<char> {
    if params.len() == 0 {
        Seq::empty()
    } else {
        "<"@ + parameter_list_text(params, declare) + ">"@
    }
}

/// The implementation of the conversion contract for the described type,
/// made of what was derived for it.
pub open spec fn implementation_text(
    descriptor: TypeDescriptorView,
    derivation: DerivationView,
) -> Seq<char> {
    "impl"@ + generics_text(descriptor.params, true) + " Generic for "@ + descriptor.name
        + generics_text(descriptor.params, false) + " "@ + where_clause_text(
        derivation.constraints,
    ) + " { type Repr = "@ + derivation.representation.type_text()
        + "; fn into_repr(self: Self) -> Self::Repr { "@ + derivation.decompose
        + " } fn from_repr(repr: Self::Repr) -> Self { "@ + derivation.reconstruct + " } }"@
}

/// The scratch identifiers that the derived conversions of a type bind its
/// fields to, in the order of the fields.
pub open spec fn conversion_names(descriptor: TypeDescriptorView) -> Seq<Seq<char>> {
    binding_names(enumeration(descriptor.fields))
}

/// The derived representation of a record with N fields is the empty anchor
/// when N is zero, and otherwise N products nested to the left over the empty
/// anchor, whose leaves are the representations of the field types in
/// declaration order.
pub proof fn lemma_derived_shape(descriptor: TypeDescriptorView)
    ensures
        descriptor.fields.len() == 0 <==> derivation_of(descriptor).representation
            == ReprTree::Empty,
        derivation_of(descriptor).representation.is_record(),
        derivation_of(descriptor).representation.product_depth() == descriptor.fields.len(),
        derivation_of(descriptor).representation.leaves().len() == descriptor.fields.len(),
        forall|i: int|
            0 <= i < descriptor.fields.len() ==> #[trigger] derivation_of(
                descriptor,
            ).representation.leaves()[i] == leaf_type(Mode::Recursive, descriptor.fields[i].ty),
{
    let fields = enumeration(descriptor.fields);
    lemma_representation_shape(fields, Mode::Recursive);
    assert(leaf_types(Mode::Recursive, fields).len() == descriptor.fields.len());
}

/// The derived constraints hold an obligation on the declared type of every
/// field, and after these every constraint of the type's declaration,
/// unchanged and in its order.
pub proof fn lemma_derived_constraints(descriptor: TypeDescriptorView)
    ensures
        derivation_of(descriptor).constraints.len() == descriptor.fields.len()
            + descriptor.constraints.len(),
        forall|i: int|
            0 <= i < descriptor.fields.len() ==> derivation_of(descriptor).constraints.contains(
                #[trigger] obligation(descriptor.fields[i].ty),
            ),
        forall|j: int|
            0 <= j < descriptor.constraints.len() ==> derivation_of(
                descriptor,
            ).constraints.contains(#[trigger] descriptor.constraints[j]),
        derivation_of(descriptor).constraints.skip(descriptor.fields.len() as int)
            == descriptor.constraints,
{
    let fields = enumeration(descriptor.fields);
    lemma_constraints_propagated(fields, Mode::Recursive, descriptor.constraints);
    assert forall|i: int| 0 <= i < descriptor.fields.len() implies derivation_of(
        descriptor,
    ).constraints.contains(#[trigger] obligation(descriptor.fields[i].ty)) by {
        assert(obligation(fields[i].ty) == obligation(descriptor.fields[i].ty));
    }
}

/// The model of the derived conversions round-trips. For every record type
/// and every value of it, given as one value per field, and for conversions
/// of the fields of which the second undoes the first: in the model of
/// `semantics`, over the scratch identifiers that the derivation uses,
/// reconstructing the decomposed value gives the value back, decomposing the
/// reconstructed value gives the same representation again, and that
/// representation has the shape that was derived for the type. This is
/// proved of the model, not of the emitted text.
pub proof fn lemma_derived_round_trip<F, R>(
    descriptor: TypeDescriptorView,
    into: spec_fn(F) -> R,
    from: spec_fn(R) -> F,
    record: Seq<F>,
)
    requires
        record.len() == descriptor.fields.len(),
        forall|x: F| #[trigger] from(into(x)) == x,
    ensures
        reconstruct(
            conversion_names(descriptor),
            from,
            decompose(conversion_names(descriptor), into, record),
        ) == Some(record),
        decompose(
            conversion_names(descriptor),
            into,
            reconstruct(
                conversion_names(descriptor),
                from,
                decompose(conversion_names(descriptor), into, record),
            ).unwrap(),
        ) == decompose(conversion_names(descriptor), into, record),
        conforms(
            decompose(conversion_names(descriptor), into, record),
            derivation_of(descriptor).representation,
        ),
{
    let fields = enumeration(descriptor.fields);
    lemma_bindings_distinct(descriptor.fields);
    lemma_round_trip(conversion_names(descriptor), into, from, record);
    lemma_decompose_conforms(
        conversion_names(descriptor),
        into,
        record,
        leaf_types(Mode::Recursive, fields),
    );
}

/// Derives the representation, the constraints and the conversions of the
/// described type. Unions are refused, and so is a record whose fields do not
/// agree with its shape; every other record is derived.
pub fn derive_generic(descriptor: &TypeDescriptor) -> (outcome: Result<Derivation, DeriveError>)
    ensures
        match descriptor@.refusal() {
            Some(error) => outcome == Err::<Derivation, DeriveError>(error),
            None => outcome.is_ok() && outcome.unwrap()@ == derivation_of(descriptor@),
        },
{
    match descriptor.check() {
        Err(error) => Err(error),
        Ok(()) => {
            let fields = enumerate_fields(descriptor);
            let representation = build_representation(&fields, Mode::Recursive);
            let constraints = propagate_constraints(
                &fields,
                Mode::Recursive,
                &descriptor.constraints,
            );
            let conversions = emit_conversions(&fields, Mode::Recursive);
            Ok(Derivation { representation, constraints, conversions })
        },
    }
}

/// Writes the parameter list of the type in angle brackets, or nothing if the
/// type has no parameters.
pub fn render_generics(params: &Vec<TypeParameter>, declare: bool) -> (text: String)
    ensures
        text@ == generics_text(parameters_view(params@), declare),
{
    let ghost all = parameters_view(params@);
    if params.len() == 0 {
        return String::new();
    }
    let mut text = String::from_str("<");
    let mut i: usize = 0;
    assert(all.take(0) =~= Seq::empty());
    assert(text@ + parameter_list_text(all.take(0), declare) =~= text@);
    while i < params.len()
        invariant
            i <= params.len(),
            all == parameters_view(params@),
            text@ == "<"@ + parameter_list_text(all.take(i as int), declare),
        decreases params.len() - i,
    {
        let ghost before = parameter_list_text(all.take(i as int), declare);
        proof {
            let longer = all.take(i + 1);
            assert(longer.drop_last() =~= all.take(i as int));
            assert(longer.last() == params@[i as int]@);
            assert(longer[0] == all[0]);
            if i == 0 {
                assert(before =~= Seq::empty());
            }
        }
        if i > 0 {
            text.append(", ");
        }
        if declare {
            text.append(params[i].declaration.as_str());
        } else {
            text.append(params[i].name.as_str());
        }
        proof {
            let item = parameter_text(params@[i as int]@, declare);
            if i == 0 {
                assert(text@ =~= "<"@ + item);
            } else {
                assert(text@ =~= "<"@ + (before + ", "@ + item));
            }
        }
        i += 1;
    }
    assert(all.take(i as int) =~= all);
    text.append(">");
    text
}

/// Writes the implementation of the conversion contract for the described
/// type from what was derived for it.
pub fn render_implementation(descriptor: &TypeDescriptor, derivation: &Derivation) -> (text: String)
    ensures
        text@ == implementation_text(descriptor@, derivation@),
{
    let mut text = String::from_str("impl");
    text.append(render_generics(&descriptor.params, true).as_str());
    text.append(" Generic for ");
    text.append(descriptor.name.as_str());
    text.append(render_generics(&descriptor.params, false).as_str());
    text.append(" ");
    text.append(render_where_clause(&derivation.constraints).as_str());
    text.append(" { type Repr = ");
    text.append(derivation.representation.render_type().as_str());
    text.append("; fn into_repr(self: Self) -> Self::Repr { ");
    text.append(derivation.conversions.decompose.as_str());
    text.append(" } fn from_repr(repr: Self::Repr) -> Self { ");
    text.append(derivation.conversions.reconstruct.as_str());
    text.append(" } }");
    text
}

/// Derives the implementation of the conversion contract for the described
/// type and writes it out, or says why there is none.
pub fn derive_implementation(descriptor: &TypeDescriptor) -> (outcome: Result<String, DeriveError>)
    ensures
        match descriptor@.refusal() {
            Some(error) => outcome == Err::<String, DeriveError>(error),
            None => outcome.is_ok() && outcome.unwrap()@ == implementation_text(
                descriptor@,
                derivation_of(descriptor@),
            ),
        },
{
    match derive_generic(descriptor) {
        Err(error) => Err(error),
        Ok(derivation) => Ok(render_implementation(descriptor, &derivation)),
    }
}

} // verus!
