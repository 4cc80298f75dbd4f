//! The conversion emitter: it writes the bodies of the two conversions of a
//! record, decomposition into the representation and reconstruction from it.
//! Both go by the one sequence of fields that the enumerator laid out, so
//! that they cannot disagree on the order of the leaves.

use crate::fields::{binding_names, bindings_view, FieldBinding, FieldBindingView};
use crate::tree::Mode;
use vstd::prelude::*;
use vstd::string::*;

verus! {

/// The bodies of the two conversions of a record.
#[derive(Clone, Debug, PartialEq, Eq)]
pub struct ConversionPair {
    /// The body that turns `self` into its representation.
    pub decompose: String,
    /// The body that turns `repr` back into the record.
    pub reconstruct: String,
}

/// The fields of a record pattern or expression: each accessor with its
/// scratch identifier, separated by commas.
pub open spec fn field_list_text(fields: Seq<FieldBindingView>) -> Seq<char>
    decreases fields.len(),
{
    if fields.len() == 0 {
        Seq::empty()
    } else if fields.len() == 1 {
        fields[0].accessor + ": "@ + fields[0].binding
    } else {
        field_list_text(fields.drop_last()) + ", "@ + fields.last().accessor + ": "@
            + fields.last().binding
    }
}

/// The record, written with a scratch identifier in the place of every
/// field. Read as a pattern it takes the record apart, read as an expression
/// it puts the record together.
pub open spec fn record_text(fields: Seq<FieldBindingView>) -> Seq<char> {
    "Self { "@ + field_list_text(fields) + " }"@
}

/// The representation, written with a scratch identifier in the place of
/// every leaf: the left fold of the identifiers into products over the empty
/// anchor. Read as an expression it builds the representation, read as a
/// pattern it takes the representation apart.
pub open spec fn structure_text(names: Seq<Seq<char>>) -> Seq<char>
    decreases names.len(),
{
    if names.len() == 0 {
        "::generics::Unit"@
    } else {
        "::generics::Prod("@ + structure_text(names.drop_last()) + ", "@ + names.last() + ")"@
    }
}

/// One statement per name, in order, that replaces what is bound to the name
/// by the result of `function` on it.
pub open spec fn conversions_text(names: Seq<Seq<char>>, function: Seq<char>) -> Seq<char>
    decreases names.len(),
{
    if names.len() == 0 {
        Seq::empty()
    } else {
        conversions_text(names.drop_last(), function) + " let "@ + names.last()
            + " = ::generics::Generic::"@ + function + "("@ + names.last() + ");"@
    }
}

/// The statements that convert the bound values one by one; none where the
/// declared types of the fields are taken as leaves.
pub open spec fn leaf_conversions_text(
    names: Seq<Seq<char>>,
    mode: Mode,
    function: Seq<char>,
) -> Seq<char> {
    match mode {
        Mode::Shallow => Seq::empty(),
        Mode::Recursive => conversions_text(names, function),
    }
}

/// The body of the decomposition: take the record apart, convert every field
/// into its representation, fold the results into products.
pub open spec fn decompose_text(fields: Seq<FieldBindingView>, mode: Mode) -> Seq<char> {
    "let "@ + record_text(fields) + " = self;"@ + leaf_conversions_text(
        binding_names(fields),
        mode,
        "into_repr"@,
    ) + " "@ + structure_text(binding_names(fields))
}

/// The body of the reconstruction: take the representation apart by the same
/// fold, convert every leaf back, put the record together.
pub open spec fn reconstruct_text(fields: Seq<FieldBindingView>, mode: Mode) -> Seq<char> {
    "let "@ + structure_text(binding_names(fields)) + " = repr;"@ + leaf_conversions_text(
        binding_names(fields),
        mode,
        "from_repr"@,
    ) + " "@ + record_text(fields)
}

/// Writes the record with a scratch identifier in the place of every field.
pub fn render_record(fields: &Vec<FieldBinding>) -> (text: String)
    ensures
        text@ == record_text(bindings_view(fields@)),
{
    let ghost all = bindings_view(fields@);
    let mut text = String::from_str("Self { ");
    let mut i: usize = 0;
    assert(all.take(0) =~= Seq::empty());
    assert(text@ + field_list_text(all.take(0)) =~= text@);
    while i < fields.len()
        invariant
            i <= fields.len(),
            all == bindings_view(fields@),
            text@ == "Self { "@ + field_list_text(all.take(i as int)),
        decreases fields.len() - i,
    {
        let ghost before = field_list_text(all.take(i as int));
        proof {
            let longer = all.take(i + 1);
            assert(longer.drop_last() =~= all.take(i as int));
            assert(longer.last() == fields@[i as int]@);
            assert(longer[0] == all[0]);
            if i == 0 {
                assert(before =~= Seq::empty());
            }
        }
        if i > 0 {
            text.append(", ");
        }
        text.append(fields[i].accessor.as_str());
        text.append(": ");
        text.append(fields[i].binding.as_str());
        proof {
            let field = fields@[i as int]@;
            if i == 0 {
                assert(text@ =~= "Self { "@ + (field.accessor + ": "@ + field.binding));
            } else {
                assert(text@ =~= "Self { "@ + (before + ", "@ + field.accessor + ": "@
                    + field.binding));
            }
        }
        i += 1;
    }
    assert(all.take(i as int) =~= all);
    text.append(" }");
    text
}

/// Writes the representation with a scratch identifier in the place of every
/// leaf.
pub fn render_structure(fields: &Vec<FieldBinding>) -> (text: String)
    ensures
        text@ == structure_text(binding_names(bindings_view(fields@))),
{
    let ghost names = binding_names(bindings_view(fields@));
    let mut text = String::from_str("::generics::Unit");
    let mut i: usize = 0;
    assert(names.take(0) =~= Seq::empty());
    while i < fields.len()
        invariant
            i <= fields.len(),
            names == binding_names(bindings_view(fields@)),
            text@ == structure_text(names.take(i as int)),
        decreases fields.len() - i,
    {
        proof {
            let longer = names.take(i + 1);
            assert(longer.drop_last() =~= names.take(i as int));
            assert(longer.last() == fields@[i as int]@.binding);
        }
        let mut wider = String::from_str("::generics::Prod(");
        wider.append(text.as_str());
        wider.append(", ");
        wider.append(fields[i].binding.as_str());
        wider.append(")");
        text = wider;
        i += 1;
    }
    assert(names.take(i as int) =~= names);
    text
}

/// Writes one statement per field, in order, that replaces what is bound to
/// the field's scratch identifier by the result of `function` on it.
pub fn render_conversions(fields: &Vec<FieldBinding>, function: &str) -> (text: String)
    ensures
        text@ == conversions_text(binding_names(bindings_view(fields@)), function@),
{
    let ghost names = binding_names(bindings_view(fields@));
    let mut text = String::new();
    let mut i: usize = 0;
    assert(names.take(0) =~= Seq::empty());
    while i < fields.len()
        invariant
            i <= fields.len(),
            names == binding_names(bindings_view(fields@)),
            text@ == conversions_text(names.take(i as int), function@),
        decreases fields.len() - i,
    {
        proof {
            let longer = names.take(i + 1);
            assert(longer.drop_last() =~= names.take(i as int));
            assert(longer.last() == fields@[i as int]@.binding);
        }
        text.append(" let ");
        text.append(fields[i].binding.as_str());
        text.append(" = ::generics::Generic::");
        text.append(function);
        text.append("(");
        text.append(fields[i].binding.as_str());
        text.append(");");
        i += 1;
    }
    assert(names.take(i as int) =~= names);
    text
}

/// Writes the bodies of the two conversions of a record with the given
/// fields.
pub fn emit_conversions(fields: &Vec<FieldBinding>, mode: Mode) -> (pair: ConversionPair)
    ensures
        pair.decompose@ == decompose_text(bindings_view(fields@), mode),
        pair.reconstruct@ == reconstruct_text(bindings_view(fields@), mode),
{
    let record = render_record(fields);
    let structure = render_structure(fields);

    let mut decompose = String::from_str("let ");
    decompose.append(record.as_str());
    decompose.append(" = self;");
    match mode {
        Mode::Shallow => {
            assert(decompose@ + Seq::<char>::empty() =~= decompose@);
        },
        Mode::Recursive => {
            decompose.append(render_conversions(fields, "into_repr").as_str());
        },
    }
    decompose.append(" ");
    decompose.append(structure.as_str());

    let mut reconstruct = String::from_str("let ");
    reconstruct.append(structure.as_str());
    reconstruct.append(" = repr;");
    match mode {
        Mode::Shallow => {
            assert(reconstruct@ + Seq::<char>::empty() =~= reconstruct@);
        },
        Mode::Recursive => {
            reconstruct.append(render_conversions(fields, "from_repr").as_str());
        },
    }
    reconstruct.append(" ");
    reconstruct.append(record.as_str());

    ConversionPair { decompose, reconstruct }
}

} // verus!
