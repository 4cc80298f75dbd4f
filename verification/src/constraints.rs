//! The constraint propagator: it states, for every field that is converted
//! through its own representation, that the field's type must have one, and
//! joins these obligations with the constraints that the type's declaration
//! already carries.

use crate::descriptor::texts;
use crate::fields::{bindings_view, declared_types, FieldBinding, FieldBindingView};
use crate::tree::Mode;
use vstd::prelude::*;
use vstd::string::*;

verus! {

/// The obligation that the type `ty` has a representation.
pub open spec fn obligation(ty: Seq<char>) -> Seq<char> {
    ty + " : ::generics::Generic"@
}

/// The obligations that the fields give rise to: one per field, in order,
/// where fields are converted through their representations; none where
/// their declared types are taken as leaves.
pub open spec fn obligations(fields: Seq<FieldBindingView>, mode: Mode) -> Seq<Seq<char>> {
    match mode {
        Mode::Shallow => Seq::empty(),
        Mode::Recursive => declared_types(fields).map_values(|ty: Seq<char>| obligation(ty)),
    }
}

/// The constraints of the derived implementation: the obligations of the
/// fields, then the constraints that were there before.
pub open spec fn combined_constraints(
    fields: Seq<FieldBindingView>,
    mode: Mode,
    existing: Seq<Seq<char>>,
) -> Seq<Seq<char>> {
    obligations(fields, mode) + existing
}

/// The clause that states `constraints`: the keyword, then each constraint
/// followed by a comma.
pub open spec fn where_clause_text(constraints: Seq<Seq<char>>) -> Seq<char>
    decreases constraints.len(),
{
    if constraints.len() == 0 {
        "where"@
    } else {
        where_clause_text(constraints.drop_last()) + " "@ + constraints.last() + ","@
    }
}

/// Nothing is lost in the merge. Where fields are converted through their
/// representations, the combined constraints hold an obligation on the
/// declared type of every field; in either mode they hold every constraint
/// that was there before, unchanged and in its order, after the obligations.
pub proof fn lemma_constraints_propagated(
    fields: Seq<FieldBindingView>,
    mode: Mode,
    existing: Seq<Seq<char>>,
)
    ensures
        mode == Mode::Recursive ==> forall|i: int|
            0 <= i < fields.len() ==> #[trigger] combined_constraints(fields, mode, existing)[i]
                == obligation(fields[i].ty),
        mode == Mode::Recursive ==> forall|i: int|
            0 <= i < fields.len() ==> combined_constraints(fields, mode, existing).contains(
                #[trigger] obligation(fields[i].ty),
            ),
        forall|j: int|
            0 <= j < existing.len() ==> combined_constraints(fields, mode, existing).contains(
                #[trigger] existing[j],
            ),
        combined_constraints(fields, mode, existing).len() == obligations(fields, mode).len()
            + existing.len(),
        combined_constraints(fields, mode, existing).skip(obligations(fields, mode).len() as int)
            == existing,
        mode == Mode::Shallow ==> combined_constraints(fields, mode, existing) == existing,
{
    let own = obligations(fields, mode);
    let combined = combined_constraints(fields, mode, existing);
    assert(combined.skip(own.len() as int) =~= existing);
    if mode == Mode::Shallow {
        assert(combined =~= existing);
    }
    assert forall|j: int| 0 <= j < existing.len() implies combined.contains(
        #[trigger] existing[j],
    ) by {
        assert(combined[own.len() + j] == existing[j]);
    }
    if mode == Mode::Recursive {
        assert forall|i: int| 0 <= i < fields.len() implies combined.contains(
            #[trigger] obligation(fields[i].ty),
        ) by {
            assert(combined[i] == obligation(fields[i].ty));
        }
    }
}

/// Computes the constraints of the derived implementation from the
/// enumerated fields and the constraints of the type's declaration.
pub fn propagate_constraints(
    fields: &Vec<FieldBinding>,
    mode: Mode,
    existing: &Vec<String>,
) -> (combined: Vec<String>)
    ensures
        texts(combined@) == combined_constraints(bindings_view(fields@), mode, texts(existing@)),
{
    let ghost own = obligations(bindings_view(fields@), mode);
    let mut combined: Vec<String> = Vec::new();
    match mode {
        Mode::Shallow => {},
        Mode::Recursive => {
            let mut i: usize = 0;
            while i < fields.len()
                invariant
                    i <= fields.len(),
                    mode == Mode::Recursive,
                    own == obligations(bindings_view(fields@), mode),
                    combined@.len() == i,
                    forall|k: int| 0 <= k < i ==> (#[trigger] combined@[k])@ == own[k],
                decreases fields.len() - i,
            {
                let mut text = fields[i].ty.clone();
                text.append(" : ::generics::Generic");
                combined.push(text);
                i += 1;
            }
        },
    }
    assert(texts(combined@) =~= own);
    let mut j: usize = 0;
    while j < existing.len()
        invariant
            j <= existing.len(),
            combined@.len() == own.len() + j,
            forall|k: int| 0 <= k < own.len() ==> (#[trigger] combined@[k])@ == own[k],
            forall|k: int| 0 <= k < j ==> (#[trigger] combined@[own.len() + k])@ == existing@[k]@,
        decreases existing.len() - j,
    {
        combined.push(existing[j].clone());
        j += 1;
    }
    assert(texts(combined@) =~= own + texts(existing@)) by {
        assert forall|k: int| 0 <= k < combined@.len() implies texts(combined@)[k] == (own + texts(
            existing@,
        ))[k] by {
            if k >= own.len() {
                assert(combined@[own.len() + (k - own.len())]@ == existing@[k - own.len()]@);
            }
        }
    }
    combined
}

/// Writes the clause that states `constraints`.
pub fn render_where_clause(constraints: &Vec<String>) -> (text: String)
    ensures
        text@ == where_clause_text(texts(constraints@)),
{
    let ghost all = texts(constraints@);
    let mut text = String::from_str("where");
    let mut i: usize = 0;
    assert(all.take(0) =~= Seq::empty());
    while i < constraints.len()
        invariant
            i <= constraints.len(),
            all == texts(constraints@),
            text@ == where_clause_text(all.take(i as int)),
        decreases constraints.len() - i,
    {
        proof {
            let longer = all.take(i + 1);
            assert(longer.drop_last() =~= all.take(i as int));
            assert(longer.last() == constraints@[i as int]@);
        }
        text.append(" ");
        text.append(constraints[i].as_str());
        text.append(",");
        i += 1;
    }
    assert(all.take(i as int) =~= all);
    text
}

} // verus!
