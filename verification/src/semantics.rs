//! A model of the two conversions, and the proof that in the model
//! reconstruction undoes decomposition.
//!
//! In the model a record is a sequence of field values, a representation is
//! a tree of values, and the scratch identifiers of the enumeration are names
//! in an environment. Decomposition binds the converted field values to the
//! identifiers and evaluates the folded structure; reconstruction matches the
//! same structure against a representation, converts what the identifiers
//! are bound to back, and reads the fields off in order.
//!
//! The model is written after the bodies that the emitter writes, statement
//! by statement. What is proved here is proved of the model. That the
//! emitted text, once compiled, computes what the model computes is not
//! proved: the meaning of that text lies with the compiler.

use crate::fields::distinct;
use crate::tree::ReprTree;
use vstd::prelude::*;

verus! {

/// A value of a representation: the empty anchor, a product of two values,
/// a value under a tag, or the value of a leaf. A tag has no value of its
/// own: its marker lives in the type.
pub enum ReprValue<R> {
    Empty,
    Product(Box<ReprValue<R>>, Box<ReprValue<R>>),
    Tagged(Box<ReprValue<R>>),
    Leaf(R),
}

impl<R> ReprValue<R> {
    /// The value under a tag.
    pub open spec fn wrap(self) -> ReprValue<R> {
        ReprValue::Tagged(Box::new(self))
    }

    /// The value without the tag at its root, if there is one.
    pub open spec fn unwrap(self) -> ReprValue<R> {
        match self {
            ReprValue::Tagged(inner) => *inner,
            _ => self,
        }
    }

    /// What the value holds: the values of its leaves, from left to right. A
    /// tag adds nothing to it.
    pub open spec fn footprint(self) -> Seq<R>
        decreases self,
    {
        match self {
            ReprValue::Empty => Seq::empty(),
            ReprValue::Product(left, right) => left.footprint() + right.footprint(),
            ReprValue::Tagged(inner) => inner.footprint(),
            ReprValue::Leaf(leaf) => seq![leaf],
        }
    }
}

/// The left fold of `values` into products over the empty anchor.
pub open spec fn product_value<R>(values: Seq<R>) -> ReprValue<R>
    decreases values.len(),
{
    if values.len() == 0 {
        ReprValue::Empty
    } else {
        ReprValue::Product(
            Box::new(product_value(values.drop_last())),
            Box::new(ReprValue::Leaf(values.last())),
        )
    }
}

/// The environment in which every name is bound to the value at its place. A
/// name that occurs again takes the later value.
pub open spec fn bind<R>(names: Seq<Seq<char>>, values: Seq<R>) -> Map<Seq<char>, R>
    decreases names.len(),
{
    if names.len() == 0 || values.len() != names.len() {
        Map::empty()
    } else {
        bind(names.drop_last(), values.drop_last()).insert(names.last(), values.last())
    }
}

/// What the names are bound to, in the order of the names.
pub open spec fn lookup<R>(names: Seq<Seq<char>>, env: Map<Seq<char>, R>) -> Seq<R> {
    names.map_values(|name: Seq<char>| env[name])
}

/// The value of the folded structure over `names` in an environment.
pub open spec fn construct<R>(names: Seq<Seq<char>>, env: Map<Seq<char>, R>) -> ReprValue<R> {
    product_value(lookup(names, env))
}

/// The environment that matching the folded structure over `names` against
/// `value` gives; `None` if the value does not have that structure.
pub open spec fn destructure<R>(names: Seq<Seq<char>>, value: ReprValue<R>) -> Option<
    Map<Seq<char>, R>,
>
    decreases names.len(),
{
    if names.len() == 0 {
        if value is Empty {
            Some(Map::empty())
        } else {
            None
        }
    } else {
        match value {
            ReprValue::Product(rest, last) => match (destructure(names.drop_last(), *rest), *last) {
                (Some(env), ReprValue::Leaf(leaf)) => Some(env.insert(names.last(), leaf)),
                _ => None,
            },
            _ => None,
        }
    }
}

/// The model of the emitted decomposition: the field values, converted by
/// `into`, are bound to the names and folded into products.
pub open spec fn decompose<F, R>(
    names: Seq<Seq<char>>,
    into: spec_fn(F) -> R,
    record: Seq<F>,
) -> ReprValue<R> {
    construct(names, bind(names, record.map_values(into)))
}

/// The model of the emitted reconstruction: the representation is matched
/// against the same fold, and what the names are bound to, converted by
/// `from`, makes up the record; `None` if the representation is not that of
/// such a record.
pub open spec fn reconstruct<F, R>(
    names: Seq<Seq<char>>,
    from: spec_fn(R) -> F,
    repr: ReprValue<R>,
) -> Option<Seq<F>> {
    match destructure(names, repr) {
        Some(env) => Some(lookup(names, env).map_values(from)),
        None => None,
    }
}

/// Whether a value has the shape that a representation describes. No value
/// of a sum is modelled.
pub open spec fn conforms<R>(value: ReprValue<R>, tree: ReprTree) -> bool
    decreases tree,
{
    match tree {
        ReprTree::Empty => value is Empty,
        ReprTree::Product(left, right) => match value {
            ReprValue::Product(first, second) => conforms(*first, *left) && conforms(
                *second,
                *right,
            ),
            _ => false,
        },
        ReprTree::Sum(_, _) => false,
        ReprTree::Tagged(inner, _) => match value {
            ReprValue::Tagged(wrapped) => conforms(*wrapped, *inner),
            _ => false,
        },
        ReprTree::Leaf(_) => value is Leaf,
    }
}

/// With names that do not collide, every name is bound to the value at its
/// own place.
pub proof fn lemma_bind_lookup<R>(names: Seq<Seq<char>>, values: Seq<R>)
    requires
        distinct(names),
        values.len() == names.len(),
    ensures
        forall|i: int|
            0 <= i < names.len() ==> bind(names, values).contains_key(#[trigger] names[i]) && bind(
                names,
                values,
            )[names[i]] == values[i],
        lookup(names, bind(names, values)) == values,
    decreases names.len(),
{
    if names.len() > 0 {
        let shorter = names.drop_last();
        lemma_bind_lookup(shorter, values.drop_last());
        assert forall|i: int| 0 <= i < names.len() implies bind(names, values).contains_key(
            #[trigger] names[i],
        ) && bind(names, values)[names[i]] == values[i] by {
            if i < names.len() - 1 {
                assert(shorter[i] == names[i]);
                assert(names[i] != names[names.len() - 1]);
            }
        }
    }
    assert(lookup(names, bind(names, values)) =~= values);
}

/// Matching the fold of some values against the fold of as many names binds
/// the names to the values.
pub proof fn lemma_destructure_product<R>(names: Seq<Seq<char>>, values: Seq<R>)
    requires
        values.len() == names.len(),
    ensures
        destructure(names, product_value(values)) == Some(bind(names, values)),
    decreases names.len(),
{
    if names.len() > 0 {
        lemma_destructure_product(names.drop_last(), values.drop_last());
    }
}

/// In the model, reconstruction undoes decomposition: for a record with one
/// value per field, names that do not collide, and conversions of the fields
/// of which the second undoes the first, reconstructing the decomposed record
/// gives the record back.
pub proof fn lemma_round_trip<F, R>(
    names: Seq<Seq<char>>,
    into: spec_fn(F) -> R,
    from: spec_fn(R) -> F,
    record: Seq<F>,
)
    requires
        distinct(names),
        record.len() == names.len(),
        forall|x: F| #[trigger] from(into(x)) == x,
    ensures
        reconstruct(names, from, decompose(names, into, record)) == Some(record),
{
    let converted = record.map_values(into);
    lemma_bind_lookup(names, converted);
    lemma_destructure_product(names, converted);
    assert(lookup(names, bind(names, converted)).map_values(from) =~= record);
}

/// In the model, decomposition undoes reconstruction on every representation
/// that a decomposition produces: reconstructing such a representation and
/// decomposing the result gives the representation back.
pub proof fn lemma_round_trip_representation<F, R>(
    names: Seq<Seq<char>>,
    into: spec_fn(F) -> R,
    from: spec_fn(R) -> F,
    record: Seq<F>,
)
    requires
        distinct(names),
        record.len() == names.len(),
        forall|x: F| #[trigger] from(into(x)) == x,
    ensures
        reconstruct(names, from, decompose(names, into, record)).is_some(),
        decompose(
            names,
            into,
            reconstruct(names, from, decompose(names, into, record)).unwrap(),
        ) == decompose(names, into, record),
{
    lemma_round_trip(names, into, from, record);
}

/// In the model, a decomposed record has the shape of the representation
/// that is built for it: the fold of one leaf per field.
pub proof fn lemma_decompose_conforms<F, R>(
    names: Seq<Seq<char>>,
    into: spec_fn(F) -> R,
    record: Seq<F>,
    leaves: Seq<Seq<char>>,
)
    requires
        leaves.len() == names.len(),
    ensures
        conforms(decompose(names, into, record), crate::tree::product_fold(leaves)),
{
    lemma_product_value_conforms(lookup(names, bind(names, record.map_values(into))), leaves);
}

/// The fold of some values has the shape of the fold of as many leaves.
pub proof fn lemma_product_value_conforms<R>(values: Seq<R>, leaves: Seq<Seq<char>>)
    requires
        values.len() == leaves.len(),
    ensures
        conforms(product_value(values), crate::tree::product_fold(leaves)),
    decreases values.len(),
{
    if values.len() > 0 {
        lemma_product_value_conforms(values.drop_last(), leaves.drop_last());
        let last: ReprValue<R> = ReprValue::Leaf(values.last());
        assert(conforms(last, ReprTree::Leaf(leaves.last())));
    }
}

/// The fold of some values holds these values, in their order, and nothing
/// else.
pub proof fn lemma_product_value_footprint<R>(values: Seq<R>)
    ensures
        product_value(values).footprint() == values,
    decreases values.len(),
{
    if values.len() > 0 {
        lemma_product_value_footprint(values.drop_last());
        let last: ReprValue<R> = ReprValue::Leaf(values.last());
        assert(last.footprint() == seq![values.last()]);
        assert(values.drop_last() + seq![values.last()] =~= values);
    } else {
        assert(values =~= Seq::empty());
    }
}

/// In the model, a decomposed record holds the converted values of its
/// fields, in declaration order, and nothing else.
pub proof fn lemma_decompose_footprint<F, R>(
    names: Seq<Seq<char>>,
    into: spec_fn(F) -> R,
    record: Seq<F>,
)
    requires
        distinct(names),
        record.len() == names.len(),
    ensures
        decompose(names, into, record).footprint() == record.map_values(into),
{
    lemma_bind_lookup(names, record.map_values(into));
    lemma_product_value_footprint(record.map_values(into));
}

/// In the model, a tag is transparent. Unwrapping a wrapped value gives the
/// value back, so whatever is reconstructed from it is reconstructed from the
/// unwrapped value too; the wrapped value holds what the value itself holds;
/// and it has the shape of the tagged representation exactly when the value
/// has the shape of the representation inside.
pub proof fn lemma_tag_transparent_value<F, R>(
    names: Seq<Seq<char>>,
    from: spec_fn(R) -> F,
    value: ReprValue<R>,
    tree: ReprTree,
    marker: Seq<char>,
)
    ensures
        value.wrap().unwrap() == value,
        reconstruct(names, from, value.wrap().unwrap()) == reconstruct(names, from, value),
        value.wrap().footprint() == value.footprint(),
        conforms(value.wrap(), ReprTree::Tagged(Box::new(tree), marker)) == conforms(value, tree),
{
}

} // verus!
