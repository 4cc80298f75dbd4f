//! The representation builder: it folds the fields of a record, left to
//! right, into a tree of nested products over an empty anchor. Also the
//! metadata wrapper, which puts a compile-time tag round any node of such a
//! tree.

use crate::fields::{bindings_view, declared_types, FieldBinding, FieldBindingView};
use vstd::prelude::*;
use vstd::string::*;

verus! {

/// A structural representation: a tree of four kinds of node over leaves.
#[derive(Debug, PartialEq, Eq)]
pub enum RepresentationNode {
    /// The representation of no fields at all.
    Empty,
    /// What has been accumulated so far, and one more field.
    Product(Box<RepresentationNode>, Box<RepresentationNode>),
    /// One of two alternatives.
    Sum(Box<RepresentationNode>, Box<RepresentationNode>),
    /// A node under a marker type that carries compile-time data.
    Tagged(Box<RepresentationNode>, String),
    /// A type expression that the tree does not look into.
    Leaf(String),
}

/// The mathematical content of a `RepresentationNode`.
pub enum ReprTree {
    Empty,
    Product(Box<ReprTree>, Box<ReprTree>),
    Sum(Box<ReprTree>, Box<ReprTree>),
    Tagged(Box<ReprTree>, Seq<char>),
    Leaf(Seq<char>),
}

/// The tree that a node stands for.
pub open spec fn tree_of(node: RepresentationNode) -> ReprTree
    decreases node,
{
    match node {
        RepresentationNode::Empty => ReprTree::Empty,
        RepresentationNode::Product(left, right) => ReprTree::Product(
            Box::new(tree_of(*left)),
            Box::new(tree_of(*right)),
        ),
        RepresentationNode::Sum(left, right) => ReprTree::Sum(
            Box::new(tree_of(*left)),
            Box::new(tree_of(*right)),
        ),
        RepresentationNode::Tagged(inner, marker) => ReprTree::Tagged(
            Box::new(tree_of(*inner)),
            marker@,
        ),
        RepresentationNode::Leaf(ty) => ReprTree::Leaf(ty@),
    }
}

impl View for RepresentationNode {
    type V = ReprTree;

    open spec fn view(&self) -> ReprTree {
        tree_of(*self)
    }
}

/// What a field contributes to the representation of its record.
#[derive(Clone, Copy, Debug, PartialEq, Eq, Structural)]
pub enum Mode {
    /// The field's declared type itself. Right only for fields whose types
    /// are already representation leaves.
    Shallow,
    /// The representation of the field's type, so that nested records
    /// decompose all the way down to primitive leaves.
    Recursive,
}

/// The leaf that a field of type `ty` contributes.
pub open spec fn leaf_type(mode: Mode, ty: Seq<char>) -> Seq<char> {
    match mode {
        Mode::Shallow => ty,
        Mode::Recursive => "<"@ + ty + " as ::generics::Generic>::Repr"@,
    }
}

/// The leaves that the fields contribute, in order.
pub open spec fn leaf_types(mode: Mode, fields: Seq<FieldBindingView>) -> Seq<Seq<char>> {
    declared_types(fields).map_values(|ty: Seq<char>| leaf_type(mode, ty))
}

/// The left fold of `leaves` into products over the empty anchor:
/// `Product(Product(Empty, l0), l1)` and so on.
pub open spec fn product_fold(leaves: Seq<Seq<char>>) -> ReprTree
    decreases leaves.len(),
{
    if leaves.len() == 0 {
        ReprTree::Empty
    } else {
        ReprTree::Product(
            Box::new(product_fold(leaves.drop_last())),
            Box::new(ReprTree::Leaf(leaves.last())),
        )
    }
}

/// The representation of a record with the given fields.
pub open spec fn representation_of(fields: Seq<FieldBindingView>, mode: Mode) -> ReprTree {
    product_fold(leaf_types(mode, fields))
}

impl ReprTree {
    /// The leaves of the tree, from left to right.
    pub open spec fn leaves(self) -> Seq<Seq<char>>
        decreases self,
    {
        match self {
            ReprTree::Empty => Seq::empty(),
            ReprTree::Product(left, right) => left.leaves() + right.leaves(),
            ReprTree::Sum(left, right) => left.leaves() + right.leaves(),
            ReprTree::Tagged(inner, _) => inner.leaves(),
            ReprTree::Leaf(ty) => seq![ty],
        }
    }

    /// How many products are nested along the left edge of the tree.
    pub open spec fn product_depth(self) -> nat
        decreases self,
    {
        match self {
            ReprTree::Product(left, _) => 1 + left.product_depth(),
            _ => 0,
        }
    }

    /// Whether the tree has the shape of a record: the empty anchor, or a
    /// product of such a tree and one leaf.
    pub open spec fn is_record(self) -> bool
        decreases self,
    {
        match self {
            ReprTree::Empty => true,
            ReprTree::Product(left, right) => left.is_record() && *right is Leaf,
            _ => false,
        }
    }

    /// The tree without its tags: every tagged node replaced by what it
    /// wraps.
    pub open spec fn erase_tags(self) -> ReprTree
        decreases self,
    {
        match self {
            ReprTree::Empty => ReprTree::Empty,
            ReprTree::Product(left, right) => ReprTree::Product(
                Box::new(left.erase_tags()),
                Box::new(right.erase_tags()),
            ),
            ReprTree::Sum(left, right) => ReprTree::Sum(
                Box::new(left.erase_tags()),
                Box::new(right.erase_tags()),
            ),
            ReprTree::Tagged(inner, _) => inner.erase_tags(),
            ReprTree::Leaf(ty) => ReprTree::Leaf(ty),
        }
    }

    /// Whether the tree holds no tagged node.
    pub open spec fn tag_free(self) -> bool
        decreases self,
    {
        match self {
            ReprTree::Empty => true,
            ReprTree::Product(left, right) => left.tag_free() && right.tag_free(),
            ReprTree::Sum(left, right) => left.tag_free() && right.tag_free(),
            ReprTree::Tagged(_, _) => false,
            ReprTree::Leaf(_) => true,
        }
    }

    /// The type expression that denotes the tree.
    pub open spec fn type_text(self) -> Seq<char>
        decreases self,
    {
        match self {
            ReprTree::Empty => "::generics::Unit"@,
            ReprTree::Product(left, right) => "::generics::Prod<"@ + left.type_text() + ", "@
                + right.type_text() + ">"@,
            ReprTree::Sum(left, right) => "::generics::Sum<"@ + left.type_text() + ", "@
                + right.type_text() + ">"@,
            ReprTree::Tagged(inner, marker) => "::generics::Meta<"@ + inner.type_text() + ", "@
                + marker + ">"@,
            ReprTree::Leaf(ty) => ty,
        }
    }
}

/// The shape of a derived representation: with no leaves the fold is the
/// empty anchor alone; otherwise it is a record tree with one product per
/// leaf, nested to the left, and its leaves are the given ones in their
/// order.
pub proof fn lemma_product_fold_shape(leaves: Seq<Seq<char>>)
    ensures
        leaves.len() == 0 <==> product_fold(leaves) == ReprTree::Empty,
        product_fold(leaves).is_record(),
        product_fold(leaves).product_depth() == leaves.len(),
        product_fold(leaves).leaves() == leaves,
        product_fold(leaves).tag_free(),
    decreases leaves.len(),
{
    if leaves.len() > 0 {
        lemma_product_fold_shape(leaves.drop_last());
        let last = ReprTree::Leaf(leaves.last());
        assert(last.leaves() == seq![leaves.last()]);
        assert(last.tag_free());
        assert(leaves.drop_last() + seq![leaves.last()] =~= leaves);
    } else {
        assert(leaves =~= Seq::empty());
    }
}

/// A record tree is determined by its leaves: it is their fold.
pub proof fn lemma_record_tree_is_fold(tree: ReprTree)
    requires
        tree.is_record(),
    ensures
        tree == product_fold(tree.leaves()),
    decreases tree,
{
    match tree {
        ReprTree::Product(left, right) => {
            lemma_record_tree_is_fold(*left);
            let leaves = tree.leaves();
            assert(right.leaves() =~= seq![(*right)->Leaf_0]);
            assert(leaves.drop_last() =~= left.leaves());
            assert(leaves.last() == (*right)->Leaf_0);
        },
        _ => {},
    }
}

/// The representation of a record with N fields is a record tree of N nested
/// products whose leaves are what the fields contribute, in declaration
/// order; without fields it is the empty anchor.
pub proof fn lemma_representation_shape(fields: Seq<FieldBindingView>, mode: Mode)
    ensures
        fields.len() == 0 <==> representation_of(fields, mode) == ReprTree::Empty,
        representation_of(fields, mode).is_record(),
        representation_of(fields, mode).product_depth() == fields.len(),
        representation_of(fields, mode).leaves() == leaf_types(mode, fields),
        forall|i: int|
            0 <= i < fields.len() ==> #[trigger] representation_of(fields, mode).leaves()[i]
                == leaf_type(mode, fields[i].ty),
{
    lemma_product_fold_shape(leaf_types(mode, fields));
}

/// A tag changes nothing but itself: the tagged tree has the leaves of what
/// it wraps, and once the tags are erased the two are the same tree.
pub proof fn lemma_tag_transparent(inner: ReprTree, marker: Seq<char>)
    ensures
        ReprTree::Tagged(Box::new(inner), marker).leaves() == inner.leaves(),
        ReprTree::Tagged(Box::new(inner), marker).erase_tags() == inner.erase_tags(),
{
}

/// Erasing the tags keeps the leaves, leaves a tag-free tree, and does
/// nothing to a tree that has none.
pub proof fn lemma_erase_tags(tree: ReprTree)
    ensures
        tree.erase_tags().leaves() == tree.leaves(),
        tree.erase_tags().tag_free(),
        tree.tag_free() ==> tree.erase_tags() == tree,
    decreases tree,
{
    match tree {
        ReprTree::Product(left, right) => {
            lemma_erase_tags(*left);
            lemma_erase_tags(*right);
        },
        ReprTree::Sum(left, right) => {
            lemma_erase_tags(*left);
            lemma_erase_tags(*right);
        },
        ReprTree::Tagged(inner, _) => {
            lemma_erase_tags(*inner);
        },
        _ => {},
    }
}

/// Writes the leaf that a field of type `ty` contributes.
pub fn leaf(mode: Mode, ty: &str) -> (node: RepresentationNode)
    ensures
        node@ == ReprTree::Leaf(leaf_type(mode, ty@)),
{
    match mode {
        Mode::Shallow => RepresentationNode::Leaf(String::from_str(ty)),
        Mode::Recursive => {
            let mut text = String::from_str("<");
            text.append(ty);
            text.append(" as ::generics::Generic>::Repr");
            RepresentationNode::Leaf(text)
        },
    }
}

/// Builds the representation of a record from its enumerated fields: the
/// left fold of their leaves into products, starting from the empty anchor.
pub fn build_representation(fields: &Vec<FieldBinding>, mode: Mode) -> (tree: RepresentationNode)
    ensures
        tree@ == representation_of(bindings_view(fields@), mode),
{
    let ghost leaves = leaf_types(mode, bindings_view(fields@));
    let mut tree = RepresentationNode::Empty;
    let mut i: usize = 0;
    assert(leaves.take(0) =~= Seq::empty());
    while i < fields.len()
        invariant
            i <= fields.len(),
            leaves == leaf_types(mode, bindings_view(fields@)),
            tree@ == product_fold(leaves.take(i as int)),
        decreases fields.len() - i,
    {
        let next = leaf(mode, fields[i].ty.as_str());
        proof {
            let longer = leaves.take(i + 1);
            assert(longer.drop_last() =~= leaves.take(i as int));
            assert(longer.last() == leaf_type(mode, fields@[i as int]@.ty));
        }
        tree = RepresentationNode::Product(Box::new(tree), Box::new(next));
        i += 1;
    }
    assert(leaves.take(i as int) =~= leaves);
    tree
}

impl Clone for RepresentationNode {
    fn clone(&self) -> (copy: RepresentationNode)
        ensures
            copy@ == self@,
        decreases self,
    {
        match self {
            RepresentationNode::Empty => RepresentationNode::Empty,
            RepresentationNode::Product(left, right) => RepresentationNode::Product(
                Box::new((**left).clone()),
                Box::new((**right).clone()),
            ),
            RepresentationNode::Sum(left, right) => RepresentationNode::Sum(
                Box::new((**left).clone()),
                Box::new((**right).clone()),
            ),
            RepresentationNode::Tagged(inner, marker) => RepresentationNode::Tagged(
                Box::new((**inner).clone()),
                marker.clone(),
            ),
            RepresentationNode::Leaf(ty) => RepresentationNode::Leaf(ty.clone()),
        }
    }
}

impl RepresentationNode {
    /// Writes the type expression that denotes the tree.
    pub fn render_type(&self) -> (text: String)
        ensures
            text@ == self@.type_text(),
        decreases self,
    {
        match self {
            RepresentationNode::Empty => String::from_str("::generics::Unit"),
            RepresentationNode::Product(left, right) => {
                let mut text = String::from_str("::generics::Prod<");
                text.append(left.render_type().as_str());
                text.append(", ");
                text.append(right.render_type().as_str());
                text.append(">");
                text
            },
            RepresentationNode::Sum(left, right) => {
                let mut text = String::from_str("::generics::Sum<");
                text.append(left.render_type().as_str());
                text.append(", ");
                text.append(right.render_type().as_str());
                text.append(">");
                text
            },
            RepresentationNode::Tagged(inner, marker) => {
                let mut text = String::from_str("::generics::Meta<");
                text.append(inner.render_type().as_str());
                text.append(", ");
                text.append(marker.as_str());
                text.append(">");
                text
            },
            RepresentationNode::Leaf(ty) => ty.clone(),
        }
    }

    /// Wraps the tree in a tag whose marker type is `marker`.
    pub fn tagged(self, marker: String) -> (node: RepresentationNode)
        ensures
            node@ == ReprTree::Tagged(Box::new(self@), marker@),
    {
        RepresentationNode::Tagged(Box::new(self), marker)
    }

    /// The marker of the tag at the root, if the root is tagged.
    pub fn marker(&self) -> (found: Option<&String>)
        ensures
            match self@ {
                ReprTree::Tagged(_, marker) => found.is_some() && found.unwrap()@ == marker,
                _ => found.is_none(),
            },
    {
        match self {
            RepresentationNode::Tagged(_, marker) => Some(marker),
            _ => None,
        }
    }

    /// Removes every tag from the tree, for algorithms that do not care for
    /// the metadata.
    pub fn strip_tags(self) -> (node: RepresentationNode)
        ensures
            node@ == self@.erase_tags(),
        decreases self,
    {
        match self {
            RepresentationNode::Empty => RepresentationNode::Empty,
            RepresentationNode::Product(left, right) => RepresentationNode::Product(
                Box::new((*left).strip_tags()),
                Box::new((*right).strip_tags()),
            ),
            RepresentationNode::Sum(left, right) => RepresentationNode::Sum(
                Box::new((*left).strip_tags()),
                Box::new((*right).strip_tags()),
            ),
            RepresentationNode::Tagged(inner, _) => (*inner).strip_tags(),
            RepresentationNode::Leaf(ty) => RepresentationNode::Leaf(ty),
        }
    }
}

} // verus!
