use generics::constraints::{propagate_constraints, render_where_clause};
use generics::conversion::{
    emit_conversions, render_conversions, render_record, render_structure, ConversionPair,
};
use generics::derivation::{
    derive_generic, derive_implementation, render_generics, render_implementation,
};
use generics::descriptor::{DeriveError, FieldDescriptor, Shape, TypeDescriptor, TypeParameter};
use generics::fields::{enumerate_fields, FieldBinding};
use generics::tree::{build_representation, leaf, Mode, RepresentationNode};

fn named(name: &str, ty: &str) -> FieldDescriptor {
    FieldDescriptor { name: Some(name.to_string()), ty: ty.to_string() }
}

fn positional(ty: &str) -> FieldDescriptor {
    FieldDescriptor { name: None, ty: ty.to_string() }
}

fn record(name: &str, shape: Shape, fields: Vec<FieldDescriptor>) -> TypeDescriptor {
    TypeDescriptor { name: name.to_string(), params: vec![], constraints: vec![], fields, shape }
}

fn binding(accessor: &str, binding: &str, ty: &str) -> FieldBinding {
    FieldBinding {
        accessor: accessor.to_string(),
        binding: binding.to_string(),
        ty: ty.to_string(),
    }
}

fn pair() -> TypeDescriptor {
    record("Pair", Shape::NamedRecord, vec![named("left", "u8"), named("right", "Inner")])
}

fn boxed_leaf(ty: &str) -> Box<RepresentationNode> {
    Box::new(RepresentationNode::Leaf(ty.to_string()))
}

#[test]
fn opaque_union_is_unsupported() {
    let descriptor = record("Bits", Shape::OpaqueUnion, vec![named("word", "u32")]);
    assert_eq!(descriptor.check(), Err(DeriveError::UnsupportedShape));
    assert_eq!(derive_generic(&descriptor), Err(DeriveError::UnsupportedShape));
    assert_eq!(derive_implementation(&descriptor), Err(DeriveError::UnsupportedShape));
}

#[test]
fn tagged_union_is_not_yet_implemented() {
    let descriptor = record("Choice", Shape::TaggedUnion, vec![]);
    assert_eq!(descriptor.check(), Err(DeriveError::NotYetImplemented));
    assert_eq!(derive_generic(&descriptor), Err(DeriveError::NotYetImplemented));
    assert_eq!(derive_implementation(&descriptor), Err(DeriveError::NotYetImplemented));
}

#[test]
fn fields_that_disagree_with_the_shape_are_malformed() {
    let unnamed_in_named =
        record("A", Shape::NamedRecord, vec![named("a", "u8"), positional("u8")]);
    let named_in_positional =
        record("B", Shape::PositionalRecord, vec![positional("u8"), named("b", "u8")]);
    let fields_in_empty = record("C", Shape::EmptyRecord, vec![positional("u8")]);
    for descriptor in [unnamed_in_named, named_in_positional, fields_in_empty] {
        assert!(!descriptor.is_well_formed());
        assert_eq!(descriptor.check(), Err(DeriveError::MalformedInput));
        assert_eq!(derive_generic(&descriptor), Err(DeriveError::MalformedInput));
        assert_eq!(derive_implementation(&descriptor), Err(DeriveError::MalformedInput));
    }
}

#[test]
fn records_that_agree_with_their_shape_are_well_formed() {
    assert!(pair().is_well_formed());
    assert_eq!(pair().check(), Ok(()));
    assert!(record("E", Shape::NamedRecord, vec![]).is_well_formed());
    assert!(record("E", Shape::PositionalRecord, vec![]).is_well_formed());
    assert!(record("E", Shape::EmptyRecord, vec![]).is_well_formed());
    assert!(record("P", Shape::PositionalRecord, vec![positional("u8")]).is_well_formed());
    // A union's fields are not looked at.
    assert!(record("U", Shape::OpaqueUnion, vec![named("a", "u8"), positional("u8")])
        .is_well_formed());
}

#[test]
fn messages_name_the_type_and_the_shape() {
    assert_eq!(
        DeriveError::UnsupportedShape.message("Bits"),
        "`Generic` cannot be derived for `Bits`: unions have no structural representation"
    );
    assert_eq!(
        DeriveError::NotYetImplemented.message("Choice"),
        "`Generic` cannot be derived for `Choice`: tagged unions are not implemented yet"
    );
    assert_eq!(
        DeriveError::MalformedInput.message("A"),
        "`Generic` cannot be derived for `A`: its fields do not agree with its shape"
    );
}

#[test]
fn enumeration_keeps_names_and_order() {
    assert_eq!(
        enumerate_fields(&pair()),
        vec![binding("left", "_0", "u8"), binding("right", "_1", "Inner")]
    );
    assert_eq!(enumerate_fields(&record("E", Shape::EmptyRecord, vec![])), vec![]);
}

#[test]
fn enumeration_counts_in_decimal() {
    let fields: Vec<FieldDescriptor> = (0..12).map(|_| positional("u8")).collect();
    let bindings = enumerate_fields(&record("Wide", Shape::PositionalRecord, fields));
    assert_eq!(bindings.len(), 12);
    for (index, bound) in bindings.iter().enumerate() {
        assert_eq!(bound.accessor, format!("{}", index));
        assert_eq!(bound.binding, format!("_{}", index));
        assert_eq!(bound.ty, "u8");
    }
    assert_eq!(bindings[9].accessor, "9");
    assert_eq!(bindings[10].accessor, "10");
    assert_eq!(bindings[11].binding, "_11");
}

#[test]
fn scratch_identifiers_do_not_collide() {
    let fields: Vec<FieldDescriptor> = (0..120).map(|_| positional("u8")).collect();
    let bindings = enumerate_fields(&record("Wide", Shape::PositionalRecord, fields));
    for (i, first) in bindings.iter().enumerate() {
        for second in bindings.iter().skip(i + 1) {
            assert_ne!(first.binding, second.binding);
        }
    }
}

#[test]
fn a_field_may_be_named_like_a_scratch_identifier() {
    let descriptor = record("Odd", Shape::NamedRecord, vec![named("_1", "u8"), named("_0", "u8")]);
    let derivation = derive_generic(&descriptor).unwrap();
    assert_eq!(
        derivation.conversions.decompose,
        "let Self { _1: _0, _0: _1 } = self; \
         let _0 = ::generics::Generic::into_repr(_0); \
         let _1 = ::generics::Generic::into_repr(_1); \
         ::generics::Prod(::generics::Prod(::generics::Unit, _0), _1)"
    );
}

#[test]
fn leaves_by_mode() {
    assert_eq!(leaf(Mode::Shallow, "u8"), RepresentationNode::Leaf("u8".to_string()));
    assert_eq!(
        leaf(Mode::Recursive, "Vec<u8>"),
        RepresentationNode::Leaf("<Vec<u8> as ::generics::Generic>::Repr".to_string())
    );
}

#[test]
fn representation_is_a_left_fold() {
    let fields = enumerate_fields(&pair());
    assert_eq!(
        build_representation(&fields, Mode::Shallow),
        RepresentationNode::Product(
            Box::new(RepresentationNode::Product(
                Box::new(RepresentationNode::Empty),
                boxed_leaf("u8"),
            )),
            boxed_leaf("Inner"),
        )
    );
    assert_eq!(
        build_representation(&fields, Mode::Recursive),
        RepresentationNode::Product(
            Box::new(RepresentationNode::Product(
                Box::new(RepresentationNode::Empty),
                boxed_leaf("<u8 as ::generics::Generic>::Repr"),
            )),
            boxed_leaf("<Inner as ::generics::Generic>::Repr"),
        )
    );
    assert_eq!(build_representation(&vec![], Mode::Recursive), RepresentationNode::Empty);
    assert_eq!(build_representation(&vec![], Mode::Shallow), RepresentationNode::Empty);
}

#[test]
fn one_field_is_one_product() {
    let fields = vec![binding("0", "_0", "u8")];
    assert_eq!(
        build_representation(&fields, Mode::Shallow),
        RepresentationNode::Product(Box::new(RepresentationNode::Empty), boxed_leaf("u8"))
    );
    assert_eq!(
        build_representation(&fields, Mode::Shallow).render_type(),
        "::generics::Prod<::generics::Unit, u8>"
    );
}

#[test]
fn every_kind_of_node_has_a_type() {
    assert_eq!(RepresentationNode::Empty.render_type(), "::generics::Unit");
    assert_eq!(RepresentationNode::Leaf("u8".to_string()).render_type(), "u8");
    assert_eq!(
        RepresentationNode::Sum(boxed_leaf("u8"), boxed_leaf("u16")).render_type(),
        "::generics::Sum<u8, u16>"
    );
    assert_eq!(
        RepresentationNode::Tagged(Box::new(RepresentationNode::Empty), "Name".to_string())
            .render_type(),
        "::generics::Meta<::generics::Unit, Name>"
    );
    assert_eq!(
        RepresentationNode::Product(
            Box::new(RepresentationNode::Sum(boxed_leaf("u8"), boxed_leaf("u16"))),
            boxed_leaf("u32"),
        )
        .render_type(),
        "::generics::Prod<::generics::Sum<u8, u16>, u32>"
    );
}

#[test]
fn tags_wrap_and_come_off() {
    let tree = build_representation(&enumerate_fields(&pair()), Mode::Shallow);
    let bare = build_representation(&enumerate_fields(&pair()), Mode::Shallow);
    assert_eq!(bare.marker(), None);

    let tagged = tree.tagged("PairName".to_string());
    assert_eq!(tagged.marker(), Some(&"PairName".to_string()));
    assert_eq!(
        tagged.render_type(),
        "::generics::Meta<::generics::Prod<::generics::Prod<::generics::Unit, u8>, Inner>, \
         PairName>"
    );
    assert_eq!(tagged.strip_tags(), bare);
}

#[test]
fn tags_come_off_at_every_depth() {
    let tagged_leaf =
        Box::new(RepresentationNode::Tagged(boxed_leaf("u8"), "FieldName".to_string()));
    let tree = RepresentationNode::Tagged(
        Box::new(RepresentationNode::Sum(
            Box::new(RepresentationNode::Product(Box::new(RepresentationNode::Empty), tagged_leaf)),
            Box::new(RepresentationNode::Tagged(
                Box::new(RepresentationNode::Tagged(boxed_leaf("u16"), "Inner".to_string())),
                "Outer".to_string(),
            )),
        )),
        "TypeName".to_string(),
    );
    assert_eq!(
        tree.strip_tags(),
        RepresentationNode::Sum(
            Box::new(RepresentationNode::Product(
                Box::new(RepresentationNode::Empty),
                boxed_leaf("u8"),
            )),
            boxed_leaf("u16"),
        )
    );
}

#[test]
fn constraints_by_mode() {
    let fields = enumerate_fields(&pair());
    let existing = vec!["Inner: Clone".to_string(), "u8: Copy".to_string()];
    assert_eq!(
        propagate_constraints(&fields, Mode::Recursive, &existing),
        vec![
            "u8 : ::generics::Generic".to_string(),
            "Inner : ::generics::Generic".to_string(),
            "Inner: Clone".to_string(),
            "u8: Copy".to_string(),
        ]
    );
    assert_eq!(propagate_constraints(&fields, Mode::Shallow, &existing), existing);
    assert_eq!(propagate_constraints(&fields, Mode::Shallow, &vec![]), Vec::<String>::new());
    assert_eq!(propagate_constraints(&vec![], Mode::Recursive, &existing), existing);
}

#[test]
fn duplicate_constraints_are_kept() {
    let fields = vec![binding("a", "_0", "T"), binding("b", "_1", "T")];
    let existing = vec!["T : ::generics::Generic".to_string()];
    assert_eq!(
        propagate_constraints(&fields, Mode::Recursive, &existing),
        vec!["T : ::generics::Generic".to_string(); 3]
    );
}

#[test]
fn where_clause_lists_every_constraint() {
    assert_eq!(render_where_clause(&vec![]), "where");
    assert_eq!(render_where_clause(&vec!["T: Clone".to_string()]), "where T: Clone,");
    assert_eq!(
        render_where_clause(&vec!["T: Clone".to_string(), "U: Copy".to_string()]),
        "where T: Clone, U: Copy,"
    );
}

#[test]
fn record_and_structure_texts() {
    let fields = enumerate_fields(&pair());
    assert_eq!(render_record(&fields), "Self { left: _0, right: _1 }");
    assert_eq!(
        render_structure(&fields),
        "::generics::Prod(::generics::Prod(::generics::Unit, _0), _1)"
    );
    assert_eq!(
        render_conversions(&fields, "into_repr"),
        " let _0 = ::generics::Generic::into_repr(_0); \
         let _1 = ::generics::Generic::into_repr(_1);"
    );
    assert_eq!(render_record(&vec![]), "Self {  }");
    assert_eq!(render_structure(&vec![]), "::generics::Unit");
    assert_eq!(render_conversions(&vec![], "from_repr"), "");
    assert_eq!(render_record(&vec![binding("0", "_0", "u8")]), "Self { 0: _0 }");
}

#[test]
fn conversions_by_mode() {
    let fields = enumerate_fields(&pair());
    assert_eq!(
        emit_conversions(&fields, Mode::Shallow),
        ConversionPair {
            decompose: "let Self { left: _0, right: _1 } = self; \
                        ::generics::Prod(::generics::Prod(::generics::Unit, _0), _1)"
                .to_string(),
            reconstruct: "let ::generics::Prod(::generics::Prod(::generics::Unit, _0), _1) \
                          = repr; Self { left: _0, right: _1 }"
                .to_string(),
        }
    );
    assert_eq!(
        emit_conversions(&fields, Mode::Recursive),
        ConversionPair {
            decompose: "let Self { left: _0, right: _1 } = self; \
                        let _0 = ::generics::Generic::into_repr(_0); \
                        let _1 = ::generics::Generic::into_repr(_1); \
                        ::generics::Prod(::generics::Prod(::generics::Unit, _0), _1)"
                .to_string(),
            reconstruct: "let ::generics::Prod(::generics::Prod(::generics::Unit, _0), _1) \
                          = repr; \
                          let _0 = ::generics::Generic::from_repr(_0); \
                          let _1 = ::generics::Generic::from_repr(_1); \
                          Self { left: _0, right: _1 }"
                .to_string(),
        }
    );
}

#[test]
fn derivation_is_recursive() {
    let derivation = derive_generic(&pair()).unwrap();
    let fields = enumerate_fields(&pair());
    assert_eq!(derivation.representation, build_representation(&fields, Mode::Recursive));
    assert_eq!(derivation.constraints, propagate_constraints(&fields, Mode::Recursive, &vec![]));
    assert_eq!(derivation.conversions, emit_conversions(&fields, Mode::Recursive));
}

fn parameter(declaration: &str, name: &str) -> TypeParameter {
    TypeParameter { declaration: declaration.to_string(), name: name.to_string() }
}

#[test]
fn generics_are_declared_and_applied() {
    let params = vec![
        parameter("'a", "'a"),
        parameter("T: Clone + 'a", "T"),
        parameter("const N: usize", "N"),
    ];
    assert_eq!(render_generics(&params, true), "<'a, T: Clone + 'a, const N: usize>");
    assert_eq!(render_generics(&params, false), "<'a, T, N>");
    assert_eq!(render_generics(&vec![parameter("T", "T")], true), "<T>");
    assert_eq!(render_generics(&vec![], true), "");
    assert_eq!(render_generics(&vec![], false), "");
}

#[test]
fn implementation_is_made_of_the_derivation() {
    let descriptor = TypeDescriptor {
        name: "Wrapper".to_string(),
        params: vec![parameter("'a", "'a"), parameter("T: 'a", "T")],
        constraints: vec!["T: Clone".to_string()],
        fields: vec![positional("&'a T")],
        shape: Shape::PositionalRecord,
    };
    let derivation = derive_generic(&descriptor).unwrap();
    let text = render_implementation(&descriptor, &derivation);
    assert_eq!(
        text,
        "impl<'a, T: 'a> Generic for Wrapper<'a, T> \
         where &'a T : ::generics::Generic, T: Clone, \
         { type Repr = ::generics::Prod<::generics::Unit, \
         <&'a T as ::generics::Generic>::Repr>; \
         fn into_repr(self: Self) -> Self::Repr { \
         let Self { 0: _0 } = self; \
         let _0 = ::generics::Generic::into_repr(_0); \
         ::generics::Prod(::generics::Unit, _0) } \
         fn from_repr(repr: Self::Repr) -> Self { \
         let ::generics::Prod(::generics::Unit, _0) = repr; \
         let _0 = ::generics::Generic::from_repr(_0); \
         Self { 0: _0 } } }"
    );
    assert_eq!(derive_implementation(&descriptor), Ok(text));
}

#[test]
fn derived_texts_are_well_formed_rust() {
    let descriptor = TypeDescriptor {
        name: "Wrapper".to_string(),
        params: vec![parameter("'a", "'a"), parameter("T: 'a", "T")],
        constraints: vec!["T: Clone".to_string()],
        fields: vec![named("first", "&'a T"), named("second", "Vec<(T, u8)>")],
        shape: Shape::NamedRecord,
    };
    let derivation = derive_generic(&descriptor).unwrap();

    let ty: Result<syn::Type, _> = syn::parse_str(&derivation.representation.render_type());
    assert!(ty.is_ok());
    let clause: Result<syn::WhereClause, _> =
        syn::parse_str(&render_where_clause(&derivation.constraints));
    assert_eq!(clause.unwrap().predicates.len(), 3);

    let tokens: Result<proc_macro2::TokenStream, _> =
        derive_implementation(&descriptor).unwrap().parse();
    assert!(tokens.is_ok());
}
