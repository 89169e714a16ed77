use itemize::assoc::{AssociatedTypes, Body, ItemsIter, RowIter, RowsIter, Side};
use itemize::attrs::{
    AttrError, AttrKey, CollectionSet, CollectionType, TraitKind, TraitVariant, TupleRange,
};
use itemize::bounds::{Predicate, Shape, Source};
use itemize::context::{Attributes, Context, DeclaredType, ParamKind, TargetParam, TypeShape};
use itemize::engine::{
    describe, generate, generate_all, generate_checked, shapes, ErrorType, TraitConfig,
};
use itemize::generics::Param;

fn declared(key: &str, shape: TypeShape) -> DeclaredType {
    DeclaredType { key: key.to_string(), shape }
}

fn context(
    types: Vec<DeclaredType>,
    tuples: Option<TupleRange>,
    collections: CollectionSet,
    fixed_error: bool,
) -> Context {
    Context {
        params: Vec::new(),
        n_predicates: 0,
        attributes: Attributes { types, tuples, collections, fixed_error },
    }
}

fn plain() -> TypeShape {
    TypeShape::Path { qself: None, args: Vec::new() }
}

fn cfg(variant: TraitVariant, kind: TraitKind) -> TraitConfig {
    TraitConfig::new(variant, kind)
}

fn only(c: CollectionType) -> CollectionSet {
    let mut set = CollectionSet::empty();
    set.insert(c);
    set
}

#[test]
fn arity_coverage_follows_the_range() {
    let range = TupleRange::new(1, 3).unwrap();
    let ctx = context(Vec::new(), Some(range), CollectionSet::empty(), false);
    let all = shapes(&ctx, TraitKind::Items);
    for n in 1..=3 {
        assert!(all.contains(&Shape::Tuple(n)));
    }
    assert!(!all.contains(&Shape::Tuple(4)));
    assert!(!all.contains(&Shape::Tuple(0)));
    assert_eq!(
        all,
        vec![Shape::Target, Shape::Tuple(1), Shape::Tuple(2), Shape::Tuple(3)]
    );
}

#[test]
fn tuple_range_forms() {
    let d = TupleRange::default_range();
    assert_eq!((d.start, d.end), (1, 6));
    assert_eq!(TupleRange::up_to(4), Ok(TupleRange { start: 1, end: 4 }));
    assert_eq!(TupleRange::exact(4), Ok(TupleRange { start: 4, end: 4 }));
    assert_eq!(TupleRange::new(2, 4), Ok(TupleRange { start: 2, end: 4 }));
    assert_eq!(TupleRange::new(4, 2), Err(AttrError::ReversedRange));
    assert_eq!(TupleRange::new(0, 2), Err(AttrError::ZeroArity));
    assert_eq!(TupleRange::exact(0), Err(AttrError::ZeroArity));
    assert_eq!(TupleRange::up_to(0), Err(AttrError::ReversedRange));
    assert_eq!(TupleRange::new(2, 4).unwrap().arities(), vec![2, 3, 4]);
    assert_eq!(TupleRange::new(2, 4).unwrap().iter().collect::<Vec<_>>(), vec![2, 3, 4]);
}

#[test]
fn keywords_are_recognised_or_refused() {
    assert_eq!(CollectionType::from_keyword("vec"), Ok(CollectionType::Vec));
    assert_eq!(CollectionType::from_keyword("slice"), Ok(CollectionType::Slice));
    assert_eq!(CollectionType::from_keyword("array"), Ok(CollectionType::Array));
    assert_eq!(CollectionType::from_keyword("list"), Err(AttrError::UnknownCollection));
    assert_eq!(CollectionType::from_keyword("Vec"), Err(AttrError::UnknownCollection));
    assert_eq!(AttrKey::from_name("types"), Ok(AttrKey::Types));
    assert_eq!(AttrKey::from_name("tuples"), Ok(AttrKey::Tuples));
    assert_eq!(AttrKey::from_name("collections"), Ok(AttrKey::Collections));
    assert_eq!(AttrKey::from_name("error_type"), Ok(AttrKey::ErrorType));
    assert_eq!(AttrKey::from_name("errors"), Err(AttrError::UnknownKey));
}

#[test]
fn collection_set_holds_each_kind_once() {
    let mut set = CollectionSet::empty();
    set.insert(CollectionType::Array);
    set.insert(CollectionType::Vec);
    set.insert(CollectionType::Array);
    assert_eq!(set.kinds(), vec![CollectionType::Vec, CollectionType::Array]);
}

#[test]
fn malformed_ranges_are_refused_before_generation() {
    let reversed = context(
        Vec::new(),
        Some(TupleRange { start: 3, end: 1 }),
        CollectionSet::empty(),
        false,
    );
    let items = cfg(TraitVariant::Regular, TraitKind::Items);
    assert!(matches!(generate_checked(&reversed, items), Err(AttrError::ReversedRange)));
    let zero = context(
        Vec::new(),
        Some(TupleRange { start: 0, end: 2 }),
        CollectionSet::empty(),
        false,
    );
    assert!(matches!(generate_checked(&zero, items), Err(AttrError::ZeroArity)));
    let fine = context(Vec::new(), None, CollectionSet::empty(), false);
    assert_eq!(generate_checked(&fine, items).unwrap().len(), 1);
}

#[test]
fn scenario_specification_yields_every_shape() {
    let ctx = context(
        vec![declared("String", plain()), declared("char", plain())],
        Some(TupleRange::new(1, 2).unwrap()),
        only(CollectionType::Vec),
        false,
    );
    let items = generate(&ctx, cfg(TraitVariant::Regular, TraitKind::Items));
    let got: Vec<Shape> = items.iter().map(|d| d.shape).collect();
    assert_eq!(
        got,
        vec![
            Shape::Target,
            Shape::Declared(0),
            Shape::Declared(1),
            Shape::Tuple(1),
            Shape::Tuple(2),
            Shape::Collection(CollectionType::Vec),
        ]
    );
    let rows = generate(&ctx, cfg(TraitVariant::Regular, TraitKind::Rows));
    let got: Vec<Shape> = rows.iter().map(|d| d.shape).collect();
    assert_eq!(
        got,
        vec![
            Shape::Target,
            Shape::Tuple(1),
            Shape::Tuple(2),
            Shape::Collection(CollectionType::Vec),
        ]
    );
    let all = generate_all(&ctx);
    assert_eq!(all.len(), 6 + 6 + 4 + 4);
    assert_eq!(all[6].config, cfg(TraitVariant::Try, TraitKind::Items));
    assert_eq!(all[19].config, cfg(TraitVariant::Try, TraitKind::Rows));
}

#[test]
fn parameters_are_ordered_lifetimes_error_rest() {
    let mut ctx = context(Vec::new(), None, only(CollectionType::Slice), false);
    ctx.params = vec![
        TargetParam { kind: ParamKind::Type, name: "T".to_string() },
        TargetParam { kind: ParamKind::Lifetime, name: "'x".to_string() },
        TargetParam { kind: ParamKind::Const, name: "K".to_string() },
    ];
    let d = describe(
        &ctx,
        cfg(TraitVariant::Try, TraitKind::Items),
        Shape::Collection(CollectionType::Slice),
    );
    assert_eq!(
        d.generics,
        vec![
            Param::Target(1),
            Param::Borrow,
            Param::Error,
            Param::Target(0),
            Param::Target(2),
            Param::Elem,
        ]
    );
    assert_eq!(d.error, Some(ErrorType::Generic));
    let fixed = Context { attributes: Attributes { fixed_error: true, ..ctx.attributes }, ..ctx };
    let d = describe(
        &fixed,
        cfg(TraitVariant::Try, TraitKind::Items),
        Shape::Collection(CollectionType::Array),
    );
    assert_eq!(
        d.generics,
        vec![Param::Target(1), Param::Target(0), Param::Target(2), Param::Elem, Param::Len]
    );
    assert_eq!(d.error, Some(ErrorType::Fixed));
}

#[test]
fn lifetimes_of_a_source_type_are_added_once() {
    // &'a Wrapper<'a, 'b, (&'b str, &'c u8)> for a target that declares 'a.
    let inner = TypeShape::Tuple(vec![
        TypeShape::Ref {
            lifetime: Some("'b".to_string()),
            elem: Box::new(plain()),
        },
        TypeShape::Ref {
            lifetime: Some("'c".to_string()),
            elem: Box::new(plain()),
        },
    ]);
    let ty = TypeShape::Ref {
        lifetime: Some("'a".to_string()),
        elem: Box::new(TypeShape::Path {
            qself: None,
            args: vec![
                TypeShape::LifetimeArg("'a".to_string()),
                TypeShape::LifetimeArg("'b".to_string()),
                inner,
            ],
        }),
    };
    let mut ctx = context(vec![declared("&'a Wrapper<'a, 'b, (&'b str, &'c u8)>", ty)], None, CollectionSet::empty(), false);
    ctx.params = vec![TargetParam { kind: ParamKind::Lifetime, name: "'a".to_string() }];
    let d = describe(&ctx, cfg(TraitVariant::Regular, TraitKind::Items), Shape::Declared(0));
    assert_eq!(
        d.generics,
        vec![
            Param::Target(0),
            Param::Lifetime("'b".to_string()),
            Param::Lifetime("'c".to_string()),
        ]
    );
    assert_eq!(d.types, AssociatedTypes::Items(ItemsIter::Once));
    assert_eq!(d.body, Body::Once);
    assert_eq!(d.predicates, vec![Predicate::From(Source::Declared(0))]);
}

#[test]
fn where_clauses_keep_the_target_predicates_first() {
    let mut ctx = context(Vec::new(), Some(TupleRange::new(2, 2).unwrap()), CollectionSet::empty(), true);
    ctx.n_predicates = 1;
    let d = describe(&ctx, cfg(TraitVariant::Try, TraitKind::Items), Shape::Tuple(2));
    assert_eq!(
        d.predicates,
        vec![
            Predicate::Target(0),
            Predicate::TryFrom(Source::Position(0)),
            Predicate::ErrorInto(Source::Position(0)),
            Predicate::TryFrom(Source::Position(1)),
            Predicate::ErrorInto(Source::Position(1)),
        ]
    );
    assert_eq!(d.types, AssociatedTypes::Items(ItemsIter::Chain(2)));
    assert_eq!(d.body, Body::Chain(2));
    let d = describe(&ctx, cfg(TraitVariant::Regular, TraitKind::Items), Shape::Tuple(2));
    assert_eq!(d.types, AssociatedTypes::Items(ItemsIter::Array(2)));
    assert_eq!(d.body, Body::Array(2));
    assert_eq!(
        d.predicates,
        vec![
            Predicate::Target(0),
            Predicate::From(Source::Position(0)),
            Predicate::From(Source::Position(1)),
        ]
    );
}

#[test]
fn tuple_rows_use_a_nested_sum_and_matching_tags() {
    let ctx = context(Vec::new(), Some(TupleRange::exact(3).unwrap()), CollectionSet::empty(), false);
    let d = describe(&ctx, cfg(TraitVariant::Regular, TraitKind::Rows), Shape::Tuple(3));
    let sum = RowIter::Either(
        Source::Position(0),
        Box::new(RowIter::Either(
            Source::Position(1),
            Box::new(RowIter::Nested(Source::Position(2))),
        )),
    );
    assert_eq!(d.types, AssociatedTypes::Rows(sum, RowsIter::Array(3)));
    assert_eq!(
        d.body,
        Body::TupleRows(vec![
            vec![Side::Left],
            vec![Side::Right, Side::Left],
            vec![Side::Right, Side::Right],
        ])
    );
    assert_eq!(
        d.predicates,
        vec![
            Predicate::Items(Source::Position(0)),
            Predicate::Items(Source::Position(1)),
            Predicate::Items(Source::Position(2)),
        ]
    );
    let one = describe(&ctx, cfg(TraitVariant::Try, TraitKind::Rows), Shape::Tuple(1));
    assert_eq!(
        one.types,
        AssociatedTypes::Rows(RowIter::Nested(Source::Position(0)), RowsIter::Array(1))
    );
    assert_eq!(one.body, Body::TupleRows(vec![vec![]]));
    assert_eq!(one.predicates, vec![Predicate::TryItems(Source::Position(0))]);
}

#[test]
fn collection_rows_flatten_each_element() {
    let ctx = context(Vec::new(), None, only(CollectionType::Slice), false);
    let d = describe(
        &ctx,
        cfg(TraitVariant::Try, TraitKind::Rows),
        Shape::Collection(CollectionType::Slice),
    );
    assert_eq!(
        d.types,
        AssociatedTypes::Rows(
            RowIter::Nested(Source::BorrowedElem),
            RowsIter::Mapped(CollectionType::Slice)
        )
    );
    assert_eq!(d.predicates, vec![Predicate::TryItems(Source::BorrowedElem)]);
    assert_eq!(d.body, Body::MapElems(CollectionType::Slice));
    let target = describe(&ctx, cfg(TraitVariant::Regular, TraitKind::Rows), Shape::Target);
    assert_eq!(target.types, AssociatedTypes::Rows(RowIter::Once, RowsIter::Once));
    assert_eq!(target.body, Body::OnceRow);
    assert!(target.predicates.is_empty());
}

#[test]
fn a_type_declared_twice_is_described_once() {
    let ctx = context(
        vec![
            declared("String", plain()),
            declared("char", plain()),
            declared("String", plain()),
        ],
        None,
        CollectionSet::empty(),
        false,
    );
    assert_eq!(
        shapes(&ctx, TraitKind::Items),
        vec![Shape::Target, Shape::Declared(0), Shape::Declared(1)]
    );
}

#[test]
fn lifetimes_in_bounds_and_fn_pointers_are_found() {
    // Box<dyn Fn(&'x u8) -> &'y u8 + 'z>
    let ty = TypeShape::Path {
        qself: None,
        args: vec![TypeShape::Bounds(vec![
            TypeShape::Path {
                qself: None,
                args: vec![TypeShape::FnPtr(vec![
                    TypeShape::Ref { lifetime: Some("'x".to_string()), elem: Box::new(plain()) },
                    TypeShape::Ref { lifetime: Some("'y".to_string()), elem: Box::new(plain()) },
                ])],
            },
            TypeShape::LifetimeArg("'z".to_string()),
        ])],
    };
    let ctx = context(vec![declared("boxed", ty)], None, CollectionSet::empty(), false);
    let d = describe(&ctx, cfg(TraitVariant::Regular, TraitKind::Items), Shape::Declared(0));
    assert_eq!(
        d.generics,
        vec![
            Param::Lifetime("'x".to_string()),
            Param::Lifetime("'y".to_string()),
            Param::Lifetime("'z".to_string()),
        ]
    );
}
