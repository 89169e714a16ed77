//! Shapes of input, the source types each converts from, and the where
//! clause of one generated implementation.
use crate::attrs::{CollectionType, TraitKind, TraitVariant};
use vstd::prelude::*;

verus! {

/// The kind of input value one generated implementation accepts.
#[derive(Debug, Clone, Copy, PartialEq, Eq, Structural)]
pub enum Shape {
    /// The target itself: one value, one row of one item.
    Target,
    /// The declared source type at this index.
    Declared(usize),
    /// A tuple of this arity.
    Tuple(usize),
    /// A collection of this kind.
    Collection(CollectionType),
}

/// A type that something is converted from.
#[derive(Debug, Clone, Copy, PartialEq, Eq, Structural)]
pub enum Source {
    /// The declared source type at this index.
    Declared(usize),
    /// The placeholder type of the tuple position at this index.
    Position(usize),
    /// An owned collection element.
    Elem,
    /// A collection element borrowed for the slice's lifetime.
    BorrowedElem,
}

/// One predicate of a generated where clause. "The error type" is the fixed
/// error type or the generic error parameter.
#[derive(Debug, Clone, Copy, PartialEq, Eq, Structural)]
pub enum Predicate {
    /// The target's own predicate at this index, copied verbatim.
    Target(usize),
    /// `Target: From<Source>`.
    From(Source),
    /// `Target: TryFrom<Source>`.
    TryFrom(Source),
    /// `<Target as TryFrom<Source>>::Error: Into<the error type>`.
    ErrorInto(Source),
    /// `Source: IntoItems<Target>`.
    Items(Source),
    /// `Source: TryIntoItems<Target, the error type>`.
    TryItems(Source),
}

/// The element type a collection kind hands out.
pub open spec fn elem_source(c: CollectionType) -> Source {
    match c {
        CollectionType::Slice => Source::BorrowedElem,
        _ => Source::Elem,
    }
}

/// The source types a shape converts from, in left-to-right order.
pub open spec fn sources_spec(shape: Shape) -> Seq<Source> {
    match shape {
        Shape::Target => Seq::empty(),
        Shape::Declared(i) => seq![Source::Declared(i)],
        Shape::Tuple(n) => Seq::new(n as nat, |i: int| Source::Position(i as usize)),
        Shape::Collection(c) => seq![elem_source(c)],
    }
}

/// The bounds one source needs. Rows of a tuple or a collection come from
/// each part's own flattening; everything else converts to the target
/// directly.
pub open spec fn source_bounds(kind: TraitKind, variant: TraitVariant, shape: Shape, s: Source) -> Seq<
    Predicate,
> {
    let nested = kind == TraitKind::Rows && (shape is Tuple || shape is Collection);
    match variant {
        TraitVariant::Regular => if nested {
            seq![Predicate::Items(s)]
        } else {
            seq![Predicate::From(s)]
        },
        TraitVariant::Try => if nested {
            seq![Predicate::TryItems(s)]
        } else {
            seq![Predicate::TryFrom(s), Predicate::ErrorInto(s)]
        },
    }
}

/// The bounds of a list of sources, one source after the other.
pub open spec fn bounds_of(kind: TraitKind, variant: TraitVariant, shape: Shape, srcs: Seq<Source>) -> Seq<
    Predicate,
>
    decreases srcs.len(),
{
    if srcs.len() == 0 {
        Seq::empty()
    } else {
        bounds_of(kind, variant, shape, srcs.drop_last()) + source_bounds(
            kind,
            variant,
            shape,
            srcs.last(),
        )
    }
}

/// The full where clause: the target's own predicates, then the shape's.
pub open spec fn where_spec(n_target: nat, kind: TraitKind, variant: TraitVariant, shape: Shape) -> Seq<
    Predicate,
> {
    Seq::new(n_target, |i: int| Predicate::Target(i as usize)) + bounds_of(
        kind,
        variant,
        shape,
        sources_spec(shape),
    )
}

pub fn elem_source_of(c: CollectionType) -> (r: Source)
    ensures
        r == elem_source(c),
{
    match c {
        CollectionType::Slice => Source::BorrowedElem,
        _ => Source::Elem,
    }
}

/// The source types of a shape.
pub fn sources(shape: Shape) -> (r: Vec<Source>)
    ensures
        r@ == sources_spec(shape),
{
    let mut r: Vec<Source> = Vec::new();
    match shape {
        Shape::Target => {},
        Shape::Declared(i) => r.push(Source::Declared(i)),
        Shape::Tuple(n) => {
            let mut i: usize = 0;
            while i < n
                invariant
                    i <= n,
                    r@ == Seq::new(i as nat, |k: int| Source::Position(k as usize)),
                decreases n - i,
            {
                r.push(Source::Position(i));
                assert(r@ =~= Seq::new((i + 1) as nat, |k: int| Source::Position(k as usize)));
                i = i + 1;
            }
        },
        Shape::Collection(c) => r.push(elem_source_of(c)),
    }
    assert(r@ =~= sources_spec(shape));
    r
}

/// Appends the bounds one source needs.
fn push_source_bounds(
    kind: TraitKind,
    variant: TraitVariant,
    shape: Shape,
    s: Source,
    out: &mut Vec<Predicate>,
)
    ensures
        final(out)@ == old(out)@ + source_bounds(kind, variant, shape, s),
{
    let nested = match kind {
        TraitKind::Rows => match shape {
            Shape::Tuple(_) => true,
            Shape::Collection(_) => true,
            _ => false,
        },
        TraitKind::Items => false,
    };
    match variant {
        TraitVariant::Regular => {
            if nested {
                out.push(Predicate::Items(s));
            } else {
                out.push(Predicate::From(s));
            }
        },
        TraitVariant::Try => {
            if nested {
                out.push(Predicate::TryItems(s));
            } else {
                out.push(Predicate::TryFrom(s));
                out.push(Predicate::ErrorInto(s));
            }
        },
    }
    assert(final(out)@ =~= old(out)@ + source_bounds(kind, variant, shape, s));
}

/// The where clause of one implementation: the target's `n_target` own
/// predicates, then the bounds of each source of the shape in order.
pub fn where_clause(n_target: usize, kind: TraitKind, variant: TraitVariant, shape: Shape) -> (r: Vec<
    Predicate,
>)
    ensures
        r@ == where_spec(n_target as nat, kind, variant, shape),
{
    let mut r: Vec<Predicate> = Vec::new();
    let mut i: usize = 0;
    while i < n_target
        invariant
            i <= n_target,
            r@ == Seq::new(i as nat, |k: int| Predicate::Target(k as usize)),
        decreases n_target - i,
    {
        r.push(Predicate::Target(i));
        assert(r@ =~= Seq::new((i + 1) as nat, |k: int| Predicate::Target(k as usize)));
        i = i + 1;
    }
    let ghost own = r@;
    let srcs = sources(shape);
    let mut j: usize = 0;
    while j < srcs.len()
        invariant
            j <= srcs@.len(),
            srcs@ == sources_spec(shape),
            r@ == own + bounds_of(kind, variant, shape, srcs@.take(j as int)),
        decreases srcs@.len() - j,
    {
        assert(srcs@.take(j + 1).drop_last() =~= srcs@.take(j as int));
        push_source_bounds(kind, variant, shape, srcs[j], &mut r);
        assert(r@ =~= own + bounds_of(kind, variant, shape, srcs@.take(j + 1)));
        j = j + 1;
    }
    assert(srcs@.take(j as int) =~= srcs@);
    r
}

} // verus!
