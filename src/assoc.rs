//! The associated iterator types of one generated implementation, and the
//! body expression that produces them.
//!
//! Rows of a tuple may come from a different iterator type at each position.
//! They are unified by a nested binary sum, `Either<T0, Either<T1, ...>>`,
//! which needs no allocation; each position's row is tagged with the path of
//! `Left` and `Right` that leads to its own branch.
use crate::attrs::{CollectionType, TraitKind, TraitVariant};
use crate::bounds::{elem_source, elem_source_of, Shape, Source};
use vstd::prelude::*;

verus! {

/// The iterator of a flat conversion. Its item is the target, or a `Result`
/// of the target and the error type in a fallible conversion.
#[derive(Debug, Clone, Copy, PartialEq, Eq, Structural)]
pub enum ItemsIter {
    /// One item.
    Once,
    /// A fixed-length array of this many converted items.
    Array(usize),
    /// This many single-item iterators chained, each converting its position
    /// only when it is reached.
    Chain(usize),
    /// The collection's own iterator mapped through the conversion.
    Mapped(CollectionType),
}

/// The type of one row.
#[derive(Debug, PartialEq, Eq)]
pub enum RowIter {
    /// One item.
    Once,
    /// The flat conversion of this source.
    Nested(Source),
    /// Either the flat conversion of this source, or the rest of the sum.
    Either(Source, Box<RowIter>),
}

/// The iterator over rows.
#[derive(Debug, Clone, Copy, PartialEq, Eq, Structural)]
pub enum RowsIter {
    /// One row.
    Once,
    /// A fixed-length array of this many rows.
    Array(usize),
    /// The collection's own iterator, each element flattened into a row.
    Mapped(CollectionType),
}

/// The associated types of one implementation.
#[derive(Debug, PartialEq, Eq)]
pub enum AssociatedTypes {
    Items(ItemsIter),
    Rows(RowIter, RowsIter),
}

/// One step of the path to a branch of a nested sum.
#[derive(Debug, Clone, Copy, PartialEq, Eq, Structural)]
pub enum Side {
    Left,
    Right,
}

/// The body expression of one implementation.
#[derive(Debug, PartialEq, Eq)]
pub enum Body {
    /// One item: the conversion of `self`.
    Once,
    /// Destructure the tuple and convert every position into an array of
    /// this length.
    Array(usize),
    /// Destructure the tuple and chain this many deferred conversions,
    /// position 0 first.
    Chain(usize),
    /// One row holding one item: the conversion of `self`.
    OnceRow,
    /// Destructure the tuple; the row of position `i` is its own flat
    /// conversion wrapped in the tags at index `i`, and the rows form an
    /// array in position order.
    TupleRows(Vec<Vec<Side>>),
    /// The collection's own iteration composed with the per-element
    /// conversion (or flattening, for rows).
    MapElems(CollectionType),
}

/// The nested sum over the row types of positions `k` to `n - 1`.
pub open spec fn sum_spec(k: nat, n: nat) -> RowIter
    decreases n - k,
{
    if k + 1 >= n {
        RowIter::Nested(Source::Position(k as usize))
    } else {
        RowIter::Either(Source::Position(k as usize), Box::new(sum_spec(k + 1, n)))
    }
}

/// The tags that lead to position `i` in a sum over `n` positions.
pub open spec fn path_spec(i: nat, n: nat) -> Seq<Side>
    decreases i,
{
    if n <= 1 {
        Seq::empty()
    } else if i == 0 {
        seq![Side::Left]
    } else {
        seq![Side::Right] + path_spec((i - 1) as nat, (n - 1) as nat)
    }
}

/// The source whose branch a path reaches in a row type, if any.
pub open spec fn select(t: RowIter, path: Seq<Side>) -> Option<Source>
    decreases path.len(),
{
    if path.len() == 0 {
        match t {
            RowIter::Nested(s) => Some(s),
            _ => None,
        }
    } else {
        match t {
            RowIter::Either(s, rest) => match path[0] {
                Side::Left => if path.len() == 1 {
                    Some(s)
                } else {
                    None
                },
                Side::Right => select(*rest, path.drop_first()),
            },
            _ => None,
        }
    }
}

/// The associated types of an implementation.
pub open spec fn assoc_spec(kind: TraitKind, variant: TraitVariant, shape: Shape) -> AssociatedTypes {
    match kind {
        TraitKind::Items => AssociatedTypes::Items(
            match shape {
                Shape::Tuple(n) => match variant {
                    TraitVariant::Regular => ItemsIter::Array(n),
                    TraitVariant::Try => ItemsIter::Chain(n),
                },
                Shape::Collection(c) => ItemsIter::Mapped(c),
                _ => ItemsIter::Once,
            },
        ),
        TraitKind::Rows => match shape {
            Shape::Tuple(n) => AssociatedTypes::Rows(sum_spec(0, n as nat), RowsIter::Array(n)),
            Shape::Collection(c) => AssociatedTypes::Rows(
                RowIter::Nested(elem_source(c)),
                RowsIter::Mapped(c),
            ),
            _ => AssociatedTypes::Rows(RowIter::Once, RowsIter::Once),
        },
    }
}

/// The tags of every position of a tuple of arity `n`, as views.
pub open spec fn paths_view(paths: Seq<Vec<Side>>) -> Seq<Seq<Side>> {
    paths.map_values(|p: Vec<Side>| p@)
}

/// The body of an implementation.
pub open spec fn body_matches(kind: TraitKind, variant: TraitVariant, shape: Shape, b: Body) -> bool {
    match kind {
        TraitKind::Items => match shape {
            Shape::Tuple(n) => match variant {
                TraitVariant::Regular => b == Body::Array(n),
                TraitVariant::Try => b == Body::Chain(n),
            },
            Shape::Collection(c) => b == Body::MapElems(c),
            _ => b == Body::Once,
        },
        TraitKind::Rows => match shape {
            Shape::Tuple(n) => b matches Body::TupleRows(paths) && paths_view(paths@) == Seq::new(
                n as nat,
                |i: int| path_spec(i as nat, n as nat),
            ),
            Shape::Collection(c) => b == Body::MapElems(c),
            _ => b == Body::OnceRow,
        },
    }
}

/// The nested sum over the row types of positions `k` to `n - 1`.
pub fn sum_type(k: usize, n: usize) -> (r: RowIter)
    requires
        k < n,
    ensures
        r == sum_spec(k as nat, n as nat),
    decreases n - k,
{
    if k + 1 >= n {
        RowIter::Nested(Source::Position(k))
    } else {
        RowIter::Either(Source::Position(k), Box::new(sum_type(k + 1, n)))
    }
}

/// The tags that lead to position `i` in a sum over `n` positions.
pub fn either_path(i: usize, n: usize) -> (r: Vec<Side>)
    requires
        i < n,
    ensures
        r@ == path_spec(i as nat, n as nat),
{
    let mut r: Vec<Side> = Vec::new();
    if n <= 1 {
        return r;
    }
    let mut k: usize = 0;
    while k < i && n - k > 1
        invariant
            k <= i < n,
            n > 1,
            r@ + path_spec((i - k) as nat, (n - k) as nat) == path_spec(i as nat, n as nat),
        decreases i - k,
    {
        proof {
            assert(path_spec((i - k) as nat, (n - k) as nat) == seq![Side::Right] + path_spec(
                (i - k - 1) as nat,
                (n - k - 1) as nat,
            ));
        }
        r.push(Side::Right);
        assert(r@ + path_spec((i - (k + 1)) as nat, (n - (k + 1)) as nat) =~= path_spec(
            i as nat,
            n as nat,
        ));
        k = k + 1;
    }
    if n - k > 1 {
        r.push(Side::Left);
        assert(r@ =~= path_spec(i as nat, n as nat));
    } else {
        assert(r@ =~= path_spec(i as nat, n as nat));
    }
    r
}

/// The row of each position is tagged so that it lands in the branch of the
/// row type that belongs to that same position.
pub proof fn lemma_tags_select_position(k: nat, i: nat, n: nat)
    requires
        k + i < n,
        n <= usize::MAX,
    ensures
        select(sum_spec(k, n), path_spec(i, (n - k) as nat)) == Some(
            Source::Position((k + i) as usize),
        ),
    decreases i,
{
    if k + 1 >= n {
        assert(path_spec(i, (n - k) as nat) =~= Seq::<Side>::empty());
    } else if i == 0 {
        assert(path_spec(0, (n - k) as nat) =~= seq![Side::Left]);
    } else {
        lemma_tags_select_position(k + 1, (i - 1) as nat, n);
        let p = path_spec(i, (n - k) as nat);
        assert(p == seq![Side::Right] + path_spec((i - 1) as nat, (n - k - 1) as nat));
        assert(p.drop_first() =~= path_spec((i - 1) as nat, (n - (k + 1)) as nat));
    }
}

/// The associated types of an implementation.
pub fn associated_types(kind: TraitKind, variant: TraitVariant, shape: Shape) -> (r:
    AssociatedTypes)
    requires
        shape matches Shape::Tuple(n) ==> n >= 1,
    ensures
        r == assoc_spec(kind, variant, shape),
{
    match kind {
        TraitKind::Items => AssociatedTypes::Items(
            match shape {
                Shape::Tuple(n) => match variant {
                    TraitVariant::Regular => ItemsIter::Array(n),
                    TraitVariant::Try => ItemsIter::Chain(n),
                },
                Shape::Collection(c) => ItemsIter::Mapped(c),
                _ => ItemsIter::Once,
            },
        ),
        TraitKind::Rows => match shape {
            Shape::Tuple(n) => AssociatedTypes::Rows(sum_type(0, n), RowsIter::Array(n)),
            Shape::Collection(c) => AssociatedTypes::Rows(
                RowIter::Nested(elem_source_of(c)),
                RowsIter::Mapped(c),
            ),
            _ => AssociatedTypes::Rows(RowIter::Once, RowsIter::Once),
        },
    }
}

/// The tags of every position of a tuple of arity `n`.
pub fn tuple_row_tags(n: usize) -> (r: Vec<Vec<Side>>)
    ensures
        paths_view(r@) == Seq::new(n as nat, |i: int| path_spec(i as nat, n as nat)),
{
    let mut r: Vec<Vec<Side>> = Vec::new();
    let mut i: usize = 0;
    while i < n
        invariant
            i <= n,
            paths_view(r@) == Seq::new(i as nat, |k: int| path_spec(k as nat, n as nat)),
        decreases n - i,
    {
        let p = either_path(i, n);
        let ghost before = r@;
        r.push(p);
        assert(r@ == before.push(p));
        assert(paths_view(r@) =~= paths_view(before).push(path_spec(i as nat, n as nat)));
        assert(paths_view(r@) =~= Seq::new((i + 1) as nat, |k: int| path_spec(k as nat, n as nat)));
        i = i + 1;
    }
    r
}

/// The body of an implementation.
pub fn body(kind: TraitKind, variant: TraitVariant, shape: Shape) -> (r: Body)
    ensures
        body_matches(kind, variant, shape, r),
{
    match kind {
        TraitKind::Items => match shape {
            Shape::Tuple(n) => match variant {
                TraitVariant::Regular => Body::Array(n),
                TraitVariant::Try => Body::Chain(n),
            },
            Shape::Collection(c) => Body::MapElems(c),
            _ => Body::Once,
        },
        TraitKind::Rows => match shape {
            Shape::Tuple(n) => Body::TupleRows(tuple_row_tags(n)),
            Shape::Collection(c) => Body::MapElems(c),
            _ => Body::OnceRow,
        },
    }
}

} // verus!
