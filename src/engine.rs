//! The generation engine: from one parsed attribute to the description of
//! every implementation it asks for, in a fixed order.
use crate::assoc::{assoc_spec, associated_types, body, body_matches, AssociatedTypes, Body};
use crate::attrs::{AttrError, CollectionType, TraitKind, TraitVariant, TupleRange};
use crate::bounds::{sources_spec, where_clause, where_spec, Predicate, Shape, Source};
use crate::context::{lifetimes_in, Context};
use crate::generics::{
    add_lifetimes, distinct_lifetimes, lemma_ordered, ordered_spec, rank, target_params_spec,
    GenericList, Param,
};
use vstd::prelude::*;

verus! {

/// Which of the four conversion traits is generated.
#[derive(Debug, Clone, Copy, PartialEq, Eq, Structural)]
pub struct TraitConfig {
    pub variant: TraitVariant,
    pub kind: TraitKind,
}

/// The error type of a fallible implementation.
#[derive(Debug, Clone, Copy, PartialEq, Eq, Structural)]
pub enum ErrorType {
    /// The type given by `error_type(E)`.
    Fixed,
    /// The implementation's own generic error parameter.
    Generic,
}

/// One fully resolved implementation of one trait for one shape.
#[derive(Debug, PartialEq, Eq)]
pub struct ImplDescriptor {
    pub config: TraitConfig,
    pub shape: Shape,
    /// `None` for an infallible implementation.
    pub error: Option<ErrorType>,
    /// The generic parameters, in the order they are written.
    pub generics: Vec<Param>,
    pub predicates: Vec<Predicate>,
    pub types: AssociatedTypes,
    pub body: Body,
}

impl TraitConfig {
    pub fn new(variant: TraitVariant, kind: TraitKind) -> (r: TraitConfig)
        ensures
            r.variant == variant,
            r.kind == kind,
    {
        TraitConfig { variant, kind }
    }

    pub fn is_try(&self) -> (r: bool)
        ensures
            r == (self.variant == TraitVariant::Try),
    {
        match self.variant {
            TraitVariant::Try => true,
            TraitVariant::Regular => false,
        }
    }

    /// Whether an implementation of this trait needs its own error
    /// parameter: it is fallible and no error type is fixed.
    pub fn needs_error_generic(&self, ctx: &Context) -> (r: bool)
        ensures
            r == needs_error_param(ctx, *self),
    {
        self.is_try() && !ctx.attributes.fixed_error
    }

    /// The four traits, in the order they are generated.
    pub open spec fn all_spec() -> Seq<TraitConfig> {
        seq![
            TraitConfig { variant: TraitVariant::Regular, kind: TraitKind::Items },
            TraitConfig { variant: TraitVariant::Try, kind: TraitKind::Items },
            TraitConfig { variant: TraitVariant::Regular, kind: TraitKind::Rows },
            TraitConfig { variant: TraitVariant::Try, kind: TraitKind::Rows },
        ]
    }
}

/// The error type of an implementation, if it is fallible.
pub open spec fn error_spec(ctx: &Context, cfg: TraitConfig) -> Option<ErrorType> {
    match cfg.variant {
        TraitVariant::Regular => None,
        TraitVariant::Try => Some(
            if ctx.attributes.fixed_error {
                ErrorType::Fixed
            } else {
                ErrorType::Generic
            },
        ),
    }
}

/// Whether an implementation needs its own error parameter.
pub open spec fn needs_error_param(ctx: &Context, cfg: TraitConfig) -> bool {
    cfg.variant == TraitVariant::Try && !ctx.attributes.fixed_error
}

/// The parameters of an implementation before they are ordered: the
/// target's own, the error parameter if one is needed, then those the shape
/// brings.
pub open spec fn params_spec(ctx: &Context, cfg: TraitConfig, shape: Shape) -> Seq<Param> {
    let own = target_params_spec(ctx.params@.len());
    let base = if needs_error_param(ctx, cfg) {
        own.push(Param::Error)
    } else {
        own
    };
    match shape {
        Shape::Target => base,
        Shape::Declared(i) => add_lifetimes(
            ctx.params@,
            base,
            lifetimes_in(ctx.attributes.types@[i as int].shape),
        ),
        Shape::Tuple(n) => base + Seq::new(n as nat, |k: int| Param::Position(k as usize)),
        Shape::Collection(CollectionType::Vec) => base.push(Param::Elem),
        Shape::Collection(CollectionType::Slice) => base.push(Param::Borrow).push(Param::Elem),
        Shape::Collection(CollectionType::Array) => base.push(Param::Elem).push(Param::Len),
    }
}

/// The ordered generic parameters of an implementation.
pub open spec fn generics_spec(ctx: &Context, cfg: TraitConfig, shape: Shape) -> Seq<Param> {
    ordered_spec(ctx.params@, params_spec(ctx, cfg, shape))
}

/// A shape that can be described for this context.
pub open spec fn shape_ok(ctx: &Context, shape: Shape) -> bool {
    match shape {
        Shape::Declared(i) => i < ctx.attributes.types@.len(),
        Shape::Tuple(n) => n >= 1,
        _ => true,
    }
}

/// `d` is the description of the implementation of `cfg` for `shape`.
pub open spec fn describes(ctx: &Context, cfg: TraitConfig, shape: Shape, d: ImplDescriptor) -> bool {
    &&& d.config == cfg
    &&& d.shape == shape
    &&& d.error == error_spec(ctx, cfg)
    &&& d.generics@ == generics_spec(ctx, cfg, shape)
    &&& d.predicates@ == where_spec(ctx.n_predicates as nat, cfg.kind, cfg.variant, shape)
    &&& d.types == assoc_spec(cfg.kind, cfg.variant, shape)
    &&& body_matches(cfg.kind, cfg.variant, shape, d.body)
}

/// The shapes a trait is generated for, in order: the target itself, each
/// declared type at its first declaration (flat conversions only), each
/// tuple arity in ascending order, each collection kind.
pub open spec fn shapes_spec(ctx: &Context, kind: TraitKind) -> Seq<Shape> {
    seq![Shape::Target] + declared_part(ctx, kind) + tuple_part(ctx) + collection_part(ctx)
}

/// No declared type before the one at `i` has its key.
pub open spec fn is_first(ctx: &Context, i: int) -> bool {
    forall|j: int|
        0 <= j < i ==> #[trigger] ctx.attributes.types@[j].key@ != ctx.attributes.types@[i].key@
}

/// The first declarations among the first `n` declared types, in order.
pub open spec fn first_declared(ctx: &Context, n: nat) -> Seq<Shape>
    decreases n,
{
    if n == 0 {
        Seq::empty()
    } else {
        let prev = first_declared(ctx, (n - 1) as nat);
        if is_first(ctx, n - 1) {
            prev.push(Shape::Declared((n - 1) as usize))
        } else {
            prev
        }
    }
}

/// The declared-type shapes of [`shapes_spec`].
pub open spec fn declared_part(ctx: &Context, kind: TraitKind) -> Seq<Shape> {
    if kind == TraitKind::Items {
        first_declared(ctx, ctx.attributes.types@.len())
    } else {
        Seq::empty()
    }
}

/// The tuple shapes of [`shapes_spec`].
pub open spec fn tuple_part(ctx: &Context) -> Seq<Shape> {
    match ctx.attributes.tuples {
        Some(r) => r.arities_spec().map_values(|n: usize| Shape::Tuple(n)),
        None => Seq::empty(),
    }
}

/// The collection shapes of [`shapes_spec`].
pub open spec fn collection_part(ctx: &Context) -> Seq<Shape> {
    ctx.attributes.collections.kinds_spec().map_values(|c: CollectionType| Shape::Collection(c))
}

/// Whether no declared type before the one at `i` has its key.
pub fn first_of_key(ctx: &Context, i: usize) -> (r: bool)
    requires
        i < ctx.attributes.types@.len(),
    ensures
        r == is_first(ctx, i as int),
{
    let mut j: usize = 0;
    while j < i
        invariant
            i < ctx.attributes.types@.len(),
            j <= i,
            forall|k: int|
                0 <= k < j ==> #[trigger] ctx.attributes.types@[k].key@
                    != ctx.attributes.types@[i as int].key@,
        decreases i - j,
    {
        if crate::attrs::str_equal(
            ctx.attributes.types[j].key.as_str(),
            ctx.attributes.types[i].key.as_str(),
        ) {
            return false;
        }
        j = j + 1;
    }
    true
}

/// The ordered generic parameters of one implementation.
pub fn compose_generics(ctx: &Context, cfg: TraitConfig, shape: Shape) -> (r: Vec<Param>)
    requires
        shape_ok(ctx, shape),
    ensures
        r@ == generics_spec(ctx, cfg, shape),
{
    let mut list = GenericList::new().with_generics(ctx);
    if cfg.needs_error_generic(ctx) {
        list = list.with(Param::Error);
    }
    let list = match shape {
        Shape::Target => list,
        Shape::Declared(i) => list.with_lifetimes_from_type(ctx, &ctx.attributes.types[i].shape),
        Shape::Tuple(n) => list.with_positions(n),
        Shape::Collection(CollectionType::Vec) => list.with(Param::Elem),
        Shape::Collection(CollectionType::Slice) => list.with(Param::Borrow).with(Param::Elem),
        Shape::Collection(CollectionType::Array) => list.with(Param::Elem).with(Param::Len),
    };
    assert(list.params@ =~= params_spec(ctx, cfg, shape));
    list.ordered(ctx)
}

/// Describes the implementation of one trait for one shape.
pub fn describe(ctx: &Context, cfg: TraitConfig, shape: Shape) -> (r: ImplDescriptor)
    requires
        shape_ok(ctx, shape),
    ensures
        describes(ctx, cfg, shape, r),
{
    let error = if cfg.is_try() {
        if ctx.attributes.fixed_error {
            Some(ErrorType::Fixed)
        } else {
            Some(ErrorType::Generic)
        }
    } else {
        None
    };
    ImplDescriptor {
        config: cfg,
        shape,
        error,
        generics: compose_generics(ctx, cfg, shape),
        predicates: where_clause(ctx.n_predicates, cfg.kind, cfg.variant, shape),
        types: associated_types(cfg.kind, cfg.variant, shape),
        body: body(cfg.kind, cfg.variant, shape),
    }
}

/// The shapes a trait is generated for; see [`shapes_spec`].
pub fn shapes(ctx: &Context, kind: TraitKind) -> (r: Vec<Shape>)
    requires
        ctx.wf(),
    ensures
        r@ == shapes_spec(ctx, kind),
        forall|i: int| 0 <= i < r@.len() ==> shape_ok(ctx, #[trigger] r@[i]),
{
    let mut r: Vec<Shape> = Vec::new();
    r.push(Shape::Target);
    let ghost part0 = r@;
    match kind {
        TraitKind::Items => {
            let m = ctx.attributes.types.len();
            let mut i: usize = 0;
            while i < m
                invariant
                    m == ctx.attributes.types@.len(),
                    i <= m,
                    r@ == part0 + first_declared(ctx, i as nat),
                decreases m - i,
            {
                if first_of_key(ctx, i) {
                    r.push(Shape::Declared(i));
                }
                assert(r@ =~= part0 + first_declared(ctx, (i + 1) as nat));
                i = i + 1;
            }
        },
        TraitKind::Rows => {},
    }
    assert(r@ =~= seq![Shape::Target] + declared_part(ctx, kind));
    let ghost part1 = r@;
    match ctx.attributes.tuples {
        Some(range) => {
            let arities = range.arities();
            let mut j: usize = 0;
            while j < arities.len()
                invariant
                    j <= arities@.len(),
                    arities@ == range.arities_spec(),
                    r@ == part1 + arities@.take(j as int).map_values(|n: usize| Shape::Tuple(n)),
                decreases arities@.len() - j,
            {
                r.push(Shape::Tuple(arities[j]));
                assert(r@ =~= part1 + arities@.take(j + 1).map_values(|n: usize| Shape::Tuple(n)));
                j = j + 1;
            }
            assert(arities@.take(j as int) =~= arities@);
        },
        None => {},
    }
    let ghost part2 = r@;
    let kinds = ctx.attributes.collections.kinds();
    let mut k: usize = 0;
    while k < kinds.len()
        invariant
            k <= kinds@.len(),
            kinds@ == ctx.attributes.collections.kinds_spec(),
            r@ == part2 + kinds@.take(k as int).map_values(|c: CollectionType| Shape::Collection(c)),
        decreases kinds@.len() - k,
    {
        r.push(Shape::Collection(kinds[k]));
        assert(r@ =~= part2 + kinds@.take(k + 1).map_values(
            |c: CollectionType| Shape::Collection(c),
        ));
        k = k + 1;
    }
    assert(kinds@.take(k as int) =~= kinds@);
    assert(r@ =~= shapes_spec(ctx, kind));
    proof {
        lemma_parts_members(ctx, kind);
        assert forall|i: int| 0 <= i < r@.len() implies shape_ok(ctx, #[trigger] r@[i]) by {
            assert(shapes_spec(ctx, kind).contains(r@[i]));
        }
    }
    r
}

/// Describes every implementation of one trait, one per shape of
/// [`shapes_spec`] and in that order.
pub fn generate(ctx: &Context, cfg: TraitConfig) -> (r: Vec<ImplDescriptor>)
    requires
        ctx.wf(),
    ensures
        r@.len() == shapes_spec(ctx, cfg.kind).len(),
        forall|i: int|
            0 <= i < r@.len() ==> describes(ctx, cfg, shapes_spec(ctx, cfg.kind)[i], #[trigger] r@[i]),
{
    let all = shapes(ctx, cfg.kind);
    let mut r: Vec<ImplDescriptor> = Vec::new();
    let mut i: usize = 0;
    while i < all.len()
        invariant
            i <= all@.len(),
            all@ == shapes_spec(ctx, cfg.kind),
            forall|j: int| 0 <= j < all@.len() ==> shape_ok(ctx, #[trigger] all@[j]),
            r@.len() == i,
            forall|j: int| 0 <= j < i ==> describes(ctx, cfg, all@[j], #[trigger] r@[j]),
        decreases all@.len() - i,
    {
        let d = describe(ctx, cfg, all[i]);
        r.push(d);
        i = i + 1;
    }
    r
}

/// Checks the attribute before anything is generated: a tuple range must
/// start at one or more and not end before it starts.
pub fn check(ctx: &Context) -> (r: Result<(), AttrError>)
    ensures
        r is Ok <==> ctx.wf(),
        match ctx.attributes.tuples {
            Some(t) => t.start == 0 ==> r == Err::<(), AttrError>(AttrError::ZeroArity),
            None => true,
        },
        match ctx.attributes.tuples {
            Some(t) => t.start != 0 && t.end < t.start ==> r == Err::<(), AttrError>(
                AttrError::ReversedRange,
            ),
            None => true,
        },
{
    // A `Vec`'s length is a `usize`: reading it records the bound that
    // well-formedness asks of the declared types.
    let n_types: usize = ctx.attributes.types.len();
    assert(n_types == ctx.attributes.types@.len());
    match ctx.attributes.tuples {
        Some(t) => match TupleRange::new(t.start, t.end) {
            Ok(_) => Ok(()),
            Err(e) => Err(e),
        },
        None => Ok(()),
    }
}

/// Describes every implementation of one trait, or refuses a malformed
/// attribute before describing any.
pub fn generate_checked(ctx: &Context, cfg: TraitConfig) -> (r: Result<Vec<ImplDescriptor>, AttrError>)
    ensures
        r is Ok <==> ctx.wf(),
        ctx.attributes.tuples matches Some(t) && t.start == 0 ==> r == Err::<
            Vec<ImplDescriptor>,
            AttrError,
        >(AttrError::ZeroArity),
        ctx.attributes.tuples matches Some(t) && t.start != 0 && t.end < t.start ==> r == Err::<
            Vec<ImplDescriptor>,
            AttrError,
        >(AttrError::ReversedRange),
        r matches Ok(v) ==> v@.len() == shapes_spec(ctx, cfg.kind).len() && forall|i: int|
            0 <= i < v@.len() ==> describes(ctx, cfg, shapes_spec(ctx, cfg.kind)[i], #[trigger] v@[i]),
{
    match check(ctx) {
        Ok(()) => Ok(generate(ctx, cfg)),
        Err(e) => Err(e),
    }
}

/// The (trait, shape) pairs of one trait, in the order they are generated.
pub open spec fn pairs_of(ctx: &Context, cfg: TraitConfig) -> Seq<(TraitConfig, Shape)> {
    shapes_spec(ctx, cfg.kind).map_values(|s: Shape| (cfg, s))
}

/// The (trait, shape) pairs of all four traits, trait by trait in the order
/// of [`TraitConfig::all_spec`].
pub open spec fn all_pairs(ctx: &Context) -> Seq<(TraitConfig, Shape)> {
    let c = TraitConfig::all_spec();
    pairs_of(ctx, c[0]) + pairs_of(ctx, c[1]) + pairs_of(ctx, c[2]) + pairs_of(ctx, c[3])
}

/// The pairs of the first `n` traits.
pub open spec fn pairs_upto(ctx: &Context, n: int) -> Seq<(TraitConfig, Shape)>
    decreases n,
{
    if n <= 0 {
        Seq::empty()
    } else {
        pairs_upto(ctx, n - 1) + pairs_of(ctx, TraitConfig::all_spec()[n - 1])
    }
}

/// Describes the implementations of all four traits: one per pair of
/// [`all_pairs`], in that order.
pub fn generate_all(ctx: &Context) -> (r: Vec<ImplDescriptor>)
    requires
        ctx.wf(),
    ensures
        r@.len() == all_pairs(ctx).len(),
        forall|i: int|
            0 <= i < r@.len() ==> describes(ctx, all_pairs(ctx)[i].0, all_pairs(ctx)[i].1, #[trigger] r@[i]),
{
    let configs = [
        TraitConfig::new(TraitVariant::Regular, TraitKind::Items),
        TraitConfig::new(TraitVariant::Try, TraitKind::Items),
        TraitConfig::new(TraitVariant::Regular, TraitKind::Rows),
        TraitConfig::new(TraitVariant::Try, TraitKind::Rows),
    ];
    assert(configs@ =~= TraitConfig::all_spec());
    let mut r: Vec<ImplDescriptor> = Vec::new();
    let mut c: usize = 0;
    while c < 4
        invariant
            c <= 4,
            configs@ == TraitConfig::all_spec(),
            ctx.wf(),
            r@.len() == pairs_upto(ctx, c as int).len(),
            forall|i: int|
                0 <= i < r@.len() ==> describes(
                    ctx,
                    pairs_upto(ctx, c as int)[i].0,
                    pairs_upto(ctx, c as int)[i].1,
                    #[trigger] r@[i],
                ),
        decreases 4 - c,
    {
        let cfg = configs[c];
        let mut part = generate(ctx, cfg);
        let ghost before = r@;
        let ghost added = part@;
        let ghost prev = pairs_upto(ctx, c as int);
        r.append(&mut part);
        proof {
            let next = pairs_upto(ctx, c + 1);
            assert(next == prev + pairs_of(ctx, cfg));
            assert forall|i: int| 0 <= i < r@.len() implies describes(
                ctx,
                pairs_upto(ctx, c + 1)[i].0,
                pairs_upto(ctx, c + 1)[i].1,
                #[trigger] r@[i],
            ) by {
                if i >= before.len() {
                    let k = i - before.len();
                    assert(r@[i] == added[k]);
                    assert(next[i] == pairs_of(ctx, cfg)[k]);
                } else {
                    assert(r@[i] == before[i]);
                    assert(next[i] == prev[i]);
                }
            }
        }
        c = c + 1;
    }
    assert(pairs_upto(ctx, 4) =~= all_pairs(ctx)) by {
        reveal_with_fuel(pairs_upto, 5);
    }
    r
}

/// Which shapes a trait covers: the target itself; each declared type at
/// its first declaration, exactly for the flat conversions; each tuple arity
/// exactly when it lies in the declared range; each collection kind exactly
/// when it was declared; and no shape twice.
pub proof fn lemma_shapes_cover(ctx: &Context, kind: TraitKind)
    requires
        ctx.wf(),
    ensures
        shapes_spec(ctx, kind).contains(Shape::Target),
        forall|i: usize|
            #[trigger] shapes_spec(ctx, kind).contains(Shape::Declared(i)) <==> (kind
                == TraitKind::Items && i < ctx.attributes.types@.len() && is_first(ctx, i as int)),
        forall|n: usize|
            #[trigger] shapes_spec(ctx, kind).contains(Shape::Tuple(n)) <==> (
            ctx.attributes.tuples matches Some(r) && r.start <= n <= r.end),
        forall|c: CollectionType|
            #[trigger] shapes_spec(ctx, kind).contains(Shape::Collection(c))
                <==> ctx.attributes.collections.has(c),
        shapes_spec(ctx, kind).no_duplicates(),
{
    lemma_parts_members(ctx, kind);
    assert(shapes_spec(ctx, kind)[0] == Shape::Target);
}

/// Two declarations with the same key are the same type: only the first
/// of them is described.
pub proof fn lemma_repeat_not_described(ctx: &Context, kind: TraitKind, i: usize, j: usize)
    requires
        ctx.wf(),
        i < j < ctx.attributes.types@.len(),
        ctx.attributes.types@[i as int].key@ == ctx.attributes.types@[j as int].key@,
    ensures
        !shapes_spec(ctx, kind).contains(Shape::Declared(j)),
{
    lemma_shapes_cover(ctx, kind);
    assert(!is_first(ctx, j as int));
}

/// Which shape is a member of which part of [`shapes_spec`].
pub open spec fn member(ctx: &Context, kind: TraitKind, x: Shape) -> bool {
    match x {
        Shape::Target => true,
        Shape::Declared(i) => kind == TraitKind::Items && i < ctx.attributes.types@.len()
            && is_first(ctx, i as int),
        Shape::Tuple(n) => ctx.attributes.tuples matches Some(r) && r.start <= n <= r.end,
        Shape::Collection(c) => ctx.attributes.collections.has(c),
    }
}

/// The members of [`shapes_spec`] are exactly those of [`member`], each once.
proof fn lemma_parts_members(ctx: &Context, kind: TraitKind)
    requires
        ctx.wf(),
    ensures
        forall|x: Shape| #[trigger] shapes_spec(ctx, kind).contains(x) <==> member(ctx, kind, x),
        shapes_spec(ctx, kind).no_duplicates(),
        forall|x: Shape| member(ctx, kind, x) ==> #[trigger] shape_ok(ctx, x),
{
    let p0 = seq![Shape::Target];
    let d = declared_part(ctx, kind);
    let t = tuple_part(ctx);
    let k = collection_part(ctx);
    if kind == TraitKind::Items {
        lemma_first_declared(ctx, ctx.attributes.types@.len());
    }
    lemma_tuple_part(ctx);
    lemma_collection_part(ctx);
    assert(p0.no_duplicates());
    lemma_concat_members(p0, d);
    lemma_concat_members(p0 + d, t);
    lemma_concat_members(p0 + d + t, k);
    assert forall|x: Shape| #[trigger] shapes_spec(ctx, kind).contains(x) <==> member(
        ctx,
        kind,
        x,
    ) by {
        if x == Shape::Target {
            assert(p0[0] == x);
        }
    }
}

/// The first declarations among the first `n`: exactly the first
/// declarations below `n`, each once.
proof fn lemma_first_declared(ctx: &Context, n: nat)
    requires
        n <= ctx.attributes.types@.len() <= usize::MAX,
    ensures
        forall|x: Shape| #[trigger] first_declared(ctx, n).contains(x) <==> (x matches Shape::Declared(
            i,
        ) && i < n && is_first(ctx, i as int)),
        first_declared(ctx, n).no_duplicates(),
    decreases n,
{
    if n > 0 {
        let m = (n - 1) as nat;
        lemma_first_declared(ctx, m);
        let prev = first_declared(ctx, m);
        let cur = first_declared(ctx, n);
        assert forall|x: Shape| #[trigger] cur.contains(x) <==> (x matches Shape::Declared(i) && i
            < n && is_first(ctx, i as int)) by {
            if is_first(ctx, m as int) {
                assert(cur == prev.push(Shape::Declared(m as usize)));
                if x == Shape::Declared(m as usize) {
                    assert(cur[prev.len() as int] == x);
                }
                if cur.contains(x) {
                    let q = choose|q: int| 0 <= q < cur.len() && cur[q] == x;
                    if q < prev.len() {
                        assert(prev[q] == x);
                    }
                }
                if prev.contains(x) {
                    let q = choose|q: int| 0 <= q < prev.len() && prev[q] == x;
                    assert(cur[q] == x);
                }
            }
        }
        if is_first(ctx, m as int) {
            assert(!prev.contains(Shape::Declared(m as usize)));
            assert forall|a: int, b: int|
                0 <= a < cur.len() && 0 <= b < cur.len() && a != b implies cur[a] != cur[b] by {
                if a == prev.len() as int {
                    assert(prev[b] == cur[b]);
                } else if b == prev.len() as int {
                    assert(prev[a] == cur[a]);
                } else {
                    assert(prev[a] == cur[a] && prev[b] == cur[b]);
                }
            }
        }
    }
}

/// The tuple shapes: one per arity of the range, each once.
proof fn lemma_tuple_part(ctx: &Context)
    requires
        ctx.wf(),
    ensures
        forall|x: Shape| #[trigger] tuple_part(ctx).contains(x) <==> (x matches Shape::Tuple(n)
            && ctx.attributes.tuples matches Some(r) && r.start <= n <= r.end),
        tuple_part(ctx).no_duplicates(),
{
    let t = tuple_part(ctx);
    match ctx.attributes.tuples {
        None => {},
        Some(r) => {
            let a = r.arities_spec();
            assert forall|x: Shape| #[trigger] t.contains(x) <==> (x matches Shape::Tuple(n)
                && r.start <= n <= r.end) by {
                if t.contains(x) {
                    let q = choose|q: int| 0 <= q < t.len() && t[q] == x;
                    assert(t[q] == Shape::Tuple(a[q]));
                }
                if x matches Shape::Tuple(n) && r.start <= n <= r.end {
                    let n = x->Tuple_0;
                    let q = n - r.start;
                    assert(t[q] == Shape::Tuple(a[q]));
                }
            }
            assert forall|i: int, j: int|
                0 <= i < t.len() && 0 <= j < t.len() && i != j implies t[i] != t[j] by {
                assert(t[i] == Shape::Tuple(a[i]));
                assert(t[j] == Shape::Tuple(a[j]));
            }
        },
    }
}

/// The collection shapes: one per declared kind, each once.
proof fn lemma_collection_part(ctx: &Context)
    ensures
        forall|x: Shape| #[trigger] collection_part(ctx).contains(x) <==> (x matches Shape::Collection(
            c,
        ) && ctx.attributes.collections.has(c)),
        collection_part(ctx).no_duplicates(),
{
    let ks = ctx.attributes.collections.kinds_spec();
    let k = collection_part(ctx);
    crate::attrs::lemma_kinds_exact(ctx.attributes.collections);
    assert forall|x: Shape| #[trigger] k.contains(x) <==> (x matches Shape::Collection(c)
        && ctx.attributes.collections.has(c)) by {
        if k.contains(x) {
            let q = choose|q: int| 0 <= q < k.len() && k[q] == x;
            assert(k[q] == Shape::Collection(ks[q]));
            assert(ks.contains(ks[q]));
        }
        if x matches Shape::Collection(c) && ctx.attributes.collections.has(c) {
            let c = x->Collection_0;
            assert(ks.contains(c));
            let q = choose|q: int| 0 <= q < ks.len() && ks[q] == c;
            assert(k[q] == x);
        }
    }
    assert forall|i: int, j: int| 0 <= i < k.len() && 0 <= j < k.len() && i != j implies k[i]
        != k[j] by {
        assert(k[i] == Shape::Collection(ks[i]));
        assert(k[j] == Shape::Collection(ks[j]));
    }
}

/// The members of a concatenation are those of its parts; it holds no
/// element twice when neither part does and they share none.
proof fn lemma_concat_members(a: Seq<Shape>, b: Seq<Shape>)
    ensures
        forall|x: Shape| #[trigger] (a + b).contains(x) <==> (a.contains(x) || b.contains(x)),
        a.no_duplicates() && b.no_duplicates() && (forall|x: Shape|
            a.contains(x) ==> !b.contains(x)) ==> (a + b).no_duplicates(),
{
    let ab = a + b;
    assert forall|x: Shape| #[trigger] ab.contains(x) <==> (a.contains(x) || b.contains(x)) by {
        if a.contains(x) {
            let i = choose|i: int| 0 <= i < a.len() && a[i] == x;
            assert(ab[i] == x);
        }
        if b.contains(x) {
            let i = choose|i: int| 0 <= i < b.len() && b[i] == x;
            assert(ab[a.len() + i] == x);
        }
        if ab.contains(x) {
            let i = choose|i: int| 0 <= i < ab.len() && ab[i] == x;
            if i < a.len() {
                assert(a[i] == x);
            } else {
                assert(b[i - a.len()] == x);
            }
        }
    }
    if a.no_duplicates() && b.no_duplicates() && (forall|x: Shape|
        a.contains(x) ==> !b.contains(x)) {
        assert forall|i: int, j: int|
            0 <= i < ab.len() && 0 <= j < ab.len() && i != j implies ab[i] != ab[j] by {
            if i < a.len() && j < a.len() {
            } else if i >= a.len() && j >= a.len() {
                assert(ab[i] == b[i - a.len()] && ab[j] == b[j - a.len()]);
            } else if i < a.len() {
                assert(a.contains(ab[i]));
                assert(ab[j] == b[j - a.len()]);
                assert(b.contains(ab[j]));
            } else {
                assert(a.contains(ab[j]));
                assert(ab[i] == b[i - a.len()]);
                assert(b.contains(ab[i]));
            }
        }
    }
}

/// The parameter rule holds in every description: no parameter stands
/// before one of a lower rank, the error parameter is there exactly when a
/// fallible trait has no fixed error type, and no two lifetimes share a
/// name.
pub proof fn lemma_generics_ordered(ctx: &Context, cfg: TraitConfig, shape: Shape)
    requires
        shape_ok(ctx, shape),
        distinct_lifetimes(ctx.params@, target_params_spec(ctx.params@.len())),
    ensures
        forall|i: int, j: int|
            0 <= i < j < generics_spec(ctx, cfg, shape).len() ==> rank(
                ctx.params@,
                #[trigger] generics_spec(ctx, cfg, shape)[i],
            ) <= rank(ctx.params@, #[trigger] generics_spec(ctx, cfg, shape)[j]),
        generics_spec(ctx, cfg, shape).contains(Param::Error) <==> needs_error_param(ctx, cfg),
        distinct_lifetimes(ctx.params@, generics_spec(ctx, cfg, shape)),
{
    let ps = params_spec(ctx, cfg, shape);
    lemma_ordered(ctx.params@, ps);
    let own = target_params_spec(ctx.params@.len());
    let base = if needs_error_param(ctx, cfg) {
        own.push(Param::Error)
    } else {
        own
    };
    assert(!own.contains(Param::Error));
    assert(distinct_lifetimes(ctx.params@, base)) by {
        assert forall|i: int, j: int|
            0 <= i < j < base.len() && (#[trigger] crate::generics::lifetime_name(
                ctx.params@,
                base[i],
            )) is Some implies crate::generics::lifetime_name(ctx.params@, base[i])
            != #[trigger] crate::generics::lifetime_name(ctx.params@, base[j]) by {
            if j < own.len() {
                assert(base[i] == own[i] && base[j] == own[j]);
            }
        }
    }
    assert(base.contains(Param::Error) <==> needs_error_param(ctx, cfg)) by {
        if needs_error_param(ctx, cfg) {
            assert(base[base.len() - 1] == Param::Error);
        }
    }
    match shape {
        Shape::Declared(i) => {
            lemma_add_lifetimes_keeps(ctx, base, lifetimes_in(ctx.attributes.types@[i as int].shape));
        },
        Shape::Tuple(n) => {
            let extra = Seq::new(n as nat, |k: int| Param::Position(k as usize));
            assert(ps =~= base + extra);
            assert(!extra.contains(Param::Error));
            lemma_contains_concat(base, extra, Param::Error);
            lemma_distinct_extend(ctx, base, extra);
        },
        Shape::Collection(c) => {
            let extra = match c {
                CollectionType::Vec => seq![Param::Elem],
                CollectionType::Slice => seq![Param::Borrow, Param::Elem],
                CollectionType::Array => seq![Param::Elem, Param::Len],
            };
            assert(ps =~= base + extra);
            assert(!extra.contains(Param::Error));
            lemma_contains_concat(base, extra, Param::Error);
            lemma_distinct_extend(ctx, base, extra);
        },
        Shape::Target => {},
    }
    lemma_distinct_ordered(ctx, ps);
}

/// An element of a concatenation is an element of one of its parts.
proof fn lemma_contains_concat(a: Seq<Param>, b: Seq<Param>, x: Param)
    ensures
        (a + b).contains(x) <==> (a.contains(x) || b.contains(x)),
{
    if a.contains(x) {
        let i = choose|i: int| 0 <= i < a.len() && a[i] == x;
        assert((a + b)[i] == x);
    }
    if b.contains(x) {
        let i = choose|i: int| 0 <= i < b.len() && b[i] == x;
        assert((a + b)[a.len() + i] == x);
    }
    if (a + b).contains(x) {
        let i = choose|i: int| 0 <= i < (a + b).len() && (a + b)[i] == x;
        if i < a.len() {
            assert(a[i] == x);
        } else {
            assert(b[i - a.len()] == x);
        }
    }
}

/// Adding lifetimes by name adds no error parameter and keeps names distinct.
proof fn lemma_add_lifetimes_keeps(ctx: &Context, ps: Seq<Param>, ls: Seq<String>)
    requires
        distinct_lifetimes(ctx.params@, ps),
    ensures
        add_lifetimes(ctx.params@, ps, ls).contains(Param::Error) <==> ps.contains(Param::Error),
        distinct_lifetimes(ctx.params@, add_lifetimes(ctx.params@, ps, ls)),
    decreases ls.len(),
{
    if ls.len() > 0 {
        lemma_add_lifetimes_keeps(ctx, ps, ls.drop_last());
        let prev = add_lifetimes(ctx.params@, ps, ls.drop_last());
        let name = ls.last()@;
        if !crate::generics::has_lifetime(ctx.params@, prev, name) {
            let next = prev.push(Param::Lifetime(ls.last()));
            assert(next.contains(Param::Error) ==> prev.contains(Param::Error)) by {
                if next.contains(Param::Error) {
                    let j = choose|j: int| 0 <= j < next.len() && next[j] == Param::Error;
                    assert(j < prev.len());
                    assert(prev[j] == Param::Error);
                }
            }
            assert(prev.contains(Param::Error) ==> next.contains(Param::Error)) by {
                if prev.contains(Param::Error) {
                    let j = choose|j: int| 0 <= j < prev.len() && prev[j] == Param::Error;
                    assert(next[j] == Param::Error);
                }
            }
            assert forall|a: int, b: int|
                0 <= a < b < next.len() && (#[trigger] crate::generics::lifetime_name(
                    ctx.params@,
                    next[a],
                )) is Some implies crate::generics::lifetime_name(ctx.params@, next[a])
                != #[trigger] crate::generics::lifetime_name(ctx.params@, next[b]) by {
                if b == prev.len() {
                    assert(next[a] == prev[a]);
                } else {
                    assert(next[a] == prev[a] && next[b] == prev[b]);
                }
            }
        }
    }
}

/// Appending parameters that are not lifetimes keeps lifetime names
/// distinct.
proof fn lemma_distinct_extend(ctx: &Context, ps: Seq<Param>, extra: Seq<Param>)
    requires
        distinct_lifetimes(ctx.params@, ps),
        forall|i: int|
            0 <= i < extra.len() ==> crate::generics::lifetime_name(ctx.params@, #[trigger] extra[i])
                is None,
    ensures
        distinct_lifetimes(ctx.params@, ps + extra),
{
    let all = ps + extra;
    assert forall|a: int, b: int|
        0 <= a < b < all.len() && (#[trigger] crate::generics::lifetime_name(
            ctx.params@,
            all[a],
        )) is Some implies crate::generics::lifetime_name(ctx.params@, all[a])
        != #[trigger] crate::generics::lifetime_name(ctx.params@, all[b]) by {
        if b >= ps.len() {
            assert(all[b] == extra[b - ps.len()]);
            if a >= ps.len() {
                assert(all[a] == extra[a - ps.len()]);
            }
        } else {
            assert(all[a] == ps[a] && all[b] == ps[b]);
        }
    }
}

/// Ordering keeps lifetime names distinct.
proof fn lemma_distinct_ordered(ctx: &Context, ps: Seq<Param>)
    requires
        distinct_lifetimes(ctx.params@, ps),
    ensures
        distinct_lifetimes(ctx.params@, ordered_spec(ctx.params@, ps)),
{
    broadcast use vstd::seq_lib::group_filter_ensures;

    let f0 = |p: Param| rank(ctx.params@, p) == 0;
    let a = ps.filter(f0);
    let o = ordered_spec(ctx.params@, ps);
    lemma_ordered(ctx.params@, ps);
    lemma_filter_distinct(ctx, ps);
    assert forall|i: int, j: int|
        0 <= i < j < o.len() && (#[trigger] crate::generics::lifetime_name(
            ctx.params@,
            o[i],
        )) is Some implies crate::generics::lifetime_name(ctx.params@, o[i])
        != #[trigger] crate::generics::lifetime_name(ctx.params@, o[j]) by {
        assert(o =~= a + (ps.filter(|p: Param| rank(ctx.params@, p) == 1) + ps.filter(
            |p: Param| rank(ctx.params@, p) == 2,
        )));
        if i < a.len() && j < a.len() {
            assert(o[i] == a[i] && o[j] == a[j]);
        } else if j >= a.len() {
            lemma_named_is_rank0(ctx, o[i]);
            lemma_named_is_rank0(ctx, o[j]);
            assert(rank(ctx.params@, o[j]) >= 1) by {
                lemma_ordered_tail_rank(ctx, ps, j);
            }
        }
    }
}

/// A parameter with a lifetime name has rank 0.
proof fn lemma_named_is_rank0(ctx: &Context, p: Param)
    ensures
        crate::generics::lifetime_name(ctx.params@, p) is Some ==> rank(ctx.params@, p) == 0,
{
}

/// Past the lifetimes, an ordered list holds no lifetime.
proof fn lemma_ordered_tail_rank(ctx: &Context, ps: Seq<Param>, j: int)
    requires
        ps.filter(|p: Param| rank(ctx.params@, p) == 0).len() <= j < ordered_spec(
            ctx.params@,
            ps,
        ).len(),
    ensures
        rank(ctx.params@, ordered_spec(ctx.params@, ps)[j]) >= 1,
{
    broadcast use vstd::seq_lib::group_filter_ensures;

    let a = ps.filter(|p: Param| rank(ctx.params@, p) == 0);
    let b = ps.filter(|p: Param| rank(ctx.params@, p) == 1);
    let c = ps.filter(|p: Param| rank(ctx.params@, p) == 2);
    let o = ordered_spec(ctx.params@, ps);
    assert(o =~= a + b + c);
    if j < a.len() + b.len() {
        assert(o[j] == b[j - a.len()]);
    } else {
        assert(o[j] == c[j - a.len() - b.len()]);
    }
}

/// Filtering keeps lifetime names distinct.
proof fn lemma_filter_distinct(ctx: &Context, ps: Seq<Param>)
    requires
        distinct_lifetimes(ctx.params@, ps),
    ensures
        distinct_lifetimes(ctx.params@, ps.filter(|p: Param| rank(ctx.params@, p) == 0)),
    decreases ps.len(),
{
    let f0 = |p: Param| rank(ctx.params@, p) == 0;
    if ps.len() == 0 {
        reveal(Seq::filter);
    } else {
        let q = ps.drop_last();
        assert(distinct_lifetimes(ctx.params@, q)) by {
            assert forall|a: int, b: int|
                0 <= a < b < q.len() && (#[trigger] crate::generics::lifetime_name(
                    ctx.params@,
                    q[a],
                )) is Some implies crate::generics::lifetime_name(ctx.params@, q[a])
                != #[trigger] crate::generics::lifetime_name(ctx.params@, q[b]) by {
                assert(q[a] == ps[a] && q[b] == ps[b]);
            }
        }
        lemma_filter_distinct(ctx, q);
        assert(ps =~= q.push(ps.last()));
        q.lemma_filter_push(ps.last(), f0);
        let fq = q.filter(f0);
        if f0(ps.last()) {
            let fp = fq.push(ps.last());
            assert forall|a: int, b: int|
                0 <= a < b < fp.len() && (#[trigger] crate::generics::lifetime_name(
                    ctx.params@,
                    fp[a],
                )) is Some implies crate::generics::lifetime_name(ctx.params@, fp[a])
                != #[trigger] crate::generics::lifetime_name(ctx.params@, fp[b]) by {
                if b == fq.len() {
                    assert(fp[a] == fq[a]);
                    q.lemma_filter_contains_rev(f0, fq[a]);
                    let m = choose|m: int| 0 <= m < q.len() && q[m] == fq[a];
                    assert(ps[m] == fq[a]);
                    assert(ps[ps.len() - 1] == fp[b]);
                } else {
                    assert(fp[a] == fq[a] && fp[b] == fq[b]);
                }
            }
        }
    }
}

/// A flat implementation asks one conversion of each leaf of its shape, in
/// leaf order, after the target's own predicates: `From` for each leaf, or
/// `TryFrom` and the error conversion for each leaf when it is fallible.
pub proof fn lemma_one_bound_per_leaf(n_target: nat, variant: TraitVariant, shape: Shape)
    requires
        !(shape is Target),
    ensures
        where_spec(n_target, TraitKind::Items, variant, shape) == Seq::new(
            n_target,
            |i: int| Predicate::Target(i as usize),
        ) + leaf_bounds(variant, sources_spec(shape)),
        shape matches Shape::Tuple(n) ==> sources_spec(shape) == Seq::new(
            n as nat,
            |i: int| Source::Position(i as usize),
        ),
{
    lemma_bounds_of_leaves(variant, shape, sources_spec(shape));
}

/// The direct conversion bounds of a list of leaves, one leaf after the
/// other.
pub open spec fn leaf_bounds(variant: TraitVariant, srcs: Seq<Source>) -> Seq<Predicate>
    decreases srcs.len(),
{
    if srcs.len() == 0 {
        Seq::empty()
    } else {
        leaf_bounds(variant, srcs.drop_last()) + match variant {
            TraitVariant::Regular => seq![Predicate::From(srcs.last())],
            TraitVariant::Try => seq![
                Predicate::TryFrom(srcs.last()),
                Predicate::ErrorInto(srcs.last()),
            ],
        }
    }
}

proof fn lemma_bounds_of_leaves(variant: TraitVariant, shape: Shape, srcs: Seq<Source>)
    ensures
        crate::bounds::bounds_of(TraitKind::Items, variant, shape, srcs) == leaf_bounds(
            variant,
            srcs,
        ),
    decreases srcs.len(),
{
    if srcs.len() > 0 {
        lemma_bounds_of_leaves(variant, shape, srcs.drop_last());
    }
}

} // verus!
