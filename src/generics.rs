//! The generic parameter list of one generated implementation.
//!
//! Every parameter the generator introduces is a variant of [`Param`] of its
//! own, so none can collide with a name the target chose.
use crate::context::{extract_lifetimes, lifetimes_in, Context, ParamKind, TargetParam, TypeShape};
use vstd::prelude::*;

verus! {

/// One generic parameter of a generated implementation.
#[derive(Debug, PartialEq, Eq)]
pub enum Param {
    /// The target's own parameter at this index, with its declared bounds.
    Target(usize),
    /// A lifetime that a declared source type names.
    Lifetime(String),
    /// The lifetime of a borrowed slice.
    Borrow,
    /// The error type of a fallible conversion, where no error type is fixed.
    Error,
    /// The placeholder type of the tuple position at this index.
    Position(usize),
    /// The element placeholder type of a collection.
    Elem,
    /// The length of a fixed-size array.
    Len,
}

/// Where a parameter must stand: lifetimes (0), then the error parameter (1),
/// then every type and const parameter (2).
pub open spec fn rank(params: Seq<TargetParam>, p: Param) -> int {
    match p {
        Param::Target(i) => if 0 <= i < params.len() && params[i as int].kind
            == ParamKind::Lifetime {
            0
        } else {
            2
        },
        Param::Lifetime(_) => 0,
        Param::Borrow => 0,
        Param::Error => 1,
        Param::Position(_) => 2,
        Param::Elem => 2,
        Param::Len => 2,
    }
}

/// The name of a lifetime parameter the target or a source type supplied.
pub open spec fn lifetime_name(params: Seq<TargetParam>, p: Param) -> Option<Seq<char>> {
    match p {
        Param::Target(i) => if 0 <= i < params.len() && params[i as int].kind
            == ParamKind::Lifetime {
            Some(params[i as int].name@)
        } else {
            None
        },
        Param::Lifetime(s) => Some(s@),
        _ => None,
    }
}

/// Some parameter of `ps` is a lifetime called `name`.
pub open spec fn has_lifetime(params: Seq<TargetParam>, ps: Seq<Param>, name: Seq<char>) -> bool {
    exists|j: int| 0 <= j < ps.len() && #[trigger] lifetime_name(params, ps[j]) == Some(name)
}

/// No two parameters of `ps` are lifetimes with the same name.
pub open spec fn distinct_lifetimes(params: Seq<TargetParam>, ps: Seq<Param>) -> bool {
    forall|i: int, j: int|
        0 <= i < j < ps.len() && (#[trigger] lifetime_name(params, ps[i])) is Some ==> lifetime_name(
            params,
            ps[i],
        ) != #[trigger] lifetime_name(params, ps[j])
}

/// `ps` followed by each lifetime of `ls`, in order, that is not already
/// present by name.
pub open spec fn add_lifetimes(params: Seq<TargetParam>, ps: Seq<Param>, ls: Seq<String>) -> Seq<
    Param,
>
    decreases ls.len(),
{
    if ls.len() == 0 {
        ps
    } else {
        let prev = add_lifetimes(params, ps, ls.drop_last());
        if has_lifetime(params, prev, ls.last()@) {
            prev
        } else {
            prev.push(Param::Lifetime(ls.last()))
        }
    }
}

/// The parameters of `ps` of one rank, in their order in `ps`.
pub open spec fn of_rank(params: Seq<TargetParam>, ps: Seq<Param>, r: int) -> Seq<Param> {
    ps.filter(|p: Param| rank(params, p) == r)
}

/// `ps` reordered: lifetimes, then the error parameter, then the rest; each
/// group keeps the order it had in `ps`.
pub open spec fn ordered_spec(params: Seq<TargetParam>, ps: Seq<Param>) -> Seq<Param> {
    of_rank(params, ps, 0) + of_rank(params, ps, 1) + of_rank(params, ps, 2)
}

/// The target's own parameters in declaration order.
pub open spec fn target_params_spec(n: nat) -> Seq<Param> {
    Seq::new(n, |i: int| Param::Target(i as usize))
}

/// A parameter list under construction, in insertion order.
#[derive(Debug, PartialEq, Eq)]
pub struct GenericList {
    pub params: Vec<Param>,
}

impl GenericList {
    pub fn new() -> (r: GenericList)
        ensures
            r.params@ == Seq::<Param>::empty(),
    {
        GenericList { params: Vec::new() }
    }

    /// Adds the target's own parameters.
    pub fn with_generics(self, ctx: &Context) -> (r: GenericList)
        ensures
            r.params@ == self.params@ + target_params_spec(ctx.params@.len()),
    {
        let mut list = self;
        let ghost start = list.params@;
        let n = ctx.params.len();
        let mut i: usize = 0;
        while i < n
            invariant
                n == ctx.params@.len(),
                i <= n,
                list.params@ == start + target_params_spec(i as nat),
            decreases n - i,
        {
            list.params.push(Param::Target(i));
            assert(list.params@ =~= start + target_params_spec((i + 1) as nat));
            i = i + 1;
        }
        list
    }

    /// Adds one parameter.
    pub fn with(self, p: Param) -> (r: GenericList)
        ensures
            r.params@ == self.params@.push(p),
    {
        let mut list = self;
        list.params.push(p);
        list
    }

    /// Adds the placeholder types of the first `n` tuple positions.
    pub fn with_positions(self, n: usize) -> (r: GenericList)
        ensures
            r.params@ == self.params@ + Seq::new(n as nat, |i: int| Param::Position(i as usize)),
    {
        let mut list = self;
        let ghost start = list.params@;
        let mut i: usize = 0;
        while i < n
            invariant
                i <= n,
                list.params@ == start + Seq::new(i as nat, |k: int| Param::Position(k as usize)),
            decreases n - i,
        {
            list.params.push(Param::Position(i));
            assert(list.params@ =~= start + Seq::new(
                (i + 1) as nat,
                |k: int| Param::Position(k as usize),
            ));
            i = i + 1;
        }
        list
    }

    /// Adds each lifetime that `ty` names, in written order, unless a
    /// lifetime of that name is already in the list.
    pub fn with_lifetimes_from_type(self, ctx: &Context, ty: &TypeShape) -> (r: GenericList)
        ensures
            r.params@ == add_lifetimes(ctx.params@, self.params@, lifetimes_in(*ty)),
            distinct_lifetimes(ctx.params@, self.params@) ==> distinct_lifetimes(
                ctx.params@,
                r.params@,
            ),
    {
        let mut found: Vec<String> = Vec::new();
        extract_lifetimes(ty, &mut found);
        assert(found@ =~= lifetimes_in(*ty));
        let mut list = self;
        let ghost start = list.params@;
        let mut i: usize = 0;
        while i < found.len()
            invariant
                i <= found@.len(),
                list.params@ == add_lifetimes(ctx.params@, start, found@.take(i as int)),
                distinct_lifetimes(ctx.params@, start) ==> distinct_lifetimes(
                    ctx.params@,
                    list.params@,
                ),
            decreases found@.len() - i,
        {
            let ghost prev = list.params@;
            assert(found@.take(i + 1).drop_last() =~= found@.take(i as int));
            assert(found@.take(i + 1).last() == found@[i as int]);
            if !list.has_lifetime(ctx, &found[i]) {
                let name = found[i].clone();
                list.params.push(Param::Lifetime(name));
                proof {
                    if distinct_lifetimes(ctx.params@, start) {
                        assert forall|a: int, b: int|
                            0 <= a < b < list.params@.len() && (#[trigger] lifetime_name(
                                ctx.params@,
                                list.params@[a],
                            )) is Some implies lifetime_name(ctx.params@, list.params@[a])
                            != #[trigger] lifetime_name(ctx.params@, list.params@[b]) by {
                            if b == prev.len() {
                                assert(lifetime_name(ctx.params@, prev[a]) == lifetime_name(
                                    ctx.params@,
                                    list.params@[a],
                                ));
                            } else {
                                assert(prev[a] == list.params@[a]);
                                assert(prev[b] == list.params@[b]);
                            }
                        }
                    }
                }
            }
            i = i + 1;
        }
        assert(found@.take(i as int) =~= found@);
        list
    }

    /// Whether a lifetime called `name` is already in the list.
    pub fn has_lifetime(&self, ctx: &Context, name: &String) -> (r: bool)
        ensures
            r == has_lifetime(ctx.params@, self.params@, name@),
    {
        let mut j: usize = 0;
        while j < self.params.len()
            invariant
                j <= self.params@.len(),
                forall|k: int|
                    0 <= k < j ==> #[trigger] lifetime_name(ctx.params@, self.params@[k])
                        != Some(name@),
            decreases self.params@.len() - j,
        {
            let same = match &self.params[j] {
                Param::Target(t) => {
                    if *t < ctx.params.len() {
                        match ctx.params[*t].kind {
                            ParamKind::Lifetime => crate::attrs::str_equal(
                                ctx.params[*t].name.as_str(),
                                name.as_str(),
                            ),
                            _ => false,
                        }
                    } else {
                        false
                    }
                },
                Param::Lifetime(s) => crate::attrs::str_equal(s.as_str(), name.as_str()),
                _ => false,
            };
            if same {
                assert(lifetime_name(ctx.params@, self.params@[j as int]) == Some(name@));
                return true;
            }
            j = j + 1;
        }
        false
    }

    /// The parameters in the order the language requires: lifetimes, then the
    /// error parameter, then type and const parameters.
    pub fn ordered(&self, ctx: &Context) -> (r: Vec<Param>)
        ensures
            r@ == ordered_spec(ctx.params@, self.params@),
    {
        let mut lifetimes: Vec<Param> = Vec::new();
        let mut errors: Vec<Param> = Vec::new();
        let mut rest: Vec<Param> = Vec::new();
        let mut i: usize = 0;
        while i < self.params.len()
            invariant
                i <= self.params@.len(),
                lifetimes@ == of_rank(ctx.params@, self.params@.take(i as int), 0),
                errors@ == of_rank(ctx.params@, self.params@.take(i as int), 1),
                rest@ == of_rank(ctx.params@, self.params@.take(i as int), 2),
            decreases self.params@.len() - i,
        {
            let ghost before = self.params@.take(i as int);
            assert(self.params@.take(i + 1) =~= before.push(self.params@[i as int]));
            let p = copy_param(&self.params[i]);
            let r = param_rank(ctx, &p);
            proof {
                let q = self.params@[i as int];
                before.lemma_filter_push(q, |p: Param| rank(ctx.params@, p) == 0);
                before.lemma_filter_push(q, |p: Param| rank(ctx.params@, p) == 1);
                before.lemma_filter_push(q, |p: Param| rank(ctx.params@, p) == 2);
            }
            if r == 0 {
                lifetimes.push(p);
            } else if r == 1 {
                errors.push(p);
            } else {
                rest.push(p);
            }
            i = i + 1;
        }
        assert(self.params@.take(i as int) =~= self.params@);
        lifetimes.append(&mut errors);
        lifetimes.append(&mut rest);
        lifetimes
    }
}

/// Copies one parameter.
pub fn copy_param(p: &Param) -> (r: Param)
    ensures
        r == *p,
{
    match p {
        Param::Target(i) => Param::Target(*i),
        Param::Lifetime(s) => Param::Lifetime(s.clone()),
        Param::Borrow => Param::Borrow,
        Param::Error => Param::Error,
        Param::Position(i) => Param::Position(*i),
        Param::Elem => Param::Elem,
        Param::Len => Param::Len,
    }
}

/// The rank of one parameter; see [`rank`].
pub fn param_rank(ctx: &Context, p: &Param) -> (r: u8)
    ensures
        r as int == rank(ctx.params@, *p),
{
    match p {
        Param::Target(i) => {
            if *i < ctx.params.len() {
                match ctx.params[*i].kind {
                    ParamKind::Lifetime => 0,
                    _ => 2,
                }
            } else {
                2
            }
        },
        Param::Lifetime(_) => 0,
        Param::Borrow => 0,
        Param::Error => 1,
        _ => 2,
    }
}

/// The ordering rule: in an ordered list no parameter stands before one of a
/// lower rank, and the list holds exactly the parameters it was made from.
pub proof fn lemma_ordered(params: Seq<TargetParam>, ps: Seq<Param>)
    ensures
        forall|i: int, j: int|
            0 <= i < j < ordered_spec(params, ps).len() ==> rank(
                params,
                #[trigger] ordered_spec(params, ps)[i],
            ) <= rank(params, #[trigger] ordered_spec(params, ps)[j]),
        forall|p: Param| #[trigger] ordered_spec(params, ps).contains(p) <==> ps.contains(p),
        ordered_spec(params, ps).len() == ps.len(),
{
    broadcast use vstd::seq_lib::group_filter_ensures;

    let f0 = |p: Param| rank(params, p) == 0;
    let f1 = |p: Param| rank(params, p) == 1;
    let f2 = |p: Param| rank(params, p) == 2;
    let a = ps.filter(f0);
    let b = ps.filter(f1);
    let c = ps.filter(f2);
    let o = ordered_spec(params, ps);
    assert(o =~= a + b + c);
    assert forall|i: int| 0 <= i < o.len() implies rank(params, #[trigger] o[i]) == if i < a.len() {
        0int
    } else if i < a.len() + b.len() {
        1int
    } else {
        2int
    } by {
        if i < a.len() {
            assert(o[i] == a[i]);
        } else if i < a.len() + b.len() {
            assert(o[i] == b[i - a.len()]);
        } else {
            assert(o[i] == c[i - a.len() - b.len()]);
        }
    }
    assert forall|p: Param| #[trigger] o.contains(p) <==> ps.contains(p) by {
        if ps.contains(p) {
            let k = choose|k: int| 0 <= k < ps.len() && ps[k] == p;
            let r = rank(params, p);
            if r == 0 {
                ps.lemma_filter_contains(f0, k);
                let m = choose|m: int| 0 <= m < a.len() && a[m] == p;
                assert(o[m] == p);
            } else if r == 1 {
                ps.lemma_filter_contains(f1, k);
                let m = choose|m: int| 0 <= m < b.len() && b[m] == p;
                assert(o[a.len() + m] == p);
            } else {
                ps.lemma_filter_contains(f2, k);
                let m = choose|m: int| 0 <= m < c.len() && c[m] == p;
                assert(o[a.len() + b.len() + m] == p);
            }
        }
        if o.contains(p) {
            let m = choose|m: int| 0 <= m < o.len() && o[m] == p;
            if m < a.len() {
                assert(a[m] == p);
                assert(a.contains(p));
                ps.lemma_filter_contains_rev(f0, p);
            } else if m < a.len() + b.len() {
                assert(b[m - a.len()] == p);
                assert(b.contains(p));
                ps.lemma_filter_contains_rev(f1, p);
            } else {
                assert(c[m - a.len() - b.len()] == p);
                assert(c.contains(p));
                ps.lemma_filter_contains_rev(f2, p);
            }
        }
    }
    lemma_rank_partition(params, ps);
}

/// Every parameter has one of the three ranks, so the three groups together
/// are as long as the list.
proof fn lemma_rank_partition(params: Seq<TargetParam>, ps: Seq<Param>)
    ensures
        of_rank(params, ps, 0).len() + of_rank(params, ps, 1).len() + of_rank(params, ps, 2).len()
            == ps.len(),
    decreases ps.len(),
{
    if ps.len() > 0 {
        let q = ps.drop_last();
        lemma_rank_partition(params, q);
        assert(ps =~= q.push(ps.last()));
        q.lemma_filter_push(ps.last(), |p: Param| rank(params, p) == 0);
        q.lemma_filter_push(ps.last(), |p: Param| rank(params, p) == 1);
        q.lemma_filter_push(ps.last(), |p: Param| rank(params, p) == 2);
    } else {
        reveal(Seq::filter);
    }
}

} // verus!
