//! Rows of differing types under one type.
//!
//! The parts of a tuple may each flatten to a different type. Here they are
//! handed out unflattened, each wrapped in the branch of a nested
//! `Either<P0, Either<P1, ...>>` that belongs to its position (position `i`
//! of `n` behind `i` times `Right`, then `Left` unless it is the last), so
//! all rows share one type and need no allocation of their own; each row
//! flattens with its own conversion, through `Either`'s.
use crate::items::{array_to_vec, Either, IntoItems, IntoRows, TryIntoItems, TryIntoRows};
use vstd::prelude::*;

verus! {

/// Hands out the parts of a two-level input as rows of one type.
pub trait IntoVariadicRows<T>: Sized {
    type Row: IntoItems<T>;

    /// The rows, in order.
    spec fn variadic_rows(&self) -> Seq<Self::Row>;

    fn into_variadic_rows(self) -> (r: Vec<Self::Row>)
        ensures
            r@ == self.variadic_rows(),
    ;
}

/// The fallible counterpart of [`IntoVariadicRows`]: each row flattens with
/// its own fallible conversion.
pub trait TryIntoVariadicRows<T, E>: Sized {
    type Row: TryIntoItems<T, E>;

    /// The rows, in order.
    spec fn variadic_rows(&self) -> Seq<Self::Row>;

    fn try_into_variadic_rows(self) -> (r: Vec<Self::Row>)
        ensures
            r@ == self.variadic_rows(),
    ;
}

/// Moves the elements of a sequence into a vector, in order.
fn moved<R>(v: Vec<R>) -> (r: Vec<R>)
    ensures
        r@ == v@,
{
    v
}

impl<T, R0> IntoVariadicRows<T> for (R0,) where R0: IntoItems<T> {
    type Row = R0;

    open spec fn variadic_rows(&self) -> Seq<R0> {
        seq![self.0]
    }

    fn into_variadic_rows(self) -> (r: Vec<R0>) {
        let (r0,) = self;
        let mut r: Vec<R0> = Vec::new();
        r.push(r0);
        assert(r@ =~= <Self as IntoVariadicRows<T>>::variadic_rows(&self));
        r
    }
}

impl<T, R0, R1> IntoVariadicRows<T> for (R0, R1) where R0: IntoItems<T>, R1: IntoItems<T> {
    type Row = Either<R0, R1>;

    open spec fn variadic_rows(&self) -> Seq<Either<R0, R1>> {
        seq![Either::Left(self.0), Either::Right(self.1)]
    }

    fn into_variadic_rows(self) -> (r: Vec<Either<R0, R1>>) {
        let (r0, r1) = self;
        let mut r: Vec<Either<R0, R1>> = Vec::new();
        r.push(Either::Left(r0));
        r.push(Either::Right(r1));
        assert(r@ =~= <Self as IntoVariadicRows<T>>::variadic_rows(&self));
        r
    }
}

impl<T, R0, R1, R2> IntoVariadicRows<T> for (R0, R1, R2) where R0: IntoItems<T>, R1: IntoItems<T>, R2: IntoItems<T> {
    type Row = Either<R0, Either<R1, R2>>;

    open spec fn variadic_rows(&self) -> Seq<Either<R0, Either<R1, R2>>> {
        seq![Either::Left(self.0), Either::Right(Either::Left(self.1)), Either::Right(Either::Right(self.2))]
    }

    fn into_variadic_rows(self) -> (r: Vec<Either<R0, Either<R1, R2>>>) {
        let (r0, r1, r2) = self;
        let mut r: Vec<Either<R0, Either<R1, R2>>> = Vec::new();
        r.push(Either::Left(r0));
        r.push(Either::Right(Either::Left(r1)));
        r.push(Either::Right(Either::Right(r2)));
        assert(r@ =~= <Self as IntoVariadicRows<T>>::variadic_rows(&self));
        r
    }
}

impl<T, R0, R1, R2, R3> IntoVariadicRows<T> for (R0, R1, R2, R3) where R0: IntoItems<T>, R1: IntoItems<T>, R2: IntoItems<T>, R3: IntoItems<T> {
    type Row = Either<R0, Either<R1, Either<R2, R3>>>;

    open spec fn variadic_rows(&self) -> Seq<Either<R0, Either<R1, Either<R2, R3>>>> {
        seq![Either::Left(self.0), Either::Right(Either::Left(self.1)), Either::Right(Either::Right(Either::Left(self.2))), Either::Right(Either::Right(Either::Right(self.3)))]
    }

    fn into_variadic_rows(self) -> (r: Vec<Either<R0, Either<R1, Either<R2, R3>>>>) {
        let (r0, r1, r2, r3) = self;
        let mut r: Vec<Either<R0, Either<R1, Either<R2, R3>>>> = Vec::new();
        r.push(Either::Left(r0));
        r.push(Either::Right(Either::Left(r1)));
        r.push(Either::Right(Either::Right(Either::Left(r2))));
        r.push(Either::Right(Either::Right(Either::Right(r3))));
        assert(r@ =~= <Self as IntoVariadicRows<T>>::variadic_rows(&self));
        r
    }
}

impl<T, R0, R1, R2, R3, R4> IntoVariadicRows<T> for (R0, R1, R2, R3, R4) where R0: IntoItems<T>, R1: IntoItems<T>, R2: IntoItems<T>, R3: IntoItems<T>, R4: IntoItems<T> {
    type Row = Either<R0, Either<R1, Either<R2, Either<R3, R4>>>>;

    open spec fn variadic_rows(&self) -> Seq<Either<R0, Either<R1, Either<R2, Either<R3, R4>>>>> {
        seq![Either::Left(self.0), Either::Right(Either::Left(self.1)), Either::Right(Either::Right(Either::Left(self.2))), Either::Right(Either::Right(Either::Right(Either::Left(self.3)))), Either::Right(Either::Right(Either::Right(Either::Right(self.4))))]
    }

    fn into_variadic_rows(self) -> (r: Vec<Either<R0, Either<R1, Either<R2, Either<R3, R4>>>>>) {
        let (r0, r1, r2, r3, r4) = self;
        let mut r: Vec<Either<R0, Either<R1, Either<R2, Either<R3, R4>>>>> = Vec::new();
        r.push(Either::Left(r0));
        r.push(Either::Right(Either::Left(r1)));
        r.push(Either::Right(Either::Right(Either::Left(r2))));
        r.push(Either::Right(Either::Right(Either::Right(Either::Left(r3)))));
        r.push(Either::Right(Either::Right(Either::Right(Either::Right(r4)))));
        assert(r@ =~= <Self as IntoVariadicRows<T>>::variadic_rows(&self));
        r
    }
}

impl<T, R0, R1, R2, R3, R4, R5> IntoVariadicRows<T> for (R0, R1, R2, R3, R4, R5) where R0: IntoItems<T>, R1: IntoItems<T>, R2: IntoItems<T>, R3: IntoItems<T>, R4: IntoItems<T>, R5: IntoItems<T> {
    type Row = Either<R0, Either<R1, Either<R2, Either<R3, Either<R4, R5>>>>>;

    open spec fn variadic_rows(&self) -> Seq<Either<R0, Either<R1, Either<R2, Either<R3, Either<R4, R5>>>>>> {
        seq![Either::Left(self.0), Either::Right(Either::Left(self.1)), Either::Right(Either::Right(Either::Left(self.2))), Either::Right(Either::Right(Either::Right(Either::Left(self.3)))), Either::Right(Either::Right(Either::Right(Either::Right(Either::Left(self.4))))), Either::Right(Either::Right(Either::Right(Either::Right(Either::Right(self.5)))))]
    }

    fn into_variadic_rows(self) -> (r: Vec<Either<R0, Either<R1, Either<R2, Either<R3, Either<R4, R5>>>>>>) {
        let (r0, r1, r2, r3, r4, r5) = self;
        let mut r: Vec<Either<R0, Either<R1, Either<R2, Either<R3, Either<R4, R5>>>>>> = Vec::new();
        r.push(Either::Left(r0));
        r.push(Either::Right(Either::Left(r1)));
        r.push(Either::Right(Either::Right(Either::Left(r2))));
        r.push(Either::Right(Either::Right(Either::Right(Either::Left(r3)))));
        r.push(Either::Right(Either::Right(Either::Right(Either::Right(Either::Left(r4))))));
        r.push(Either::Right(Either::Right(Either::Right(Either::Right(Either::Right(r5))))));
        assert(r@ =~= <Self as IntoVariadicRows<T>>::variadic_rows(&self));
        r
    }
}

impl<T, R> IntoVariadicRows<T> for Vec<R> where R: IntoItems<T> {
    type Row = R;

    open spec fn variadic_rows(&self) -> Seq<R> {
        self@
    }

    fn into_variadic_rows(self) -> (r: Vec<R>) {
        moved(self)
    }
}

impl<T, R, const N: usize> IntoVariadicRows<T> for [R; N] where R: IntoItems<T> {
    type Row = R;

    open spec fn variadic_rows(&self) -> Seq<R> {
        self@
    }

    fn into_variadic_rows(self) -> (r: Vec<R>) {
        array_to_vec(self)
    }
}

impl<T, E, R0> TryIntoVariadicRows<T, E> for (R0,) where R0: TryIntoItems<T, E> {
    type Row = R0;

    open spec fn variadic_rows(&self) -> Seq<R0> {
        seq![self.0]
    }

    fn try_into_variadic_rows(self) -> (r: Vec<R0>) {
        let (r0,) = self;
        let mut r: Vec<R0> = Vec::new();
        r.push(r0);
        assert(r@ =~= <Self as TryIntoVariadicRows<T, E>>::variadic_rows(&self));
        r
    }
}

impl<T, E, R0, R1> TryIntoVariadicRows<T, E> for (R0, R1) where R0: TryIntoItems<T, E>, R1: TryIntoItems<T, E> {
    type Row = Either<R0, R1>;

    open spec fn variadic_rows(&self) -> Seq<Either<R0, R1>> {
        seq![Either::Left(self.0), Either::Right(self.1)]
    }

    fn try_into_variadic_rows(self) -> (r: Vec<Either<R0, R1>>) {
        let (r0, r1) = self;
        let mut r: Vec<Either<R0, R1>> = Vec::new();
        r.push(Either::Left(r0));
        r.push(Either::Right(r1));
        assert(r@ =~= <Self as TryIntoVariadicRows<T, E>>::variadic_rows(&self));
        r
    }
}

impl<T, E, R0, R1, R2> TryIntoVariadicRows<T, E> for (R0, R1, R2) where R0: TryIntoItems<T, E>, R1: TryIntoItems<T, E>, R2: TryIntoItems<T, E> {
    type Row = Either<R0, Either<R1, R2>>;

    open spec fn variadic_rows(&self) -> Seq<Either<R0, Either<R1, R2>>> {
        seq![Either::Left(self.0), Either::Right(Either::Left(self.1)), Either::Right(Either::Right(self.2))]
    }

    fn try_into_variadic_rows(self) -> (r: Vec<Either<R0, Either<R1, R2>>>) {
        let (r0, r1, r2) = self;
        let mut r: Vec<Either<R0, Either<R1, R2>>> = Vec::new();
        r.push(Either::Left(r0));
        r.push(Either::Right(Either::Left(r1)));
        r.push(Either::Right(Either::Right(r2)));
        assert(r@ =~= <Self as TryIntoVariadicRows<T, E>>::variadic_rows(&self));
        r
    }
}

impl<T, E, R0, R1, R2, R3> TryIntoVariadicRows<T, E> for (R0, R1, R2, R3) where R0: TryIntoItems<T, E>, R1: TryIntoItems<T, E>, R2: TryIntoItems<T, E>, R3: TryIntoItems<T, E> {
    type Row = Either<R0, Either<R1, Either<R2, R3>>>;

    open spec fn variadic_rows(&self) -> Seq<Either<R0, Either<R1, Either<R2, R3>>>> {
        seq![Either::Left(self.0), Either::Right(Either::Left(self.1)), Either::Right(Either::Right(Either::Left(self.2))), Either::Right(Either::Right(Either::Right(self.3)))]
    }

    fn try_into_variadic_rows(self) -> (r: Vec<Either<R0, Either<R1, Either<R2, R3>>>>) {
        let (r0, r1, r2, r3) = self;
        let mut r: Vec<Either<R0, Either<R1, Either<R2, R3>>>> = Vec::new();
        r.push(Either::Left(r0));
        r.push(Either::Right(Either::Left(r1)));
        r.push(Either::Right(Either::Right(Either::Left(r2))));
        r.push(Either::Right(Either::Right(Either::Right(r3))));
        assert(r@ =~= <Self as TryIntoVariadicRows<T, E>>::variadic_rows(&self));
        r
    }
}

impl<T, E, R0, R1, R2, R3, R4> TryIntoVariadicRows<T, E> for (R0, R1, R2, R3, R4) where R0: TryIntoItems<T, E>, R1: TryIntoItems<T, E>, R2: TryIntoItems<T, E>, R3: TryIntoItems<T, E>, R4: TryIntoItems<T, E> {
    type Row = Either<R0, Either<R1, Either<R2, Either<R3, R4>>>>;

    open spec fn variadic_rows(&self) -> Seq<Either<R0, Either<R1, Either<R2, Either<R3, R4>>>>> {
        seq![Either::Left(self.0), Either::Right(Either::Left(self.1)), Either::Right(Either::Right(Either::Left(self.2))), Either::Right(Either::Right(Either::Right(Either::Left(self.3)))), Either::Right(Either::Right(Either::Right(Either::Right(self.4))))]
    }

    fn try_into_variadic_rows(self) -> (r: Vec<Either<R0, Either<R1, Either<R2, Either<R3, R4>>>>>) {
        let (r0, r1, r2, r3, r4) = self;
        let mut r: Vec<Either<R0, Either<R1, Either<R2, Either<R3, R4>>>>> = Vec::new();
        r.push(Either::Left(r0));
        r.push(Either::Right(Either::Left(r1)));
        r.push(Either::Right(Either::Right(Either::Left(r2))));
        r.push(Either::Right(Either::Right(Either::Right(Either::Left(r3)))));
        r.push(Either::Right(Either::Right(Either::Right(Either::Right(r4)))));
        assert(r@ =~= <Self as TryIntoVariadicRows<T, E>>::variadic_rows(&self));
        r
    }
}

impl<T, E, R0, R1, R2, R3, R4, R5> TryIntoVariadicRows<T, E> for (R0, R1, R2, R3, R4, R5) where R0: TryIntoItems<T, E>, R1: TryIntoItems<T, E>, R2: TryIntoItems<T, E>, R3: TryIntoItems<T, E>, R4: TryIntoItems<T, E>, R5: TryIntoItems<T, E> {
    type Row = Either<R0, Either<R1, Either<R2, Either<R3, Either<R4, R5>>>>>;

    open spec fn variadic_rows(&self) -> Seq<Either<R0, Either<R1, Either<R2, Either<R3, Either<R4, R5>>>>>> {
        seq![Either::Left(self.0), Either::Right(Either::Left(self.1)), Either::Right(Either::Right(Either::Left(self.2))), Either::Right(Either::Right(Either::Right(Either::Left(self.3)))), Either::Right(Either::Right(Either::Right(Either::Right(Either::Left(self.4))))), Either::Right(Either::Right(Either::Right(Either::Right(Either::Right(self.5)))))]
    }

    fn try_into_variadic_rows(self) -> (r: Vec<Either<R0, Either<R1, Either<R2, Either<R3, Either<R4, R5>>>>>>) {
        let (r0, r1, r2, r3, r4, r5) = self;
        let mut r: Vec<Either<R0, Either<R1, Either<R2, Either<R3, Either<R4, R5>>>>>> = Vec::new();
        r.push(Either::Left(r0));
        r.push(Either::Right(Either::Left(r1)));
        r.push(Either::Right(Either::Right(Either::Left(r2))));
        r.push(Either::Right(Either::Right(Either::Right(Either::Left(r3)))));
        r.push(Either::Right(Either::Right(Either::Right(Either::Right(Either::Left(r4))))));
        r.push(Either::Right(Either::Right(Either::Right(Either::Right(Either::Right(r5))))));
        assert(r@ =~= <Self as TryIntoVariadicRows<T, E>>::variadic_rows(&self));
        r
    }
}

impl<T, E, R> TryIntoVariadicRows<T, E> for Vec<R> where R: TryIntoItems<T, E> {
    type Row = R;

    open spec fn variadic_rows(&self) -> Seq<R> {
        self@
    }

    fn try_into_variadic_rows(self) -> (r: Vec<R>) {
        moved(self)
    }
}

impl<T, E, R, const N: usize> TryIntoVariadicRows<T, E> for [R; N] where R: TryIntoItems<T, E> {
    type Row = R;

    open spec fn variadic_rows(&self) -> Seq<R> {
        self@
    }

    fn try_into_variadic_rows(self) -> (r: Vec<R>) {
        array_to_vec(self)
    }
}

/// Wrapping the parts of a tuple in the sum changes the row type, not the
/// rows: each variadic row flattens to the row [`IntoRows`] gives for the
/// same position.
pub proof fn lemma_sum_keeps_rows<T, R0, R1, R2>(x: (R0, R1, R2)) where
    R0: IntoItems<T>,
    R1: IntoItems<T>,
    R2: IntoItems<T>,

    ensures
        IntoVariadicRows::<T>::variadic_rows(&x).len() == IntoRows::<T>::rows(&x).len(),
        forall|i: int|
            0 <= i < IntoRows::<T>::rows(&x).len() ==> (#[trigger] IntoVariadicRows::<
                T,
            >::variadic_rows(&x)[i]).items() == IntoRows::<T>::rows(&x)[i],
{
    let v = IntoVariadicRows::<T>::variadic_rows(&x);
    assert(v[0] == Either::<R0, Either<R1, R2>>::Left(x.0));
    assert(v[1] == Either::<R0, Either<R1, R2>>::Right(Either::Left(x.1)));
    assert(v[2] == Either::<R0, Either<R1, R2>>::Right(Either::Right(x.2)));
}

/// The fallible form of [`lemma_sum_keeps_rows`]: each variadic row
/// flattens, or fails, exactly as the same position's row of
/// [`TryIntoRows`] does.
pub proof fn lemma_try_sum_keeps_rows<T, E, R0, R1, R2>(x: (R0, R1, R2)) where
    R0: TryIntoItems<T, E>,
    R1: TryIntoItems<T, E>,
    R2: TryIntoItems<T, E>,

    ensures
        TryIntoVariadicRows::<T, E>::variadic_rows(&x).len() == 3,
        TryIntoVariadicRows::<T, E>::variadic_rows(&x)[0].try_items() == x.0.try_items(),
        TryIntoVariadicRows::<T, E>::variadic_rows(&x)[1].try_items() == x.1.try_items(),
        TryIntoVariadicRows::<T, E>::variadic_rows(&x)[2].try_items() == x.2.try_items(),
        TryIntoRows::<T, E>::try_rows(&x).len() == 3,
        forall|i: int|
            0 <= i < 3 ==> (#[trigger] TryIntoVariadicRows::<T, E>::variadic_rows(&x)[i]).try_items()
                == TryIntoRows::<T, E>::try_rows(&x)[i],
{
    let v = TryIntoVariadicRows::<T, E>::variadic_rows(&x);
    assert(v[0] == Either::<R0, Either<R1, R2>>::Left(x.0));
    assert(v[1] == Either::<R0, Either<R1, R2>>::Right(Either::Left(x.1)));
    assert(v[2] == Either::<R0, Either<R1, R2>>::Right(Either::Right(x.2)));
}

} // verus!
