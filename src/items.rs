//! The conversion traits: a value, a tuple or a collection becomes a sequence
//! of the target type, leaf by leaf and left to right.
//!
//! Each method returns its result whole. A fallible flat conversion stops at
//! the first leaf that fails and returns that leaf's error, converted into
//! the error type; later leaves are never converted. Fallible rows keep one
//! row per part, each part's own result, so one failing part does not take
//! the other rows with it.
use vstd::prelude::*;
use vstd::std_specs::convert::{FromSpec, IntoSpec, TryFromSpec};

verus! {

/// The result of converting one value with `From`.
pub open spec fn from_one<T: From<A>, A>(a: A) -> T {
    <T as FromSpec<A>>::from_spec(a)
}

/// The `From` conversion has a stated result.
pub open spec fn obeys_from<T: From<A>, A>() -> bool {
    <T as FromSpec<A>>::obeys_from_spec()
}

/// The result of converting one value with `TryFrom`, its error converted
/// with `Into`.
pub open spec fn try_one<T, E, A>(a: A) -> Result<T, E> where
    T: TryFrom<A>,
    <T as TryFrom<A>>::Error: Into<E>,
 {
    match <T as TryFromSpec<A>>::try_from_spec(a) {
        Ok(t) => Ok(t),
        Err(e) => Err(<<T as TryFrom<A>>::Error as IntoSpec<E>>::into_spec(e)),
    }
}

/// Both conversions of [`try_one`] have stated results.
pub open spec fn obeys_try<T, E, A>() -> bool where
    T: TryFrom<A>,
    <T as TryFrom<A>>::Error: Into<E>,
 {
    <T as TryFromSpec<A>>::obeys_try_from_spec() && <<T as TryFrom<
        A,
    >>::Error as IntoSpec<E>>::obeys_into_spec()
}

/// Converts every value of `s` in order; the first failure wins.
pub open spec fn try_all<T, E, A>(s: Seq<A>) -> Result<Seq<T>, E> where
    T: TryFrom<A>,
    <T as TryFrom<A>>::Error: Into<E>,

    decreases s.len(),
{
    if s.len() == 0 {
        Ok(Seq::empty())
    } else {
        match try_all::<T, E, A>(s.drop_last()) {
            Err(e) => Err(e),
            Ok(v) => match try_one::<T, E, A>(s.last()) {
                Err(e) => Err(e),
                Ok(t) => Ok(v.push(t)),
            },
        }
    }
}

/// The contents of each row.
pub open spec fn views<T>(rows: Seq<Vec<T>>) -> Seq<Seq<T>> {
    rows.map_values(|r: Vec<T>| r@)
}

/// Consumes or borrows an input and yields its items as `T`, converted with
/// `From` one leaf at a time, left to right.
pub trait IntoItems<T>: Sized {
    /// Every conversion the input goes through has a stated result.
    spec fn converts(&self) -> bool;

    /// The converted items, in order.
    spec fn items(&self) -> Seq<T>;

    fn into_items(self) -> (r: Vec<T>)
        ensures
            r@.len() == self.items().len(),
            self.converts() ==> r@ == self.items(),
    ;
}

/// Consumes or borrows an input and yields its items as `T`, converted with
/// `TryFrom` one leaf at a time; the first failure ends the conversion.
pub trait TryIntoItems<T, E>: Sized {
    spec fn try_converts(&self) -> bool;

    /// The converted items, or the error of the first leaf that failed.
    spec fn try_items(&self) -> Result<Seq<T>, E>;

    fn try_into_items(self) -> (r: Result<Vec<T>, E>)
        ensures
            self.try_items() == Ok::<Seq<T>, E>(Seq::empty()) ==> (r matches Ok(v) && v@.len()
                == 0),
            self.try_converts() ==> match r {
                Ok(v) => self.try_items() == Ok::<Seq<T>, E>(v@),
                Err(e) => self.try_items() == Err::<Seq<T>, E>(e),
            },
    ;
}

/// Consumes or borrows a two-level input and yields one row of `T` for each
/// of its parts, each part flattened by its own [`IntoItems`].
pub trait IntoRows<T>: Sized {
    spec fn converts(&self) -> bool;

    /// The rows, in order.
    spec fn rows(&self) -> Seq<Seq<T>>;

    fn into_rows(self) -> (r: Vec<Vec<T>>)
        ensures
            r@.len() == self.rows().len(),
            self.converts() ==> views(r@) == self.rows(),
    ;
}

/// The fallible counterpart of [`IntoRows`]: one row per part, each the
/// part's own fallible flattening, so a part that fails gives an error in its
/// own row and every other row is still there.
pub trait TryIntoRows<T, E>: Sized {
    spec fn try_converts(&self) -> bool;

    /// Each row in order: the items of its part, or the error of the part's
    /// first failing leaf.
    spec fn try_rows(&self) -> Seq<Result<Seq<T>, E>>;

    fn try_into_rows(self) -> (r: Vec<Result<Vec<T>, E>>)
        ensures
            r@.len() == self.try_rows().len(),
            self.try_converts() ==> result_views(r@) == self.try_rows(),
    ;
}

/// The contents of a row that may have failed.
pub open spec fn result_view<T, E>(r: Result<Vec<T>, E>) -> Result<Seq<T>, E> {
    match r {
        Ok(v) => Ok(v@),
        Err(e) => Err(e),
    }
}

/// The contents of each row that may have failed.
pub open spec fn result_views<T, E>(rows: Seq<Result<Vec<T>, E>>) -> Seq<Result<Seq<T>, E>> {
    rows.map_values(|r: Result<Vec<T>, E>| result_view(r))
}

/// A sequence that converts succeeds with one item per element.
pub proof fn lemma_try_all_len<T, E, A>(s: Seq<A>) where
    T: TryFrom<A>,
    <T as TryFrom<A>>::Error: Into<E>,

    ensures
        try_all::<T, E, A>(s) matches Ok(x) ==> x.len() == s.len(),
    decreases s.len(),
{
    if s.len() > 0 {
        lemma_try_all_len::<T, E, A>(s.drop_last());
    }
}

/// Converts one value with `TryFrom`, its error with `Into`.
pub fn try_convert<T, E, A>(a: A) -> (r: Result<T, E>) where
    T: TryFrom<A>,
    <T as TryFrom<A>>::Error: Into<E>,

    ensures
        obeys_try::<T, E, A>() ==> r == try_one::<T, E, A>(a),
{
    match T::try_from(a) {
        Ok(t) => Ok(t),
        Err(e) => Err(e.into()),
    }
}

/// Once a prefix fails, every longer sequence fails with the same error.
pub proof fn lemma_try_all_prefix_fails<T, E, A>(s: Seq<A>, i: int, e: E) where
    T: TryFrom<A>,
    <T as TryFrom<A>>::Error: Into<E>,

    requires
        0 <= i <= s.len(),
        try_all::<T, E, A>(s.take(i)) == Err::<Seq<T>, E>(e),
    ensures
        try_all::<T, E, A>(s) == Err::<Seq<T>, E>(e),
    decreases s.len() - i,
{
    if i < s.len() {
        assert(s.take(i + 1).drop_last() =~= s.take(i));
        lemma_try_all_prefix_fails::<T, E, A>(s, i + 1, e);
    } else {
        assert(s.take(i) =~= s);
    }
}

/// Converts a sequence of owned values in order, stopping at the first
/// failure.
fn try_convert_vec<T, E, A>(v: Vec<A>) -> (r: Result<Vec<T>, E>) where
    T: TryFrom<A>,
    <T as TryFrom<A>>::Error: Into<E>,

    ensures
        v@.len() == 0 ==> (r matches Ok(out) && out@.len() == 0),
        obeys_try::<T, E, A>() ==> match r {
            Ok(out) => try_all::<T, E, A>(v@) == Ok::<Seq<T>, E>(out@),
            Err(e) => try_all::<T, E, A>(v@) == Err::<Seq<T>, E>(e),
        },
{
    let ghost src = v@;
    let mut r: Vec<T> = Vec::new();
    for a in it: v.into_iter()
        invariant
            it.seq() == src,
            obeys_try::<T, E, A>() ==> try_all::<T, E, A>(src.take(it.index() as int))
                == Ok::<Seq<T>, E>(r@),
            r@.len() == it.index(),
    {
        let ghost i = it.index() as int;
        assert(src.take(i + 1).drop_last() =~= src.take(i));
        assert(src.take(i + 1).last() == a);
        match try_convert::<T, E, A>(a) {
            Ok(t) => r.push(t),
            Err(e) => {
                proof {
                    if obeys_try::<T, E, A>() {
                        lemma_try_all_prefix_fails::<T, E, A>(src, i + 1, e);
                    }
                }
                return Err(e);
            },
        }
    }
    assert(src.take(src.len() as int) =~= src);
    Ok(r)
}

/// Converts a sequence of owned values in order.
fn convert_vec<T, A>(v: Vec<A>) -> (r: Vec<T>) where T: From<A>
    ensures
        r@.len() == v@.len(),
        obeys_from::<T, A>() ==> r@ == v@.map_values(|a: A| from_one::<T, A>(a)),
{
    let ghost src = v@;
    let mut r: Vec<T> = Vec::new();
    for a in it: v.into_iter()
        invariant
            it.seq() == src,
            r@.len() == it.index(),
            obeys_from::<T, A>() ==> r@ == src.take(it.index() as int).map_values(
                |a: A| from_one::<T, A>(a),
            ),
    {
        r.push(T::from(a));
        assert(src.take(it.index() + 1) =~= src.take(it.index() as int).push(a));
        assert(obeys_from::<T, A>() ==> r@ =~= src.take(it.index() + 1).map_values(
            |a: A| from_one::<T, A>(a),
        ));
    }
    assert(src.take(src.len() as int) =~= src);
    r
}

/// Moves the elements of an array into a `Vec`, in order.
///
/// Relies on std's `From<[T; N]> for Vec<T>`, which keeps every element in
/// its place.
#[verifier::external_body]
pub(crate) fn array_to_vec<A, const N: usize>(a: [A; N]) -> (r: Vec<A>)
    ensures
        r@ == a@,
{
    Vec::from(a)
}

// Flat conversions, infallible.
impl<T, A0> IntoItems<T> for (A0,) where T: From<A0> {
    open spec fn converts(&self) -> bool {
        obeys_from::<T, A0>()
    }

    open spec fn items(&self) -> Seq<T> {
        seq![from_one::<T, A0>(self.0)]
    }

    fn into_items(self) -> (r: Vec<T>) {
        let (a0,) = self;
        let mut r: Vec<T> = Vec::new();
        r.push(T::from(a0));
        assert(r@.len() == <Self as IntoItems<T>>::items(&self).len());
        assert(<Self as IntoItems<T>>::converts(&self) ==> r@ =~= <Self as IntoItems<T>>::items(&self));
        r
    }
}

impl<T, A0, A1> IntoItems<T> for (A0, A1) where T: From<A0> + From<A1> {
    open spec fn converts(&self) -> bool {
        obeys_from::<T, A0>() && obeys_from::<T, A1>()
    }

    open spec fn items(&self) -> Seq<T> {
        seq![from_one::<T, A0>(self.0), from_one::<T, A1>(self.1)]
    }

    fn into_items(self) -> (r: Vec<T>) {
        let (a0, a1) = self;
        let mut r: Vec<T> = Vec::new();
        r.push(T::from(a0));
        r.push(T::from(a1));
        assert(r@.len() == <Self as IntoItems<T>>::items(&self).len());
        assert(<Self as IntoItems<T>>::converts(&self) ==> r@ =~= <Self as IntoItems<T>>::items(&self));
        r
    }
}

impl<T, A0, A1, A2> IntoItems<T> for (A0, A1, A2) where T: From<A0> + From<A1> + From<A2> {
    open spec fn converts(&self) -> bool {
        obeys_from::<T, A0>() && obeys_from::<T, A1>() && obeys_from::<T, A2>()
    }

    open spec fn items(&self) -> Seq<T> {
        seq![from_one::<T, A0>(self.0), from_one::<T, A1>(self.1), from_one::<T, A2>(self.2)]
    }

    fn into_items(self) -> (r: Vec<T>) {
        let (a0, a1, a2) = self;
        let mut r: Vec<T> = Vec::new();
        r.push(T::from(a0));
        r.push(T::from(a1));
        r.push(T::from(a2));
        assert(r@.len() == <Self as IntoItems<T>>::items(&self).len());
        assert(<Self as IntoItems<T>>::converts(&self) ==> r@ =~= <Self as IntoItems<T>>::items(&self));
        r
    }
}

impl<T, A0, A1, A2, A3> IntoItems<T> for (A0, A1, A2, A3) where T: From<A0> + From<A1> + From<A2> + From<A3> {
    open spec fn converts(&self) -> bool {
        obeys_from::<T, A0>() && obeys_from::<T, A1>() && obeys_from::<T, A2>() && obeys_from::<T, A3>()
    }

    open spec fn items(&self) -> Seq<T> {
        seq![from_one::<T, A0>(self.0), from_one::<T, A1>(self.1), from_one::<T, A2>(self.2), from_one::<T, A3>(self.3)]
    }

    fn into_items(self) -> (r: Vec<T>) {
        let (a0, a1, a2, a3) = self;
        let mut r: Vec<T> = Vec::new();
        r.push(T::from(a0));
        r.push(T::from(a1));
        r.push(T::from(a2));
        r.push(T::from(a3));
        assert(r@.len() == <Self as IntoItems<T>>::items(&self).len());
        assert(<Self as IntoItems<T>>::converts(&self) ==> r@ =~= <Self as IntoItems<T>>::items(&self));
        r
    }
}

impl<T, A0, A1, A2, A3, A4> IntoItems<T> for (A0, A1, A2, A3, A4) where T: From<A0> + From<A1> + From<A2> + From<A3> + From<A4> {
    open spec fn converts(&self) -> bool {
        obeys_from::<T, A0>() && obeys_from::<T, A1>() && obeys_from::<T, A2>() && obeys_from::<T, A3>() && obeys_from::<T, A4>()
    }

    open spec fn items(&self) -> Seq<T> {
        seq![from_one::<T, A0>(self.0), from_one::<T, A1>(self.1), from_one::<T, A2>(self.2), from_one::<T, A3>(self.3), from_one::<T, A4>(self.4)]
    }

    fn into_items(self) -> (r: Vec<T>) {
        let (a0, a1, a2, a3, a4) = self;
        let mut r: Vec<T> = Vec::new();
        r.push(T::from(a0));
        r.push(T::from(a1));
        r.push(T::from(a2));
        r.push(T::from(a3));
        r.push(T::from(a4));
        assert(r@.len() == <Self as IntoItems<T>>::items(&self).len());
        assert(<Self as IntoItems<T>>::converts(&self) ==> r@ =~= <Self as IntoItems<T>>::items(&self));
        r
    }
}

impl<T, A0, A1, A2, A3, A4, A5> IntoItems<T> for (A0, A1, A2, A3, A4, A5) where T: From<A0> + From<A1> + From<A2> + From<A3> + From<A4> + From<A5> {
    open spec fn converts(&self) -> bool {
        obeys_from::<T, A0>() && obeys_from::<T, A1>() && obeys_from::<T, A2>() && obeys_from::<T, A3>() && obeys_from::<T, A4>() && obeys_from::<T, A5>()
    }

    open spec fn items(&self) -> Seq<T> {
        seq![from_one::<T, A0>(self.0), from_one::<T, A1>(self.1), from_one::<T, A2>(self.2), from_one::<T, A3>(self.3), from_one::<T, A4>(self.4), from_one::<T, A5>(self.5)]
    }

    fn into_items(self) -> (r: Vec<T>) {
        let (a0, a1, a2, a3, a4, a5) = self;
        let mut r: Vec<T> = Vec::new();
        r.push(T::from(a0));
        r.push(T::from(a1));
        r.push(T::from(a2));
        r.push(T::from(a3));
        r.push(T::from(a4));
        r.push(T::from(a5));
        assert(r@.len() == <Self as IntoItems<T>>::items(&self).len());
        assert(<Self as IntoItems<T>>::converts(&self) ==> r@ =~= <Self as IntoItems<T>>::items(&self));
        r
    }
}

impl<'a, T, A0> IntoItems<T> for &'a (A0,) where T: From<&'a A0> {
    open spec fn converts(&self) -> bool {
        obeys_from::<T, &'a A0>()
    }

    open spec fn items(&self) -> Seq<T> {
        seq![from_one::<T, &'a A0>(&self.0)]
    }

    fn into_items(self) -> (r: Vec<T>) {
        let mut r: Vec<T> = Vec::new();
        r.push(T::from(&self.0));
        assert(r@.len() == <Self as IntoItems<T>>::items(&self).len());
        assert(<Self as IntoItems<T>>::converts(&self) ==> r@ =~= <Self as IntoItems<T>>::items(&self));
        r
    }
}

impl<'a, T, A0, A1> IntoItems<T> for &'a (A0, A1) where T: From<&'a A0> + From<&'a A1> {
    open spec fn converts(&self) -> bool {
        obeys_from::<T, &'a A0>() && obeys_from::<T, &'a A1>()
    }

    open spec fn items(&self) -> Seq<T> {
        seq![from_one::<T, &'a A0>(&self.0), from_one::<T, &'a A1>(&self.1)]
    }

    fn into_items(self) -> (r: Vec<T>) {
        let mut r: Vec<T> = Vec::new();
        r.push(T::from(&self.0));
        r.push(T::from(&self.1));
        assert(r@.len() == <Self as IntoItems<T>>::items(&self).len());
        assert(<Self as IntoItems<T>>::converts(&self) ==> r@ =~= <Self as IntoItems<T>>::items(&self));
        r
    }
}

impl<'a, T, A0, A1, A2> IntoItems<T> for &'a (A0, A1, A2) where T: From<&'a A0> + From<&'a A1> + From<&'a A2> {
    open spec fn converts(&self) -> bool {
        obeys_from::<T, &'a A0>() && obeys_from::<T, &'a A1>() && obeys_from::<T, &'a A2>()
    }

    open spec fn items(&self) -> Seq<T> {
        seq![from_one::<T, &'a A0>(&self.0), from_one::<T, &'a A1>(&self.1), from_one::<T, &'a A2>(&self.2)]
    }

    fn into_items(self) -> (r: Vec<T>) {
        let mut r: Vec<T> = Vec::new();
        r.push(T::from(&self.0));
        r.push(T::from(&self.1));
        r.push(T::from(&self.2));
        assert(r@.len() == <Self as IntoItems<T>>::items(&self).len());
        assert(<Self as IntoItems<T>>::converts(&self) ==> r@ =~= <Self as IntoItems<T>>::items(&self));
        r
    }
}

impl<'a, T, A0, A1, A2, A3> IntoItems<T> for &'a (A0, A1, A2, A3) where T: From<&'a A0> + From<&'a A1> + From<&'a A2> + From<&'a A3> {
    open spec fn converts(&self) -> bool {
        obeys_from::<T, &'a A0>() && obeys_from::<T, &'a A1>() && obeys_from::<T, &'a A2>() && obeys_from::<T, &'a A3>()
    }

    open spec fn items(&self) -> Seq<T> {
        seq![from_one::<T, &'a A0>(&self.0), from_one::<T, &'a A1>(&self.1), from_one::<T, &'a A2>(&self.2), from_one::<T, &'a A3>(&self.3)]
    }

    fn into_items(self) -> (r: Vec<T>) {
        let mut r: Vec<T> = Vec::new();
        r.push(T::from(&self.0));
        r.push(T::from(&self.1));
        r.push(T::from(&self.2));
        r.push(T::from(&self.3));
        assert(r@.len() == <Self as IntoItems<T>>::items(&self).len());
        assert(<Self as IntoItems<T>>::converts(&self) ==> r@ =~= <Self as IntoItems<T>>::items(&self));
        r
    }
}

impl<'a, T, A0, A1, A2, A3, A4> IntoItems<T> for &'a (A0, A1, A2, A3, A4) where T: From<&'a A0> + From<&'a A1> + From<&'a A2> + From<&'a A3> + From<&'a A4> {
    open spec fn converts(&self) -> bool {
        obeys_from::<T, &'a A0>() && obeys_from::<T, &'a A1>() && obeys_from::<T, &'a A2>() && obeys_from::<T, &'a A3>() && obeys_from::<T, &'a A4>()
    }

    open spec fn items(&self) -> Seq<T> {
        seq![from_one::<T, &'a A0>(&self.0), from_one::<T, &'a A1>(&self.1), from_one::<T, &'a A2>(&self.2), from_one::<T, &'a A3>(&self.3), from_one::<T, &'a A4>(&self.4)]
    }

    fn into_items(self) -> (r: Vec<T>) {
        let mut r: Vec<T> = Vec::new();
        r.push(T::from(&self.0));
        r.push(T::from(&self.1));
        r.push(T::from(&self.2));
        r.push(T::from(&self.3));
        r.push(T::from(&self.4));
        assert(r@.len() == <Self as IntoItems<T>>::items(&self).len());
        assert(<Self as IntoItems<T>>::converts(&self) ==> r@ =~= <Self as IntoItems<T>>::items(&self));
        r
    }
}

impl<'a, T, A0, A1, A2, A3, A4, A5> IntoItems<T> for &'a (A0, A1, A2, A3, A4, A5) where T: From<&'a A0> + From<&'a A1> + From<&'a A2> + From<&'a A3> + From<&'a A4> + From<&'a A5> {
    open spec fn converts(&self) -> bool {
        obeys_from::<T, &'a A0>() && obeys_from::<T, &'a A1>() && obeys_from::<T, &'a A2>() && obeys_from::<T, &'a A3>() && obeys_from::<T, &'a A4>() && obeys_from::<T, &'a A5>()
    }

    open spec fn items(&self) -> Seq<T> {
        seq![from_one::<T, &'a A0>(&self.0), from_one::<T, &'a A1>(&self.1), from_one::<T, &'a A2>(&self.2), from_one::<T, &'a A3>(&self.3), from_one::<T, &'a A4>(&self.4), from_one::<T, &'a A5>(&self.5)]
    }

    fn into_items(self) -> (r: Vec<T>) {
        let mut r: Vec<T> = Vec::new();
        r.push(T::from(&self.0));
        r.push(T::from(&self.1));
        r.push(T::from(&self.2));
        r.push(T::from(&self.3));
        r.push(T::from(&self.4));
        r.push(T::from(&self.5));
        assert(r@.len() == <Self as IntoItems<T>>::items(&self).len());
        assert(<Self as IntoItems<T>>::converts(&self) ==> r@ =~= <Self as IntoItems<T>>::items(&self));
        r
    }
}

impl<T, A> IntoItems<T> for Vec<A> where T: From<A> {
    open spec fn converts(&self) -> bool {
        obeys_from::<T, A>()
    }

    open spec fn items(&self) -> Seq<T> {
        self@.map_values(|a: A| from_one::<T, A>(a))
    }

    fn into_items(self) -> (r: Vec<T>) {
        convert_vec(self)
    }
}

impl<T, A, const N: usize> IntoItems<T> for [A; N] where T: From<A> {
    open spec fn converts(&self) -> bool {
        obeys_from::<T, A>()
    }

    open spec fn items(&self) -> Seq<T> {
        self@.map_values(|a: A| from_one::<T, A>(a))
    }

    fn into_items(self) -> (r: Vec<T>) {
        convert_vec(array_to_vec(self))
    }
}

impl<'a, T, A> IntoItems<T> for &'a [A] where T: From<&'a A> {
    open spec fn converts(&self) -> bool {
        obeys_from::<T, &'a A>()
    }

    open spec fn items(&self) -> Seq<T> {
        Seq::new(self@.len(), |i: int| from_one::<T, &'a A>(&self@[i]))
    }

    fn into_items(self) -> (r: Vec<T>) {
        let mut r: Vec<T> = Vec::new();
        let mut i: usize = 0;
        while i < self.len()
            invariant
                i <= self@.len(),
                r@.len() == i,
                <Self as IntoItems<T>>::converts(&self) ==> r@ =~= Seq::new(
                    i as nat,
                    |k: int| from_one::<T, &'a A>(&self@[k]),
                ),
            decreases self@.len() - i,
        {
            r.push(T::from(&self[i]));
            i = i + 1;
        }
        r
    }
}

impl<'a, T, A> IntoItems<T> for &'a Vec<A> where T: From<&'a A> {
    open spec fn converts(&self) -> bool {
        obeys_from::<T, &'a A>()
    }

    open spec fn items(&self) -> Seq<T> {
        Seq::new(self@.len(), |i: int| from_one::<T, &'a A>(&self@[i]))
    }

    fn into_items(self) -> (r: Vec<T>) {
        self.as_slice().into_items()
    }
}

impl<'a, T, A, const N: usize> IntoItems<T> for &'a [A; N] where T: From<&'a A> {
    open spec fn converts(&self) -> bool {
        obeys_from::<T, &'a A>()
    }

    open spec fn items(&self) -> Seq<T> {
        Seq::new(self@.len(), |i: int| from_one::<T, &'a A>(&self@[i]))
    }

    fn into_items(self) -> (r: Vec<T>) {
        self.as_slice().into_items()
    }
}

// Flat conversions, fallible.
impl<T, E, A0> TryIntoItems<T, E> for (A0,) where
    T: TryFrom<A0>,
    <T as TryFrom<A0>>::Error: Into<E>,
 {
    open spec fn try_converts(&self) -> bool {
        obeys_try::<T, E, A0>()
    }

    open spec fn try_items(&self) -> Result<Seq<T>, E> {
        match try_one::<T, E, A0>(self.0) {
            Err(e) => Err(e),
            Ok(x0) => Ok(seq![x0]),
        }
    }

    fn try_into_items(self) -> (r: Result<Vec<T>, E>) {
        assert(<Self as TryIntoItems<T, E>>::try_items(&self) matches Ok(x) ==> x.len() == 1);
        let (a0,) = self;
        let mut r: Vec<T> = Vec::new();
        match try_convert::<T, E, A0>(a0) {
            Ok(t) => r.push(t),
            Err(e) => return Err(e),
        }
        assert(<Self as TryIntoItems<T, E>>::try_converts(&self) ==> r@ =~= seq![
            try_one::<T, E, A0>(self.0)->Ok_0,
        ]);
        Ok(r)
    }
}

impl<T, E, A0, A1> TryIntoItems<T, E> for (A0, A1) where
    T: TryFrom<A0> + TryFrom<A1>,
    <T as TryFrom<A0>>::Error: Into<E>,
    <T as TryFrom<A1>>::Error: Into<E>,
 {
    open spec fn try_converts(&self) -> bool {
        obeys_try::<T, E, A0>() && obeys_try::<T, E, A1>()
    }

    open spec fn try_items(&self) -> Result<Seq<T>, E> {
        match try_one::<T, E, A0>(self.0) {
            Err(e) => Err(e),
            Ok(x0) => match try_one::<T, E, A1>(self.1) {
                Err(e) => Err(e),
                Ok(x1) => Ok(seq![x0, x1]),
            },
        }
    }

    fn try_into_items(self) -> (r: Result<Vec<T>, E>) {
        assert(<Self as TryIntoItems<T, E>>::try_items(&self) matches Ok(x) ==> x.len() == 2);
        let (a0, a1) = self;
        let mut r: Vec<T> = Vec::new();
        match try_convert::<T, E, A0>(a0) {
            Ok(t) => r.push(t),
            Err(e) => return Err(e),
        }
        match try_convert::<T, E, A1>(a1) {
            Ok(t) => r.push(t),
            Err(e) => return Err(e),
        }
        assert(<Self as TryIntoItems<T, E>>::try_converts(&self) ==> r@ =~= seq![
            try_one::<T, E, A0>(self.0)->Ok_0,
            try_one::<T, E, A1>(self.1)->Ok_0,
        ]);
        Ok(r)
    }
}

impl<T, E, A0, A1, A2> TryIntoItems<T, E> for (A0, A1, A2) where
    T: TryFrom<A0> + TryFrom<A1> + TryFrom<A2>,
    <T as TryFrom<A0>>::Error: Into<E>,
    <T as TryFrom<A1>>::Error: Into<E>,
    <T as TryFrom<A2>>::Error: Into<E>,
 {
    open spec fn try_converts(&self) -> bool {
        obeys_try::<T, E, A0>() && obeys_try::<T, E, A1>() && obeys_try::<T, E, A2>()
    }

    open spec fn try_items(&self) -> Result<Seq<T>, E> {
        match try_one::<T, E, A0>(self.0) {
            Err(e) => Err(e),
            Ok(x0) => match try_one::<T, E, A1>(self.1) {
                Err(e) => Err(e),
                Ok(x1) => match try_one::<T, E, A2>(self.2) {
                    Err(e) => Err(e),
                    Ok(x2) => Ok(seq![x0, x1, x2]),
                },
            },
        }
    }

    fn try_into_items(self) -> (r: Result<Vec<T>, E>) {
        assert(<Self as TryIntoItems<T, E>>::try_items(&self) matches Ok(x) ==> x.len() == 3);
        let (a0, a1, a2) = self;
        let mut r: Vec<T> = Vec::new();
        match try_convert::<T, E, A0>(a0) {
            Ok(t) => r.push(t),
            Err(e) => return Err(e),
        }
        match try_convert::<T, E, A1>(a1) {
            Ok(t) => r.push(t),
            Err(e) => return Err(e),
        }
        match try_convert::<T, E, A2>(a2) {
            Ok(t) => r.push(t),
            Err(e) => return Err(e),
        }
        assert(<Self as TryIntoItems<T, E>>::try_converts(&self) ==> r@ =~= seq![
            try_one::<T, E, A0>(self.0)->Ok_0,
            try_one::<T, E, A1>(self.1)->Ok_0,
            try_one::<T, E, A2>(self.2)->Ok_0,
        ]);
        Ok(r)
    }
}

impl<T, E, A0, A1, A2, A3> TryIntoItems<T, E> for (A0, A1, A2, A3) where
    T: TryFrom<A0> + TryFrom<A1> + TryFrom<A2> + TryFrom<A3>,
    <T as TryFrom<A0>>::Error: Into<E>,
    <T as TryFrom<A1>>::Error: Into<E>,
    <T as TryFrom<A2>>::Error: Into<E>,
    <T as TryFrom<A3>>::Error: Into<E>,
 {
    open spec fn try_converts(&self) -> bool {
        obeys_try::<T, E, A0>() && obeys_try::<T, E, A1>() && obeys_try::<T, E, A2>() && obeys_try::<T, E, A3>()
    }

    open spec fn try_items(&self) -> Result<Seq<T>, E> {
        match try_one::<T, E, A0>(self.0) {
            Err(e) => Err(e),
            Ok(x0) => match try_one::<T, E, A1>(self.1) {
                Err(e) => Err(e),
                Ok(x1) => match try_one::<T, E, A2>(self.2) {
                    Err(e) => Err(e),
                    Ok(x2) => match try_one::<T, E, A3>(self.3) {
                        Err(e) => Err(e),
                        Ok(x3) => Ok(seq![x0, x1, x2, x3]),
                    },
                },
            },
        }
    }

    fn try_into_items(self) -> (r: Result<Vec<T>, E>) {
        assert(<Self as TryIntoItems<T, E>>::try_items(&self) matches Ok(x) ==> x.len() == 4);
        let (a0, a1, a2, a3) = self;
        let mut r: Vec<T> = Vec::new();
        match try_convert::<T, E, A0>(a0) {
            Ok(t) => r.push(t),
            Err(e) => return Err(e),
        }
        match try_convert::<T, E, A1>(a1) {
            Ok(t) => r.push(t),
            Err(e) => return Err(e),
        }
        match try_convert::<T, E, A2>(a2) {
            Ok(t) => r.push(t),
            Err(e) => return Err(e),
        }
        match try_convert::<T, E, A3>(a3) {
            Ok(t) => r.push(t),
            Err(e) => return Err(e),
        }
        assert(<Self as TryIntoItems<T, E>>::try_converts(&self) ==> r@ =~= seq![
            try_one::<T, E, A0>(self.0)->Ok_0,
            try_one::<T, E, A1>(self.1)->Ok_0,
            try_one::<T, E, A2>(self.2)->Ok_0,
            try_one::<T, E, A3>(self.3)->Ok_0,
        ]);
        Ok(r)
    }
}

impl<T, E, A0, A1, A2, A3, A4> TryIntoItems<T, E> for (A0, A1, A2, A3, A4) where
    T: TryFrom<A0> + TryFrom<A1> + TryFrom<A2> + TryFrom<A3> + TryFrom<A4>,
    <T as TryFrom<A0>>::Error: Into<E>,
    <T as TryFrom<A1>>::Error: Into<E>,
    <T as TryFrom<A2>>::Error: Into<E>,
    <T as TryFrom<A3>>::Error: Into<E>,
    <T as TryFrom<A4>>::Error: Into<E>,
 {
    open spec fn try_converts(&self) -> bool {
        obeys_try::<T, E, A0>() && obeys_try::<T, E, A1>() && obeys_try::<T, E, A2>() && obeys_try::<T, E, A3>() && obeys_try::<T, E, A4>()
    }

    open spec fn try_items(&self) -> Result<Seq<T>, E> {
        match try_one::<T, E, A0>(self.0) {
            Err(e) => Err(e),
            Ok(x0) => match try_one::<T, E, A1>(self.1) {
                Err(e) => Err(e),
                Ok(x1) => match try_one::<T, E, A2>(self.2) {
                    Err(e) => Err(e),
                    Ok(x2) => match try_one::<T, E, A3>(self.3) {
                        Err(e) => Err(e),
                        Ok(x3) => match try_one::<T, E, A4>(self.4) {
                            Err(e) => Err(e),
                            Ok(x4) => Ok(seq![x0, x1, x2, x3, x4]),
                        },
                    },
                },
            },
        }
    }

    fn try_into_items(self) -> (r: Result<Vec<T>, E>) {
        assert(<Self as TryIntoItems<T, E>>::try_items(&self) matches Ok(x) ==> x.len() == 5);
        let (a0, a1, a2, a3, a4) = self;
        let mut r: Vec<T> = Vec::new();
        match try_convert::<T, E, A0>(a0) {
            Ok(t) => r.push(t),
            Err(e) => return Err(e),
        }
        match try_convert::<T, E, A1>(a1) {
            Ok(t) => r.push(t),
            Err(e) => return Err(e),
        }
        match try_convert::<T, E, A2>(a2) {
            Ok(t) => r.push(t),
            Err(e) => return Err(e),
        }
        match try_convert::<T, E, A3>(a3) {
            Ok(t) => r.push(t),
            Err(e) => return Err(e),
        }
        match try_convert::<T, E, A4>(a4) {
            Ok(t) => r.push(t),
            Err(e) => return Err(e),
        }
        assert(<Self as TryIntoItems<T, E>>::try_converts(&self) ==> r@ =~= seq![
            try_one::<T, E, A0>(self.0)->Ok_0,
            try_one::<T, E, A1>(self.1)->Ok_0,
            try_one::<T, E, A2>(self.2)->Ok_0,
            try_one::<T, E, A3>(self.3)->Ok_0,
            try_one::<T, E, A4>(self.4)->Ok_0,
        ]);
        Ok(r)
    }
}

impl<T, E, A0, A1, A2, A3, A4, A5> TryIntoItems<T, E> for (A0, A1, A2, A3, A4, A5) where
    T: TryFrom<A0> + TryFrom<A1> + TryFrom<A2> + TryFrom<A3> + TryFrom<A4> + TryFrom<A5>,
    <T as TryFrom<A0>>::Error: Into<E>,
    <T as TryFrom<A1>>::Error: Into<E>,
    <T as TryFrom<A2>>::Error: Into<E>,
    <T as TryFrom<A3>>::Error: Into<E>,
    <T as TryFrom<A4>>::Error: Into<E>,
    <T as TryFrom<A5>>::Error: Into<E>,
 {
    open spec fn try_converts(&self) -> bool {
        obeys_try::<T, E, A0>() && obeys_try::<T, E, A1>() && obeys_try::<T, E, A2>() && obeys_try::<T, E, A3>() && obeys_try::<T, E, A4>() && obeys_try::<T, E, A5>()
    }

    open spec fn try_items(&self) -> Result<Seq<T>, E> {
        match try_one::<T, E, A0>(self.0) {
            Err(e) => Err(e),
            Ok(x0) => match try_one::<T, E, A1>(self.1) {
                Err(e) => Err(e),
                Ok(x1) => match try_one::<T, E, A2>(self.2) {
                    Err(e) => Err(e),
                    Ok(x2) => match try_one::<T, E, A3>(self.3) {
                        Err(e) => Err(e),
                        Ok(x3) => match try_one::<T, E, A4>(self.4) {
                            Err(e) => Err(e),
                            Ok(x4) => match try_one::<T, E, A5>(self.5) {
                                Err(e) => Err(e),
                                Ok(x5) => Ok(seq![x0, x1, x2, x3, x4, x5]),
                            },
                        },
                    },
                },
            },
        }
    }

    fn try_into_items(self) -> (r: Result<Vec<T>, E>) {
        assert(<Self as TryIntoItems<T, E>>::try_items(&self) matches Ok(x) ==> x.len() == 6);
        let (a0, a1, a2, a3, a4, a5) = self;
        let mut r: Vec<T> = Vec::new();
        match try_convert::<T, E, A0>(a0) {
            Ok(t) => r.push(t),
            Err(e) => return Err(e),
        }
        match try_convert::<T, E, A1>(a1) {
            Ok(t) => r.push(t),
            Err(e) => return Err(e),
        }
        match try_convert::<T, E, A2>(a2) {
            Ok(t) => r.push(t),
            Err(e) => return Err(e),
        }
        match try_convert::<T, E, A3>(a3) {
            Ok(t) => r.push(t),
            Err(e) => return Err(e),
        }
        match try_convert::<T, E, A4>(a4) {
            Ok(t) => r.push(t),
            Err(e) => return Err(e),
        }
        match try_convert::<T, E, A5>(a5) {
            Ok(t) => r.push(t),
            Err(e) => return Err(e),
        }
        assert(<Self as TryIntoItems<T, E>>::try_converts(&self) ==> r@ =~= seq![
            try_one::<T, E, A0>(self.0)->Ok_0,
            try_one::<T, E, A1>(self.1)->Ok_0,
            try_one::<T, E, A2>(self.2)->Ok_0,
            try_one::<T, E, A3>(self.3)->Ok_0,
            try_one::<T, E, A4>(self.4)->Ok_0,
            try_one::<T, E, A5>(self.5)->Ok_0,
        ]);
        Ok(r)
    }
}

impl<T, E, A> TryIntoItems<T, E> for Vec<A> where T: TryFrom<A>, <T as TryFrom<A>>::Error: Into<E> {
    open spec fn try_converts(&self) -> bool {
        obeys_try::<T, E, A>()
    }

    open spec fn try_items(&self) -> Result<Seq<T>, E> {
        try_all::<T, E, A>(self@)
    }

    fn try_into_items(self) -> (r: Result<Vec<T>, E>) {
        proof {
            lemma_try_all_len::<T, E, A>(self@);
        }
        try_convert_vec(self)
    }
}

impl<T, E, A, const N: usize> TryIntoItems<T, E> for [A; N] where
    T: TryFrom<A>,
    <T as TryFrom<A>>::Error: Into<E>,
 {
    open spec fn try_converts(&self) -> bool {
        obeys_try::<T, E, A>()
    }

    open spec fn try_items(&self) -> Result<Seq<T>, E> {
        try_all::<T, E, A>(self@)
    }

    fn try_into_items(self) -> (r: Result<Vec<T>, E>) {
        proof {
            lemma_try_all_len::<T, E, A>(self@);
        }
        try_convert_vec(array_to_vec(self))
    }
}

/// Converts every value of a slice in order; the first failure wins.
pub open spec fn try_all_ref<'a, T, E, A: 'a>(s: Seq<A>) -> Result<Seq<T>, E> where
    T: TryFrom<&'a A>,
    <T as TryFrom<&'a A>>::Error: Into<E>,

    decreases s.len(),
{
    if s.len() == 0 {
        Ok(Seq::empty())
    } else {
        match try_all_ref::<'a, T, E, A>(s.drop_last()) {
            Err(e) => Err(e),
            Ok(v) => match try_one::<T, E, &'a A>(&s.last()) {
                Err(e) => Err(e),
                Ok(t) => Ok(v.push(t)),
            },
        }
    }
}

/// Once a prefix of a slice fails, the whole slice fails with the same error.
proof fn lemma_try_all_ref_prefix_fails<'a, T, E, A: 'a>(s: Seq<A>, i: int, e: E) where
    T: TryFrom<&'a A>,
    <T as TryFrom<&'a A>>::Error: Into<E>,

    requires
        0 <= i <= s.len(),
        try_all_ref::<'a, T, E, A>(s.take(i)) == Err::<Seq<T>, E>(e),
    ensures
        try_all_ref::<'a, T, E, A>(s) == Err::<Seq<T>, E>(e),
    decreases s.len() - i,
{
    if i < s.len() {
        assert(s.take(i + 1).drop_last() =~= s.take(i));
        lemma_try_all_ref_prefix_fails::<'a, T, E, A>(s, i + 1, e);
    } else {
        assert(s.take(i) =~= s);
    }
}

/// A slice that converts succeeds with one item per element.
proof fn lemma_try_all_ref_len<'a, T, E, A: 'a>(s: Seq<A>) where
    T: TryFrom<&'a A>,
    <T as TryFrom<&'a A>>::Error: Into<E>,

    ensures
        try_all_ref::<'a, T, E, A>(s) matches Ok(x) ==> x.len() == s.len(),
    decreases s.len(),
{
    if s.len() > 0 {
        lemma_try_all_ref_len::<'a, T, E, A>(s.drop_last());
    }
}

impl<'a, T, E, A> TryIntoItems<T, E> for &'a [A] where
    T: TryFrom<&'a A>,
    <T as TryFrom<&'a A>>::Error: Into<E>,
 {
    open spec fn try_converts(&self) -> bool {
        obeys_try::<T, E, &'a A>()
    }

    open spec fn try_items(&self) -> Result<Seq<T>, E> {
        try_all_ref::<'a, T, E, A>(self@)
    }

    fn try_into_items(self) -> (r: Result<Vec<T>, E>) {
        proof {
            lemma_try_all_ref_len::<'a, T, E, A>(self@);
        }
        let mut r: Vec<T> = Vec::new();
        let mut i: usize = 0;
        while i < self.len()
            invariant
                i <= self@.len(),
                r@.len() == i,
                try_all_ref::<'a, T, E, A>(self@) matches Ok(x) ==> x.len() == self@.len(),
                obeys_try::<T, E, &'a A>() ==> try_all_ref::<'a, T, E, A>(self@.take(i as int))
                    == Ok::<Seq<T>, E>(r@),
            decreases self@.len() - i,
        {
            assert(self@.take(i + 1).drop_last() =~= self@.take(i as int));
            assert(self@.take(i + 1).last() == self@[i as int]);
            match try_convert::<T, E, &'a A>(&self[i]) {
                Ok(t) => r.push(t),
                Err(e) => {
                    proof {
                        if obeys_try::<T, E, &'a A>() {
                            lemma_try_all_ref_prefix_fails::<'a, T, E, A>(self@, i + 1, e);
                        }
                    }
                    return Err(e);
                },
            }
            i = i + 1;
        }
        assert(self@.take(i as int) =~= self@);
        Ok(r)
    }
}

/// A value of one of two item sources: converts as the source it holds.
#[derive(Debug, Clone, Copy, PartialEq, Eq, Hash)]
pub enum Either<L, R> {
    Left(L),
    Right(R),
}

impl<T, L, R> IntoItems<T> for Either<L, R> where L: IntoItems<T>, R: IntoItems<T> {
    open spec fn converts(&self) -> bool {
        match self {
            Either::Left(l) => l.converts(),
            Either::Right(r) => r.converts(),
        }
    }

    open spec fn items(&self) -> Seq<T> {
        match self {
            Either::Left(l) => l.items(),
            Either::Right(r) => r.items(),
        }
    }

    fn into_items(self) -> (r: Vec<T>) {
        match self {
            Either::Left(l) => l.into_items(),
            Either::Right(r) => r.into_items(),
        }
    }
}

impl<T, E, L, R> TryIntoItems<T, E> for Either<L, R> where
    L: TryIntoItems<T, E>,
    R: TryIntoItems<T, E>,
 {
    open spec fn try_converts(&self) -> bool {
        match self {
            Either::Left(l) => l.try_converts(),
            Either::Right(r) => r.try_converts(),
        }
    }

    open spec fn try_items(&self) -> Result<Seq<T>, E> {
        match self {
            Either::Left(l) => l.try_items(),
            Either::Right(r) => r.try_items(),
        }
    }

    fn try_into_items(self) -> (r: Result<Vec<T>, E>) {
        match self {
            Either::Left(l) => l.try_into_items(),
            Either::Right(r) => r.try_into_items(),
        }
    }
}

// Rows.
/// Every part of `s` converts with stated results.
pub open spec fn all_convert<T, R: IntoItems<T>>(s: Seq<R>) -> bool {
    forall|i: int| 0 <= i < s.len() ==> (#[trigger] s[i]).converts()
}

/// Flattens each part of a sequence into a row, in order.
fn rows_of_vec<T, R: IntoItems<T>>(v: Vec<R>) -> (r: Vec<Vec<T>>)
    ensures
        r@.len() == v@.len(),
        all_convert::<T, R>(v@) ==> views(r@) == v@.map_values(|x: R| x.items()),
{
    let ghost src = v@;
    let mut r: Vec<Vec<T>> = Vec::new();
    for x in it: v.into_iter()
        invariant
            it.seq() == src,
            r@.len() == it.index(),
            all_convert::<T, R>(src) ==> views(r@) == src.take(it.index() as int).map_values(
                |x: R| x.items(),
            ),
    {
        let ghost before = r@;
        let ghost i = it.index() as int;
        assert(src[i] == x);
        let row = x.into_items();
        r.push(row);
        assert(r@ == before.push(row));
        assert(views(r@) =~= views(before).push(row@));
        assert(src.take(i + 1) =~= src.take(i).push(x));
        assert(all_convert::<T, R>(src) ==> src[i].converts());
        assert(all_convert::<T, R>(src) ==> views(r@) =~= src.take(i + 1).map_values(
            |x: R| x.items(),
        ));
    }
    assert(src.take(src.len() as int) =~= src);
    r
}

impl<T, R0> IntoRows<T> for (R0,) where R0: IntoItems<T> {
    open spec fn converts(&self) -> bool {
        self.0.converts()
    }

    open spec fn rows(&self) -> Seq<Seq<T>> {
        seq![self.0.items()]
    }

    fn into_rows(self) -> (r: Vec<Vec<T>>) {
        let (r0,) = self;
        let mut r: Vec<Vec<T>> = Vec::new();
        r.push(r0.into_items());
        assert(r@.len() == <Self as IntoRows<T>>::rows(&self).len());
        assert(<Self as IntoRows<T>>::converts(&self) ==> views(r@) =~= <Self as IntoRows<T>>::rows(&self));
        r
    }
}

impl<T, R0, R1> IntoRows<T> for (R0, R1) where R0: IntoItems<T>, R1: IntoItems<T> {
    open spec fn converts(&self) -> bool {
        self.0.converts() && self.1.converts()
    }

    open spec fn rows(&self) -> Seq<Seq<T>> {
        seq![self.0.items(), self.1.items()]
    }

    fn into_rows(self) -> (r: Vec<Vec<T>>) {
        let (r0, r1) = self;
        let mut r: Vec<Vec<T>> = Vec::new();
        r.push(r0.into_items());
        r.push(r1.into_items());
        assert(r@.len() == <Self as IntoRows<T>>::rows(&self).len());
        assert(<Self as IntoRows<T>>::converts(&self) ==> views(r@) =~= <Self as IntoRows<T>>::rows(&self));
        r
    }
}

impl<T, R0, R1, R2> IntoRows<T> for (R0, R1, R2) where R0: IntoItems<T>, R1: IntoItems<T>, R2: IntoItems<T> {
    open spec fn converts(&self) -> bool {
        self.0.converts() && self.1.converts() && self.2.converts()
    }

    open spec fn rows(&self) -> Seq<Seq<T>> {
        seq![self.0.items(), self.1.items(), self.2.items()]
    }

    fn into_rows(self) -> (r: Vec<Vec<T>>) {
        let (r0, r1, r2) = self;
        let mut r: Vec<Vec<T>> = Vec::new();
        r.push(r0.into_items());
        r.push(r1.into_items());
        r.push(r2.into_items());
        assert(r@.len() == <Self as IntoRows<T>>::rows(&self).len());
        assert(<Self as IntoRows<T>>::converts(&self) ==> views(r@) =~= <Self as IntoRows<T>>::rows(&self));
        r
    }
}

impl<T, R0, R1, R2, R3> IntoRows<T> for (R0, R1, R2, R3) where R0: IntoItems<T>, R1: IntoItems<T>, R2: IntoItems<T>, R3: IntoItems<T> {
    open spec fn converts(&self) -> bool {
        self.0.converts() && self.1.converts() && self.2.converts() && self.3.converts()
    }

    open spec fn rows(&self) -> Seq<Seq<T>> {
        seq![self.0.items(), self.1.items(), self.2.items(), self.3.items()]
    }

    fn into_rows(self) -> (r: Vec<Vec<T>>) {
        let (r0, r1, r2, r3) = self;
        let mut r: Vec<Vec<T>> = Vec::new();
        r.push(r0.into_items());
        r.push(r1.into_items());
        r.push(r2.into_items());
        r.push(r3.into_items());
        assert(r@.len() == <Self as IntoRows<T>>::rows(&self).len());
        assert(<Self as IntoRows<T>>::converts(&self) ==> views(r@) =~= <Self as IntoRows<T>>::rows(&self));
        r
    }
}

impl<T, R0, R1, R2, R3, R4> IntoRows<T> for (R0, R1, R2, R3, R4) where R0: IntoItems<T>, R1: IntoItems<T>, R2: IntoItems<T>, R3: IntoItems<T>, R4: IntoItems<T> {
    open spec fn converts(&self) -> bool {
        self.0.converts() && self.1.converts() && self.2.converts() && self.3.converts() && self.4.converts()
    }

    open spec fn rows(&self) -> Seq<Seq<T>> {
        seq![self.0.items(), self.1.items(), self.2.items(), self.3.items(), self.4.items()]
    }

    fn into_rows(self) -> (r: Vec<Vec<T>>) {
        let (r0, r1, r2, r3, r4) = self;
        let mut r: Vec<Vec<T>> = Vec::new();
        r.push(r0.into_items());
        r.push(r1.into_items());
        r.push(r2.into_items());
        r.push(r3.into_items());
        r.push(r4.into_items());
        assert(r@.len() == <Self as IntoRows<T>>::rows(&self).len());
        assert(<Self as IntoRows<T>>::converts(&self) ==> views(r@) =~= <Self as IntoRows<T>>::rows(&self));
        r
    }
}

impl<T, R0, R1, R2, R3, R4, R5> IntoRows<T> for (R0, R1, R2, R3, R4, R5) where R0: IntoItems<T>, R1: IntoItems<T>, R2: IntoItems<T>, R3: IntoItems<T>, R4: IntoItems<T>, R5: IntoItems<T> {
    open spec fn converts(&self) -> bool {
        self.0.converts() && self.1.converts() && self.2.converts() && self.3.converts() && self.4.converts() && self.5.converts()
    }

    open spec fn rows(&self) -> Seq<Seq<T>> {
        seq![self.0.items(), self.1.items(), self.2.items(), self.3.items(), self.4.items(), self.5.items()]
    }

    fn into_rows(self) -> (r: Vec<Vec<T>>) {
        let (r0, r1, r2, r3, r4, r5) = self;
        let mut r: Vec<Vec<T>> = Vec::new();
        r.push(r0.into_items());
        r.push(r1.into_items());
        r.push(r2.into_items());
        r.push(r3.into_items());
        r.push(r4.into_items());
        r.push(r5.into_items());
        assert(r@.len() == <Self as IntoRows<T>>::rows(&self).len());
        assert(<Self as IntoRows<T>>::converts(&self) ==> views(r@) =~= <Self as IntoRows<T>>::rows(&self));
        r
    }
}

impl<T, R> IntoRows<T> for Vec<R> where R: IntoItems<T> {
    open spec fn converts(&self) -> bool {
        all_convert::<T, R>(self@)
    }

    open spec fn rows(&self) -> Seq<Seq<T>> {
        self@.map_values(|x: R| x.items())
    }

    fn into_rows(self) -> (r: Vec<Vec<T>>) {
        rows_of_vec(self)
    }
}

impl<T, R, const N: usize> IntoRows<T> for [R; N] where R: IntoItems<T> {
    open spec fn converts(&self) -> bool {
        all_convert::<T, R>(self@)
    }

    open spec fn rows(&self) -> Seq<Seq<T>> {
        self@.map_values(|x: R| x.items())
    }

    fn into_rows(self) -> (r: Vec<Vec<T>>) {
        rows_of_vec(array_to_vec(self))
    }
}

impl<'a, T, R> IntoRows<T> for &'a [R] where &'a R: IntoItems<T> {
    open spec fn converts(&self) -> bool {
        forall|i: int| 0 <= i < self@.len() ==> (#[trigger] &self@[i]).converts()
    }

    open spec fn rows(&self) -> Seq<Seq<T>> {
        Seq::new(self@.len(), |i: int| (&self@[i]).items())
    }

    fn into_rows(self) -> (r: Vec<Vec<T>>) {
        let mut r: Vec<Vec<T>> = Vec::new();
        let mut i: usize = 0;
        while i < self.len()
            invariant
                i <= self@.len(),
                r@.len() == i,
                <Self as IntoRows<T>>::converts(&self) ==> views(r@) =~= Seq::new(
                    i as nat,
                    |k: int| (&self@[k]).items(),
                ),
            decreases self@.len() - i,
        {
            let ghost before = r@;
            let row = (&self[i]).into_items();
            r.push(row);
            assert(r@ == before.push(row));
            assert(views(r@) =~= views(before).push(row@));
            assert(<Self as IntoRows<T>>::converts(&self) ==> (&self@[i as int]).converts());
            i = i + 1;
        }
        r
    }
}

impl<'a, T, R> IntoRows<T> for &'a Vec<R> where &'a R: IntoItems<T> {
    open spec fn converts(&self) -> bool {
        forall|i: int| 0 <= i < self@.len() ==> (#[trigger] &self@[i]).converts()
    }

    open spec fn rows(&self) -> Seq<Seq<T>> {
        Seq::new(self@.len(), |i: int| (&self@[i]).items())
    }

    fn into_rows(self) -> (r: Vec<Vec<T>>) {
        self.as_slice().into_rows()
    }
}

// Rows, fallible.
/// Every part of `s` converts with stated results.
pub open spec fn all_try_convert<T, E, R: TryIntoItems<T, E>>(s: Seq<R>) -> bool {
    forall|i: int| 0 <= i < s.len() ==> (#[trigger] s[i]).try_converts()
}

/// The rows of a sequence of parts: each part's own fallible flattening.
pub open spec fn try_rows_of<T, E, R: TryIntoItems<T, E>>(s: Seq<R>) -> Seq<Result<Seq<T>, E>> {
    s.map_values(|x: R| x.try_items())
}

/// Flattens each part of a sequence into its own row, in order; a part that
/// fails leaves its error in its row.
fn try_rows_of_vec<T, E, R: TryIntoItems<T, E>>(v: Vec<R>) -> (r: Vec<Result<Vec<T>, E>>)
    ensures
        r@.len() == v@.len(),
        all_try_convert::<T, E, R>(v@) ==> result_views(r@) == try_rows_of::<T, E, R>(v@),
{
    let ghost src = v@;
    let mut r: Vec<Result<Vec<T>, E>> = Vec::new();
    for x in it: v.into_iter()
        invariant
            it.seq() == src,
            r@.len() == it.index(),
            all_try_convert::<T, E, R>(src) ==> result_views(r@) == try_rows_of::<T, E, R>(
                src.take(it.index() as int),
            ),
    {
        let ghost i = it.index() as int;
        assert(src[i] == x);
        let ghost before = r@;
        let row = x.try_into_items();
        r.push(row);
        assert(r@ == before.push(row));
        assert(result_views(r@) =~= result_views(before).push(result_view(row)));
        assert(src.take(i + 1) =~= src.take(i).push(x));
        assert(all_try_convert::<T, E, R>(src) ==> src[i].try_converts());
        assert(all_try_convert::<T, E, R>(src) ==> result_views(r@) =~= try_rows_of::<T, E, R>(
            src.take(i + 1),
        ));
    }
    assert(src.take(src.len() as int) =~= src);
    r
}

impl<T, E, R0> TryIntoRows<T, E> for (R0,) where R0: TryIntoItems<T, E> {
    open spec fn try_converts(&self) -> bool {
        self.0.try_converts()
    }

    open spec fn try_rows(&self) -> Seq<Result<Seq<T>, E>> {
        seq![self.0.try_items()]
    }

    fn try_into_rows(self) -> (r: Vec<Result<Vec<T>, E>>) {
        let (r0,) = self;
        let mut r: Vec<Result<Vec<T>, E>> = Vec::new();
        r.push(r0.try_into_items());
        assert(r@.len() == <Self as TryIntoRows<T, E>>::try_rows(&self).len());
        assert(<Self as TryIntoRows<T, E>>::try_converts(&self) ==> result_views(r@) =~= <Self as TryIntoRows<T, E>>::try_rows(&self));
        r
    }
}

impl<T, E, R0, R1> TryIntoRows<T, E> for (R0, R1) where R0: TryIntoItems<T, E>, R1: TryIntoItems<T, E> {
    open spec fn try_converts(&self) -> bool {
        self.0.try_converts() && self.1.try_converts()
    }

    open spec fn try_rows(&self) -> Seq<Result<Seq<T>, E>> {
        seq![self.0.try_items(), self.1.try_items()]
    }

    fn try_into_rows(self) -> (r: Vec<Result<Vec<T>, E>>) {
        let (r0, r1) = self;
        let mut r: Vec<Result<Vec<T>, E>> = Vec::new();
        r.push(r0.try_into_items());
        r.push(r1.try_into_items());
        assert(r@.len() == <Self as TryIntoRows<T, E>>::try_rows(&self).len());
        assert(<Self as TryIntoRows<T, E>>::try_converts(&self) ==> result_views(r@) =~= <Self as TryIntoRows<T, E>>::try_rows(&self));
        r
    }
}

impl<T, E, R0, R1, R2> TryIntoRows<T, E> for (R0, R1, R2) where R0: TryIntoItems<T, E>, R1: TryIntoItems<T, E>, R2: TryIntoItems<T, E> {
    open spec fn try_converts(&self) -> bool {
        self.0.try_converts() && self.1.try_converts() && self.2.try_converts()
    }

    open spec fn try_rows(&self) -> Seq<Result<Seq<T>, E>> {
        seq![self.0.try_items(), self.1.try_items(), self.2.try_items()]
    }

    fn try_into_rows(self) -> (r: Vec<Result<Vec<T>, E>>) {
        let (r0, r1, r2) = self;
        let mut r: Vec<Result<Vec<T>, E>> = Vec::new();
        r.push(r0.try_into_items());
        r.push(r1.try_into_items());
        r.push(r2.try_into_items());
        assert(r@.len() == <Self as TryIntoRows<T, E>>::try_rows(&self).len());
        assert(<Self as TryIntoRows<T, E>>::try_converts(&self) ==> result_views(r@) =~= <Self as TryIntoRows<T, E>>::try_rows(&self));
        r
    }
}

impl<T, E, R0, R1, R2, R3> TryIntoRows<T, E> for (R0, R1, R2, R3) where R0: TryIntoItems<T, E>, R1: TryIntoItems<T, E>, R2: TryIntoItems<T, E>, R3: TryIntoItems<T, E> {
    open spec fn try_converts(&self) -> bool {
        self.0.try_converts() && self.1.try_converts() && self.2.try_converts() && self.3.try_converts()
    }

    open spec fn try_rows(&self) -> Seq<Result<Seq<T>, E>> {
        seq![self.0.try_items(), self.1.try_items(), self.2.try_items(), self.3.try_items()]
    }

    fn try_into_rows(self) -> (r: Vec<Result<Vec<T>, E>>) {
        let (r0, r1, r2, r3) = self;
        let mut r: Vec<Result<Vec<T>, E>> = Vec::new();
        r.push(r0.try_into_items());
        r.push(r1.try_into_items());
        r.push(r2.try_into_items());
        r.push(r3.try_into_items());
        assert(r@.len() == <Self as TryIntoRows<T, E>>::try_rows(&self).len());
        assert(<Self as TryIntoRows<T, E>>::try_converts(&self) ==> result_views(r@) =~= <Self as TryIntoRows<T, E>>::try_rows(&self));
        r
    }
}

impl<T, E, R0, R1, R2, R3, R4> TryIntoRows<T, E> for (R0, R1, R2, R3, R4) where R0: TryIntoItems<T, E>, R1: TryIntoItems<T, E>, R2: TryIntoItems<T, E>, R3: TryIntoItems<T, E>, R4: TryIntoItems<T, E> {
    open spec fn try_converts(&self) -> bool {
        self.0.try_converts() && self.1.try_converts() && self.2.try_converts() && self.3.try_converts() && self.4.try_converts()
    }

    open spec fn try_rows(&self) -> Seq<Result<Seq<T>, E>> {
        seq![self.0.try_items(), self.1.try_items(), self.2.try_items(), self.3.try_items(), self.4.try_items()]
    }

    fn try_into_rows(self) -> (r: Vec<Result<Vec<T>, E>>) {
        let (r0, r1, r2, r3, r4) = self;
        let mut r: Vec<Result<Vec<T>, E>> = Vec::new();
        r.push(r0.try_into_items());
        r.push(r1.try_into_items());
        r.push(r2.try_into_items());
        r.push(r3.try_into_items());
        r.push(r4.try_into_items());
        assert(r@.len() == <Self as TryIntoRows<T, E>>::try_rows(&self).len());
        assert(<Self as TryIntoRows<T, E>>::try_converts(&self) ==> result_views(r@) =~= <Self as TryIntoRows<T, E>>::try_rows(&self));
        r
    }
}

impl<T, E, R0, R1, R2, R3, R4, R5> TryIntoRows<T, E> for (R0, R1, R2, R3, R4, R5) where R0: TryIntoItems<T, E>, R1: TryIntoItems<T, E>, R2: TryIntoItems<T, E>, R3: TryIntoItems<T, E>, R4: TryIntoItems<T, E>, R5: TryIntoItems<T, E> {
    open spec fn try_converts(&self) -> bool {
        self.0.try_converts() && self.1.try_converts() && self.2.try_converts() && self.3.try_converts() && self.4.try_converts() && self.5.try_converts()
    }

    open spec fn try_rows(&self) -> Seq<Result<Seq<T>, E>> {
        seq![self.0.try_items(), self.1.try_items(), self.2.try_items(), self.3.try_items(), self.4.try_items(), self.5.try_items()]
    }

    fn try_into_rows(self) -> (r: Vec<Result<Vec<T>, E>>) {
        let (r0, r1, r2, r3, r4, r5) = self;
        let mut r: Vec<Result<Vec<T>, E>> = Vec::new();
        r.push(r0.try_into_items());
        r.push(r1.try_into_items());
        r.push(r2.try_into_items());
        r.push(r3.try_into_items());
        r.push(r4.try_into_items());
        r.push(r5.try_into_items());
        assert(r@.len() == <Self as TryIntoRows<T, E>>::try_rows(&self).len());
        assert(<Self as TryIntoRows<T, E>>::try_converts(&self) ==> result_views(r@) =~= <Self as TryIntoRows<T, E>>::try_rows(&self));
        r
    }
}

impl<T, E, R> TryIntoRows<T, E> for Vec<R> where R: TryIntoItems<T, E> {
    open spec fn try_converts(&self) -> bool {
        all_try_convert::<T, E, R>(self@)
    }

    open spec fn try_rows(&self) -> Seq<Result<Seq<T>, E>> {
        try_rows_of::<T, E, R>(self@)
    }

    fn try_into_rows(self) -> (r: Vec<Result<Vec<T>, E>>) {
        try_rows_of_vec(self)
    }
}

impl<T, E, R, const N: usize> TryIntoRows<T, E> for [R; N] where R: TryIntoItems<T, E> {
    open spec fn try_converts(&self) -> bool {
        all_try_convert::<T, E, R>(self@)
    }

    open spec fn try_rows(&self) -> Seq<Result<Seq<T>, E>> {
        try_rows_of::<T, E, R>(self@)
    }

    fn try_into_rows(self) -> (r: Vec<Result<Vec<T>, E>>) {
        try_rows_of_vec(array_to_vec(self))
    }
}

} // verus!
