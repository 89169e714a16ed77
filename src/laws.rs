//! Properties of the conversions that hold for every input.
use crate::items::{
    from_one, lemma_try_all_prefix_fails, try_all, try_one, IntoItems, IntoRows, TryIntoItems,
    TryIntoRows,
};
use vstd::prelude::*;

verus! {

/// A collection yields exactly one converted item per element, in the
/// collection's own order.
pub proof fn lemma_one_item_per_element<T, A>(v: Vec<A>) where T: From<A>
    ensures
        IntoItems::<T>::items(&v).len() == v@.len(),
        forall|i: int|
            0 <= i < v@.len() ==> #[trigger] IntoItems::<T>::items(&v)[i] == from_one::<T, A>(v@[i]),
{
}

/// A tuple yields its converted positions in position order.
pub proof fn lemma_tuple_order<T, A0, A1, A2>(x: (A0, A1, A2)) where
    T: From<A0> + From<A1> + From<A2>,

    ensures
        IntoItems::<T>::items(&x) == seq![
            from_one::<T, A0>(x.0),
            from_one::<T, A1>(x.1),
            from_one::<T, A2>(x.2),
        ],
{
}

/// A fallible tuple whose positions all convert yields them in position
/// order.
pub proof fn lemma_try_tuple_order<T, E, A0, A1, A2>(x: (A0, A1, A2)) where
    T: TryFrom<A0> + TryFrom<A1> + TryFrom<A2>,
    <T as TryFrom<A0>>::Error: Into<E>,
    <T as TryFrom<A1>>::Error: Into<E>,
    <T as TryFrom<A2>>::Error: Into<E>,

    requires
        try_one::<T, E, A0>(x.0) is Ok,
        try_one::<T, E, A1>(x.1) is Ok,
        try_one::<T, E, A2>(x.2) is Ok,
    ensures
        TryIntoItems::<T, E>::try_items(&x) == Ok::<Seq<T>, E>(
            seq![
                try_one::<T, E, A0>(x.0)->Ok_0,
                try_one::<T, E, A1>(x.1)->Ok_0,
                try_one::<T, E, A2>(x.2)->Ok_0,
            ],
        ),
{
}

/// An empty collection yields no item and no error, in both forms.
pub proof fn lemma_empty_collection<'a, T, E, A>(v: Vec<A>, s: &'a [A], a: [A; 0]) where
    T: From<A> + TryFrom<A> + From<&'a A> + TryFrom<&'a A>,
    <T as TryFrom<A>>::Error: Into<E>,
    <T as TryFrom<&'a A>>::Error: Into<E>,

    requires
        v@.len() == 0,
        s@.len() == 0,
    ensures
        IntoItems::<T>::items(&v) == Seq::<T>::empty(),
        TryIntoItems::<T, E>::try_items(&v) == Ok::<Seq<T>, E>(Seq::empty()),
        IntoItems::<T>::items(&a) == Seq::<T>::empty(),
        TryIntoItems::<T, E>::try_items(&a) == Ok::<Seq<T>, E>(Seq::empty()),
        IntoItems::<T>::items(&s) == Seq::<T>::empty(),
        TryIntoItems::<T, E>::try_items(&s) == Ok::<Seq<T>, E>(Seq::empty()),
{
    assert(IntoItems::<T>::items(&s) =~= Seq::<T>::empty());
    assert(IntoItems::<T>::items(&v) =~= Seq::<T>::empty());
    assert(a@.len() == 0);
    assert(IntoItems::<T>::items(&a) =~= Seq::<T>::empty());
}

/// The first element that fails decides the result: its own converted error,
/// whatever the elements after it hold.
pub proof fn lemma_first_failure_wins<T, E, A>(s: Seq<A>, i: int) where
    T: TryFrom<A>,
    <T as TryFrom<A>>::Error: Into<E>,

    requires
        0 <= i < s.len(),
        forall|j: int| 0 <= j < i ==> (#[trigger] try_one::<T, E, A>(s[j])) is Ok,
        try_one::<T, E, A>(s[i]) is Err,
    ensures
        try_all::<T, E, A>(s) == Err::<Seq<T>, E>(try_one::<T, E, A>(s[i])->Err_0),
{
    lemma_prefix_succeeds::<T, E, A>(s, i);
    let e = try_one::<T, E, A>(s[i])->Err_0;
    assert(s.take(i + 1).drop_last() =~= s.take(i));
    assert(s.take(i + 1).last() == s[i]);
    lemma_try_all_prefix_fails::<T, E, A>(s, i + 1, e);
}

/// A prefix whose elements all convert yields their conversions.
proof fn lemma_prefix_succeeds<T, E, A>(s: Seq<A>, i: int) where
    T: TryFrom<A>,
    <T as TryFrom<A>>::Error: Into<E>,

    requires
        0 <= i <= s.len(),
        forall|j: int| 0 <= j < i ==> (#[trigger] try_one::<T, E, A>(s[j])) is Ok,
    ensures
        try_all::<T, E, A>(s.take(i)) is Ok,
    decreases i,
{
    if i > 0 {
        lemma_prefix_succeeds::<T, E, A>(s, i - 1);
        assert(s.take(i).drop_last() =~= s.take(i - 1));
        assert(s.take(i).last() == s[i - 1]);
    } else {
        assert(s.take(0) =~= Seq::<A>::empty());
    }
}

/// A pair of collections yields two rows, in position order, each as long as
/// its collection.
pub proof fn lemma_row_shape<T, A, B>(x: (Vec<A>, Vec<B>)) where T: From<A> + From<B>
    ensures
        IntoRows::<T>::rows(&x).len() == 2,
        IntoRows::<T>::rows(&x)[0] == IntoItems::<T>::items(&x.0),
        IntoRows::<T>::rows(&x)[1] == IntoItems::<T>::items(&x.1),
        IntoRows::<T>::rows(&x)[0].len() == x.0@.len(),
        IntoRows::<T>::rows(&x)[1].len() == x.1@.len(),
{
}

/// Fallible rows keep every row: a tuple of parts gives one row per part,
/// in position order, each the part's own fallible flattening, so a part that
/// fails leaves its error in its own row and no other row changes.
pub proof fn lemma_try_rows_keep_every_row<T, E, R0, R1, R2>(x: (R0, R1, R2)) where
    R0: TryIntoItems<T, E>,
    R1: TryIntoItems<T, E>,
    R2: TryIntoItems<T, E>,

    ensures
        TryIntoRows::<T, E>::try_rows(&x).len() == 3,
        TryIntoRows::<T, E>::try_rows(&x)[0] == x.0.try_items(),
        TryIntoRows::<T, E>::try_rows(&x)[1] == x.1.try_items(),
        TryIntoRows::<T, E>::try_rows(&x)[2] == x.2.try_items(),
{
}

/// The same for a collection of parts: one row per element, in order.
pub proof fn lemma_try_rows_of_collection<T, E, R>(v: Vec<R>) where R: TryIntoItems<T, E>
    ensures
        TryIntoRows::<T, E>::try_rows(&v).len() == v@.len(),
        forall|i: int|
            0 <= i < v@.len() ==> #[trigger] TryIntoRows::<T, E>::try_rows(&v)[i]
                == v@[i].try_items(),
{
}

} // verus!
