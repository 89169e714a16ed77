//! The declarative input of the generator: which shapes a target accepts.
//!
//! Parsing the attribute tokens is left to the caller; this module holds the
//! parsed values and the rules that decide whether they are well formed.
use vstd::prelude::*;

verus! {

/// Whether a generated conversion produces a flat sequence of items or a
/// sequence of rows.
#[derive(Debug, Clone, Copy, PartialEq, Eq, Structural)]
pub enum TraitKind {
    Items,
    Rows,
}

/// Whether a generated conversion is infallible (`From`) or fallible
/// (`TryFrom`, with an error type).
#[derive(Debug, Clone, Copy, PartialEq, Eq, Structural)]
pub enum TraitVariant {
    Regular,
    Try,
}

/// One collection kind that a target may be converted from.
#[derive(Debug, Clone, Copy, PartialEq, Eq, Structural)]
pub enum CollectionType {
    Vec,
    Slice,
    Array,
}

/// Why an attribute was refused.
#[derive(Debug, Clone, Copy, PartialEq, Eq, Structural)]
pub enum AttrError {
    /// A key other than `types`, `tuples`, `collections` or `error_type`.
    UnknownKey,
    /// A collection keyword other than `vec`, `slice` or `array`.
    UnknownCollection,
    /// A tuple arity range that starts at zero.
    ZeroArity,
    /// A tuple arity range whose end lies before its start.
    ReversedRange,
}

/// The keys accepted inside `items_from(...)`.
#[derive(Debug, Clone, Copy, PartialEq, Eq, Structural)]
pub enum AttrKey {
    Types,
    Tuples,
    Collections,
    ErrorType,
}

/// The smallest and largest default tuple arity (`tuples` without argument).
pub const DEFAULT_TUPLES_START: usize = 1;

pub const DEFAULT_TUPLES_END: usize = 6;

/// True when the two strings hold the same characters.
pub fn str_equal(a: &str, b: &str) -> (r: bool)
    ensures
        r == (a@ == b@),
{
    let n = a.unicode_len();
    if n != b.unicode_len() {
        return false;
    }
    let mut i: usize = 0;
    while i < n
        invariant
            n == a@.len(),
            n == b@.len(),
            i <= n,
            forall|j: int| 0 <= j < i ==> a@[j] == b@[j],
        decreases n - i,
    {
        if a.get_char(i) != b.get_char(i) {
            return false;
        }
        i = i + 1;
    }
    assert(a@ =~= b@);
    true
}

impl AttrKey {
    pub open spec fn name_spec(self) -> Seq<char> {
        match self {
            AttrKey::Types => seq!['t', 'y', 'p', 'e', 's'],
            AttrKey::Tuples => seq!['t', 'u', 'p', 'l', 'e', 's'],
            AttrKey::Collections => seq!['c', 'o', 'l', 'l', 'e', 'c', 't', 'i', 'o', 'n', 's'],
            AttrKey::ErrorType => seq!['e', 'r', 'r', 'o', 'r', '_', 't', 'y', 'p', 'e'],
        }
    }

    /// Recognises a key of the attribute by its name.
    pub fn from_name(name: &str) -> (r: Result<AttrKey, AttrError>)
        ensures
            match r {
                Ok(k) => k.name_spec() == name@,
                Err(e) => e == AttrError::UnknownKey && forall|k: AttrKey|
                    #[trigger] k.name_spec() != name@,
            },
    {
        proof {
            reveal_strlit("types");
            reveal_strlit("tuples");
            reveal_strlit("collections");
            reveal_strlit("error_type");
        }
        if str_equal(name, "types") {
            assert("types"@ =~= AttrKey::Types.name_spec());
            Ok(AttrKey::Types)
        } else if str_equal(name, "tuples") {
            assert("tuples"@ =~= AttrKey::Tuples.name_spec());
            Ok(AttrKey::Tuples)
        } else if str_equal(name, "collections") {
            assert("collections"@ =~= AttrKey::Collections.name_spec());
            Ok(AttrKey::Collections)
        } else if str_equal(name, "error_type") {
            assert("error_type"@ =~= AttrKey::ErrorType.name_spec());
            Ok(AttrKey::ErrorType)
        } else {
            assert("types"@ =~= AttrKey::Types.name_spec());
            assert("tuples"@ =~= AttrKey::Tuples.name_spec());
            assert("collections"@ =~= AttrKey::Collections.name_spec());
            assert("error_type"@ =~= AttrKey::ErrorType.name_spec());
            Err(AttrError::UnknownKey)
        }
    }
}

impl CollectionType {
    pub open spec fn keyword_spec(self) -> Seq<char> {
        match self {
            CollectionType::Vec => seq!['v', 'e', 'c'],
            CollectionType::Slice => seq!['s', 'l', 'i', 'c', 'e'],
            CollectionType::Array => seq!['a', 'r', 'r', 'a', 'y'],
        }
    }

    /// Recognises one keyword of `collections(...)`.
    pub fn from_keyword(word: &str) -> (r: Result<CollectionType, AttrError>)
        ensures
            match r {
                Ok(c) => c.keyword_spec() == word@,
                Err(e) => e == AttrError::UnknownCollection && forall|c: CollectionType|
                    #[trigger] c.keyword_spec() != word@,
            },
    {
        proof {
            reveal_strlit("vec");
            reveal_strlit("slice");
            reveal_strlit("array");
        }
        if str_equal(word, "vec") {
            assert("vec"@ =~= CollectionType::Vec.keyword_spec());
            Ok(CollectionType::Vec)
        } else if str_equal(word, "slice") {
            assert("slice"@ =~= CollectionType::Slice.keyword_spec());
            Ok(CollectionType::Slice)
        } else if str_equal(word, "array") {
            assert("array"@ =~= CollectionType::Array.keyword_spec());
            Ok(CollectionType::Array)
        } else {
            assert("vec"@ =~= CollectionType::Vec.keyword_spec());
            assert("slice"@ =~= CollectionType::Slice.keyword_spec());
            assert("array"@ =~= CollectionType::Array.keyword_spec());
            Err(AttrError::UnknownCollection)
        }
    }
}

/// An inclusive range of tuple arities.
#[derive(Debug, Clone, Copy, PartialEq, Eq, Structural)]
pub struct TupleRange {
    pub start: usize,
    pub end: usize,
}

impl TupleRange {
    /// A usable range: it starts at one or more and does not end before it
    /// starts.
    pub open spec fn wf(self) -> bool {
        1 <= self.start <= self.end
    }

    /// The arities of the range in ascending order.
    pub open spec fn arities_spec(self) -> Seq<usize> {
        Seq::new((self.end - self.start + 1) as nat, |i: int| (self.start + i) as usize)
    }

    /// `start..=end`, refused when it starts at zero or ends before it starts.
    pub fn new(start: usize, end: usize) -> (r: Result<TupleRange, AttrError>)
        ensures
            start == 0 ==> r == Err::<TupleRange, AttrError>(AttrError::ZeroArity),
            start != 0 && end < start ==> r == Err::<TupleRange, AttrError>(
                AttrError::ReversedRange,
            ),
            1 <= start <= end ==> r == Ok::<TupleRange, AttrError>(
                TupleRange { start, end },
            ),
    {
        if start == 0 {
            Err(AttrError::ZeroArity)
        } else if end < start {
            Err(AttrError::ReversedRange)
        } else {
            Ok(TupleRange { start, end })
        }
    }

    /// The range that `tuples` without an argument stands for.
    pub fn default_range() -> (r: TupleRange)
        ensures
            r.start == DEFAULT_TUPLES_START,
            r.end == DEFAULT_TUPLES_END,
            r.wf(),
    {
        TupleRange { start: DEFAULT_TUPLES_START, end: DEFAULT_TUPLES_END }
    }

    /// `tuples(N)`: the arities one to `N`.
    pub fn up_to(n: usize) -> (r: Result<TupleRange, AttrError>)
        ensures
            n == 0 ==> r == Err::<TupleRange, AttrError>(AttrError::ReversedRange),
            n >= 1 ==> r == Ok::<TupleRange, AttrError>(TupleRange { start: 1, end: n }),
    {
        TupleRange::new(1, n)
    }

    /// `tuples(exact(N))`: the arity `N` alone.
    pub fn exact(n: usize) -> (r: Result<TupleRange, AttrError>)
        ensures
            n == 0 ==> r == Err::<TupleRange, AttrError>(AttrError::ZeroArity),
            n >= 1 ==> r == Ok::<TupleRange, AttrError>(TupleRange { start: n, end: n }),
    {
        TupleRange::new(n, n)
    }

    /// The range as a standard inclusive range.
    pub fn iter(self) -> (r: std::ops::RangeInclusive<usize>)
        ensures
            r@.start == self.start,
            r@.end == self.end,
            !r@.exhausted,
    {
        std::ops::RangeInclusive::new(self.start, self.end)
    }

    /// The arities of the range in ascending order.
    pub fn arities(self) -> (r: Vec<usize>)
        requires
            self.wf(),
        ensures
            r@ == self.arities_spec(),
    {
        let mut r: Vec<usize> = Vec::new();
        let count: usize = self.end - self.start + 1;
        let mut i: usize = 0;
        while i < count
            invariant
                self.wf(),
                count == self.end - self.start + 1,
                i <= count,
                r@ == self.arities_spec().take(i as int),
            decreases count - i,
        {
            r.push(self.start + i);
            assert(r@ =~= self.arities_spec().take(i + 1));
            i = i + 1;
        }
        assert(r@ =~= self.arities_spec());
        r
    }
}

/// The collection kinds a target accepts, each at most once.
#[derive(Debug, Clone, Copy, PartialEq, Eq, Structural)]
pub struct CollectionSet {
    pub vec: bool,
    pub slice: bool,
    pub array: bool,
}

impl CollectionSet {
    pub open spec fn has(self, c: CollectionType) -> bool {
        match c {
            CollectionType::Vec => self.vec,
            CollectionType::Slice => self.slice,
            CollectionType::Array => self.array,
        }
    }

    /// The kinds held, in the fixed order `vec`, `slice`, `array`.
    pub open spec fn kinds_spec(self) -> Seq<CollectionType> {
        (if self.vec { seq![CollectionType::Vec] } else { Seq::empty() }) + (if self.slice {
            seq![CollectionType::Slice]
        } else {
            Seq::empty()
        }) + (if self.array { seq![CollectionType::Array] } else { Seq::empty() })
    }

    pub fn empty() -> (r: CollectionSet)
        ensures
            forall|c: CollectionType| !r.has(c),
    {
        CollectionSet { vec: false, slice: false, array: false }
    }

    /// Adds one kind; adding a kind already held changes nothing.
    pub fn insert(&mut self, c: CollectionType)
        ensures
            forall|d: CollectionType| #[trigger]
                final(self).has(d) == (old(self).has(d) || d == c),
    {
        match c {
            CollectionType::Vec => self.vec = true,
            CollectionType::Slice => self.slice = true,
            CollectionType::Array => self.array = true,
        }
    }

    pub fn kinds(&self) -> (r: Vec<CollectionType>)
        ensures
            r@ == self.kinds_spec(),
    {
        let mut r: Vec<CollectionType> = Vec::new();
        if self.vec {
            r.push(CollectionType::Vec);
        }
        if self.slice {
            r.push(CollectionType::Slice);
        }
        if self.array {
            r.push(CollectionType::Array);
        }
        assert(r@ =~= self.kinds_spec());
        r
    }
}

/// Every kind appears in `kinds_spec` exactly when the set holds it, and no
/// kind appears twice.
pub proof fn lemma_kinds_exact(s: CollectionSet)
    ensures
        forall|c: CollectionType| #[trigger] s.kinds_spec().contains(c) <==> s.has(c),
        s.kinds_spec().no_duplicates(),
{
    let k = s.kinds_spec();
    assert forall|c: CollectionType| #[trigger] k.contains(c) <==> s.has(c) by {
        if s.has(c) {
            let i: int = match c {
                CollectionType::Vec => 0,
                CollectionType::Slice => if s.vec { 1 } else { 0 },
                CollectionType::Array => (if s.vec { 1int } else { 0 }) + (if s.slice {
                    1int
                } else {
                    0
                }),
            };
            assert(k[i] == c);
        }
    }
}

} // verus!
