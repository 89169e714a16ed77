//! Targets with the conversions their attributes ask for: what the generator
//! describes for each of them, written out.
use crate::items::{
    from_one, obeys_from, obeys_try, try_convert, try_one, IntoItems, IntoRows, TryIntoItems,
    TryIntoRows,
};
use std::num::ParseIntError;
use vstd::prelude::*;
use vstd::std_specs::convert::{FromSpecImpl, TryFromSpecImpl};
use vstd::string::StringExecFns;

verus! {

#[verifier::external_type_specification]
#[verifier::external_body]
pub struct ExParseIntError(std::num::ParseIntError);

pub open spec fn is_digit(c: char) -> bool {
    '0' <= c <= '9'
}

/// The value of a non-empty run of decimal digits.
pub open spec fn digits_value(s: Seq<char>) -> int
    decreases s.len(),
{
    if s.len() == 0 {
        0
    } else {
        digits_value(s.drop_last()) * 10 + (s.last() as int - '0' as int)
    }
}

pub open spec fn all_digits(s: Seq<char>) -> bool {
    s.len() > 0 && forall|i: int| 0 <= i < s.len() ==> is_digit(#[trigger] s[i])
}

/// The number a string holds in the syntax of `i32`'s `FromStr`: an
/// optional `+` or `-`, then decimal digits and nothing else, in range.
pub open spec fn decimal_i32(s: Seq<char>) -> Option<i32> {
    let neg = s.len() > 0 && s[0] == '-';
    let body = if s.len() > 0 && (s[0] == '-' || s[0] == '+') {
        s.drop_first()
    } else {
        s
    };
    let v = if neg {
        -digits_value(body)
    } else {
        digits_value(body)
    };
    if all_digits(body) && i32::MIN <= v <= i32::MAX {
        Some(v as i32)
    } else {
        None
    }
}

/// The number a string holds in the syntax of `usize`'s `FromStr`: an
/// optional `+`, then decimal digits and nothing else, in range.
pub open spec fn decimal_usize(s: Seq<char>) -> Option<usize> {
    let body = if s.len() > 0 && s[0] == '+' {
        s.drop_first()
    } else {
        s
    };
    if all_digits(body) && digits_value(body) <= usize::MAX {
        Some(digits_value(body) as usize)
    } else {
        None
    }
}

/// The error `str::parse::<i32>` returns for a string it refuses.
pub uninterp spec fn i32_parse_error(s: Seq<char>) -> ParseIntError;

/// The error `str::parse::<usize>` returns for a string it refuses.
pub uninterp spec fn usize_parse_error(s: Seq<char>) -> ParseIntError;

/// Relies on `str::parse::<i32>`: it accepts exactly the strings of
/// [`decimal_i32`], and its error depends on the string alone.
#[verifier::external_body]
fn parse_i32(s: &str) -> (r: Result<i32, ParseIntError>)
    ensures
        match r {
            Ok(n) => decimal_i32(s@) == Some(n),
            Err(e) => decimal_i32(s@) is None && e == i32_parse_error(s@),
        },
{
    s.parse::<i32>()
}

/// Relies on `str::parse::<usize>`: it accepts exactly the strings of
/// [`decimal_usize`], and its error depends on the string alone.
#[verifier::external_body]
fn parse_usize(s: &str) -> (r: Result<usize, ParseIntError>)
    ensures
        match r {
            Ok(n) => decimal_usize(s@) == Some(n),
            Err(e) => decimal_usize(s@) is None && e == usize_parse_error(s@),
        },
{
    s.parse::<usize>()
}

/// Relies on `char::to_string`: the string of the one character.
#[verifier::external_body]
fn char_text(c: char) -> (r: String)
    ensures
        r@ == seq![c],
{
    c.to_string()
}

/// The digit character of a value below ten.
pub open spec fn digit_char(d: int) -> char {
    if d == 0 {
        '0'
    } else if d == 1 {
        '1'
    } else if d == 2 {
        '2'
    } else if d == 3 {
        '3'
    } else if d == 4 {
        '4'
    } else if d == 5 {
        '5'
    } else if d == 6 {
        '6'
    } else if d == 7 {
        '7'
    } else if d == 8 {
        '8'
    } else {
        '9'
    }
}

/// The decimal digits of a natural number, without leading zeros.
pub open spec fn digits_of(m: nat) -> Seq<char>
    decreases m,
{
    if m < 10 {
        seq![digit_char(m as int)]
    } else {
        digits_of(m / 10).push(digit_char((m % 10) as int))
    }
}

/// The decimal text of an integer: its digits, after a `-` if it is
/// negative.
pub open spec fn decimal_text(n: int) -> Seq<char> {
    if n < 0 {
        seq!['-'] + digits_of((-n) as nat)
    } else {
        digits_of(n as nat)
    }
}

/// Relies on `i32`'s `Display` (through `to_string`): the decimal digits
/// without leading zeros, after a `-` for a negative number.
#[verifier::external_body]
fn int_text(n: i32) -> (r: String)
    ensures
        r@ == decimal_text(n as int),
{
    n.to_string()
}

/// The text of each piece.
pub open spec fn texts_of(s: Seq<MySimpleType>) -> Seq<Seq<char>> {
    s.map_values(|m: MySimpleType| m.0@)
}

/// The text of each cell.
pub open spec fn cell_texts(s: Seq<Foo<String>>) -> Seq<Seq<char>> {
    s.map_values(|m: Foo<String>| m.0@)
}

/// The items of a conversion that succeeded, or `None`.
pub open spec fn ok_items<T, E>(r: Result<Vec<T>, E>) -> Option<Seq<T>> {
    match r {
        Ok(v) => Some(v@),
        Err(_) => None,
    }
}

/// The error of a conversion that failed, or `None`.
pub open spec fn err_of<T, E>(r: Result<Vec<T>, E>) -> Option<E> {
    match r {
        Ok(_) => None,
        Err(e) => Some(e),
    }
}

/// The message of a conversion that failed, or `None`.
pub open spec fn err_text<T>(r: Result<Vec<T>, String>) -> Option<Seq<char>> {
    match r {
        Ok(_) => None,
        Err(e) => Some(e@),
    }
}

/// The contents of a vector.
pub open spec fn vec_view<T>(v: Vec<T>) -> Seq<T> {
    v@
}

/// The text of each piece of each row.
pub open spec fn rows_texts(rows: Vec<Vec<MySimpleType>>) -> Seq<Seq<Seq<char>>> {
    rows@.map_values(|row: Vec<MySimpleType>| texts_of(row@))
}

/// A one-element vector.
fn one<T>(t: T) -> (r: Vec<T>)
    ensures
        r@ == seq![t],
{
    let mut r: Vec<T> = Vec::new();
    r.push(t);
    r
}

/// The items of a single value: its one conversion, or its error.
pub open spec fn try_single_spec<T, E, A>(a: A) -> Result<Seq<T>, E> where
    T: TryFrom<A>,
    <T as TryFrom<A>>::Error: Into<E>,
 {
    match try_one::<T, E, A>(a) {
        Ok(t) => Ok(seq![t]),
        Err(e) => Err(e),
    }
}

/// A one-item conversion of `a`, as its single-value implementation emits it.
fn try_single<T, E, A>(a: A) -> (r: Result<Vec<T>, E>) where
    T: TryFrom<A>,
    <T as TryFrom<A>>::Error: Into<E>,

    ensures
        try_single_spec::<T, E, A>(a) != Ok::<Seq<T>, E>(Seq::empty()),
        obeys_try::<T, E, A>() ==> match r {
            Ok(v) => try_single_spec::<T, E, A>(a) == Ok::<Seq<T>, E>(v@),
            Err(e) => try_single_spec::<T, E, A>(a) == Err::<Seq<T>, E>(e),
        },
{
    assert(try_single_spec::<T, E, A>(a) matches Ok(x) ==> x.len() == 1);
    match try_convert::<T, E, A>(a) {
        Ok(t) => Ok(one(t)),
        Err(e) => Err(e),
    }
}

/// The items of a single value are never an empty success.
proof fn lemma_single_not_empty<T, E, A>(a: A) where
    T: TryFrom<A>,
    <T as TryFrom<A>>::Error: Into<E>,

    ensures
        try_single_spec::<T, E, A>(a) != Ok::<Seq<T>, E>(Seq::empty()),
{
    assert(try_single_spec::<T, E, A>(a) matches Ok(x) ==> x.len() == 1);
}

/// A one-item conversion of `a` with `From`.
fn single<T, A>(a: A) -> (r: Vec<T>) where T: From<A>
    ensures
        r@.len() == 1,
        obeys_from::<T, A>() ==> r@ == seq![from_one::<T, A>(a)],
{
    one(T::from(a))
}

/// The message a refused empty string gets.
pub open spec fn empty_message() -> Seq<char> {
    "Empty string not allowed"@
}

/// The message a refused negative number gets.
pub open spec fn negative_message() -> Seq<char> {
    "Value must be non-negative"@
}

/// A number parsed from text.
#[derive(Debug, Clone, PartialEq)]
pub struct Number(pub i32);

impl TryFrom<String> for Number {
    type Error = ParseIntError;

    fn try_from(value: String) -> (r: Result<Number, ParseIntError>) {
        match parse_i32(value.as_str()) {
            Ok(n) => Ok(Number(n)),
            Err(e) => Err(e),
        }
    }
}

impl TryFromSpecImpl<String> for Number {
    open spec fn obeys_try_from_spec() -> bool {
        true
    }

    open spec fn try_from_spec(v: String) -> Result<Number, ParseIntError> {
        match decimal_i32(v@) {
            Some(n) => Ok(Number(n)),
            None => Err(i32_parse_error(v@)),
        }
    }
}

impl<E> TryIntoItems<Number, E> for Number {
    open spec fn try_converts(&self) -> bool {
        true
    }

    open spec fn try_items(&self) -> Result<Seq<Number>, E> {
        Ok(seq![*self])
    }

    fn try_into_items(self) -> (r: Result<Vec<Number>, E>) {
        Ok(one(self))
    }
}

impl<E> TryIntoItems<Number, E> for String where ParseIntError: Into<E> {
    open spec fn try_converts(&self) -> bool {
        obeys_try::<Number, E, String>()
    }

    open spec fn try_items(&self) -> Result<Seq<Number>, E> {
        try_single_spec::<Number, E, String>(*self)
    }

    fn try_into_items(self) -> (r: Result<Vec<Number>, E>)
        ensures
            decimal_i32(self@) matches Some(n) ==> ok_items::<Number, E>(r) == Some(seq![Number(n)]),
            decimal_i32(self@) is None ==> ok_items::<Number, E>(r) is None,
    {
        proof {
            lemma_single_not_empty::<Number, E, String>(self);
        }
        match Number::try_from(self) {
            Ok(n) => Ok(one(n)),
            Err(e) => Err(e.into()),
        }
    }
}

/// A number parsed from text, with the parse error as its fixed error type.
#[derive(Debug, Clone, PartialEq)]
pub struct Integer(pub i32);

impl TryFrom<String> for Integer {
    type Error = ParseIntError;

    fn try_from(value: String) -> (r: Result<Integer, ParseIntError>) {
        match parse_i32(value.as_str()) {
            Ok(n) => Ok(Integer(n)),
            Err(e) => Err(e),
        }
    }
}

impl TryFromSpecImpl<String> for Integer {
    open spec fn obeys_try_from_spec() -> bool {
        true
    }

    open spec fn try_from_spec(v: String) -> Result<Integer, ParseIntError> {
        match decimal_i32(v@) {
            Some(n) => Ok(Integer(n)),
            None => Err(i32_parse_error(v@)),
        }
    }
}

impl TryIntoItems<Integer, ParseIntError> for Integer {
    open spec fn try_converts(&self) -> bool {
        true
    }

    open spec fn try_items(&self) -> Result<Seq<Integer>, ParseIntError> {
        Ok(seq![*self])
    }

    fn try_into_items(self) -> (r: Result<Vec<Integer>, ParseIntError>) {
        Ok(one(self))
    }
}

impl TryIntoItems<Integer, ParseIntError> for String {
    open spec fn try_converts(&self) -> bool {
        true
    }

    open spec fn try_items(&self) -> Result<Seq<Integer>, ParseIntError> {
        match decimal_i32(self@) {
            Some(n) => Ok(seq![Integer(n)]),
            None => Err(i32_parse_error(self@)),
        }
    }

    fn try_into_items(self) -> (r: Result<Vec<Integer>, ParseIntError>)
        ensures
            decimal_i32(self@) matches Some(n) ==> ok_items::<Integer, ParseIntError>(r) == Some(
                seq![Integer(n)],
            ),
            decimal_i32(self@) is None ==> err_of::<Integer, ParseIntError>(r) == Some(
                i32_parse_error(self@),
            ),
    {
        match Integer::try_from(self) {
            Ok(n) => Ok(one(n)),
            Err(e) => Err(e),
        }
    }
}

/// The error of a refused number, with the parse error's detail dropped.
#[derive(Debug, Clone, Copy, PartialEq, Eq, Structural)]
pub enum ParseError {
    BadInt,
}

impl From<ParseIntError> for ParseError {
    fn from(e: ParseIntError) -> (r: ParseError) {
        ParseError::BadInt
    }
}

impl FromSpecImpl<ParseIntError> for ParseError {
    open spec fn obeys_from_spec() -> bool {
        true
    }

    open spec fn from_spec(v: ParseIntError) -> ParseError {
        ParseError::BadInt
    }
}

/// A number parsed from text, whose fixed error type is [`ParseError`].
#[derive(Debug, Clone, PartialEq)]
pub struct Int(pub i32);

impl TryFrom<String> for Int {
    type Error = ParseIntError;

    fn try_from(value: String) -> (r: Result<Int, ParseIntError>) {
        match parse_i32(value.as_str()) {
            Ok(n) => Ok(Int(n)),
            Err(e) => Err(e),
        }
    }
}

impl TryFromSpecImpl<String> for Int {
    open spec fn obeys_try_from_spec() -> bool {
        true
    }

    open spec fn try_from_spec(v: String) -> Result<Int, ParseIntError> {
        match decimal_i32(v@) {
            Some(n) => Ok(Int(n)),
            None => Err(i32_parse_error(v@)),
        }
    }
}

impl TryIntoItems<Int, ParseError> for Int {
    open spec fn try_converts(&self) -> bool {
        true
    }

    open spec fn try_items(&self) -> Result<Seq<Int>, ParseError> {
        Ok(seq![*self])
    }

    fn try_into_items(self) -> (r: Result<Vec<Int>, ParseError>) {
        Ok(one(self))
    }
}

impl TryIntoItems<Int, ParseError> for String {
    open spec fn try_converts(&self) -> bool {
        obeys_try::<Int, ParseError, String>()
    }

    open spec fn try_items(&self) -> Result<Seq<Int>, ParseError> {
        try_single_spec::<Int, ParseError, String>(*self)
    }

    fn try_into_items(self) -> (r: Result<Vec<Int>, ParseError>)
        ensures
            decimal_i32(self@) matches Some(n) ==> ok_items::<Int, ParseError>(r) == Some(
                seq![Int(n)],
            ),
            decimal_i32(self@) is None ==> err_of::<Int, ParseError>(r) == Some(
                ParseError::BadInt,
            ),
    {
        try_single(self)
    }
}

/// Text converts to [`Int`] with stated results in every position: each
/// conversion has a stated result, so the generic tuple and collection
/// conversions state theirs.
pub proof fn lemma_int_conversions_stated()
    ensures
        obeys_try::<Int, ParseError, String>(),
{
}

/// A copy of a string slice.
fn text_of(s: &str) -> (r: String)
    ensures
        r@ == s@,
{
    <String as StringExecFns>::from_str(s)
}

/// The text of an empty cell's error, or the cell itself.
fn non_empty(value: String) -> (r: Result<String, String>)
    ensures
        value@.len() == 0 ==> (r matches Err(e) && e@ == empty_message()),
        value@.len() != 0 ==> r == Ok::<String, String>(value),
{
    if value.as_str().unicode_len() == 0 {
        proof {
            reveal_strlit("Empty string not allowed");
        }
        Err(text_of("Empty string not allowed"))
    } else {
        Ok(value)
    }
}

/// A non-empty cell of text.
#[derive(Debug, Clone, PartialEq)]
pub struct ValidRow(pub String);

impl ValidRow {
    /// The cell of a non-empty string; an empty one is refused with a
    /// message.
    pub fn from_text(value: String) -> (r: Result<ValidRow, String>)
        ensures
            value@.len() == 0 ==> (r matches Err(e) && e@ == empty_message()),
            value@.len() != 0 ==> r == Ok::<ValidRow, String>(ValidRow(value)),
    {
        match non_empty(value) {
            Ok(v) => Ok(ValidRow(v)),
            Err(e) => Err(e),
        }
    }
}

impl TryFrom<String> for ValidRow {
    type Error = String;

    fn try_from(value: String) -> (r: Result<ValidRow, String>) {
        ValidRow::from_text(value)
    }
}

/// The refusal holds a fresh message, so no exact result is stated here;
/// [`ValidRow::from_text`] states it.
impl TryFromSpecImpl<String> for ValidRow {
    open spec fn obeys_try_from_spec() -> bool {
        false
    }

    open spec fn try_from_spec(v: String) -> Result<ValidRow, String> {
        arbitrary()
    }
}

/// A non-empty cell of text, converted in rows.
#[derive(Debug, Clone, PartialEq)]
pub struct Row(pub String);

impl Row {
    /// The cell of a non-empty string; an empty one is refused with a
    /// message.
    pub fn from_text(value: String) -> (r: Result<Row, String>)
        ensures
            value@.len() == 0 ==> (r matches Err(e) && e@ == empty_message()),
            value@.len() != 0 ==> r == Ok::<Row, String>(Row(value)),
    {
        match non_empty(value) {
            Ok(v) => Ok(Row(v)),
            Err(e) => Err(e),
        }
    }
}

impl TryFrom<String> for Row {
    type Error = String;

    fn try_from(value: String) -> (r: Result<Row, String>) {
        Row::from_text(value)
    }
}

/// The refusal holds a fresh message; [`Row::from_text`] states it.
impl TryFromSpecImpl<String> for Row {
    open spec fn obeys_try_from_spec() -> bool {
        false
    }

    open spec fn try_from_spec(v: String) -> Result<Row, String> {
        arbitrary()
    }
}

impl TryIntoItems<Row, String> for Row {
    open spec fn try_converts(&self) -> bool {
        true
    }

    open spec fn try_items(&self) -> Result<Seq<Row>, String> {
        Ok(seq![*self])
    }

    fn try_into_items(self) -> (r: Result<Vec<Row>, String>) {
        Ok(one(self))
    }
}

impl TryIntoItems<Row, String> for String {
    open spec fn try_converts(&self) -> bool {
        obeys_try::<Row, String, String>()
    }

    open spec fn try_items(&self) -> Result<Seq<Row>, String> {
        try_single_spec::<Row, String, String>(*self)
    }

    fn try_into_items(self) -> (r: Result<Vec<Row>, String>)
        ensures
            self@.len() != 0 ==> ok_items::<Row, String>(r) == Some(seq![Row(self)]),
            self@.len() == 0 ==> err_text::<Row>(r) == Some(empty_message()),
    {
        proof {
            lemma_single_not_empty::<Row, String, String>(self);
        }
        match Row::from_text(self) {
            Ok(row) => Ok(one(row)),
            Err(e) => Err(e),
        }
    }
}

impl TryIntoRows<Row, String> for Row {
    open spec fn try_converts(&self) -> bool {
        true
    }

    open spec fn try_rows(&self) -> Seq<Result<Seq<Row>, String>> {
        seq![Ok(seq![*self])]
    }

    fn try_into_rows(self) -> (r: Vec<Result<Vec<Row>, String>>) {
        let r = one(Ok(one(self)));
        assert(crate::items::result_views(r@) =~= seq![Ok::<Seq<Row>, String>(seq![self])]);
        r
    }
}

/// The prefix of the message of a refused number.
pub open spec fn parse_error_prefix() -> Seq<char> {
    "Parse error: "@
}

/// A non-negative number.
#[derive(Debug, Clone, PartialEq)]
pub struct ValidatedValue(pub i32);

impl ValidatedValue {
    /// The number a string holds; a string that holds none is refused with
    /// a message that starts with "Parse error: ".
    pub fn from_text(value: String) -> (r: Result<ValidatedValue, String>)
        ensures
            match decimal_i32(value@) {
                Some(n) => r == Ok::<ValidatedValue, String>(ValidatedValue(n)),
                None => r matches Err(e) && e@.len() >= parse_error_prefix().len() && e@.subrange(
                    0,
                    parse_error_prefix().len() as int,
                ) == parse_error_prefix(),
            },
    {
        match parse_i32(value.as_str()) {
            Ok(n) => Ok(ValidatedValue(n)),
            Err(e) => {
                proof {
                    reveal_strlit("Parse error: ");
                }
                let detail = e.to_string();
                let message = text_of("Parse error: ").concat(detail.as_str());
                assert(message@.subrange(0, parse_error_prefix().len() as int)
                    =~= parse_error_prefix());
                Err(message)
            },
        }
    }

    /// A number that is not negative; a negative one is refused with a
    /// message.
    pub fn from_number(value: i32) -> (r: Result<ValidatedValue, String>)
        ensures
            value >= 0 ==> r == Ok::<ValidatedValue, String>(ValidatedValue(value)),
            value < 0 ==> (r matches Err(e) && e@ == negative_message()),
    {
        if value >= 0 {
            Ok(ValidatedValue(value))
        } else {
            proof {
                reveal_strlit("Value must be non-negative");
            }
            Err(text_of("Value must be non-negative"))
        }
    }
}

impl TryFrom<String> for ValidatedValue {
    type Error = String;

    fn try_from(value: String) -> (r: Result<ValidatedValue, String>) {
        ValidatedValue::from_text(value)
    }
}

/// The refusal holds a fresh message; [`ValidatedValue::from_text`] states
/// it.
impl TryFromSpecImpl<String> for ValidatedValue {
    open spec fn obeys_try_from_spec() -> bool {
        false
    }

    open spec fn try_from_spec(v: String) -> Result<ValidatedValue, String> {
        arbitrary()
    }
}

impl TryFrom<i32> for ValidatedValue {
    type Error = String;

    fn try_from(value: i32) -> (r: Result<ValidatedValue, String>) {
        ValidatedValue::from_number(value)
    }
}

/// The refusal holds a fresh message; [`ValidatedValue::from_number`]
/// states it.
impl TryFromSpecImpl<i32> for ValidatedValue {
    open spec fn obeys_try_from_spec() -> bool {
        false
    }

    open spec fn try_from_spec(v: i32) -> Result<ValidatedValue, String> {
        arbitrary()
    }
}

impl TryIntoItems<ValidatedValue, String> for ValidatedValue {
    open spec fn try_converts(&self) -> bool {
        true
    }

    open spec fn try_items(&self) -> Result<Seq<ValidatedValue>, String> {
        Ok(seq![*self])
    }

    fn try_into_items(self) -> (r: Result<Vec<ValidatedValue>, String>) {
        Ok(one(self))
    }
}

impl TryIntoItems<ValidatedValue, String> for String {
    open spec fn try_converts(&self) -> bool {
        obeys_try::<ValidatedValue, String, String>()
    }

    open spec fn try_items(&self) -> Result<Seq<ValidatedValue>, String> {
        try_single_spec::<ValidatedValue, String, String>(*self)
    }

    fn try_into_items(self) -> (r: Result<Vec<ValidatedValue>, String>)
        ensures
            decimal_i32(self@) matches Some(n) ==> ok_items::<ValidatedValue, String>(r) == Some(
                seq![ValidatedValue(n)],
            ),
            decimal_i32(self@) is None ==> (err_text::<ValidatedValue>(r) matches Some(e)
                && e.len() >= parse_error_prefix().len() && e.subrange(
                0,
                parse_error_prefix().len() as int,
            ) == parse_error_prefix()),
    {
        proof {
            lemma_single_not_empty::<ValidatedValue, String, String>(self);
        }
        match ValidatedValue::from_text(self) {
            Ok(v) => Ok(one(v)),
            Err(e) => Err(e),
        }
    }
}

impl TryIntoItems<ValidatedValue, String> for i32 {
    open spec fn try_converts(&self) -> bool {
        obeys_try::<ValidatedValue, String, i32>()
    }

    open spec fn try_items(&self) -> Result<Seq<ValidatedValue>, String> {
        try_single_spec::<ValidatedValue, String, i32>(*self)
    }

    fn try_into_items(self) -> (r: Result<Vec<ValidatedValue>, String>)
        ensures
            self >= 0 ==> ok_items::<ValidatedValue, String>(r) == Some(seq![ValidatedValue(self)]),
            self < 0 ==> err_text::<ValidatedValue>(r) == Some(negative_message()),
    {
        proof {
            lemma_single_not_empty::<ValidatedValue, String, i32>(self);
        }
        match ValidatedValue::from_number(self) {
            Ok(v) => Ok(one(v)),
            Err(e) => Err(e),
        }
    }
}

/// A target with no declared source type: it converts from itself alone.
#[derive(Debug, Clone, PartialEq)]
pub struct Simple(pub i32);

impl<E> TryIntoItems<Simple, E> for Simple {
    open spec fn try_converts(&self) -> bool {
        true
    }

    open spec fn try_items(&self) -> Result<Seq<Simple>, E> {
        Ok(seq![*self])
    }

    fn try_into_items(self) -> (r: Result<Vec<Simple>, E>) {
        Ok(one(self))
    }
}

/// A number parsed from text; a refusal carries the parse error's text.
#[derive(Debug, Clone, PartialEq)]
pub struct WithTypes(pub i32);

impl WithTypes {
    /// The number a string holds, or the text of the parse error.
    pub fn from_text(value: String) -> (r: Result<WithTypes, String>)
        ensures
            match decimal_i32(value@) {
                Some(n) => r == Ok::<WithTypes, String>(WithTypes(n)),
                None => r is Err,
            },
    {
        match parse_i32(value.as_str()) {
            Ok(n) => Ok(WithTypes(n)),
            Err(e) => Err(e.to_string()),
        }
    }
}

impl TryFrom<String> for WithTypes {
    type Error = String;

    fn try_from(value: String) -> (r: Result<WithTypes, String>) {
        WithTypes::from_text(value)
    }
}

/// The refusal holds the error's text; [`WithTypes::from_text`] states what
/// is known of it.
impl TryFromSpecImpl<String> for WithTypes {
    open spec fn obeys_try_from_spec() -> bool {
        false
    }

    open spec fn try_from_spec(v: String) -> Result<WithTypes, String> {
        arbitrary()
    }
}

impl<E> TryIntoItems<WithTypes, E> for WithTypes {
    open spec fn try_converts(&self) -> bool {
        true
    }

    open spec fn try_items(&self) -> Result<Seq<WithTypes>, E> {
        Ok(seq![*self])
    }

    fn try_into_items(self) -> (r: Result<Vec<WithTypes>, E>) {
        Ok(one(self))
    }
}

impl<E> TryIntoItems<WithTypes, E> for String where String: Into<E> {
    open spec fn try_converts(&self) -> bool {
        obeys_try::<WithTypes, E, String>()
    }

    open spec fn try_items(&self) -> Result<Seq<WithTypes>, E> {
        try_single_spec::<WithTypes, E, String>(*self)
    }

    fn try_into_items(self) -> (r: Result<Vec<WithTypes>, E>)
        ensures
            decimal_i32(self@) matches Some(n) ==> ok_items::<WithTypes, E>(r) == Some(seq![WithTypes(n)]),
            decimal_i32(self@) is None ==> ok_items::<WithTypes, E>(r) is None,
    {
        proof {
            lemma_single_not_empty::<WithTypes, E, String>(self);
        }
        match WithTypes::from_text(self) {
            Ok(w) => Ok(one(w)),
            Err(e) => Err(e.into()),
        }
    }
}

/// A piece of text made from any of several source types.
#[derive(Debug, Clone, PartialEq)]
pub struct MySimpleType(pub String);

impl MySimpleType {
    /// The text of one character.
    pub fn of_char(c: char) -> (r: MySimpleType)
        ensures
            r.0@ == seq![c],
    {
        MySimpleType(char_text(c))
    }

    /// The decimal text of a number.
    pub fn of_int(n: i32) -> (r: MySimpleType)
        ensures
            r.0@ == decimal_text(n as int),
    {
        MySimpleType(int_text(n))
    }

    /// A copy of a string slice.
    pub fn of_str(s: &str) -> (r: MySimpleType)
        ensures
            r.0@ == s@,
    {
        MySimpleType(text_of(s))
    }
}

impl From<String> for MySimpleType {
    fn from(value: String) -> (r: MySimpleType) {
        MySimpleType(value)
    }
}

impl FromSpecImpl<String> for MySimpleType {
    open spec fn obeys_from_spec() -> bool {
        true
    }

    open spec fn from_spec(v: String) -> MySimpleType {
        MySimpleType(v)
    }
}

impl From<char> for MySimpleType {
    fn from(value: char) -> (r: MySimpleType) {
        MySimpleType::of_char(value)
    }
}

/// The text is a fresh string; [`MySimpleType::of_char`] states it.
impl FromSpecImpl<char> for MySimpleType {
    open spec fn obeys_from_spec() -> bool {
        false
    }

    open spec fn from_spec(v: char) -> MySimpleType {
        MySimpleType(arbitrary())
    }
}

impl<'a> From<&'a str> for MySimpleType {
    fn from(value: &'a str) -> (r: MySimpleType) {
        MySimpleType::of_str(value)
    }
}

/// The text is a fresh string; [`MySimpleType::of_str`] states it.
impl<'a> FromSpecImpl<&'a str> for MySimpleType {
    open spec fn obeys_from_spec() -> bool {
        false
    }

    open spec fn from_spec(v: &'a str) -> MySimpleType {
        MySimpleType(arbitrary())
    }
}

impl From<i32> for MySimpleType {
    fn from(value: i32) -> (r: MySimpleType) {
        MySimpleType::of_int(value)
    }
}

/// The text is a fresh string; [`MySimpleType::of_int`] states it.
impl FromSpecImpl<i32> for MySimpleType {
    open spec fn obeys_from_spec() -> bool {
        false
    }

    open spec fn from_spec(v: i32) -> MySimpleType {
        MySimpleType(arbitrary())
    }
}

impl IntoItems<MySimpleType> for i32 {
    open spec fn converts(&self) -> bool {
        obeys_from::<MySimpleType, i32>()
    }

    open spec fn items(&self) -> Seq<MySimpleType> {
        seq![from_one::<MySimpleType, i32>(*self)]
    }

    fn into_items(self) -> (r: Vec<MySimpleType>)
        ensures
            texts_of(vec_view::<MySimpleType>(r)) == seq![decimal_text(self as int)],
    {
        one(MySimpleType::of_int(self))
    }
}

impl IntoRows<MySimpleType> for MySimpleType {
    open spec fn converts(&self) -> bool {
        true
    }

    open spec fn rows(&self) -> Seq<Seq<MySimpleType>> {
        seq![seq![*self]]
    }

    fn into_rows(self) -> (r: Vec<Vec<MySimpleType>>) {
        let r = one(one(self));
        assert(crate::items::views(r@) =~= seq![seq![self]]);
        r
    }
}

impl IntoItems<MySimpleType> for MySimpleType {
    open spec fn converts(&self) -> bool {
        true
    }

    open spec fn items(&self) -> Seq<MySimpleType> {
        seq![*self]
    }

    fn into_items(self) -> (r: Vec<MySimpleType>) {
        one(self)
    }
}

impl IntoItems<MySimpleType> for String {
    open spec fn converts(&self) -> bool {
        obeys_from::<MySimpleType, String>()
    }

    open spec fn items(&self) -> Seq<MySimpleType> {
        seq![from_one::<MySimpleType, String>(*self)]
    }

    fn into_items(self) -> (r: Vec<MySimpleType>) {
        single(self)
    }
}

impl IntoItems<MySimpleType> for char {
    open spec fn converts(&self) -> bool {
        obeys_from::<MySimpleType, char>()
    }

    open spec fn items(&self) -> Seq<MySimpleType> {
        seq![from_one::<MySimpleType, char>(*self)]
    }

    fn into_items(self) -> (r: Vec<MySimpleType>)
        ensures
            texts_of(vec_view::<MySimpleType>(r)) == seq![seq![self]],
    {
        one(MySimpleType::of_char(self))
    }
}

impl<'a> IntoItems<MySimpleType> for &'a str {
    open spec fn converts(&self) -> bool {
        obeys_from::<MySimpleType, &'a str>()
    }

    open spec fn items(&self) -> Seq<MySimpleType> {
        seq![from_one::<MySimpleType, &'a str>(*self)]
    }

    fn into_items(self) -> (r: Vec<MySimpleType>)
        ensures
            texts_of(vec_view::<MySimpleType>(r)) == seq![self@],
    {
        one(MySimpleType::of_str(self))
    }
}

impl<'a> IntoRows<MySimpleType> for &'a str {
    open spec fn converts(&self) -> bool {
        obeys_from::<MySimpleType, &'a str>()
    }

    open spec fn rows(&self) -> Seq<Seq<MySimpleType>> {
        seq![seq![from_one::<MySimpleType, &'a str>(*self)]]
    }

    fn into_rows(self) -> (r: Vec<Vec<MySimpleType>>)
        ensures
            rows_texts(r) == seq![seq![self@]],
    {
        let row = one(MySimpleType::of_str(self));
        let r = one(row);
        assert(texts_of(row@) =~= seq![self@]);
        assert(rows_texts(r) =~= seq![seq![self@]]);
        r
    }
}

/// A cell of text of any kind.
#[derive(Debug, Clone, PartialEq)]
pub struct Foo<T>(pub T) where T: Clone;

impl<'a> From<&'a str> for Foo<String> {
    fn from(value: &'a str) -> (r: Foo<String>) {
        Foo(text_of(value))
    }
}

/// The text is a fresh string.
impl<'a> FromSpecImpl<&'a str> for Foo<String> {
    open spec fn obeys_from_spec() -> bool {
        false
    }

    open spec fn from_spec(v: &'a str) -> Foo<String> {
        Foo(arbitrary())
    }
}

impl<'a> IntoItems<Foo<String>> for &'a str {
    open spec fn converts(&self) -> bool {
        obeys_from::<Foo<String>, &'a str>()
    }

    open spec fn items(&self) -> Seq<Foo<String>> {
        seq![from_one::<Foo<String>, &'a str>(*self)]
    }

    fn into_items(self) -> (r: Vec<Foo<String>>)
        ensures
            cell_texts(vec_view::<Foo<String>>(r)) == seq![self@],
    {
        one(Foo::of_str(self))
    }
}

impl From<String> for Foo<String> {
    fn from(value: String) -> (r: Foo<String>) {
        Foo(value)
    }
}

impl FromSpecImpl<String> for Foo<String> {
    open spec fn obeys_from_spec() -> bool {
        true
    }

    open spec fn from_spec(v: String) -> Foo<String> {
        Foo(v)
    }
}

impl Foo<String> {
    /// The text of one character.
    pub fn of_char(c: char) -> (r: Foo<String>)
        ensures
            r.0@ == seq![c],
    {
        Foo(char_text(c))
    }

    /// The decimal text of a number.
    pub fn of_int(n: i32) -> (r: Foo<String>)
        ensures
            r.0@ == decimal_text(n as int),
    {
        Foo(int_text(n))
    }

    /// A copy of a string slice.
    pub fn of_str(s: &str) -> (r: Foo<String>)
        ensures
            r.0@ == s@,
    {
        Foo(text_of(s))
    }
}

impl From<char> for Foo<String> {
    fn from(value: char) -> (r: Foo<String>) {
        Foo::of_char(value)
    }
}

/// The text is a fresh string; [`Foo::of_char`] states it.
impl FromSpecImpl<char> for Foo<String> {
    open spec fn obeys_from_spec() -> bool {
        false
    }

    open spec fn from_spec(v: char) -> Foo<String> {
        Foo(arbitrary())
    }
}

impl From<i32> for Foo<String> {
    fn from(value: i32) -> (r: Foo<String>) {
        Foo::of_int(value)
    }
}

/// The text is a fresh string; [`Foo::of_int`] states it.
impl FromSpecImpl<i32> for Foo<String> {
    open spec fn obeys_from_spec() -> bool {
        false
    }

    open spec fn from_spec(v: i32) -> Foo<String> {
        Foo(arbitrary())
    }
}

impl IntoItems<Foo<String>> for String {
    open spec fn converts(&self) -> bool {
        obeys_from::<Foo<String>, String>()
    }

    open spec fn items(&self) -> Seq<Foo<String>> {
        seq![from_one::<Foo<String>, String>(*self)]
    }

    fn into_items(self) -> (r: Vec<Foo<String>>) {
        single(self)
    }
}

impl IntoItems<Foo<String>> for char {
    open spec fn converts(&self) -> bool {
        obeys_from::<Foo<String>, char>()
    }

    open spec fn items(&self) -> Seq<Foo<String>> {
        seq![from_one::<Foo<String>, char>(*self)]
    }

    fn into_items(self) -> (r: Vec<Foo<String>>)
        ensures
            cell_texts(vec_view::<Foo<String>>(r)) == seq![seq![self]],
    {
        one(Foo::of_char(self))
    }
}

/// A count parsed from text.
#[derive(Debug, Clone, PartialEq)]
pub struct Bar<T>(pub T) where T: Clone;

impl TryFrom<String> for Bar<usize> {
    type Error = ParseIntError;

    fn try_from(value: String) -> (r: Result<Bar<usize>, ParseIntError>) {
        match parse_usize(value.as_str()) {
            Ok(n) => Ok(Bar(n)),
            Err(e) => Err(e),
        }
    }
}

impl TryFromSpecImpl<String> for Bar<usize> {
    open spec fn obeys_try_from_spec() -> bool {
        true
    }

    open spec fn try_from_spec(v: String) -> Result<Bar<usize>, ParseIntError> {
        match decimal_usize(v@) {
            Some(n) => Ok(Bar(n)),
            None => Err(usize_parse_error(v@)),
        }
    }
}

impl<'a> TryFrom<&'a str> for Bar<usize> {
    type Error = ParseIntError;

    fn try_from(value: &'a str) -> (r: Result<Bar<usize>, ParseIntError>) {
        match parse_usize(value) {
            Ok(n) => Ok(Bar(n)),
            Err(e) => Err(e),
        }
    }
}

impl<'a> TryFromSpecImpl<&'a str> for Bar<usize> {
    open spec fn obeys_try_from_spec() -> bool {
        true
    }

    open spec fn try_from_spec(v: &'a str) -> Result<Bar<usize>, ParseIntError> {
        match decimal_usize(v@) {
            Some(n) => Ok(Bar(n)),
            None => Err(usize_parse_error(v@)),
        }
    }
}

impl TryFrom<usize> for Bar<usize> {
    type Error = ParseIntError;

    fn try_from(value: usize) -> (r: Result<Bar<usize>, ParseIntError>) {
        Ok(Bar(value))
    }
}

impl TryFromSpecImpl<usize> for Bar<usize> {
    open spec fn obeys_try_from_spec() -> bool {
        true
    }

    open spec fn try_from_spec(v: usize) -> Result<Bar<usize>, ParseIntError> {
        Ok(Bar(v))
    }
}

impl<'a, E> TryIntoItems<Bar<usize>, E> for &'a str where ParseIntError: Into<E> {
    open spec fn try_converts(&self) -> bool {
        obeys_try::<Bar<usize>, E, &'a str>()
    }

    open spec fn try_items(&self) -> Result<Seq<Bar<usize>>, E> {
        try_single_spec::<Bar<usize>, E, &'a str>(*self)
    }

    fn try_into_items(self) -> (r: Result<Vec<Bar<usize>>, E>)
        ensures
            decimal_usize(self@) matches Some(n) ==> ok_items::<Bar<usize>, E>(r) == Some(seq![Bar(n)]),
            decimal_usize(self@) is None ==> ok_items::<Bar<usize>, E>(r) is None,
    {
        proof {
            lemma_single_not_empty::<Bar<usize>, E, &'a str>(self);
        }
        match Bar::<usize>::try_from(self) {
            Ok(b) => Ok(one(b)),
            Err(e) => Err(e.into()),
        }
    }
}

} // verus!
