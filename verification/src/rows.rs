//! Typed decoding of query results.
//!
//! A result row is a list of dynamically typed values under column names.
//! Every entity is decoded from it through the functions of this module, so
//! the rules on which stored value is accepted for which field are stated
//! once: text for a string, an integer for an integer, and `NULL` only where
//! the field is optional.

use vstd::prelude::*;
use crate::text::ascii_lower;

verus! {

/// Why a row could not be decoded.
#[derive(Clone, Copy, Debug, PartialEq, Eq, Structural)]
pub enum DecodeError {
    /// The row has no column at that position or under that name.
    NoSuchColumn,
    /// The stored value has another type than the field.
    WrongType,
}

/// A value read from a result column.
///
/// Floating-point columns are carried as their IEEE-754 bit pattern.
#[derive(Debug)]
pub enum SqlValue {
    Null,
    Integer(i64),
    Real(u64),
    Text(String),
    Blob(Vec<u8>),
}

/// One row of a query result: the column names and the values under them.
#[derive(Debug)]
pub struct SqlRow {
    pub columns: Vec<String>,
    pub values: Vec<SqlValue>,
}

/// Equality of names up to the case of ASCII letters.
pub open spec fn same_name(a: Seq<char>, b: Seq<char>) -> bool {
    a.len() == b.len() && forall|i: int| 0 <= i < a.len() ==> ascii_lower(#[trigger] a[i]) == ascii_lower(b[i])
}

impl SqlValue {
    /// The value as a mandatory string field.
    pub open spec fn as_text(self) -> Result<String, DecodeError> {
        match self {
            SqlValue::Text(s) => Ok(s),
            _ => Err(DecodeError::WrongType),
        }
    }

    /// The value as an optional string field.
    pub open spec fn as_opt_text(self) -> Result<Option<String>, DecodeError> {
        match self {
            SqlValue::Null => Ok(None),
            SqlValue::Text(s) => Ok(Some(s)),
            _ => Err(DecodeError::WrongType),
        }
    }

    /// The value as a mandatory integer field.
    pub open spec fn as_int(self) -> Result<i64, DecodeError> {
        match self {
            SqlValue::Integer(i) => Ok(i),
            _ => Err(DecodeError::WrongType),
        }
    }

    /// The value as an optional integer field.
    pub open spec fn as_opt_int(self) -> Result<Option<i64>, DecodeError> {
        match self {
            SqlValue::Null => Ok(None),
            SqlValue::Integer(i) => Ok(Some(i)),
            _ => Err(DecodeError::WrongType),
        }
    }

    /// The value as a floating-point field, by its bit pattern.
    pub open spec fn as_real(self) -> Result<u64, DecodeError> {
        match self {
            SqlValue::Real(bits) => Ok(bits),
            _ => Err(DecodeError::WrongType),
        }
    }

    /// Decodes a floating-point field into its bit pattern.
    pub fn float_bits(&self) -> (r: Result<u64, DecodeError>)
        ensures
            r == self.as_real(),
    {
        match self {
            SqlValue::Real(bits) => Ok(*bits),
            _ => Err(DecodeError::WrongType),
        }
    }

    /// Decodes a mandatory string field.
    pub fn text(&self) -> (r: Result<String, DecodeError>)
        ensures
            r == self.as_text(),
    {
        match self {
            SqlValue::Text(s) => Ok(s.clone()),
            _ => Err(DecodeError::WrongType),
        }
    }

    /// Decodes an optional string field.
    pub fn opt_text(&self) -> (r: Result<Option<String>, DecodeError>)
        ensures
            r == self.as_opt_text(),
    {
        match self {
            SqlValue::Null => Ok(None),
            SqlValue::Text(s) => Ok(Some(s.clone())),
            _ => Err(DecodeError::WrongType),
        }
    }

    /// Decodes a mandatory integer field.
    pub fn integer(&self) -> (r: Result<i64, DecodeError>)
        ensures
            r == self.as_int(),
    {
        match self {
            SqlValue::Integer(i) => Ok(*i),
            _ => Err(DecodeError::WrongType),
        }
    }

    /// Decodes an optional integer field.
    pub fn opt_integer(&self) -> (r: Result<Option<i64>, DecodeError>)
        ensures
            r == self.as_opt_int(),
    {
        match self {
            SqlValue::Null => Ok(None),
            SqlValue::Integer(i) => Ok(Some(*i)),
            _ => Err(DecodeError::WrongType),
        }
    }
}

impl SqlRow {
    /// The row has one value per column.
    pub open spec fn well_formed(&self) -> bool {
        self.values@.len() == self.columns@.len()
    }

    /// The value at position `i`.
    pub open spec fn value_at(self, i: int) -> Result<SqlValue, DecodeError> {
        if 0 <= i < self.values@.len() {
            Ok(self.values@[i])
        } else {
            Err(DecodeError::NoSuchColumn)
        }
    }

    /// The mandatory string at position `i`.
    pub open spec fn text_at(self, i: int) -> Result<String, DecodeError> {
        match self.value_at(i) {
            Ok(v) => v.as_text(),
            Err(e) => Err(e),
        }
    }

    /// The optional string at position `i`.
    pub open spec fn opt_text_at(self, i: int) -> Result<Option<String>, DecodeError> {
        match self.value_at(i) {
            Ok(v) => v.as_opt_text(),
            Err(e) => Err(e),
        }
    }

    /// The mandatory integer at position `i`.
    pub open spec fn int_at(self, i: int) -> Result<i64, DecodeError> {
        match self.value_at(i) {
            Ok(v) => v.as_int(),
            Err(e) => Err(e),
        }
    }

    /// The optional integer at position `i`.
    pub open spec fn opt_int_at(self, i: int) -> Result<Option<i64>, DecodeError> {
        match self.value_at(i) {
            Ok(v) => v.as_opt_int(),
            Err(e) => Err(e),
        }
    }

    /// The position of the first column called `name`, or the number of
    /// columns where there is none.
    pub open spec fn position_of(self, name: Seq<char>) -> int
        decreases self.columns@.len(),
    {
        self.position_from(name, 0)
    }

    /// The position of the first column at or after `from` that is called
    /// `name`, or the number of columns where there is none.
    pub open spec fn position_from(self, name: Seq<char>, from: int) -> int
        decreases self.columns@.len() - from,
    {
        if from < 0 || from >= self.columns@.len() {
            self.columns@.len() as int
        } else if same_name(self.columns@[from]@, name) {
            from
        } else {
            self.position_from(name, from + 1)
        }
    }

    /// The mandatory string under `name`.
    pub open spec fn text_named(self, name: Seq<char>) -> Result<String, DecodeError> {
        self.text_at(self.position_of(name))
    }

    /// The optional string under `name`.
    pub open spec fn opt_text_named(self, name: Seq<char>) -> Result<Option<String>, DecodeError> {
        self.opt_text_at(self.position_of(name))
    }

    /// The mandatory integer under `name`.
    pub open spec fn int_named(self, name: Seq<char>) -> Result<i64, DecodeError> {
        self.int_at(self.position_of(name))
    }

    /// The floating-point value at position `i`, by its bit pattern.
    pub open spec fn real_at(self, i: int) -> Result<u64, DecodeError> {
        match self.value_at(i) {
            Ok(v) => v.as_real(),
            Err(e) => Err(e),
        }
    }

    /// Decodes the floating-point value at position `i`.
    pub fn get_real(&self, i: usize) -> (r: Result<u64, DecodeError>)
        ensures
            r == self.real_at(i as int),
    {
        if i < self.values.len() {
            self.values[i].float_bits()
        } else {
            Err(DecodeError::NoSuchColumn)
        }
    }

    /// Decodes the mandatory string at position `i`.
    pub fn get_text(&self, i: usize) -> (r: Result<String, DecodeError>)
        ensures
            r == self.text_at(i as int),
    {
        if i < self.values.len() {
            self.values[i].text()
        } else {
            Err(DecodeError::NoSuchColumn)
        }
    }

    /// Decodes the optional string at position `i`.
    pub fn get_opt_text(&self, i: usize) -> (r: Result<Option<String>, DecodeError>)
        ensures
            r == self.opt_text_at(i as int),
    {
        if i < self.values.len() {
            self.values[i].opt_text()
        } else {
            Err(DecodeError::NoSuchColumn)
        }
    }

    /// Decodes the mandatory integer at position `i`.
    pub fn get_int(&self, i: usize) -> (r: Result<i64, DecodeError>)
        ensures
            r == self.int_at(i as int),
    {
        if i < self.values.len() {
            self.values[i].integer()
        } else {
            Err(DecodeError::NoSuchColumn)
        }
    }

    /// Decodes the optional integer at position `i`.
    pub fn get_opt_int(&self, i: usize) -> (r: Result<Option<i64>, DecodeError>)
        ensures
            r == self.opt_int_at(i as int),
    {
        if i < self.values.len() {
            self.values[i].opt_integer()
        } else {
            Err(DecodeError::NoSuchColumn)
        }
    }

    /// Finds the first column called `name`, up to ASCII case; the number
    /// of columns where there is none.
    pub fn find_column(&self, name: &str) -> (i: usize)
        ensures
            i as int == self.position_of(name@),
            i <= self.columns@.len(),
    {
        let wanted = crate::text::chars_of(name);
        let mut i: usize = 0;
        while i < self.columns.len()
            invariant
                i <= self.columns@.len(),
                wanted@ == name@,
                self.position_of(name@) == self.position_from(name@, i as int),
            decreases self.columns.len() - i,
        {
            let have = crate::text::chars_of(self.columns[i].as_str());
            if same_name_chars(&have, &wanted) {
                return i;
            }
            i += 1;
        }
        i
    }

    /// Decodes the mandatory string under `name`.
    pub fn text_of(&self, name: &str) -> (r: Result<String, DecodeError>)
        ensures
            r == self.text_named(name@),
    {
        let i = self.find_column(name);
        self.get_text(i)
    }

    /// Decodes the optional string under `name`.
    pub fn opt_text_of(&self, name: &str) -> (r: Result<Option<String>, DecodeError>)
        ensures
            r == self.opt_text_named(name@),
    {
        let i = self.find_column(name);
        self.get_opt_text(i)
    }

    /// Decodes the mandatory integer under `name`.
    pub fn int_of(&self, name: &str) -> (r: Result<i64, DecodeError>)
        ensures
            r == self.int_named(name@),
    {
        let i = self.find_column(name);
        self.get_int(i)
    }
}

/// The entities that the rows stand for under the decoding `decode`, in
/// order; the first row that cannot be decoded fails the whole list.
pub open spec fn decoded_rows<T>(
    rows: Seq<SqlRow>,
    decode: spec_fn(SqlRow) -> Result<T, DecodeError>,
) -> Result<Seq<T>, DecodeError>
    decreases rows.len(),
{
    if rows.len() == 0 {
        Ok(Seq::empty())
    } else {
        match decoded_rows(rows.drop_last(), decode) {
            Err(e) => Err(e),
            Ok(items) => match decode(rows.last()) {
                Err(e) => Err(e),
                Ok(item) => Ok(items.push(item)),
            },
        }
    }
}

/// Decoding one more row: the list so far, then the row itself.
pub proof fn lemma_decoded_step<T>(
    rows: Seq<SqlRow>,
    decode: spec_fn(SqlRow) -> Result<T, DecodeError>,
    i: int,
)
    requires
        0 <= i < rows.len(),
    ensures
        decoded_rows(rows.take(i + 1), decode) == (match decoded_rows(rows.take(i), decode) {
            Err(e) => Err(e),
            Ok(items) => match decode(rows[i]) {
                Err(e) => Err(e),
                Ok(item) => Ok(items.push(item)),
            },
        }),
{
    assert(rows.take(i + 1).drop_last() =~= rows.take(i));
    assert(rows.take(i + 1).last() == rows[i]);
}

/// Once a prefix of the rows fails to decode, the whole list fails in the
/// same way.
pub proof fn lemma_failure_persists<T>(
    rows: Seq<SqlRow>,
    decode: spec_fn(SqlRow) -> Result<T, DecodeError>,
    n: int,
)
    requires
        0 <= n <= rows.len(),
        decoded_rows(rows.take(n), decode) is Err,
    ensures
        decoded_rows(rows, decode) == decoded_rows(rows.take(n), decode),
    decreases rows.len() - n,
{
    if n == rows.len() {
        assert(rows.take(n) =~= rows);
    } else {
        lemma_decoded_step(rows, decode, n);
        lemma_failure_persists(rows, decode, n + 1);
    }
}

/// The rows that decode under `decode`, in order, the others left out.
pub open spec fn decodable_rows<T>(
    rows: Seq<SqlRow>,
    decode: spec_fn(SqlRow) -> Result<T, DecodeError>,
) -> Seq<T>
    decreases rows.len(),
{
    if rows.len() == 0 {
        Seq::empty()
    } else {
        let before = decodable_rows(rows.drop_last(), decode);
        match decode(rows.last()) {
            Err(_) => before,
            Ok(item) => before.push(item),
        }
    }
}

/// Decides `ascii_lower(a) == ascii_lower(b)`.
pub fn same_letter(a: char, b: char) -> (r: bool)
    ensures
        r == (ascii_lower(a) == ascii_lower(b)),
{
    let x: u32 = if 'A' <= a && a <= 'Z' {
        (a as u32) + 32
    } else {
        a as u32
    };
    let y: u32 = if 'A' <= b && b <= 'Z' {
        (b as u32) + 32
    } else {
        b as u32
    };
    x == y
}

/// Decides `same_name`.
pub fn same_name_chars(a: &Vec<char>, b: &Vec<char>) -> (r: bool)
    ensures
        r == same_name(a@, b@),
{
    if a.len() != b.len() {
        return false;
    }
    let mut i: usize = 0;
    while i < a.len()
        invariant
            i <= a.len(),
            a.len() == b.len(),
            forall|j: int| 0 <= j < i ==> ascii_lower(#[trigger] a@[j]) == ascii_lower(b@[j]),
        decreases a.len() - i,
    {
        if !same_letter(a[i], b[i]) {
            return false;
        }
        i += 1;
    }
    true
}

/// The words for a decoding failure.
pub open spec fn decode_error_text(e: DecodeError) -> Seq<char> {
    match e {
        DecodeError::NoSuchColumn => "no such column"@,
        DecodeError::WrongType => "invalid column type"@,
    }
}

/// A short description of a decoding failure.
pub fn describe_decode_error(e: DecodeError) -> (text: String)
    ensures
        text@ == decode_error_text(e),
{
    match e {
        DecodeError::NoSuchColumn => String::from_str("no such column"),
        DecodeError::WrongType => String::from_str("invalid column type"),
    }
}

} // verus!
