//! Assembly of parameterized SQL statements from a structured query model:
//! filters, an optional group field, an optional sort directive, and
//! limit/offset strings, rendered for a chosen SQL dialect.

use vstd::prelude::*;

pub mod casing;
pub mod digits;
pub mod sort;
pub mod sql;

verus! {

/// Errors surfaced when a textual token cannot be understood.
#[derive(Debug, Clone, Copy, PartialEq, Eq, Structural)]
pub enum ParseError {
    /// A sort token has no `-` separator between field and direction.
    InvalidSort,
    /// A sort direction token is neither `asc` nor `desc`.
    InvalidSortBy,
    /// The limit is absent or not a plain decimal number.
    InvalidLimit,
    /// The offset is absent or not a plain decimal number.
    InvalidOffset,
}

/// Character-for-character equality of two string slices.
pub fn str_eq(a: &str, b: &str) -> (r: bool)
    ensures
        r == (a@ == b@),
{
    let a_owned = a.to_owned();
    let b_owned = b.to_owned();
    a_owned == b_owned
}

/// The comparison a filter predicate applies between its column and its
/// bound value.
#[derive(Debug, Clone, Copy, PartialEq, Eq, Structural)]
pub enum FilterOp {
    Eq,
    Ne,
    Gt,
    Ge,
    Lt,
    Le,
}

/// One requested predicate: a field, a comparison, and the raw value to bind.
/// The value is carried verbatim; interpreting or type-converting it is the
/// binder's job, not this library's.
#[derive(Debug, PartialEq)]
pub struct Filter {
    pub field: String,
    pub op: FilterOp,
    pub value: String,
}

/// The mathematical value of a filter.
#[verifier::ext_equal]
pub ghost struct FilterV {
    pub field: Seq<char>,
    pub op: FilterOp,
    pub value: Seq<char>,
}

impl View for Filter {
    type V = FilterV;

    open spec fn view(&self) -> FilterV {
        FilterV { field: self.field@, op: self.op, value: self.value@ }
    }
}

/// The structured query model the builder consumes: an ordered filter list,
/// an optional group field, an optional sort directive, and textual limit
/// and offset.
#[derive(Debug)]
pub struct UrlQuery {
    pub filters: Vec<Filter>,
    pub group: Option<String>,
    pub sort: Option<crate::sort::Sort>,
    pub limit: Option<String>,
    pub offset: Option<String>,
}

/// The mathematical value of a query model.
#[verifier::ext_equal]
pub ghost struct UrlQueryV {
    pub filters: Seq<FilterV>,
    pub group: Option<Seq<char>>,
    pub sort: Option<crate::sort::SortV>,
    pub limit: Option<Seq<char>>,
    pub offset: Option<Seq<char>>,
}

/// The view of an optional owned string.
pub open spec fn opt_string_view(s: Option<String>) -> Option<Seq<char>> {
    match s {
        Some(t) => Some(t@),
        None => None,
    }
}

impl View for UrlQuery {
    type V = UrlQueryV;

    open spec fn view(&self) -> UrlQueryV {
        UrlQueryV {
            filters: Seq::new(self.filters@.len(), |i: int| self.filters@[i]@),
            group: opt_string_view(self.group),
            sort: match self.sort {
                Some(s) => Some(s@),
                None => None,
            },
            limit: opt_string_view(self.limit),
            offset: opt_string_view(self.offset),
        }
    }
}

/// A non-empty string of decimal digits: the only textual form the model
/// accepts for limit and offset.
pub open spec fn is_digits(s: Seq<char>) -> bool {
    s.len() > 0 && forall|i: int| 0 <= i < s.len() ==> '0' <= s[i] && s[i] <= '9'
}

/// Whether the model's limit gates the LIMIT clause in: present and numeric.
pub open spec fn limit_valid(q: UrlQueryV) -> bool {
    match q.limit {
        Some(l) => is_digits(l),
        None => false,
    }
}

/// Whether the model's offset gates the OFFSET clause in: present and numeric.
pub open spec fn offset_valid(q: UrlQueryV) -> bool {
    match q.offset {
        Some(o) => is_digits(o),
        None => false,
    }
}

/// Whether `s` consists of decimal digits only and is non-empty.
fn all_digits(s: &str) -> (r: bool)
    ensures
        r == is_digits(s@),
{
    let len = s.unicode_len();
    if len == 0 {
        return false;
    }
    let mut i: usize = 0;
    while i < len
        invariant
            i <= len,
            len == s@.len(),
            forall|j: int| 0 <= j < i ==> '0' <= s@[j] && s@[j] <= '9',
        decreases len - i,
    {
        let c = s.get_char(i);
        if c < '0' || c > '9' {
            return false;
        }
        i += 1;
    }
    true
}

impl UrlQuery {
    /// The model's validated limit: its text when present and numeric,
    /// `InvalidLimit` otherwise.
    pub fn check_limit(&self) -> (r: Result<&str, ParseError>)
        ensures
            match r {
                Ok(l) => limit_valid(self@) && Some(l@) == self@.limit,
                Err(e) => !limit_valid(self@) && e == ParseError::InvalidLimit,
            },
    {
        match &self.limit {
            Some(l) => {
                if all_digits(l.as_str()) {
                    Ok(l.as_str())
                } else {
                    Err(ParseError::InvalidLimit)
                }
            },
            None => Err(ParseError::InvalidLimit),
        }
    }

    /// The model's validated offset: its text when present and numeric,
    /// `InvalidOffset` otherwise.
    pub fn check_offset(&self) -> (r: Result<&str, ParseError>)
        ensures
            match r {
                Ok(o) => offset_valid(self@) && Some(o@) == self@.offset,
                Err(e) => !offset_valid(self@) && e == ParseError::InvalidOffset,
            },
    {
        match &self.offset {
            Some(o) => {
                if all_digits(o.as_str()) {
                    Ok(o.as_str())
                } else {
                    Err(ParseError::InvalidOffset)
                }
            },
            None => Err(ParseError::InvalidOffset),
        }
    }
}

} // verus!
