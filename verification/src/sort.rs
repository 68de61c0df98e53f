//! The sort directive mini-language: a token of the form `<field>-<asc|desc>`,
//! parsed once and rendered as `<field> ASC` / `<field> DESC`, optionally with
//! identifier case conversion and a `table.` qualifier.

use vstd::prelude::*;

use crate::ParseError;
use crate::casing::{CaseMode, apply_case, cased, effective_mode};
use crate::str_eq;

verus! {

/// The direction of a sort directive.
#[derive(Debug, Clone, Copy, PartialEq, Eq, Structural)]
pub enum SortBy {
    ASC,
    DESC,
}

/// The SQL keyword a direction renders as.
pub open spec fn dir_str(d: SortBy) -> Seq<char> {
    match d {
        SortBy::ASC => "ASC"@,
        SortBy::DESC => "DESC"@,
    }
}

/// How a direction token parses: exactly `asc` or `desc`, lowercase only.
pub open spec fn spec_parse_dir(s: Seq<char>) -> Result<SortBy, ParseError> {
    if s == "asc"@ {
        Ok(SortBy::ASC)
    } else if s == "desc"@ {
        Ok(SortBy::DESC)
    } else {
        Err(ParseError::InvalidSortBy)
    }
}

impl SortBy {
    /// Parses a direction token: `asc` or `desc`, lowercase only.
    pub fn from_str(s: &str) -> (r: Result<SortBy, ParseError>)
        ensures
            r == spec_parse_dir(s@),
    {
        if str_eq(s, "asc") {
            Ok(SortBy::ASC)
        } else if str_eq(s, "desc") {
            Ok(SortBy::DESC)
        } else {
            Err(ParseError::InvalidSortBy)
        }
    }

    /// The SQL keyword for this direction.
    pub fn as_str(&self) -> (r: &str)
        ensures
            r@ == dir_str(*self),
    {
        match self {
            SortBy::ASC => "ASC",
            SortBy::DESC => "DESC",
        }
    }
}

/// A parsed sort directive.
#[derive(Debug, PartialEq)]
pub struct Sort {
    pub field: String,
    pub sort_by: SortBy,
}

/// The mathematical value of a sort directive.
#[verifier::ext_equal]
pub ghost struct SortV {
    pub field: Seq<char>,
    pub sort_by: SortBy,
}

impl View for Sort {
    type V = SortV;

    open spec fn view(&self) -> SortV {
        SortV { field: self.field@, sort_by: self.sort_by }
    }
}

/// The index of the first `-` in `s`, or -1 if there is none.
pub open spec fn find_hyphen(s: Seq<char>) -> int
    decreases s.len(),
{
    if s.len() == 0 {
        -1
    } else if s[0] == '-' {
        0
    } else if find_hyphen(s.drop_first()) == -1 {
        -1
    } else {
        find_hyphen(s.drop_first()) + 1
    }
}

pub proof fn lemma_find_hyphen_at(s: Seq<char>, i: int)
    requires
        0 <= i < s.len(),
        s[i] == '-',
        forall|j: int| 0 <= j < i ==> s[j] != '-',
    ensures
        find_hyphen(s) == i,
    decreases i,
{
    if i > 0 {
        lemma_find_hyphen_at(s.drop_first(), i - 1);
    }
}

pub proof fn lemma_find_hyphen_none(s: Seq<char>)
    requires
        forall|j: int| 0 <= j < s.len() ==> s[j] != '-',
    ensures
        find_hyphen(s) == -1,
    decreases s.len(),
{
    if s.len() > 0 {
        lemma_find_hyphen_none(s.drop_first());
    }
}

/// How a sort token parses: split at the first `-` into field and direction;
/// no `-` at all is `InvalidSort`, a direction other than `asc`/`desc` is
/// `InvalidSortBy`. No trimming, and no validation of the field itself.
pub open spec fn spec_parse_sort(s: Seq<char>) -> Result<SortV, ParseError> {
    let i = find_hyphen(s);
    if i == -1 {
        Err(ParseError::InvalidSort)
    } else {
        match spec_parse_dir(s.subrange(i + 1, s.len() as int)) {
            Ok(d) => Ok(SortV { field: s.subrange(0, i), sort_by: d }),
            Err(e) => Err(e),
        }
    }
}

/// The plain rendering of a directive: `<field> <ASC|DESC>`.
pub open spec fn render_plain(v: SortV) -> Seq<char> {
    v.field + " "@ + dir_str(v.sort_by)
}

/// An optional `table.` prefix.
pub open spec fn qualifier(table: Option<Seq<char>>) -> Seq<char> {
    match table {
        Some(t) => t + "."@,
        None => Seq::empty(),
    }
}

/// The qualified SQL rendering of a directive:
/// `[<table>.]<cased field> <ASC|DESC>`.
pub open spec fn render_qualified(
    v: SortV,
    table: Option<Seq<char>>,
    case: Option<CaseMode>,
) -> Seq<char> {
    qualifier(table) + cased(effective_mode(case), v.field) + " "@ + dir_str(v.sort_by)
}

/// The view of an optional borrowed string.
pub open spec fn opt_str_view(t: Option<&String>) -> Option<Seq<char>> {
    match t {
        Some(s) => Some(s@),
        None => None,
    }
}

/// The position of the first `-` in `s`, if any.
fn find_hyphen_exec(s: &str) -> (r: Option<usize>)
    ensures
        match r {
            Some(k) => k < s@.len() && find_hyphen(s@) == k,
            None => find_hyphen(s@) == -1,
        },
{
    let len = s.unicode_len();
    let mut i: usize = 0;
    while i < len
        invariant
            i <= len,
            len == s@.len(),
            forall|j: int| 0 <= j < i ==> s@[j] != '-',
        decreases len - i,
    {
        if s.get_char(i) == '-' {
            proof {
                lemma_find_hyphen_at(s@, i as int);
            }
            return Some(i);
        }
        i += 1;
    }
    proof {
        lemma_find_hyphen_none(s@);
    }
    None
}

impl Sort {
    /// Parses a `<field>-<asc|desc>` token.
    pub fn new(s: &str) -> (r: Result<Sort, ParseError>)
        ensures
            match r {
                Ok(sort) => spec_parse_sort(s@) == Ok::<SortV, ParseError>(sort@),
                Err(e) => spec_parse_sort(s@) == Err::<SortV, ParseError>(e),
            },
    {
        let len = s.unicode_len();
        let found = find_hyphen_exec(s);
        match found {
            None => Err(ParseError::InvalidSort),
            Some(k) => {
                let field = s.substring_char(0, k).to_owned();
                let dir_token = s.substring_char(k + 1, len);
                match SortBy::from_str(dir_token) {
                    Ok(d) => Ok(Sort { field, sort_by: d }),
                    Err(e) => Err(e),
                }
            },
        }
    }

    /// Renders `<field> <ASC|DESC>` with the field exactly as parsed.
    pub fn to_string(&self) -> (r: String)
        ensures
            r@ == render_plain(self@),
    {
        let mut sort = String::new();
        sort.append(self.field.as_str());
        sort.append(" ");
        sort.append(self.sort_by.as_str());
        proof {
            assert(sort@ =~= render_plain(self@));
        }
        sort
    }

    /// Appends `<cased field> <ASC|DESC>` to the given prefix; with no case
    /// mode configured the field is converted to snake_case.
    pub fn to_sql(&self, sort: String, case: Option<CaseMode>) -> (r: String)
        ensures
            r@ == sort@ + cased(effective_mode(case), self.field@) + " "@ + dir_str(
                self.sort_by,
            ),
    {
        let mut out = sort;
        let field = apply_case(self.field.as_str(), &case);
        out.append(field.as_str());
        out.append(" ");
        out.append(self.sort_by.as_str());
        proof {
            assert(out@ =~= sort@ + cased(effective_mode(case), self.field@) + " "@ + dir_str(
                self.sort_by,
            ));
        }
        out
    }

    /// Renders `[<table>.]<cased field> <ASC|DESC>`.
    pub fn to_sql_map_table(&self, table: Option<&String>, case: Option<CaseMode>) -> (r:
        String)
        ensures
            r@ == render_qualified(self@, opt_str_view(table), case),
    {
        let mut sort = String::new();
        if let Some(t) = table {
            sort.append(t.as_str());
            sort.append(".");
        }
        let r = self.to_sql(sort, case);
        proof {
            assert(r@ =~= render_qualified(self@, opt_str_view(table), case));
        }
        r
    }
}

/// Parsing a well-formed token `<field>-asc` / `<field>-desc` (the field
/// itself containing no hyphen) succeeds, and the plain rendering of the
/// parsed directive is exactly `<field> ASC` / `<field> DESC`.
pub proof fn lemma_parse_render_plain(f: Seq<char>)
    requires
        !f.contains('-'),
    ensures
        spec_parse_sort(f + "-asc"@) == Ok::<SortV, ParseError>(
            SortV { field: f, sort_by: SortBy::ASC },
        ),
        spec_parse_sort(f + "-desc"@) == Ok::<SortV, ParseError>(
            SortV { field: f, sort_by: SortBy::DESC },
        ),
        render_plain(SortV { field: f, sort_by: SortBy::ASC }) == f + " ASC"@,
        render_plain(SortV { field: f, sort_by: SortBy::DESC }) == f + " DESC"@,
{
    reveal_strlit("-asc");
    reveal_strlit("-desc");
    reveal_strlit("asc");
    reveal_strlit("desc");
    reveal_strlit(" ");
    reveal_strlit("ASC");
    reveal_strlit("DESC");
    reveal_strlit(" ASC");
    reveal_strlit(" DESC");
    let ta = f + "-asc"@;
    let td = f + "-desc"@;
    assert forall|j: int| 0 <= j < f.len() implies f[j] != '-' by {
        if f[j] == '-' {
            assert(f.contains('-'));
        }
    }
    lemma_find_hyphen_at(ta, f.len() as int);
    lemma_find_hyphen_at(td, f.len() as int);
    assert(ta.subrange(f.len() as int + 1, ta.len() as int) =~= "asc"@);
    assert(td.subrange(f.len() as int + 1, td.len() as int) =~= "desc"@);
    assert(ta.subrange(0, f.len() as int) =~= f);
    assert(td.subrange(0, f.len() as int) =~= f);
    assert(f + " "@ + "ASC"@ =~= f + " ASC"@);
    assert(f + " "@ + "DESC"@ =~= f + " DESC"@);
}

} // verus!
