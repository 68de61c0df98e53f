//! Identifier case conversion. The conversion itself is done by the
//! `convert_case` crate; its result is named by the uninterpreted spec
//! function `cased`, and every identifier-emitting path of the library goes
//! through `apply_case`, so that the same default (snake_case when no mode is
//! configured) holds everywhere.

use vstd::prelude::*;

use convert_case::Casing;

verus! {

/// The identifier case conventions the library can convert to.
#[derive(Debug, Clone, Copy, PartialEq, Eq, Structural)]
pub enum CaseMode {
    /// `my_field_name`
    Snake,
    /// `myFieldName`
    Camel,
    /// `MyFieldName`
    Pascal,
    /// `my-field-name`
    Kebab,
    /// `MY FIELD NAME`
    Upper,
    /// `my field name`
    Lower,
}

/// What `convert_case` turns `s` into under the given case convention: a pure
/// function of the characters and the chosen mode.
pub uninterp spec fn cased(mode: CaseMode, s: Seq<char>) -> Seq<char>;

/// Relies on `convert_case`'s `Casing::to_case`: the conversion depends on
/// the input characters and the chosen case alone.
#[verifier::external_body]
fn to_case_mode(s: &str, mode: CaseMode) -> (r: String)
    ensures
        r@ == cased(mode, s@),
{
    let case = match mode {
        CaseMode::Snake => convert_case::Case::Snake,
        CaseMode::Camel => convert_case::Case::Camel,
        CaseMode::Pascal => convert_case::Case::Pascal,
        CaseMode::Kebab => convert_case::Case::Kebab,
        CaseMode::Upper => convert_case::Case::Upper,
        CaseMode::Lower => convert_case::Case::Lower,
    };
    s.to_case(case)
}

/// The case convention in force when `mode` is configured: the configured one,
/// or snake_case by default.
pub open spec fn effective_mode(mode: Option<CaseMode>) -> CaseMode {
    match mode {
        Some(m) => m,
        None => CaseMode::Snake,
    }
}

/// Converts an identifier under the configured mode, defaulting to
/// snake_case when none is configured.
pub fn apply_case(s: &str, mode: &Option<CaseMode>) -> (r: String)
    ensures
        r@ == cased(effective_mode(*mode), s@),
{
    match mode {
        Some(m) => to_case_mode(s, *m),
        None => to_case_mode(s, CaseMode::Snake),
    }
}

} // verus!
