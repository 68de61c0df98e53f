//! The query builder: assembles `SELECT … WHERE … GROUP BY … ORDER BY …
//! LIMIT … OFFSET …` for a chosen dialect, keeping the bind-parameter
//! numbering in the emitted text aligned with the returned argument list.

use vstd::prelude::*;

use crate::casing::{CaseMode, apply_case, cased, effective_mode};
use crate::digits::{dec_rep, format_usize};
use crate::sort::{SortV, opt_str_view, qualifier, render_qualified};
use crate::{Filter, FilterOp, UrlQuery, UrlQueryV, limit_valid, offset_valid, str_eq};

verus! {

/// The SQL dialects the builder can emit for. The set is closed: a dialect
/// fixes nothing but the bind-placeholder syntax.
#[derive(Debug, Clone, Copy, PartialEq, Eq, Structural)]
pub enum Database {
    Postgres,
    MySQL,
}

/// The placeholder a dialect emits for the bound argument at 1-based
/// position `pos`: `$<pos>` for Postgres, always `?` for MySQL.
pub open spec fn placeholder(db: Database, pos: nat) -> Seq<char> {
    match db {
        Database::Postgres => "$"@ + dec_rep(pos),
        Database::MySQL => "?"@,
    }
}

/// The SQL comparison text for a filter operator, with its surrounding
/// spaces.
pub open spec fn op_str(op: FilterOp) -> Seq<char> {
    match op {
        FilterOp::Eq => " = "@,
        FilterOp::Ne => " != "@,
        FilterOp::Gt => " > "@,
        FilterOp::Ge => " >= "@,
        FilterOp::Lt => " < "@,
        FilterOp::Le => " <= "@,
    }
}

/// The SQL comparison text for a filter operator.
fn op_as_str(op: FilterOp) -> (r: &'static str)
    ensures
        r@ == op_str(op),
{
    match op {
        FilterOp::Eq => " = ",
        FilterOp::Ne => " != ",
        FilterOp::Gt => " > ",
        FilterOp::Ge => " >= ",
        FilterOp::Lt => " < ",
        FilterOp::Le => " <= ",
    }
}

/// The predicate fragment a filter renders to at 1-based bind position
/// `pos`: `[<table>.]<cased field><op><placeholder>`.
pub open spec fn filter_sql(
    f: crate::FilterV,
    pos: nat,
    table: Option<Seq<char>>,
    case: Option<CaseMode>,
    db: Database,
) -> Seq<char> {
    qualifier(table) + cased(effective_mode(case), f.field) + op_str(f.op) + placeholder(db, pos)
}

impl Filter {
    /// Renders this filter's predicate fragment for the given bind position,
    /// optional table qualifier, case mode and dialect.
    pub fn to_sql_map_table(
        &self,
        pos: usize,
        table: Option<&String>,
        case: Option<CaseMode>,
        db: &Database,
    ) -> (r: String)
        ensures
            r@ == filter_sql(self@, pos as nat, opt_str_view(table), case, *db),
    {
        let mut s = String::new();
        if let Some(t) = table {
            s.append(t.as_str());
            s.append(".");
        }
        let field = apply_case(self.field.as_str(), &case);
        s.append(field.as_str());
        s.append(op_as_str(self.op));
        match db {
            Database::Postgres => {
                s.append("$");
                let p = format_usize(pos);
                s.append(p.as_str());
            },
            Database::MySQL => {
                s.append("?");
            },
        }
        proof {
            assert(s@ =~= filter_sql(self@, pos as nat, opt_str_view(table), case, *db));
        }
        s
    }
}

/// The view of a column map: each entry as a pair of character sequences,
/// field name first, table name second.
pub open spec fn map_view(m: Seq<(String, String)>) -> Seq<(Seq<char>, Seq<char>)> {
    Seq::new(m.len(), |i: int| (m[i].0@, m[i].1@))
}

/// The table a field is qualified with: the value of the first entry whose
/// key is the field, if any.
pub open spec fn spec_lookup(m: Seq<(Seq<char>, Seq<char>)>, k: Seq<char>) -> Option<Seq<char>>
    decreases m.len(),
{
    if m.len() == 0 {
        None
    } else if m[0].0 == k {
        Some(m[0].1)
    } else {
        spec_lookup(m.drop_first(), k)
    }
}

/// Finds the table mapped to `key`, if any.
fn lookup_table<'a>(map: &'a Vec<(String, String)>, key: &str) -> (r: Option<&'a String>)
    ensures
        opt_str_view(r) == spec_lookup(map_view(map@), key@),
{
    let ghost mv = map_view(map@);
    let n = map.len();
    proof {
        assert(mv.subrange(0, n as int) =~= mv);
    }
    let mut i: usize = 0;
    while i < n
        invariant
            i <= n,
            n == map@.len(),
            mv == map_view(map@),
            spec_lookup(mv, key@) == spec_lookup(mv.subrange(i as int, n as int), key@),
        decreases n - i,
    {
        if str_eq(map[i].0.as_str(), key) {
            proof {
                assert(mv.subrange(i as int, n as int)[0] == mv[i as int]);
            }
            return Some(&map[i].1);
        }
        proof {
            assert(mv.subrange(i as int, n as int).drop_first() =~= mv.subrange(
                i as int + 1,
                n as int,
            ));
        }
        i += 1;
    }
    proof {
        assert(mv.subrange(n as int, n as int) =~= Seq::<(Seq<char>, Seq<char>)>::empty());
    }
    None
}

/// The views of a column list.
pub open spec fn cols_view(cols: Seq<&str>) -> Seq<Seq<char>> {
    Seq::new(cols.len(), |i: int| cols[i]@)
}

/// The first `n` columns joined with `, `.
pub open spec fn joined_cols(cols: Seq<Seq<char>>, n: int) -> Seq<char>
    decreases n,
{
    if n <= 0 {
        Seq::empty()
    } else if n == 1 {
        cols[0]
    } else {
        joined_cols(cols, n - 1) + ", "@ + cols[n - 1]
    }
}

/// The seed text for an explicit table and column list:
/// `SELECT <columns joined with ', '> FROM <table>`.
pub open spec fn select_sql(table: Seq<char>, cols: Seq<Seq<char>>) -> Seq<char> {
    "SELECT "@ + joined_cols(cols, cols.len() as int) + " FROM "@ + table
}

/// Renders `SELECT <col1>, <col2>, … FROM <table>`. An empty column list
/// yields the degenerate `SELECT  FROM <table>`, which is accepted, not
/// rejected.
pub fn gen_sql_select(table: &str, columns: Vec<&str>) -> (r: String)
    ensures
        r@ == select_sql(table@, cols_view(columns@)),
{
    let ghost cv = cols_view(columns@);
    let mut sql = "SELECT ".to_owned();
    proof {
        assert(sql@ =~= "SELECT "@ + joined_cols(cv, 0));
    }
    let n = columns.len();
    let mut i: usize = 0;
    while i < n
        invariant
            i <= n,
            n == columns@.len(),
            cv == cols_view(columns@),
            sql@ == "SELECT "@ + joined_cols(cv, i as int),
        decreases n - i,
    {
        if i > 0 {
            sql.append(", ");
        }
        sql.append(columns[i]);
        i += 1;
        proof {
            assert(sql@ =~= "SELECT "@ + joined_cols(cv, i as int));
        }
    }
    sql.append(" FROM ");
    sql.append(table);
    proof {
        assert(sql@ =~= select_sql(table@, cv));
    }
    sql
}

/// Appends ` LIMIT <limit>`.
pub fn append_limit(sql: &mut String, limit: &str)
    ensures
        final(sql)@ == old(sql)@ + " LIMIT "@ + limit@,
{
    sql.append(" LIMIT ");
    sql.append(limit);
}

/// Appends ` OFFSET <offset>`.
pub fn append_offset(sql: &mut String, offset: &str)
    ensures
        final(sql)@ == old(sql)@ + " OFFSET "@ + offset@,
{
    sql.append(" OFFSET ");
    sql.append(offset);
}

/// Builds one statement from one query model: seeded with a base SELECT,
/// configured through chained setters, consumed once by `build`.
pub struct QueryBuilder {
    pub url_query: UrlQuery,
    pub database: Database,
    pub map_columns: Vec<(String, String)>,
    pub shift_bind: usize,
    pub convert_case: Option<CaseMode>,
    pub sql: String,
}

/// The mathematical value of a builder.
#[verifier::ext_equal]
pub ghost struct QueryBuilderV {
    pub url_query: UrlQueryV,
    pub database: Database,
    pub map_columns: Seq<(Seq<char>, Seq<char>)>,
    pub shift_bind: nat,
    pub convert_case: Option<CaseMode>,
    pub sql: Seq<char>,
}

impl View for QueryBuilder {
    type V = QueryBuilderV;

    open spec fn view(&self) -> QueryBuilderV {
        QueryBuilderV {
            url_query: self.url_query@,
            database: self.database,
            map_columns: map_view(self.map_columns@),
            shift_bind: self.shift_bind as nat,
            convert_case: self.convert_case,
            sql: self.sql@,
        }
    }
}

impl QueryBuilder {
    /// Seeds the statement as `SELECT <columns> FROM <table>` over the given
    /// query model; dialect Postgres, no column map, no bind shift, and no
    /// case mode (so snake_case by default).
    pub fn new(table: &str, columns: Vec<&str>, url_query: UrlQuery) -> (r: QueryBuilder)
        ensures
            r@ == (QueryBuilderV {
                url_query: url_query@,
                database: Database::Postgres,
                map_columns: Seq::empty(),
                shift_bind: 0,
                convert_case: None,
                sql: select_sql(table@, cols_view(columns@)),
            }),
    {
        let sql = gen_sql_select(table, columns);
        let r = QueryBuilder {
            url_query,
            database: Database::Postgres,
            map_columns: Vec::new(),
            shift_bind: 0,
            convert_case: None,
            sql,
        };
        proof {
            assert(map_view(r.map_columns@) =~= Seq::<(Seq<char>, Seq<char>)>::empty());
        }
        r
    }

    /// Seeds the statement verbatim with a caller-supplied SELECT prefix,
    /// joins included; otherwise as `new`.
    pub fn from_str(sql: &str, url_query: UrlQuery) -> (r: QueryBuilder)
        ensures
            r@ == (QueryBuilderV {
                url_query: url_query@,
                database: Database::Postgres,
                map_columns: Seq::empty(),
                shift_bind: 0,
                convert_case: None,
                sql: sql@,
            }),
    {
        let r = QueryBuilder {
            url_query,
            database: Database::Postgres,
            map_columns: Vec::new(),
            shift_bind: 0,
            convert_case: None,
            sql: sql.to_owned(),
        };
        proof {
            assert(map_view(r.map_columns@) =~= Seq::<(Seq<char>, Seq<char>)>::empty());
        }
        r
    }

    /// Selects the dialect.
    pub fn set_database(self, database: Database) -> (r: QueryBuilder)
        ensures
            r@ == (QueryBuilderV { database, ..self@ }),
    {
        let mut this = self;
        this.database = database;
        this
    }

    /// Appends a space and then `sql` verbatim, for JOIN clauses and other
    /// raw additions.
    pub fn append(self, sql: &str) -> (r: QueryBuilder)
        ensures
            r@ == (QueryBuilderV { sql: self@.sql + " "@ + sql@, ..self@ }),
    {
        let mut this = self;
        this.sql.append(" ");
        this.sql.append(sql);
        this
    }

    /// Provides the column map used to qualify ambiguous fields as
    /// `<table>.<field>`.
    pub fn map_columns(self, map_columns: Vec<(String, String)>) -> (r: QueryBuilder)
        ensures
            r@ == (QueryBuilderV { map_columns: map_view(map_columns@), ..self@ }),
    {
        let mut this = self;
        this.map_columns = map_columns;
        this
    }

    /// Shifts the bind numbering by `x`, for statements whose seed text
    /// already contains placeholders: with a shift of 1 the first argument
    /// binds as `$2`.
    pub fn shift_bind(self, x: usize) -> (r: QueryBuilder)
        ensures
            r@ == (QueryBuilderV { shift_bind: x as nat, ..self@ }),
    {
        let mut this = self;
        this.shift_bind = x;
        this
    }

    /// Sets the case convention identifiers are converted to.
    pub fn convert_case(self, case: CaseMode) -> (r: QueryBuilder)
        ensures
            r@ == (QueryBuilderV { convert_case: Some(case), ..self@ }),
    {
        let mut this = self;
        this.convert_case = Some(case);
        this
    }
}

/// The first `n` filters rendered and joined with ` AND `, the filter at
/// 0-based index `i` at bind position `shift + i + 1`.
pub open spec fn preds_prefix(
    fs: Seq<crate::FilterV>,
    n: int,
    shift: nat,
    map: Seq<(Seq<char>, Seq<char>)>,
    case: Option<CaseMode>,
    db: Database,
) -> Seq<char>
    decreases n,
{
    if n <= 0 {
        Seq::empty()
    } else {
        let cur = filter_sql(
            fs[n - 1],
            (shift + n) as nat,
            spec_lookup(map, fs[n - 1].field),
            case,
            db,
        );
        if n == 1 {
            cur
        } else {
            preds_prefix(fs, n - 1, shift, map, case, db) + " AND "@ + cur
        }
    }
}

/// The WHERE clause: nothing when there are no filters, otherwise ` WHERE `
/// and the joined predicates.
pub open spec fn where_sql(
    fs: Seq<crate::FilterV>,
    shift: nat,
    map: Seq<(Seq<char>, Seq<char>)>,
    case: Option<CaseMode>,
    db: Database,
) -> Seq<char> {
    if fs.len() == 0 {
        Seq::empty()
    } else {
        " WHERE "@ + preds_prefix(fs, fs.len() as int, shift, map, case, db)
    }
}

/// A bare identifier as the builder emits it: qualified with its mapped
/// table when the map has one, and case-converted.
pub open spec fn qualified_field(
    field: Seq<char>,
    map: Seq<(Seq<char>, Seq<char>)>,
    case: Option<CaseMode>,
) -> Seq<char> {
    qualifier(spec_lookup(map, field)) + cased(effective_mode(case), field)
}

/// The GROUP BY clause: nothing when the model has no group field.
pub open spec fn group_sql(
    group: Option<Seq<char>>,
    map: Seq<(Seq<char>, Seq<char>)>,
    case: Option<CaseMode>,
) -> Seq<char> {
    match group {
        None => Seq::empty(),
        Some(g) => " GROUP BY "@ + qualified_field(g, map, case),
    }
}

/// The ORDER BY clause: nothing when the model has no sort directive.
pub open spec fn sort_sql(
    sort: Option<SortV>,
    map: Seq<(Seq<char>, Seq<char>)>,
    case: Option<CaseMode>,
) -> Seq<char> {
    match sort {
        None => Seq::empty(),
        Some(s) => " ORDER BY "@ + render_qualified(s, spec_lookup(map, s.field), case),
    }
}

/// The LIMIT/OFFSET tail: LIMIT only when the model's limit is present and
/// numeric, and OFFSET only after a successful LIMIT.
pub open spec fn tail_sql(q: UrlQueryV) -> Seq<char> {
    if limit_valid(q) {
        " LIMIT "@ + q.limit.unwrap() + if offset_valid(q) {
            " OFFSET "@ + q.offset.unwrap()
        } else {
            Seq::empty()
        }
    } else {
        Seq::empty()
    }
}

/// The bind arguments for a filter list: each filter's field and raw value,
/// in filter order.
pub open spec fn args_of(fs: Seq<crate::FilterV>) -> Seq<(Seq<char>, Seq<char>)> {
    Seq::new(fs.len(), |i: int| (fs[i].field, fs[i].value))
}

/// The full statement `build` produces from a builder: the seed text, then
/// WHERE, GROUP BY, ORDER BY, and the LIMIT/OFFSET tail, in that order.
pub open spec fn build_sql(b: QueryBuilderV) -> Seq<char> {
    b.sql + where_sql(b.url_query.filters, b.shift_bind, b.map_columns, b.convert_case, b.database)
        + group_sql(b.url_query.group, b.map_columns, b.convert_case) + sort_sql(
        b.url_query.sort,
        b.map_columns,
        b.convert_case,
    ) + tail_sql(b.url_query)
}

impl QueryBuilder {
    /// Appends the WHERE clause for the model's filters, if there are any,
    /// and returns the bind arguments in filter order: the argument at index
    /// `i` binds the placeholder at position `shift_bind + i + 1`.
    pub fn append_where(&mut self) -> (args: Vec<(String, String)>)
        requires
            old(self).shift_bind + old(self).url_query.filters@.len() < usize::MAX,
        ensures
            final(self)@ == (QueryBuilderV {
                sql: old(self)@.sql + where_sql(
                    old(self)@.url_query.filters,
                    old(self)@.shift_bind,
                    old(self)@.map_columns,
                    old(self)@.convert_case,
                    old(self)@.database,
                ),
                ..old(self)@
            }),
            args.deep_view() == args_of(old(self)@.url_query.filters),
    {
        let ghost pre = *self;
        let ghost fs = pre@.url_query.filters;
        let mut args: Vec<(String, String)> = Vec::new();
        let n = self.url_query.filters.len();
        if n == 0 {
            proof {
                assert(args.deep_view() =~= args_of(fs));
                assert(self@ =~= (QueryBuilderV {
                    sql: pre@.sql + where_sql(
                        fs,
                        pre@.shift_bind,
                        pre@.map_columns,
                        pre@.convert_case,
                        pre@.database,
                    ),
                    ..pre@
                }));
            }
            return args;
        }
        self.sql.append(" WHERE ");
        let mut i: usize = 0;
        while i < n
            invariant
                i <= n,
                n == self.url_query.filters@.len(),
                self.shift_bind + n < usize::MAX,
                self.url_query == pre.url_query,
                self.database == pre.database,
                self.map_columns == pre.map_columns,
                self.shift_bind == pre.shift_bind,
                self.convert_case == pre.convert_case,
                fs == pre@.url_query.filters,
                self.sql@ == pre@.sql + " WHERE "@ + preds_prefix(
                    fs,
                    i as int,
                    pre@.shift_bind,
                    pre@.map_columns,
                    pre@.convert_case,
                    pre@.database,
                ),
                args@.len() == i,
                forall|j: int|
                    0 <= j < i ==> args@[j].0@ == fs[j].field && args@[j].1@ == fs[j].value,
            decreases n - i,
        {
            if i > 0 {
                self.sql.append(" AND ");
            }
            let pos = i + self.shift_bind + 1;
            let table = lookup_table(&self.map_columns, self.url_query.filters[i].field.as_str());
            let pred = self.url_query.filters[i].to_sql_map_table(
                pos,
                table,
                self.convert_case,
                &self.database,
            );
            self.sql.append(pred.as_str());
            let field = self.url_query.filters[i].field.clone();
            let value = self.url_query.filters[i].value.clone();
            args.push((field, value));
            i += 1;
            proof {
                assert(fs[i - 1] == self.url_query.filters@[i - 1]@);
                assert(self.sql@ =~= pre@.sql + " WHERE "@ + preds_prefix(
                    fs,
                    i as int,
                    pre@.shift_bind,
                    pre@.map_columns,
                    pre@.convert_case,
                    pre@.database,
                ));
            }
        }
        proof {
            assert(args.deep_view() =~= args_of(fs));
            assert(self@ =~= (QueryBuilderV {
                sql: pre@.sql + where_sql(
                    fs,
                    pre@.shift_bind,
                    pre@.map_columns,
                    pre@.convert_case,
                    pre@.database,
                ),
                ..pre@
            }));
        }
        args
    }

    /// Appends the GROUP BY clause for the model's group field, if there is
    /// one, qualified through the column map and case-converted.
    pub fn append_group(&mut self)
        ensures
            final(self)@ == (QueryBuilderV {
                sql: old(self)@.sql + group_sql(
                    old(self)@.url_query.group,
                    old(self)@.map_columns,
                    old(self)@.convert_case,
                ),
                ..old(self)@
            }),
    {
        let ghost pre = *self;
        let group = match &self.url_query.group {
            Some(g) => g.clone(),
            None => {
                proof {
                    assert(self@ =~= (QueryBuilderV {
                        sql: pre@.sql + group_sql(
                            pre@.url_query.group,
                            pre@.map_columns,
                            pre@.convert_case,
                        ),
                        ..pre@
                    }));
                }
                return ;
            },
        };
        self.sql.append(" GROUP BY ");
        let table = lookup_table(&self.map_columns, group.as_str());
        if let Some(t) = table {
            self.sql.append(t.as_str());
            self.sql.append(".");
        }
        let field = apply_case(group.as_str(), &self.convert_case);
        self.sql.append(field.as_str());
        proof {
            assert(self@ =~= (QueryBuilderV {
                sql: pre@.sql + group_sql(
                    pre@.url_query.group,
                    pre@.map_columns,
                    pre@.convert_case,
                ),
                ..pre@
            }));
        }
    }

    /// Appends the ORDER BY clause for the model's sort directive, if there
    /// is one, its field qualified through the column map.
    pub fn append_sort(&mut self)
        ensures
            final(self)@ == (QueryBuilderV {
                sql: old(self)@.sql + sort_sql(
                    old(self)@.url_query.sort,
                    old(self)@.map_columns,
                    old(self)@.convert_case,
                ),
                ..old(self)@
            }),
    {
        let ghost pre = *self;
        if self.url_query.sort.is_none() {
            proof {
                assert(self@ =~= (QueryBuilderV {
                    sql: pre@.sql + sort_sql(
                        pre@.url_query.sort,
                        pre@.map_columns,
                        pre@.convert_case,
                    ),
                    ..pre@
                }));
            }
            return ;
        }
        self.sql.append(" ORDER BY ");
        let rendered = {
            let sort = self.url_query.sort.as_ref().unwrap();
            let table = lookup_table(&self.map_columns, sort.field.as_str());
            sort.to_sql_map_table(table, self.convert_case)
        };
        self.sql.append(rendered.as_str());
        proof {
            assert(self@ =~= (QueryBuilderV {
                sql: pre@.sql + sort_sql(pre@.url_query.sort, pre@.map_columns, pre@.convert_case),
                ..pre@
            }));
        }
    }

    /// Consumes the builder: appends WHERE, GROUP BY, ORDER BY, then LIMIT
    /// when the model's limit is present and numeric, then OFFSET only when
    /// LIMIT was appended and the offset is present and numeric; an absent or
    /// invalid limit or offset omits its clause silently. Returns the
    /// statement and the bind arguments, one per filter, in filter order.
    pub fn build(self) -> (r: (String, Vec<(String, String)>))
        requires
            self.shift_bind + self.url_query.filters@.len() < usize::MAX,
        ensures
            r.0@ == build_sql(self@),
            r.1.deep_view() == args_of(self@.url_query.filters),
    {
        let ghost pre = self@;
        let mut this = self;
        let args = this.append_where();
        this.append_group();
        this.append_sort();
        match this.url_query.check_limit() {
            Ok(limit) => {
                append_limit(&mut this.sql, limit);
                match this.url_query.check_offset() {
                    Ok(offset) => {
                        append_offset(&mut this.sql, offset);
                    },
                    Err(_) => {},
                }
            },
            Err(_) => {},
        }
        proof {
            assert(this.sql@ =~= build_sql(pre));
        }
        (this.sql, args)
    }
}

/// A rendered predicate ends in its dialect's placeholder: for Postgres the
/// filter bound at position `pos` carries `$<pos>` (so with `shift_bind = s`
/// the Nth filter, 1-based, carries `$<N + s>`), and for MySQL every filter
/// carries `?`, whatever its position.
pub proof fn lemma_filter_placeholder_suffix(
    f: crate::FilterV,
    pos: nat,
    table: Option<Seq<char>>,
    case: Option<CaseMode>,
)
    ensures
        ({
            let r = filter_sql(f, pos, table, case, Database::Postgres);
            let p = "$"@ + dec_rep(pos);
            r.len() >= p.len() && r.subrange(r.len() - p.len(), r.len() as int) == p
        }),
        ({
            let r = filter_sql(f, pos, table, case, Database::MySQL);
            let p = "?"@;
            r.len() >= p.len() && r.subrange(r.len() - p.len(), r.len() as int) == p
        }),
{
    let rp = filter_sql(f, pos, table, case, Database::Postgres);
    let pp = "$"@ + dec_rep(pos);
    assert(rp.subrange(rp.len() - pp.len(), rp.len() as int) =~= pp);
    let rm = filter_sql(f, pos, table, case, Database::MySQL);
    let pm = "?"@;
    assert(rm.subrange(rm.len() - pm.len(), rm.len() as int) =~= pm);
}

/// In the WHERE clause the filter at 0-based index `n` is rendered at bind
/// position `shift + n + 1`: extending the joined predicates from `n` to
/// `n + 1` filters appends exactly that filter's fragment.
pub proof fn lemma_nth_filter_position(
    fs: Seq<crate::FilterV>,
    n: int,
    shift: nat,
    map: Seq<(Seq<char>, Seq<char>)>,
    case: Option<CaseMode>,
    db: Database,
)
    requires
        0 <= n < fs.len(),
    ensures
        n == 0 ==> preds_prefix(fs, 1, shift, map, case, db) == filter_sql(
            fs[0],
            shift + 1,
            spec_lookup(map, fs[0].field),
            case,
            db,
        ),
        n > 0 ==> preds_prefix(fs, n + 1, shift, map, case, db) == preds_prefix(
            fs,
            n,
            shift,
            map,
            case,
            db,
        ) + " AND "@ + filter_sql(
            fs[n],
            (shift + n + 1) as nat,
            spec_lookup(map, fs[n].field),
            case,
            db,
        ),
{
}

/// Clause order: whatever parts are present or absent, the built statement
/// is always the seed text, then the WHERE clause, then GROUP BY, then
/// ORDER BY, then LIMIT/OFFSET — never in any other order.
pub proof fn lemma_clause_order(b: QueryBuilderV)
    ensures
        build_sql(b) == b.sql + where_sql(
            b.url_query.filters,
            b.shift_bind,
            b.map_columns,
            b.convert_case,
            b.database,
        ) + group_sql(b.url_query.group, b.map_columns, b.convert_case) + sort_sql(
            b.url_query.sort,
            b.map_columns,
            b.convert_case,
        ) + tail_sql(b.url_query),
{
}

/// OFFSET is never emitted without a preceding successful LIMIT: with the
/// limit absent or invalid the tail is empty — however valid the offset —
/// and with a valid limit the offset appears exactly when it is itself
/// present and numeric.
pub proof fn lemma_offset_needs_limit(q: UrlQueryV)
    ensures
        !limit_valid(q) ==> tail_sql(q) == Seq::<char>::empty(),
        limit_valid(q) && !offset_valid(q) ==> tail_sql(q) == " LIMIT "@ + q.limit.unwrap(),
        limit_valid(q) && offset_valid(q) ==> tail_sql(q) == " LIMIT "@ + q.limit.unwrap()
            + " OFFSET "@ + q.offset.unwrap(),
{
    if limit_valid(q) {
        if offset_valid(q) {
            assert(tail_sql(q) =~= " LIMIT "@ + q.limit.unwrap() + " OFFSET "@
                + q.offset.unwrap());
        } else {
            assert(tail_sql(q) =~= " LIMIT "@ + q.limit.unwrap());
        }
    }
}

/// The bind-argument list always has exactly one entry per filter of the
/// model, whatever the group, sort, limit and offset hold.
pub proof fn lemma_args_per_filter(fs: Seq<crate::FilterV>)
    ensures
        args_of(fs).len() == fs.len(),
        forall|i: int|
            0 <= i < fs.len() ==> args_of(fs)[i] == (fs[i].field, fs[i].value),
{
}

/// Building is deterministic: two builders over equal configurations and
/// equal query models produce the same statement and the same arguments.
pub proof fn lemma_build_deterministic(a: QueryBuilderV, b: QueryBuilderV)
    requires
        a == b,
    ensures
        build_sql(a) == build_sql(b),
        args_of(a.url_query.filters) == args_of(b.url_query.filters),
{
}

} // verus!
