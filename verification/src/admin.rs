//! Administration: user listing and roles, and the read-only stats dashboard
//! (saved charts and ad-hoc SELECT statements).
use vstd::prelude::*;
use vstd::string::*;
use crate::json::JsonValue;
use crate::status::Rejection;
use crate::text::{chars_contain, chars_of, concat, str_eq, string_from_chars, trim, trim_seq};

verus! {

/// Page size of the user listing unless set.
pub fn default_limit() -> (r: i64)
    ensures
        r == 50,
{
    50
}

/// The page size actually used: the requested one, clamped to 1..=500.
pub fn clamp_limit(limit: i64) -> (r: i64)
    ensures
        r == if limit < 1 {
            1
        } else if limit > 500 {
            500
        } else {
            limit
        },
{
    if limit < 1 {
        1
    } else if limit > 500 {
        500
    } else {
        limit
    }
}

/// The `ILIKE` pattern for a search term: the term anywhere.
pub fn search_pattern(term: &str) -> (r: String)
    ensures
        r@ == "%"@ + term@ + "%"@,
{
    let a = concat("%", term);
    concat(a.as_str(), "%")
}

/// A role may only be set to `user` or `admin`.
pub fn check_role(role: &str) -> (r: Result<(), Rejection>)
    ensures
        r is Ok <==> (role@ == "user"@ || role@ == "admin"@),
        r is Err ==> r == Err::<(), Rejection>(Rejection::BadRequest),
{
    if str_eq(role, "user") || str_eq(role, "admin") {
        Ok(())
    } else {
        Err(Rejection::BadRequest)
    }
}

/// The ledger reason of an administrator's grant: the given one, else
/// `admin_grant`.
pub fn grant_reason(reason: Option<&str>) -> (r: &str)
    ensures
        match reason {
            Some(s) => r@ == s@,
            None => r@ == "admin_grant"@,
        },
{
    match reason {
        Some(s) => s,
        None => "admin_grant",
    }
}

/// Most rows any dashboard query returns.
pub const ROW_CAP: i64 = 5000;

/// Chart type of a saved chart unless set.
pub fn default_chart_type() -> (r: String)
    ensures
        r@ == "table"@,
{
    String::from_str("table")
}

/// Display settings of a saved chart unless set: `{}`.
pub fn default_config() -> (r: JsonValue)
    ensures
        r matches JsonValue::Object(e) && e@.len() == 0,
{
    JsonValue::Object(Vec::new())
}

/// The chart types a saved chart may have.
pub open spec fn spec_chart_type(s: Seq<char>) -> bool {
    s == "table"@ || s == "line"@ || s == "bar"@ || s == "pie"@ || s == "stat"@
}

/// Why a dashboard request is refused; each carries the text shown to the
/// administrator.
#[derive(PartialEq, Eq, Structural, Clone, Copy, Debug)]
pub enum DashboardProblem {
    TitleRequired,
    SqlRequired,
    BadChartType,
    SqlEmpty,
    MultipleStatements,
    PoolUnavailable,
    ChartNotFound,
    NotDeletable,
}

impl DashboardProblem {
    pub fn status_code(&self) -> (r: u16)
        ensures
            r == match *self {
                DashboardProblem::PoolUnavailable => 503u16,
                DashboardProblem::ChartNotFound => 404u16,
                DashboardProblem::NotDeletable => 409u16,
                _ => 400u16,
            },
    {
        match self {
            DashboardProblem::PoolUnavailable => 503,
            DashboardProblem::ChartNotFound => 404,
            DashboardProblem::NotDeletable => 409,
            _ => 400,
        }
    }

    pub fn message(&self) -> (r: &'static str)
        ensures
            *self == DashboardProblem::TitleRequired ==> r@ == "title is required"@,
            *self == DashboardProblem::SqlRequired ==> r@ == "sql is required"@,
            *self == DashboardProblem::BadChartType ==> r@ == "chart_type must be one of [\"table\", \"line\", \"bar\", \"pie\", \"stat\"]"@,
            *self == DashboardProblem::SqlEmpty ==> r@ == "sql is empty"@,
            *self == DashboardProblem::MultipleStatements ==> r@ == "only a single SELECT statement is allowed"@,
            *self == DashboardProblem::PoolUnavailable ==> r@ == "stats dashboard unavailable (read-only pool not connected)"@,
            *self == DashboardProblem::ChartNotFound ==> r@ == "chart not found"@,
            *self == DashboardProblem::NotDeletable ==> r@ == "chart not found or is a built-in (cannot delete)"@,
    {
        match self {
            DashboardProblem::TitleRequired => "title is required",
            DashboardProblem::SqlRequired => "sql is required",
            DashboardProblem::BadChartType => "chart_type must be one of [\"table\", \"line\", \"bar\", \"pie\", \"stat\"]",
            DashboardProblem::SqlEmpty => "sql is empty",
            DashboardProblem::MultipleStatements => "only a single SELECT statement is allowed",
            DashboardProblem::PoolUnavailable => "stats dashboard unavailable (read-only pool not connected)",
            DashboardProblem::ChartNotFound => "chart not found",
            DashboardProblem::NotDeletable => "chart not found or is a built-in (cannot delete)",
        }
    }
}

/// A new chart needs a title and SQL that are not blank and a known type.
pub fn check_new_chart(title: &str, sql: &str, chart_type: &str) -> (r: Result<(), DashboardProblem>)
    ensures
        trim_seq(title@).len() == 0 ==> r == Err::<(), DashboardProblem>(DashboardProblem::TitleRequired),
        trim_seq(title@).len() > 0 && trim_seq(sql@).len() == 0 ==> r == Err::<(), DashboardProblem>(DashboardProblem::SqlRequired),
        trim_seq(title@).len() > 0 && trim_seq(sql@).len() > 0 && !spec_chart_type(chart_type@)
            ==> r == Err::<(), DashboardProblem>(DashboardProblem::BadChartType),
        r is Ok <==> trim_seq(title@).len() > 0 && trim_seq(sql@).len() > 0 && spec_chart_type(chart_type@),
{
    if trim(title).is_empty() {
        return Err(DashboardProblem::TitleRequired);
    }
    if trim(sql).is_empty() {
        return Err(DashboardProblem::SqlRequired);
    }
    if !(str_eq(chart_type, "table") || str_eq(chart_type, "line") || str_eq(chart_type, "bar")
        || str_eq(chart_type, "pie") || str_eq(chart_type, "stat")) {
        return Err(DashboardProblem::BadChartType);
    }
    Ok(())
}

/// A chart delete that touched nothing: no such chart, or a built-in one.
pub fn chart_deleted(rows_affected: u64) -> (r: Result<(), DashboardProblem>)
    ensures
        rows_affected == 0 ==> r == Err::<(), DashboardProblem>(DashboardProblem::NotDeletable),
        rows_affected > 0 ==> r is Ok,
{
    if rows_affected == 0 {
        Err(DashboardProblem::NotDeletable)
    } else {
        Ok(())
    }
}

/// `s` without its trailing `c` characters.
pub open spec fn strip_trailing(s: Seq<char>, c: char) -> Seq<char>
    decreases s.len(),
{
    if s.len() > 0 && s.last() == c {
        strip_trailing(s.drop_last(), c)
    } else {
        s
    }
}

/// The statement an ad-hoc SELECT reduces to: trimmed, trailing semicolons
/// dropped, trimmed again.
pub open spec fn statement_of(raw: Seq<char>) -> Seq<char> {
    trim_seq(strip_trailing(trim_seq(raw), ';'))
}

/// The query actually run for a statement: it as a subquery whose rows come
/// back as JSON, at most `ROW_CAP` of them.
pub open spec fn wrapped_query(stmt: Seq<char>) -> Seq<char> {
    "SELECT row_to_json(t) AS row FROM ( "@ + stmt + " ) AS t LIMIT 5000"@
}

fn strip_trailing_chars(v: &Vec<char>, c: char) -> (r: Vec<char>)
    ensures
        r@ == strip_trailing(v@, c),
{
    let mut n: usize = v.len();
    assert(v@.subrange(0, n as int) == v@);
    while n > 0 && v[n - 1] == c
        invariant
            0 <= n <= v@.len(),
            strip_trailing(v@, c) == strip_trailing(v@.subrange(0, n as int), c),
        decreases n,
    {
        assert(v@.subrange(0, n as int).drop_last() == v@.subrange(0, n - 1));
        n = n - 1;
    }
    let mut out: Vec<char> = Vec::new();
    let mut i: usize = 0;
    while i < n
        invariant
            0 <= i <= n <= v@.len(),
            out@ == v@.subrange(0, i as int),
            strip_trailing(v@, c) == v@.subrange(0, n as int),
        decreases n - i,
    {
        out.push(v[i]);
        i = i + 1;
        assert(out@ == v@.subrange(0, i as int));
    }
    out
}

/// Prepares an ad-hoc SELECT: the read-only pool must be connected (else
/// 503), the statement must not be empty and must hold no further `;`
/// (else 400). Gives the query to run.
pub fn prepare_select(raw_sql: &str, pool_available: bool) -> (r: Result<String, DashboardProblem>)
    ensures
        !pool_available ==> r == Err::<String, DashboardProblem>(DashboardProblem::PoolUnavailable),
        pool_available && statement_of(raw_sql@).len() == 0 ==> r == Err::<String, DashboardProblem>(DashboardProblem::SqlEmpty),
        pool_available && statement_of(raw_sql@).len() > 0 && statement_of(raw_sql@).contains(';')
            ==> r == Err::<String, DashboardProblem>(DashboardProblem::MultipleStatements),
        pool_available && statement_of(raw_sql@).len() > 0 && !statement_of(raw_sql@).contains(';')
            ==> (r matches Ok(q) && q@ == wrapped_query(statement_of(raw_sql@))),
{
    if !pool_available {
        return Err(DashboardProblem::PoolUnavailable);
    }
    let first = chars_of(trim(raw_sql));
    let stripped = strip_trailing_chars(&first, ';');
    let s = string_from_chars(stripped.as_slice());
    let stmt = trim(s.as_str());
    if stmt.is_empty() {
        return Err(DashboardProblem::SqlEmpty);
    }
    let cs = chars_of(stmt);
    if chars_contain(cs.as_slice(), ';') {
        return Err(DashboardProblem::MultipleStatements);
    }
    let a = concat("SELECT row_to_json(t) AS row FROM ( ", stmt);
    Ok(concat(a.as_str(), " ) AS t LIMIT 5000"))
}

/// The column names of a result: the member names of its first row, when
/// that row is an object; none otherwise.
pub fn result_columns(rows: &Vec<JsonValue>) -> (r: Vec<String>)
    ensures
        rows@.len() > 0 && rows@[0] is Object ==> (rows@[0] matches JsonValue::Object(entries)
            && r@.len() == entries@.len()
            && forall|i: int| 0 <= i < entries@.len() ==> #[trigger] r@[i] == entries@[i].key),
        !(rows@.len() > 0 && rows@[0] is Object) ==> r@.len() == 0,
{
    let mut cols: Vec<String> = Vec::new();
    if rows.len() == 0 {
        return cols;
    }
    match &rows[0] {
        JsonValue::Object(entries) => {
            let mut i: usize = 0;
            while i < entries.len()
                invariant
                    0 <= i <= entries@.len(),
                    cols@.len() == i,
                    forall|k: int| 0 <= k < i ==> #[trigger] cols@[k] == entries@[k].key,
                decreases entries@.len() - i,
            {
                cols.push(entries[i].key.clone());
                i = i + 1;
            }
            cols
        },
        _ => cols,
    }
}

pub struct ListUsersQuery {
    pub limit: i64,
    pub search: Option<String>,
}

pub struct UpdateRoleRequest {
    pub role: String,
}

pub struct GrantRequest {
    pub currency: String,
    pub amount: i64,
    pub reason: Option<String>,
}

impl GrantRequest {
    /// The ledger reason of this grant: the given one, else `admin_grant`.
    pub fn reason(&self) -> (r: &str)
        ensures
            match self.reason {
                Some(s) => r@ == s@,
                None => r@ == "admin_grant"@,
            },
    {
        let given = match &self.reason {
            Some(s) => Some(s.as_str()),
            None => None,
        };
        grant_reason(given)
    }
}

pub struct QueryReq {
    pub sql: String,
}

} // verus!
