//! Building blocks of the list queries: numbered placeholders, equality
//! conditions, joining, and the page window of a paginated query.
use vstd::prelude::*;

use crate::text::{decimal, decimal_string, texts};

verus! {

/// A value bound to a numbered placeholder of a query, in placeholder order.
#[derive(Debug, Clone)]
pub enum SqlParam {
    /// A UUID, as its 128-bit number.
    Uuid(u128),
    /// A text value.
    Text(String),
    /// A 32-bit integer.
    Int(i32),
    /// An instant, in microseconds since the Unix epoch.
    Instant(i64),
    /// A text value that may be SQL `NULL`.
    OptText(Option<String>),
    /// A boolean that may be SQL `NULL`.
    OptBool(Option<bool>),
}

/// A paginated list query: the statement that counts the matching rows, the
/// statement that fetches one page of them, the values of the filter
/// placeholders (bound to both statements, in order), and the values of the
/// two placeholders that follow them in the page statement.
#[derive(Debug, Clone)]
pub struct PageQuery {
    pub count_sql: String,
    pub list_sql: String,
    pub filter_params: Vec<SqlParam>,
    pub limit: i32,
    pub offset: i32,
}

/// What a parameter holds, as plain values.
pub enum ParamView {
    Uuid(u128),
    Text(Seq<char>),
    Int(i32),
    Instant(i64),
    OptText(Option<Seq<char>>),
    OptBool(Option<bool>),
}

impl View for SqlParam {
    type V = ParamView;

    open spec fn view(&self) -> ParamView {
        match self {
            SqlParam::Uuid(u) => ParamView::Uuid(*u),
            SqlParam::Text(t) => ParamView::Text(t@),
            SqlParam::Int(i) => ParamView::Int(*i),
            SqlParam::Instant(t) => ParamView::Instant(*t),
            SqlParam::OptText(t) => ParamView::OptText(
                match t {
                    Some(x) => Some(x@),
                    None => None,
                },
            ),
            SqlParam::OptBool(b) => ParamView::OptBool(*b),
        }
    }
}

/// What each parameter holds.
pub open spec fn param_views(v: Seq<SqlParam>) -> Seq<ParamView> {
    v.map_values(|p: SqlParam| p@)
}

/// A statement and the values of its placeholders, in order.
pub open spec fn statement_view(s: (String, Vec<SqlParam>)) -> (Seq<char>, Seq<ParamView>) {
    (s.0@, param_views(s.1@))
}

/// What each statement of a sequence holds.
pub open spec fn statement_views(v: Seq<(String, Vec<SqlParam>)>) -> Seq<
    (Seq<char>, Seq<ParamView>),
> {
    v.map_values(|s: (String, Vec<SqlParam>)| statement_view(s))
}

/// `$i`
pub open spec fn placeholder(i: int) -> Seq<char> {
    "$"@ + decimal(i)
}

/// `column = $i`
pub open spec fn eq_condition(column: Seq<char>, i: int) -> Seq<char> {
    column + " = "@ + placeholder(i)
}

/// One equality condition per column, numbered from `first` on.
pub open spec fn conditions(columns: Seq<Seq<char>>, first: int) -> Seq<Seq<char>> {
    Seq::new(columns.len(), |k: int| eq_condition(columns[k], first + k))
}

/// The parts joined by the separator, as `join` on a slice of strings does.
pub open spec fn join(parts: Seq<Seq<char>>, sep: Seq<char>) -> Seq<char>
    decreases parts.len(),
{
    if parts.len() == 0 {
        Seq::empty()
    } else if parts.len() == 1 {
        parts[0]
    } else {
        join(parts.drop_last(), sep) + sep + parts.last()
    }
}

/// The characters of each string slice.
pub open spec fn strs(v: Seq<&str>) -> Seq<Seq<char>> {
    v.map_values(|s: &str| s@)
}

/// The rows a page skips: `(page_num - 1) * page_size`.
pub open spec fn page_offset(page_num: int, page_size: int) -> int {
    (page_num - 1) * page_size
}

/// The page window fits the 32-bit integers that the database takes.
pub open spec fn page_window_fits(page_num: int, page_size: int) -> bool {
    i32::MIN <= page_offset(page_num, page_size) <= i32::MAX
}

/// `$i`, for a placeholder number.
pub fn placeholder_text(i: i64) -> (r: String)
    ensures
        r@ == placeholder(i as int),
{
    let digits = decimal_string(i);
    let mut s = String::from_str("$");
    s.append(digits.as_str());
    s
}

/// One equality condition per column, numbered from `first` on.
pub fn equality_conditions(columns: &Vec<&str>, first: i64) -> (r: Vec<String>)
    requires
        1 <= first,
        first + columns.len() <= i64::MAX,
    ensures
        texts(r@) == conditions(strs(columns@), first as int),
{
    let mut r: Vec<String> = Vec::new();
    let n = columns.len();
    let mut k: usize = 0;
    while k < n
        invariant
            n == columns.len(),
            k <= n,
            1 <= first,
            first + n <= i64::MAX,
            r@.len() == k,
            forall|j: int|
                0 <= j < k ==> #[trigger] r@[j]@ == eq_condition(columns@[j]@, first + j),
        decreases n - k,
    {
        let mut c = String::from_str(columns[k]);
        c.append(" = ");
        let p = placeholder_text(first + k as i64);
        c.append(p.as_str());
        assert(c@ == eq_condition(columns@[k as int]@, first + k));
        r.push(c);
        k = k + 1;
    }
    assert(texts(r@) =~= conditions(strs(columns@), first as int));
    r
}

/// The parts joined by the separator.
pub fn join_with(parts: &Vec<String>, sep: &str) -> (r: String)
    ensures
        r@ == join(texts(parts@), sep@),
{
    let mut r = String::new();
    let n = parts.len();
    let mut k: usize = 0;
    while k < n
        invariant
            n == parts.len(),
            k <= n,
            r@ == join(texts(parts@).take(k as int), sep@),
        decreases n - k,
    {
        let ghost before = texts(parts@).take(k as int);
        let ghost after = texts(parts@).take(k + 1);
        assert(after.drop_last() =~= before);
        assert(after.last() == parts@[k as int]@);
        if k > 0 {
            r.append(sep);
        }
        r.append(parts[k].as_str());
        k = k + 1;
    }
    assert(texts(parts@).take(n as int) =~= texts(parts@));
    r
}

/// The conditions on the columns, numbered from 1, joined by `AND` after the
/// base condition. Placeholder numbers are 64-bit integers, so there are
/// fewer columns than the largest of them.
pub fn conjunction(base: &str, columns: &Vec<&str>) -> (r: String)
    requires
        columns.len() < i64::MAX,
    ensures
        r@ == join(seq![base@] + conditions(strs(columns@), 1), " AND "@),
{
    let conds = equality_conditions(columns, 1);
    let mut parts: Vec<String> = Vec::new();
    parts.push(String::from_str(base));
    let mut k: usize = 0;
    while k < conds.len()
        invariant
            parts@.len() == k + 1,
            k <= conds@.len(),
            texts(parts@) == seq![base@] + texts(conds@).take(k as int),
        decreases conds.len() - k,
    {
        let ghost old_parts = parts@;
        let c = conds[k].clone();
        assert(c@ == conds@[k as int]@);
        parts.push(c);
        assert(parts@ == old_parts.push(c));
        assert(texts(parts@) =~= texts(old_parts).push(c@));
        assert(texts(conds@).take(k + 1) =~= texts(conds@).take(k as int).push(conds@[k as int]@));
        assert(texts(parts@) =~= seq![base@] + texts(conds@).take(k + 1));
        k = k + 1;
    }
    assert(texts(conds@).take(conds@.len() as int) =~= texts(conds@));
    join_with(&parts, " AND ")
}

/// The values of a page window: the page size and the rows it skips.
pub fn page_window(page_num: i32, page_size: i32) -> (r: (i32, i32))
    requires
        page_window_fits(page_num as int, page_size as int),
        page_num > i32::MIN,
    ensures
        r.0 == page_size,
        r.1 == page_offset(page_num as int, page_size as int),
{
    (page_size, (page_num - 1) * page_size)
}

/// Pages follow one another: the first page starts at the first row, and
/// each page starts where the one before it ends.
pub proof fn lemma_pages_are_consecutive(page_num: int, page_size: int)
    ensures
        page_offset(1, page_size) == 0,
        page_offset(page_num + 1, page_size) == page_offset(page_num, page_size) + page_size,
{
    assert(page_num * page_size == (page_num - 1) * page_size + page_size) by (nonlinear_arith);
}

} // verus!
