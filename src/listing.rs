//! Validation of the task listing's query: pagination bounds and the
//! status allow-list.
use vstd::prelude::*;
use crate::error::{AppError, AppResult};
use crate::model::Task;
use crate::text::{
    chars_of, kept_tokens, lemma_pieces_nonempty, list_items, pieces, spells, trim, trim_bounds,
};

verus! {

/// The largest page size a listing accepts.
pub const MAX_LIMIT: u64 = 100;

pub fn default_page() -> (r: u64)
    ensures
        r == 1,
{
    1
}

pub fn default_limit() -> (r: u64)
    ensures
        r == 25,
{
    25
}

/// Whether `s` is a non-empty run of ASCII digits.
pub open spec fn is_decimal(s: Seq<char>) -> bool {
    s.len() > 0 && forall|i: int| 0 <= i < s.len() ==> 48 <= (#[trigger] s[i] as u32) <= 57
}

/// The number that the digits `s` write in base ten.
pub open spec fn decimal_value(s: Seq<char>) -> int
    decreases s.len(),
{
    if s.len() == 0 {
        0
    } else {
        decimal_value(s.drop_last()) * 10 + (s.last() as u32 - 48)
    }
}

proof fn lemma_decimal_nonneg(s: Seq<char>)
    requires
        forall|i: int| 0 <= i < s.len() ==> 48 <= (#[trigger] s[i] as u32) <= 57,
    ensures
        decimal_value(s) >= 0,
    decreases s.len(),
{
    if s.len() > 0 {
        lemma_decimal_nonneg(s.drop_last());
    }
}

/// The number a query parameter writes in decimal, if it is a run of digits
/// whose value fits in a `u64`.
pub fn parse_count(text: &str) -> (r: Option<u64>)
    ensures
        r is Some <==> is_decimal(text@) && decimal_value(text@) <= u64::MAX,
        r matches Some(n) ==> n == decimal_value(text@),
{
    let cs = chars_of(text);
    let n = cs.len();
    if n == 0 {
        return None;
    }
    let mut acc: u64 = 0;
    let mut i: usize = 0;
    while i < n
        invariant
            cs@ == text@,
            n == text@.len(),
            0 < n,
            i <= n,
            forall|j: int| 0 <= j < i ==> 48 <= (#[trigger] text@[j] as u32) <= 57,
            acc == decimal_value(text@.take(i as int)),
        decreases n - i,
    {
        let ghost prefix = text@.take(i as int);
        assert(text@.take(i + 1).drop_last() =~= prefix);
        let d = cs[i] as u32;
        if d < 48 || d > 57 {
            return None;
        }
        let digit = (d - 48) as u64;
        if acc > (u64::MAX - digit) / 10 {
            proof {
                assert(decimal_value(text@.take(i + 1)) > u64::MAX);
                self::lemma_decimal_grows(text@, i + 1);
            }
            return None;
        }
        acc = acc * 10 + digit;
        i = i + 1;
    }
    assert(text@.take(n as int) =~= text@);
    Some(acc)
}

proof fn lemma_decimal_grows(s: Seq<char>, k: int)
    requires
        0 < k <= s.len(),
        forall|i: int| 0 <= i < k ==> 48 <= (#[trigger] s[i] as u32) <= 57,
    ensures
        is_decimal(s) ==> decimal_value(s) >= decimal_value(s.take(k)),
    decreases s.len() - k,
{
    if k < s.len() && is_decimal(s) {
        lemma_decimal_grows(s, k + 1);
        assert(s.take(k + 1).drop_last() =~= s.take(k));
        lemma_decimal_nonneg(s.take(k));
        assert(forall|i: int| 0 <= i < k ==> s.take(k)[i] == s[i]);
    } else if k == s.len() {
        assert(s.take(k) =~= s);
    }
}

/// The value of the first parameter at or after `i` named `key`.
pub open spec fn param_from(ps: Seq<(String, String)>, key: Seq<char>, i: int) -> Option<String>
    decreases ps.len() - i,
{
    if i < 0 || i >= ps.len() {
        None
    } else if ps[i].0@ == key {
        Some(ps[i].1)
    } else {
        param_from(ps, key, i + 1)
    }
}

/// The value of the first parameter named `key`, if any.
pub open spec fn param_value(ps: Seq<(String, String)>, key: Seq<char>) -> Option<String> {
    param_from(ps, key, 0)
}

pub fn find_param<'a>(params: &'a Vec<(String, String)>, key: &str) -> (r: Option<&'a String>)
    ensures
        match r {
            None => param_value(params@, key@) is None,
            Some(v) => param_value(params@, key@) == Some(*v),
        },
{
    let wanted = key.to_string();
    let mut i: usize = 0;
    while i < params.len()
        invariant
            wanted@ == key@,
            i <= params@.len(),
            param_value(params@, key@) == param_from(params@, key@, i as int),
        decreases params@.len() - i,
    {
        if params[i].0 == wanted {
            return Some(&params[i].1);
        }
        i = i + 1;
    }
    None
}

pub open spec fn param_message(key: Seq<char>) -> Seq<char> {
    "invalid query parameter '"@ + key + "'"@
}

/// A count parameter: `default` when absent, else the number its value
/// writes in decimal.
pub open spec fn count_param(ps: Seq<(String, String)>, key: Seq<char>, default: u64) -> Result<
    u64,
    Seq<char>,
> {
    match param_value(ps, key) {
        None => Ok(default),
        Some(v) => if is_decimal(v@) && decimal_value(v@) <= u64::MAX {
            Ok(decimal_value(v@) as u64)
        } else {
            Err(param_message(key))
        },
    }
}

fn count_field(params: &Vec<(String, String)>, key: &str, default: u64) -> (r: AppResult<u64>)
    ensures
        match (r, count_param(params@, key@, default)) {
            (Ok(x), Ok(y)) => x == y,
            (Err(AppError::BadRequest(m)), Err(n)) => m@ == n,
            _ => false,
        },
{
    match find_param(params, key) {
        None => Ok(default),
        Some(v) => match parse_count(v.as_str()) {
            Some(n) => Ok(n),
            None => {
                let mut m = "invalid query parameter '".to_string();
                m.append(key);
                m.append("'");
                proof {
                    assert(m@ =~= param_message(key@));
                }
                Err(AppError::BadRequest(m))
            },
        },
    }
}

/// Query parameters of a task listing: `?page=2&limit=10&status=todo,in_progress`.
#[derive(Debug)]
pub struct TaskQuery {
    pub page: u64,
    pub limit: u64,
    pub status: Option<String>,
}

/// The statuses a task can be in.
pub open spec fn is_status(t: Seq<char>) -> bool {
    t == "todo"@ || t == "in_progress"@ || t == "done"@
}

pub open spec fn invalid_status_message(t: Seq<char>) -> Seq<char> {
    "invalid status '"@ + t + "': must be one of todo, in_progress, done"@
}

pub open spec fn strings_view(v: Seq<String>) -> Seq<Seq<char>> {
    v.map_values(|x: String| x@)
}

/// What a status filter `status` stands for: no filter when it is absent or
/// lists nothing; the listed statuses, in order, when all are valid; else an
/// error naming the first one that is not a status.
pub open spec fn status_filter_is(
    status: Option<Seq<char>>,
    r: Result<Option<Seq<Seq<char>>>, Seq<char>>,
) -> bool {
    match status {
        None => r == Ok::<Option<Seq<Seq<char>>>, Seq<char>>(None),
        Some(s) => {
            let ts = list_items(s);
            match r {
                Ok(None) => ts.len() == 0,
                Ok(Some(v)) => ts.len() > 0 && v == ts && forall|i: int|
                    0 <= i < ts.len() ==> is_status(#[trigger] ts[i]),
                Err(m) => exists|i: int|
                    0 <= i < ts.len() && !is_status(#[trigger] ts[i]) && (forall|j: int|
                        0 <= j < i ==> is_status(ts[j])) && m == invalid_status_message(ts[i]),
            }
        },
    }
}

pub open spec fn status_result_view(r: Result<Option<Vec<String>>, String>) -> Result<
    Option<Seq<Seq<char>>>,
    Seq<char>,
> {
    match r {
        Ok(None) => Ok(None),
        Ok(Some(v)) => Ok(Some(strings_view(v@))),
        Err(m) => Err(m@),
    }
}

pub open spec fn opt_string_view(s: Option<String>) -> Option<Seq<char>> {
    match s {
        None => None,
        Some(x) => Some(x@),
    }
}

proof fn lemma_pieces_step(s: Seq<char>, i: int, start: int)
    requires
        0 <= start <= i < s.len(),
        pieces(s.take(i), ',').last() == s.subrange(start, i),
    ensures
        s[i] == ',' ==> pieces(s.take(i + 1), ',') == pieces(s.take(i), ',').push(Seq::empty()),
        s[i] != ',' ==> pieces(s.take(i + 1), ',').drop_last() == pieces(s.take(i), ',').drop_last()
            && pieces(s.take(i + 1), ',').last() == s.subrange(start, i + 1),
{
    lemma_pieces_nonempty(s.take(i), ',');
    assert(s.take(i + 1).drop_last() =~= s.take(i));
    assert(s.take(i + 1).last() == s[i]);
    let p = pieces(s.take(i), ',');
    if s[i] != ',' {
        let q = pieces(s.take(i + 1), ',');
        assert(q == p.update(p.len() - 1, p.last().push(s[i])));
        assert(q.drop_last() =~= p.drop_last());
        assert(s.subrange(start, i).push(s[i]) =~= s.subrange(start, i + 1));
    }
}

proof fn lemma_kept_split(ps: Seq<Seq<char>>)
    requires
        ps.len() >= 1,
    ensures
        kept_tokens(ps) == if trim(ps.last()).len() == 0 {
            kept_tokens(ps.drop_last())
        } else {
            kept_tokens(ps.drop_last()).push(trim(ps.last()))
        },
{
}

impl TaskQuery {
    /// The query that the parameters `params` (name and value, in order)
    /// write: `page` and `limit` in decimal, 1 and 25 when left out; `status`
    /// as given. The first parameter of a name counts; others are ignored.
    pub fn from_params(params: &Vec<(String, String)>) -> (r: AppResult<TaskQuery>)
        ensures
            match (count_param(params@, "page"@, 1), count_param(params@, "limit"@, 25)) {
                (Ok(page), Ok(limit)) => r matches Ok(q) && q.page == page && q.limit == limit
                    && q.status == param_value(params@, "status"@),
                (Err(m), _) => r matches Err(AppError::BadRequest(n)) && n@ == m,
                (_, Err(m)) => r matches Err(AppError::BadRequest(n)) && n@ == m,
            },
    {
        let page = match count_field(params, "page", default_page()) {
            Ok(v) => v,
            Err(e) => {
                return Err(e);
            },
        };
        let limit = match count_field(params, "limit", default_limit()) {
            Ok(v) => v,
            Err(e) => {
                return Err(e);
            },
        };
        let status = match find_param(params, "status") {
            Some(v) => Some(v.clone()),
            None => None,
        };
        Ok(TaskQuery { page, limit, status })
    }

    /// The status allow-list of this query (see `status_filter_is`).
    pub fn parsed_statuses(&self) -> (r: Result<Option<Vec<String>>, String>)
        ensures
            status_filter_is(opt_string_view(self.status), status_result_view(r)),
    {
        match &self.status {
            None => Ok(None),
            Some(s) => {
                let st = s.as_str();
                let cs = chars_of(st);
                let n = cs.len();
                let ghost sv = st@;
                let mut out: Vec<String> = Vec::new();
                let mut bad: Option<String> = None;
                let ghost mut toks: Seq<Seq<char>> = seq![];
                let ghost mut bad_at: int = 0;
                let mut start: usize = 0;
                let mut i: usize = 0;
                proof {
                    assert(sv.take(0) =~= Seq::<char>::empty());
                    assert(sv.subrange(0, 0) =~= Seq::<char>::empty());
                }
                loop
                    invariant_except_break
                        toks == kept_tokens(pieces(sv.take(i as int), ',').drop_last()),
                    invariant
                        cs@ == sv,
                        st@ == sv,
                        n == sv.len(),
                        start <= i <= n,
                        pieces(sv.take(i as int), ',').last() == sv.subrange(
                            start as int,
                            i as int,
                        ),
                        bad is None ==> strings_view(out@) == toks && forall|k: int|
                            0 <= k < toks.len() ==> is_status(#[trigger] toks[k]),
                        bad matches Some(m) ==> 0 <= bad_at < toks.len() && !is_status(toks[bad_at])
                            && (forall|j: int| 0 <= j < bad_at ==> is_status(#[trigger] toks[j]))
                            && m@ == invalid_status_message(toks[bad_at]),
                    ensures
                        toks == list_items(sv),
                        bad is None ==> strings_view(out@) == toks && forall|k: int|
                            0 <= k < toks.len() ==> is_status(#[trigger] toks[k]),
                        bad matches Some(m) ==> 0 <= bad_at < toks.len() && !is_status(toks[bad_at])
                            && (forall|j: int| 0 <= j < bad_at ==> is_status(#[trigger] toks[j]))
                            && m@ == invalid_status_message(toks[bad_at]),
                    decreases n - i,
                {
                    if i == n || cs[i] == ',' {
                        let (lo, hi) = trim_bounds(&cs, start, i);
                        let ghost t = sv.subrange(lo as int, hi as int);
                        let ghost ps = pieces(sv.take(i as int), ',');
                        let ghost before = toks;
                        proof {
                            lemma_pieces_nonempty(sv.take(i as int), ',');
                            lemma_kept_split(ps);
                        }
                        if lo < hi {
                            proof {
                                toks = toks.push(t);
                            }
                            if bad.is_none() {
                                let ghost out_before = out@;
                                if spells(&cs, lo, hi, "todo") {
                                    out.push("todo".to_string());
                                } else if spells(&cs, lo, hi, "in_progress") {
                                    out.push("in_progress".to_string());
                                } else if spells(&cs, lo, hi, "done") {
                                    out.push("done".to_string());
                                } else {
                                    let word = st.substring_char(lo, hi);
                                    let mut m = "invalid status '".to_string();
                                    m.append(word);
                                    m.append("': must be one of todo, in_progress, done");
                                    proof {
                                        assert(m@ =~= invalid_status_message(t));
                                        bad_at = before.len() as int;
                                    }
                                    bad = Some(m);
                                }
                                proof {
                                    if bad is None {
                                        assert(strings_view(out@) =~= strings_view(
                                            out_before,
                                        ).push(t));
                                    }
                                }
                            }
                            proof {
                                assert(forall|j: int|
                                    0 <= j < before.len() ==> toks[j] == before[j]);
                            }
                        }
                        if i == n {
                            proof {
                                assert(sv.take(n as int) =~= sv);
                            }
                            break;
                        } else {
                            proof {
                                lemma_pieces_step(sv, i as int, start as int);
                                assert(sv.subrange(i + 1, i + 1) =~= Seq::<char>::empty());
                                assert(pieces(sv.take(i + 1), ',').drop_last() =~= ps);
                            }
                            i = i + 1;
                            start = i;
                        }
                    } else {
                        proof {
                            lemma_pieces_step(sv, i as int, start as int);
                        }
                        i = i + 1;
                    }
                }
                proof {
                    assert(opt_string_view(self.status) == Some(sv));
                }
                match bad {
                    Some(m) => {
                        proof {
                            assert(!is_status(toks[bad_at]));
                        }
                        Err(m)
                    },
                    None => {
                        if out.len() == 0 {
                            Ok(None)
                        } else {
                            Ok(Some(out))
                        }
                    },
                }
            },
        }
    }
}

/// What a valid listing request asks of the store.
#[derive(Debug)]
pub struct ListingPlan {
    /// The statuses to keep, or `None` for every status.
    pub statuses: Option<Vec<String>>,
    pub page: u64,
    pub limit: u64,
    /// How many tasks, newest first, come before the requested page.
    pub skip: u64,
}

pub open spec fn limit_message() -> Seq<char> {
    "limit must be between 1 and 100"@
}

pub open spec fn page_message() -> Seq<char> {
    "page must be >= 1"@
}

/// The number of tasks before page `page` (counted from 1) of `limit` tasks,
/// held at `u64::MAX` when it is larger.
pub open spec fn skip_of(page: u64, limit: u64) -> u64 {
    let k = (page - 1) * limit;
    if k > u64::MAX {
        u64::MAX
    } else {
        k as u64
    }
}

/// The number of pages of `limit` tasks that `total` tasks fill; one when
/// there are none.
pub open spec fn pages_of(total: int, limit: int) -> int {
    if total == 0 {
        1
    } else {
        (total + limit - 1) / limit
    }
}

impl TaskQuery {
    /// Checks the query before anything is read: the limit lies in 1..=100,
    /// the page is at least 1, and the status filter is valid, in that order.
    pub fn plan(&self) -> (r: AppResult<ListingPlan>)
        ensures
            (self.limit == 0 || self.limit > MAX_LIMIT) ==> (r matches Err(AppError::BadRequest(m))
                && m@ == limit_message()),
            (1 <= self.limit <= MAX_LIMIT && self.page == 0) ==> (r matches Err(
                AppError::BadRequest(m),
            ) && m@ == page_message()),
            1 <= self.limit <= MAX_LIMIT && self.page >= 1 ==> match r {
                Ok(p) => 1 <= p.limit <= MAX_LIMIT && p.page == self.page && p.limit == self.limit
                    && p.skip == skip_of(self.page, self.limit) && status_filter_is(
                    opt_string_view(self.status),
                    status_result_view(Ok(p.statuses)),
                ),
                Err(AppError::BadRequest(m)) => status_filter_is(
                    opt_string_view(self.status),
                    status_result_view(Err(m)),
                ),
                Err(_) => false,
            },
    {
        if self.limit == 0 || self.limit > MAX_LIMIT {
            return Err(AppError::BadRequest("limit must be between 1 and 100".to_string()));
        }
        if self.page == 0 {
            return Err(AppError::BadRequest("page must be >= 1".to_string()));
        }
        let statuses = match self.parsed_statuses() {
            Ok(v) => v,
            Err(m) => {
                return Err(AppError::BadRequest(m));
            },
        };
        let before = self.page - 1;
        let skip = match before.checked_mul(self.limit) {
            Some(k) => k,
            None => u64::MAX,
        };
        Ok(ListingPlan { statuses, page: self.page, limit: self.limit, skip })
    }
}

/// One page of a task listing.
#[derive(Debug)]
pub struct PaginatedTasksResponse {
    pub tasks: Vec<Task>,
    pub total: u64,
    pub page: u64,
    pub limit: u64,
    pub total_pages: u64,
}

/// The page that `plan` asked for, holding `tasks`, out of `total` matching
/// tasks.
pub fn paginated(plan: &ListingPlan, tasks: Vec<Task>, total: u64) -> (r: PaginatedTasksResponse)
    requires
        plan.limit >= 1,
    ensures
        r.tasks == tasks,
        r.total == total,
        r.page == plan.page,
        r.limit == plan.limit,
        r.total_pages == pages_of(total as int, plan.limit as int),
{
    let total_pages = page_count(total, plan.limit);
    PaginatedTasksResponse { tasks, total, page: plan.page, limit: plan.limit, total_pages }
}

/// The number of pages that `total` tasks fill at `limit` per page.
pub fn page_count(total: u64, limit: u64) -> (r: u64)
    requires
        limit >= 1,
    ensures
        r == pages_of(total as int, limit as int),
{
    if total == 0 {
        1
    } else {
        let q = total / limit;
        if total % limit == 0 {
            proof {
                let ghost t = total as int;
                let ghost l = limit as int;
                let ghost qq = q as int;
                assert((t + l - 1) / l == qq) by (nonlinear_arith)
                    requires
                        qq == t / l,
                        l >= 1,
                        t % l == 0,
                ;
            }
            q
        } else {
            proof {
                let ghost t = total as int;
                let ghost l = limit as int;
                let ghost qq = q as int;
                assert(qq < t) by (nonlinear_arith)
                    requires
                        qq == t / l,
                        l >= 1,
                        t > 0,
                        t % l != 0,
                ;
                assert((t + l - 1) / l == qq + 1) by (nonlinear_arith)
                    requires
                        qq == t / l,
                        l >= 1,
                        t % l != 0,
                ;
            }
            q + 1
        }
    }
}

} // verus!
