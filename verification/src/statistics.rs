//! Usage statistics: records grouped by user, and each model's daily limits
//! beside what a user has used of them today.
use vstd::prelude::*;

verus! {

/// The items of the records that belong to `user`, in their order.
pub open spec fn user_items<T>(records: Seq<(i64, T)>, user: i64) -> Seq<T>
    decreases records.len(),
{
    if records.len() == 0 {
        Seq::empty()
    } else {
        let prev = user_items(records.drop_last(), user);
        if records.last().0 == user {
            prev.push(records.last().1)
        } else {
            prev
        }
    }
}

/// The groups are the records by user: each user with records has one
/// group holding its items in order, and no other group exists.
pub open spec fn grouped_by_user<T>(records: Seq<(i64, T)>, groups: Seq<(i64, Vec<T>)>) -> bool {
    &&& forall|i: int, j: int| 0 <= i < groups.len() && 0 <= j < groups.len() && i != j ==> groups[i].0 != groups[j].0
    &&& forall|i: int| 0 <= i < groups.len() ==> (#[trigger] groups[i]).1@ == user_items(records, groups[i].0)
        && groups[i].1@.len() > 0
    &&& forall|u: i64| #[trigger] user_items(records, u).len() > 0 ==> exists|i: int| 0 <= i < groups.len() && groups[i].0 == u
}

/// Records of users are kept apart from those of others.
proof fn lemma_user_items_push<T>(records: Seq<(i64, T)>, r: (i64, T), u: i64)
    ensures
        user_items(records.push(r), u) == if r.0 == u {
            user_items(records, u).push(r.1)
        } else {
            user_items(records, u)
        },
{
    assert(records.push(r).drop_last() =~= records);
}

/// The index of `user`'s group, if there is one.
fn find_group<T>(groups: &Vec<(i64, Vec<T>)>, user: i64) -> (r: Option<usize>)
    ensures
        match r {
            Some(i) => i < groups@.len() && groups@[i as int].0 == user,
            None => forall|i: int| 0 <= i < groups@.len() ==> (#[trigger] groups@[i]).0 != user,
        },
{
    let mut i: usize = 0;
    while i < groups.len()
        invariant
            i <= groups@.len(),
            forall|j: int| 0 <= j < i ==> (#[trigger] groups@[j]).0 != user,
        decreases groups@.len() - i,
    {
        if groups[i].0 == user {
            return Some(i);
        }
        i = i + 1;
    }
    None
}

/// Groups records by user, each group in the order of the records; the
/// groups come in the order their users first appear.
pub fn group_by_user<T>(records: Vec<(i64, T)>) -> (r: Vec<(i64, Vec<T>)>)
    ensures
        grouped_by_user(records@, r@),
{
    let ghost original = records@;
    let total = records.len();
    let mut rest = records;
    let mut groups: Vec<(i64, Vec<T>)> = Vec::new();
    let mut k: usize = 0;
    proof {
        assert(original.skip(0) =~= original);
        assert(original.take(0) =~= Seq::<(i64, T)>::empty());
    }
    while rest.len() > 0
        invariant
            original.len() == total,
            k + rest@.len() == total,
            rest@ == original.skip(k as int),
            grouped_by_user(original.take(k as int), groups@),
        decreases rest@.len(),
    {
        let (user, item) = rest.remove(0);
        let ghost prefix = original.take(k as int);
        let ghost rec = (user, item);
        proof {
            assert(original[k as int] == rec);
            assert(rest@ =~= original.skip(k + 1));
            assert(original.take(k + 1) =~= prefix.push(rec));
            assert forall|u: i64| #[trigger] user_items(original.take(k + 1), u) == if user == u {
                user_items(prefix, u).push(item)
            } else {
                user_items(prefix, u)
            } by {
                lemma_user_items_push(prefix, rec, u);
            }
        }
        let ghost before = groups@;
        match find_group(&groups, user) {
            Some(idx) => {
                let (u, mut items) = groups.remove(idx);
                items.push(item);
                groups.insert(idx, (u, items));
                proof {
                    assert(groups@ =~= before.update(idx as int, (u, items)));
                    assert forall|u2: i64| #[trigger] user_items(original.take(k + 1), u2).len() > 0 implies exists|i: int|
                        0 <= i < groups@.len() && groups@[i].0 == u2 by {
                        if u2 != user {
                            let i = choose|i: int| 0 <= i < before.len() && before[i].0 == u2;
                            assert(groups@[i].0 == u2);
                        } else {
                            assert(groups@[idx as int].0 == u2);
                        }
                    }
                }
            },
            None => {
                let mut items: Vec<T> = Vec::new();
                items.push(item);
                groups.push((user, items));
                proof {
                    assert(user_items(prefix, user).len() == 0) by {
                        if user_items(prefix, user).len() > 0 {
                            let i = choose|i: int| 0 <= i < before.len() && before[i].0 == user;
                            assert(before[i].0 != user);
                        }
                    }
                    assert(user_items(prefix, user) =~= Seq::<T>::empty());
                    assert(items@ =~= seq![item]);
                    assert forall|u2: i64| #[trigger] user_items(original.take(k + 1), u2).len() > 0 implies exists|i: int|
                        0 <= i < groups@.len() && groups@[i].0 == u2 by {
                        if u2 != user {
                            let i = choose|i: int| 0 <= i < before.len() && before[i].0 == u2;
                            assert(groups@[i].0 == u2);
                        } else {
                            assert(groups@[before.len() as int].0 == u2);
                        }
                    }
                }
            },
        }
        k = k + 1;
    }
    proof {
        assert(original.take(total as int) =~= original);
    }
    groups
}

/// A day of a user's use of a model, as stored.
#[derive(Debug)]
pub struct DailyUsageRow {
    pub user: i64,
    pub date: String,
    pub model: i64,
    pub model_name: String,
    pub total_input_token_count: i64,
    pub total_output_token_count: i64,
}

/// A day of a user's use of a model, as reported.
#[derive(Debug)]
pub struct ModelUsageUserDailyStatistics {
    pub date: String,
    pub total_input_token_count: i64,
    pub total_output_token_count: i64,
    pub model_id: i64,
    pub model_name: String,
}

/// A user's days of use.
#[derive(Debug)]
pub struct ModelUsageUserUsageStatistics {
    pub user_id: i64,
    pub model_usage_statistics: Vec<ModelUsageUserDailyStatistics>,
}

/// The model usage of all users over a period.
#[derive(Debug)]
pub struct ModelUsageStatistics {
    pub start_date: String,
    pub end_date: String,
    pub users_statistics: Vec<ModelUsageUserUsageStatistics>,
}

/// The report of a stored day of use.
pub open spec fn daily_stat_spec(row: DailyUsageRow) -> ModelUsageUserDailyStatistics {
    ModelUsageUserDailyStatistics {
        date: row.date,
        total_input_token_count: row.total_input_token_count,
        total_output_token_count: row.total_output_token_count,
        model_id: row.model,
        model_name: row.model_name,
    }
}

/// The stored days as records of their users.
pub open spec fn daily_records(rows: Seq<DailyUsageRow>) -> Seq<(i64, ModelUsageUserDailyStatistics)> {
    rows.map_values(|row: DailyUsageRow| (row.user, daily_stat_spec(row)))
}

/// The stored days of `user`, in their order.
pub open spec fn rows_of_user(rows: Seq<DailyUsageRow>, user: i64) -> Seq<DailyUsageRow>
    decreases rows.len(),
{
    if rows.len() == 0 {
        Seq::empty()
    } else {
        let prev = rows_of_user(rows.drop_last(), user);
        if rows.last().user == user {
            prev.push(rows.last())
        } else {
            prev
        }
    }
}

proof fn lemma_daily_items(rows: Seq<DailyUsageRow>, user: i64)
    ensures
        user_items(daily_records(rows), user) == rows_of_user(rows, user).map_values(
            |row: DailyUsageRow| daily_stat_spec(row),
        ),
    decreases rows.len(),
{
    if rows.len() > 0 {
        lemma_daily_items(rows.drop_last(), user);
        assert(daily_records(rows).drop_last() =~= daily_records(rows.drop_last()));
        let prev = rows_of_user(rows.drop_last(), user);
        if rows.last().user == user {
            assert(prev.push(rows.last()).map_values(|row: DailyUsageRow| daily_stat_spec(row)) =~= prev.map_values(
                |row: DailyUsageRow| daily_stat_spec(row),
            ).push(daily_stat_spec(rows.last())));
        }
    } else {
        assert(daily_records(rows) =~= Seq::<(i64, ModelUsageUserDailyStatistics)>::empty());
    }
}

/// Each user's reported days are that user's stored days, one for one and
/// in order: each day carries the stored date, the stored input token count
/// as its input count, the stored output token count as its output count,
/// and the stored model id and name.
pub proof fn law_reported_days_copy_the_stored_rows(
    rows: Seq<DailyUsageRow>,
    groups: Seq<(i64, Vec<ModelUsageUserDailyStatistics>)>,
)
    requires
        grouped_by_user(daily_records(rows), groups),
    ensures
        forall|i: int| 0 <= i < groups.len() ==> (#[trigger] groups[i]).1@.len() == rows_of_user(rows, groups[i].0).len(),
        forall|i: int, k: int|
            0 <= i < groups.len() && 0 <= k < groups[i].1@.len() ==> {
                let day = #[trigger] groups[i].1@[k];
                let row = rows_of_user(rows, groups[i].0)[k];
                &&& day.date == row.date
                &&& day.total_input_token_count == row.total_input_token_count
                &&& day.total_output_token_count == row.total_output_token_count
                &&& day.model_id == row.model
                &&& day.model_name == row.model_name
            },
{
    assert forall|i: int| 0 <= i < groups.len() implies (#[trigger] groups[i]).1@.len() == rows_of_user(
        rows,
        groups[i].0,
    ).len() by {
        lemma_daily_items(rows, groups[i].0);
    }
    assert forall|i: int, k: int| 0 <= i < groups.len() && 0 <= k < groups[i].1@.len() implies {
        let day = #[trigger] groups[i].1@[k];
        let row = rows_of_user(rows, groups[i].0)[k];
        &&& day.date == row.date
        &&& day.total_input_token_count == row.total_input_token_count
        &&& day.total_output_token_count == row.total_output_token_count
        &&& day.model_id == row.model
        &&& day.model_name == row.model_name
    } by {
        lemma_daily_items(rows, groups[i].0);
    }
}

/// Reports the model usage of a period: each user's days, grouped by user
/// and kept in the stored order.
pub fn map_db_to_usage_statistics(db_statistics: Vec<DailyUsageRow>, start_date: String, end_date: String) -> (r:
    ModelUsageStatistics)
    ensures
        r.start_date == start_date,
        r.end_date == end_date,
        grouped_by_user(
            daily_records(db_statistics@),
            r.users_statistics@.map_values(|u: ModelUsageUserUsageStatistics| (u.user_id, u.model_usage_statistics)),
        ),
        forall|i: int, k: int|
            0 <= i < r.users_statistics@.len() && 0 <= k < r.users_statistics@[i].model_usage_statistics@.len() ==> {
                let day = #[trigger] r.users_statistics@[i].model_usage_statistics@[k];
                let row = rows_of_user(db_statistics@, r.users_statistics@[i].user_id)[k];
                &&& day.date == row.date
                &&& day.total_input_token_count == row.total_input_token_count
                &&& day.total_output_token_count == row.total_output_token_count
                &&& day.model_id == row.model
                &&& day.model_name == row.model_name
            },
{
    let ghost rows = db_statistics@;
    let total = db_statistics.len();
    let mut rest = db_statistics;
    let mut records: Vec<(i64, ModelUsageUserDailyStatistics)> = Vec::new();
    let mut k: usize = 0;
    proof {
        assert(rows.skip(0) =~= rows);
    }
    while rest.len() > 0
        invariant
            rows.len() == total,
            k + rest@.len() == total,
            rest@ == rows.skip(k as int),
            records@ == daily_records(rows.take(k as int)),
        decreases rest@.len(),
    {
        let row = rest.remove(0);
        proof {
            assert(rows[k as int] == row);
            assert(rest@ =~= rows.skip(k + 1));
        }
        let ghost before = records@;
        let user = row.user;
        let stat = ModelUsageUserDailyStatistics {
            date: row.date,
            total_input_token_count: row.total_input_token_count,
            total_output_token_count: row.total_output_token_count,
            model_id: row.model,
            model_name: row.model_name,
        };
        records.push((user, stat));
        proof {
            assert(daily_records(rows.take(k + 1)) =~= daily_records(rows.take(k as int)).push((user, stat)));
        }
        k = k + 1;
    }
    proof {
        assert(rows.take(total as int) =~= rows);
    }
    let groups = group_by_user(records);
    let ghost g = groups@;
    let total_groups = groups.len();
    let mut rest_groups = groups;
    let mut users_statistics: Vec<ModelUsageUserUsageStatistics> = Vec::new();
    let mut j: usize = 0;
    proof {
        assert(g.skip(0) =~= g);
    }
    while rest_groups.len() > 0
        invariant
            g.len() == total_groups,
            j + rest_groups@.len() == total_groups,
            rest_groups@ == g.skip(j as int),
            users_statistics@.map_values(|u: ModelUsageUserUsageStatistics| (u.user_id, u.model_usage_statistics))
                == g.take(j as int),
        decreases rest_groups@.len(),
    {
        let (user_id, model_usage_statistics) = rest_groups.remove(0);
        proof {
            assert(g[j as int] == (user_id, model_usage_statistics));
            assert(rest_groups@ =~= g.skip(j + 1));
        }
        let ghost before = users_statistics@;
        let entry = ModelUsageUserUsageStatistics { user_id, model_usage_statistics };
        users_statistics.push(entry);
        proof {
            assert(users_statistics@ == before.push(entry));
            assert(before.push(entry).map_values(|u: ModelUsageUserUsageStatistics| (u.user_id, u.model_usage_statistics))
                =~= before.map_values(|u: ModelUsageUserUsageStatistics| (u.user_id, u.model_usage_statistics)).push((user_id, model_usage_statistics)));
            assert(g.take(j + 1) =~= g.take(j as int).push(g[j as int]));
            assert(users_statistics@.map_values(|u: ModelUsageUserUsageStatistics| (u.user_id, u.model_usage_statistics))
                =~= g.take(j + 1));
        }
        j = j + 1;
    }
    proof {
        assert(g.take(total_groups as int) =~= g);
        let gs = users_statistics@.map_values(|u: ModelUsageUserUsageStatistics| (u.user_id, u.model_usage_statistics));
        law_reported_days_copy_the_stored_rows(rows, gs);
        assert forall|i: int, k: int|
            0 <= i < users_statistics@.len() && 0 <= k < users_statistics@[i].model_usage_statistics@.len() implies {
                let day = #[trigger] users_statistics@[i].model_usage_statistics@[k];
                let row = rows_of_user(rows, users_statistics@[i].user_id)[k];
                &&& day.date == row.date
                &&& day.total_input_token_count == row.total_input_token_count
                &&& day.total_output_token_count == row.total_output_token_count
                &&& day.model_id == row.model
                &&& day.model_name == row.model_name
            } by {
            assert(gs[i] == (users_statistics@[i].user_id, users_statistics@[i].model_usage_statistics));
            assert(gs[i].1@[k] == users_statistics@[i].model_usage_statistics@[k]);
        }
    }
    ModelUsageStatistics { start_date, end_date, users_statistics }
}

/// A request a user made, as stored.
#[derive(Debug)]
pub struct ApiUsageRow {
    pub user: i64,
    pub route: String,
    pub request_made: String,
    pub model_name: Option<String>,
    pub input_token_count: Option<i64>,
    pub output_token_count: Option<i64>,
}

/// A request a user made, as reported.
#[derive(Debug)]
pub struct ApiRequests {
    pub route: String,
    pub request_made: String,
    pub model_name: Option<String>,
    pub input_token_count: Option<i64>,
    pub output_token_count: Option<i64>,
}

/// A user's requests and how many there are.
#[derive(Debug)]
pub struct ApiUsageUserStatistics {
    pub user_id: i64,
    pub requests_made: usize,
    pub requests: Vec<ApiRequests>,
}

/// The API use of all users over a period.
#[derive(Debug)]
pub struct ApiUsageStatistics {
    pub start_date: String,
    pub end_date: String,
    pub api_usage_statistics: Vec<ApiUsageUserStatistics>,
}

/// The report of a stored request.
pub open spec fn request_spec(row: ApiUsageRow) -> ApiRequests {
    ApiRequests {
        route: row.route,
        request_made: row.request_made,
        model_name: row.model_name,
        input_token_count: row.input_token_count,
        output_token_count: row.output_token_count,
    }
}

/// The stored requests as records of their users.
pub open spec fn request_records(rows: Seq<ApiUsageRow>) -> Seq<(i64, ApiRequests)> {
    rows.map_values(|row: ApiUsageRow| (row.user, request_spec(row)))
}

/// The user groups of a report.
pub open spec fn api_groups(v: Seq<ApiUsageUserStatistics>) -> Seq<(i64, Vec<ApiRequests>)> {
    v.map_values(|u: ApiUsageUserStatistics| (u.user_id, u.requests))
}

/// Reports the API use of a period: each user's requests, grouped by user
/// in the stored order, with their number.
pub fn map_db_api_usage_statistics(api_usages: Vec<ApiUsageRow>, start_date: String, end_date: String) -> (r:
    ApiUsageStatistics)
    ensures
        r.start_date == start_date,
        r.end_date == end_date,
        grouped_by_user(request_records(api_usages@), api_groups(r.api_usage_statistics@)),
        forall|i: int|
            0 <= i < r.api_usage_statistics@.len() ==> (#[trigger] r.api_usage_statistics@[i]).requests_made
                == r.api_usage_statistics@[i].requests@.len(),
{
    let ghost rows = api_usages@;
    let total = api_usages.len();
    let mut rest = api_usages;
    let mut records: Vec<(i64, ApiRequests)> = Vec::new();
    let mut k: usize = 0;
    proof {
        assert(rows.skip(0) =~= rows);
    }
    while rest.len() > 0
        invariant
            rows.len() == total,
            k + rest@.len() == total,
            rest@ == rows.skip(k as int),
            records@ == request_records(rows.take(k as int)),
        decreases rest@.len(),
    {
        let row = rest.remove(0);
        proof {
            assert(rows[k as int] == row);
            assert(rest@ =~= rows.skip(k + 1));
        }
        let user = row.user;
        let request = ApiRequests {
            route: row.route,
            request_made: row.request_made,
            model_name: row.model_name,
            input_token_count: row.input_token_count,
            output_token_count: row.output_token_count,
        };
        records.push((user, request));
        proof {
            assert(request_records(rows.take(k + 1)) =~= request_records(rows.take(k as int)).push((user, request)));
        }
        k = k + 1;
    }
    proof {
        assert(rows.take(total as int) =~= rows);
    }
    let groups = group_by_user(records);
    let ghost g = groups@;
    let total_groups = groups.len();
    let mut rest_groups = groups;
    let mut out: Vec<ApiUsageUserStatistics> = Vec::new();
    let mut j: usize = 0;
    proof {
        assert(g.skip(0) =~= g);
    }
    while rest_groups.len() > 0
        invariant
            g.len() == total_groups,
            j + rest_groups@.len() == total_groups,
            rest_groups@ == g.skip(j as int),
            api_groups(out@) == g.take(j as int),
            forall|i: int| 0 <= i < out@.len() ==> (#[trigger] out@[i]).requests_made == out@[i].requests@.len(),
        decreases rest_groups@.len(),
    {
        let (user_id, requests) = rest_groups.remove(0);
        proof {
            assert(g[j as int] == (user_id, requests));
            assert(rest_groups@ =~= g.skip(j + 1));
        }
        let ghost before = out@;
        let entry = ApiUsageUserStatistics { user_id, requests_made: requests.len(), requests };
        out.push(entry);
        proof {
            assert(out@ == before.push(entry));
            assert(api_groups(before.push(entry)) =~= api_groups(before).push((user_id, requests)));
            assert(g.take(j + 1) =~= g.take(j as int).push(g[j as int]));
        }
        j = j + 1;
    }
    proof {
        assert(g.take(total_groups as int) =~= g);
    }
    ApiUsageStatistics { start_date, end_date, api_usage_statistics: out }
}

/// A model's daily limits, as stored.
#[derive(Debug)]
pub struct ModelLimitsRow {
    pub id: i64,
    pub name: String,
    pub daily_input_token_limit: Option<i64>,
    pub daily_output_token_limit: Option<i64>,
}

/// A user's use of a model today, as stored.
#[derive(Clone, Copy, Debug)]
pub struct UserDailyUsageRow {
    pub model: i64,
    pub total_input_token_count: i64,
    pub total_output_token_count: i64,
}

/// A model's limits beside a user's use of it today.
#[derive(Debug)]
pub struct ModelDailyLimit {
    pub id: i64,
    pub model_name: String,
    pub daily_input_token_limit: Option<i64>,
    pub daily_output_token_limit: Option<i64>,
    pub total_input_token_count: i64,
    pub total_output_token_count: i64,
}

/// The first use recorded for a model, if any.
pub open spec fn first_usage(usages: Seq<UserDailyUsageRow>, model: i64) -> Option<UserDailyUsageRow>
    decreases usages.len(),
{
    if usages.len() == 0 {
        None
    } else if usages[0].model == model {
        Some(usages[0])
    } else {
        first_usage(usages.drop_first(), model)
    }
}

/// A model's limits beside its first recorded use today, or none.
pub open spec fn limit_spec(model: ModelLimitsRow, usages: Seq<UserDailyUsageRow>) -> ModelDailyLimit {
    let (input, output) = match first_usage(usages, model.id) {
        Some(u) => (u.total_input_token_count, u.total_output_token_count),
        None => (0i64, 0i64),
    };
    ModelDailyLimit {
        id: model.id,
        model_name: model.name,
        daily_input_token_limit: model.daily_input_token_limit,
        daily_output_token_limit: model.daily_output_token_limit,
        total_input_token_count: input,
        total_output_token_count: output,
    }
}

/// The first use recorded for a model.
fn find_usage(usages: &Vec<UserDailyUsageRow>, model: i64) -> (r: Option<UserDailyUsageRow>)
    ensures
        r == first_usage(usages@, model),
{
    let mut i: usize = 0;
    proof {
        assert(usages@.skip(0) =~= usages@);
    }
    while i < usages.len()
        invariant
            i <= usages@.len(),
            first_usage(usages@, model) == first_usage(usages@.skip(i as int), model),
        decreases usages@.len() - i,
    {
        proof {
            assert(usages@.skip(i as int).drop_first() =~= usages@.skip(i + 1));
            assert(usages@.skip(i as int)[0] == usages@[i as int]);
        }
        if usages[i].model == model {
            return Some(usages[i]);
        }
        i = i + 1;
    }
    None
}

/// Each model's daily limits beside what the user used of it today (its
/// first recorded use; nothing used when there is none), in the models'
/// order.
pub fn user_daily_limits(models: Vec<ModelLimitsRow>, daily_usages: &Vec<UserDailyUsageRow>) -> (r: Vec<ModelDailyLimit>)
    ensures
        r@ == models@.map_values(|m: ModelLimitsRow| limit_spec(m, daily_usages@)),
{
    let ghost original = models@;
    let total = models.len();
    let mut rest = models;
    let mut out: Vec<ModelDailyLimit> = Vec::new();
    let mut k: usize = 0;
    proof {
        assert(original.skip(0) =~= original);
    }
    while rest.len() > 0
        invariant
            original.len() == total,
            k + rest@.len() == total,
            rest@ == original.skip(k as int),
            out@ == original.take(k as int).map_values(|m: ModelLimitsRow| limit_spec(m, daily_usages@)),
        decreases rest@.len(),
    {
        let model = rest.remove(0);
        proof {
            assert(original[k as int] == model);
            assert(rest@ =~= original.skip(k + 1));
        }
        let (input, output) = match find_usage(daily_usages, model.id) {
            Some(u) => (u.total_input_token_count, u.total_output_token_count),
            None => (0i64, 0i64),
        };
        let ghost m = model;
        let limit = ModelDailyLimit {
            id: model.id,
            model_name: model.name,
            daily_input_token_limit: model.daily_input_token_limit,
            daily_output_token_limit: model.daily_output_token_limit,
            total_input_token_count: input,
            total_output_token_count: output,
        };
        out.push(limit);
        proof {
            assert(limit == limit_spec(m, daily_usages@));
            assert(original.take(k + 1).map_values(|m: ModelLimitsRow| limit_spec(m, daily_usages@)) =~= original.take(
                k as int,
            ).map_values(|m: ModelLimitsRow| limit_spec(m, daily_usages@)).push(limit_spec(m, daily_usages@)));
        }
        k = k + 1;
    }
    proof {
        assert(original.take(total as int) =~= original);
    }
    out
}

} // verus!
