//! What the program remembers of the task service: the token of the session
//! and the months of tasks that it has fetched. Nothing here talks to the
//! service. Each function decides what is to be asked of it, or takes in
//! what it answered.

use crate::date::RicalDate;
use crate::types::{CalendarTasks, TaskData, TaskDataView, TaskDataWithId, TaskDataWithIdView};
use std::collections::HashMap;
use vstd::prelude::*;

verus! {

broadcast use vstd::std_specs::hash::group_hash_axioms;

/// Whether a month of tasks may come from memory.
#[derive(Clone, Copy, Debug, PartialEq, Eq, Structural)]
pub enum CacheType {
    /// Take the month from memory if it is there, and ask the service only
    /// if it is not.
    PreferCache,
    /// Ask the service, and remember what it answers.
    Refresh,
}

impl CacheType {
    /// Whether memory comes first.
    pub fn prefer_cache(&self) -> (r: bool)
        ensures
            r == (*self == CacheType::PreferCache),
    {
        match self {
            CacheType::PreferCache => true,
            CacheType::Refresh => false,
        }
    }
}

/// A month of tasks as the service listed it.
#[derive(Debug, PartialEq, Eq)]
pub struct FetchedMonth {
    pub year: i32,
    pub month: i32,
    pub tasks: CalendarTasks,
}

/// Which months are to be fetched again after a task was changed, and
/// whether the task now stands on another day.
#[derive(Debug, PartialEq, Eq)]
pub struct UpdateOutcome {
    pub refresh: Vec<(i32, i32)>,
    pub date_changed: bool,
}

/// The months of tasks that a session remembers, by year and month.
pub type CachedMonths = Map<(i32, i32), Seq<Seq<TaskDataWithIdView>>>;

/// The session: its token, once logged in, and the months that it
/// remembers.
pub struct ApiHandler {
    auth_token: Option<String>,
    cached_calendar_tasks: HashMap<u64, CalendarTasks>,
}

/// The number under which a month is kept: one for each year and month.
spec fn month_key(year: i32, month: i32) -> u64 {
    ((year + 0x8000_0000) * 0x1_0000_0000 + (month + 0x8000_0000)) as u64
}

proof fn lemma_month_key_injective(year: i32, month: i32, other_year: i32, other_month: i32)
    ensures
        month_key(year, month) == month_key(other_year, other_month) ==> year == other_year
            && month == other_month,
{
}

fn month_key_of(year: i32, month: i32) -> (r: u64)
    ensures
        r == month_key(year, month),
{
    let high: u64 = (year as i64 + 0x8000_0000) as u64;
    let low: u64 = (month as i64 + 0x8000_0000) as u64;
    high * 0x1_0000_0000 + low
}

/// What a read of a month answers from memory: the remembered month where
/// memory comes first and holds it, and nothing, which is to say that the
/// service is to be asked, in every other case.
pub open spec fn fetch_choice(
    cached: CachedMonths,
    year: i32,
    month: i32,
    cache_type: CacheType,
) -> Option<Seq<Seq<TaskDataWithIdView>>> {
    if cache_type == CacheType::PreferCache && cached.contains_key((year, month)) {
        Some(cached[(year, month)])
    } else {
        None
    }
}

/// Memory after each of the fetched months was put in, in their order.
pub open spec fn with_months(cached: CachedMonths, months: Seq<FetchedMonth>) -> CachedMonths
    decreases months.len(),
{
    if months.len() == 0 {
        cached
    } else {
        with_months(cached, months.drop_last()).insert(
            (months.last().year, months.last().month),
            months.last().tasks@,
        )
    }
}

/// The months that are to be fetched again after the service changed a
/// task: the month in which the task stood before, and the month in which it
/// stands now where that is another.
pub open spec fn months_after_update(previous: TaskDataView, updated: TaskDataView) -> Seq<
    (i32, i32),
> {
    if previous.year != updated.year || previous.month != updated.month {
        seq![(previous.year, previous.month), (updated.year, updated.month)]
    } else {
        seq![(previous.year, previous.month)]
    }
}

/// Whether a changed task stands on another day than before.
pub open spec fn date_changed(previous: TaskDataView, updated: TaskDataView) -> bool {
    previous.year != updated.year || previous.month != updated.month || previous.day
        != updated.day
}

impl ApiHandler {
    /// The months that the session remembers.
    pub closed spec fn cached(&self) -> CachedMonths {
        Map::new(
            |key: (i32, i32)| self.cached_calendar_tasks@.contains_key(month_key(key.0, key.1)),
            |key: (i32, i32)| self.cached_calendar_tasks@[month_key(key.0, key.1)]@,
        )
    }

    /// The token of the session.
    pub closed spec fn token(&self) -> Option<Seq<char>> {
        self.auth_token.deep_view()
    }

    /// A session that is not logged in and remembers nothing.
    pub fn new() -> (r: ApiHandler)
        ensures
            r.cached() == Map::<(i32, i32), Seq<Seq<TaskDataWithIdView>>>::empty(),
            r.token() is None,
    {
        let r = ApiHandler { auth_token: None, cached_calendar_tasks: HashMap::new() };
        assert(r.cached() =~= Map::<(i32, i32), Seq<Seq<TaskDataWithIdView>>>::empty());
        r
    }

    /// Keeps the token that the service gave at login.
    pub fn set_auth_token(&mut self, token: String)
        ensures
            final(self).token() == Some(token@),
            final(self).cached() == old(self).cached(),
    {
        self.auth_token = Some(token);
    }

    /// The token to send with a request, where the session has one.
    pub fn expect_auth_token(&self) -> (r: Option<String>)
        ensures
            r.deep_view() == self.token(),
    {
        match &self.auth_token {
            Some(token) => Some(token.clone()),
            None => None,
        }
    }

    /// A read of a month's tasks, as far as memory can answer it: the
    /// remembered month under `PreferCache` if there is one. `None` says that
    /// the service is to be asked; what it lists goes to
    /// `store_calendar_tasks`.
    pub fn fetch_calendar_tasks(&self, year: i32, month: i32, cache_type: CacheType) -> (r: Option<
        CalendarTasks,
    >)
        ensures
            r.deep_view() == fetch_choice(self.cached(), year, month, cache_type),
    {
        if !cache_type.prefer_cache() {
            return None;
        }
        let key = month_key_of(year, month);
        match self.cached_calendar_tasks.get(&key) {
            Some(cached) => Some(cached.clone()),
            None => None,
        }
    }

    /// A read of a day's tasks, as far as memory can answer it: the day's
    /// slot of the remembered month, empty where the month has none for the
    /// day. `None` says that the service is to be asked for the month.
    pub fn fetch_tasks_at_date(&self, date: &RicalDate, cache_type: CacheType) -> (r: Option<
        Vec<TaskDataWithId>,
    >)
        requires
            date.month <= i32::MAX,
        ensures
            r.deep_view() == match fetch_choice(
                self.cached(),
                date.year,
                date.month as i32,
                cache_type,
            ) {
                Some(month) => Some(crate::types::day_slot(month, date.day as int)),
                None => None,
            },
    {
        match self.fetch_calendar_tasks(date.year, date.month as i32, cache_type) {
            Some(calendar_tasks) => Some(calendar_tasks.tasks_at_day(date.day)),
            None => None,
        }
    }

    /// Remembers a month as the service listed it, in place of what was
    /// remembered of that month, and gives the month back.
    pub fn store_calendar_tasks(
        &mut self,
        year: i32,
        month: i32,
        calendar_tasks: CalendarTasks,
    ) -> (r: CalendarTasks)
        ensures
            final(self).cached() == old(self).cached().insert((year, month), calendar_tasks@),
            final(self).token() == old(self).token(),
            r@ == calendar_tasks@,
    {
        let key = month_key_of(year, month);
        let copy = calendar_tasks.clone();
        self.cached_calendar_tasks.insert(key, calendar_tasks);
        proof {
            assert forall|k: (i32, i32)| #[trigger]
                final(self).cached().contains_key(k) == old(self).cached().insert(
                    (year, month),
                    calendar_tasks@,
                ).contains_key(k) by {
                lemma_month_key_injective(year, month, k.0, k.1);
            }
            assert forall|k: (i32, i32)| #[trigger]
                final(self).cached().contains_key(k) implies final(self).cached()[k] == old(
                self,
            ).cached().insert((year, month), calendar_tasks@)[k] by {
                lemma_month_key_injective(year, month, k.0, k.1);
            }
            assert(final(self).cached() =~= old(self).cached().insert(
                (year, month),
                calendar_tasks@,
            ));
        }
        copy
    }

    /// Remembers several months at once, each in place of what was
    /// remembered of it.
    pub fn store_all(&mut self, months: Vec<FetchedMonth>)
        ensures
            final(self).cached() == with_months(old(self).cached(), months@),
            final(self).token() == old(self).token(),
    {
        let mut i: usize = 0;
        while i < months.len()
            invariant
                i <= months.len(),
                self.token() == old(self).token(),
                self.cached() == with_months(old(self).cached(), months@.subrange(0, i as int)),
            decreases months.len() - i,
        {
            let entry = &months[i];
            assert(months@.subrange(0, i + 1).drop_last() =~= months@.subrange(0, i as int));
            self.store_calendar_tasks(entry.year, entry.month, entry.tasks.clone());
            i += 1;
        }
        assert(months@.subrange(0, months.len() as int) =~= months@);
    }

    /// The months to fetch again after the service took in a new task: the
    /// month of the task.
    pub fn post_new_task(task: &TaskData) -> (r: Vec<(i32, i32)>)
        ensures
            r@ == seq![(task.year, task.month)],
    {
        let mut months: Vec<(i32, i32)> = Vec::new();
        months.push((task.year, task.month));
        months
    }

    /// The months to fetch again after the service took out a task: the
    /// month in which the task stood.
    pub fn delete_task(task: &TaskDataWithId) -> (r: Vec<(i32, i32)>)
        ensures
            r@ == seq![(task.year, task.month)],
    {
        let mut months: Vec<(i32, i32)> = Vec::new();
        months.push((task.year, task.month));
        months
    }

    /// What follows when the service has changed a task and answered with
    /// the task as it stood before: the month in which it stood is to be
    /// fetched again, and the month in which it stands now if that is
    /// another; and the task's date has changed where year, month or day
    /// differ.
    pub fn update_task(previous: &TaskData, task: &TaskDataWithId) -> (r: UpdateOutcome)
        ensures
            r.refresh@ == months_after_update(previous@, task@.data),
            r.date_changed == date_changed(previous@, task@.data),
    {
        let mut refresh: Vec<(i32, i32)> = Vec::new();
        refresh.push((previous.year, previous.month));
        let calendar_frame_changed = previous.year != task.year || previous.month != task.month;
        if calendar_frame_changed {
            refresh.push((task.year, task.month));
        }
        let date_changed = calendar_frame_changed || previous.day != task.day;
        UpdateOutcome { refresh, date_changed }
    }

    /// The months to fetch again after the service has set a task's tick the
    /// other way: those of `update_task`, and then the task's own month once
    /// more.
    pub fn months_after_toggle(previous: &TaskData, task: &TaskDataWithId) -> (r: Vec<(i32, i32)>)
        ensures
            r@ == months_after_update(previous@, task@.data).push((task.year, task.month)),
    {
        let mut refresh = ApiHandler::update_task(previous, task).refresh;
        refresh.push((task.year, task.month));
        refresh
    }

    /// The task with its tick set the other way: what is sent to the service
    /// to tick a task off, or to take the tick back.
    pub fn toggle_completed(task: &TaskDataWithId) -> (r: TaskDataWithId)
        ensures
            r@ == (TaskDataWithIdView {
                data: TaskDataView { complete: !task.complete, ..task@.data },
                ..task@
            }),
    {
        let mut updated = task.clone();
        updated.complete = !updated.complete;
        updated
    }
}

/// A month that was fetched again is read from memory from then on: after
/// the month's tasks were stored, a read that prefers memory answers with
/// exactly those tasks and does not ask the service, and a read of any other
/// month answers as before.
pub proof fn lemma_stored_month_is_served(
    cached: CachedMonths,
    year: i32,
    month: i32,
    tasks: Seq<Seq<TaskDataWithIdView>>,
    other_year: i32,
    other_month: i32,
    cache_type: CacheType,
)
    ensures
        fetch_choice(cached.insert((year, month), tasks), year, month, CacheType::PreferCache)
            == Some(tasks),
        fetch_choice(cached, year, month, CacheType::Refresh) is None,
        (other_year, other_month) != (year, month) ==> fetch_choice(
            cached.insert((year, month), tasks),
            other_year,
            other_month,
            cache_type,
        ) == fetch_choice(cached, other_year, other_month, cache_type),
{
}

/// Whatever an edit did to a task, the month in which the task stood and
/// the month in which it stands are both fetched again, and no other month.
pub proof fn lemma_update_refreshes_the_months_of_the_task(
    previous: TaskDataView,
    updated: TaskDataView,
)
    ensures
        months_after_update(previous, updated).contains((previous.year, previous.month)),
        months_after_update(previous, updated).contains((updated.year, updated.month)),
        forall|key: (i32, i32)| #[trigger]
            months_after_update(previous, updated).contains(key) ==> key == (
                previous.year,
                previous.month,
            ) || key == (updated.year, updated.month),
        date_changed(previous, updated) <==> (previous.year, previous.month, previous.day) != (
            updated.year,
            updated.month,
            updated.day,
        ),
{
    let months = months_after_update(previous, updated);
    assert(months[0] == (previous.year, previous.month));
    if previous.year != updated.year || previous.month != updated.month {
        assert(months[1] == (updated.year, updated.month));
    }
}

/// A task that an edit moved to another month has both months fetched
/// again, the old one first, and its date is reported as changed; once both
/// are stored, memory holds for each what the service listed.
pub proof fn lemma_moved_task_refreshes_both_months(
    cached: CachedMonths,
    previous: TaskDataView,
    updated: TaskDataView,
    fetched: Seq<FetchedMonth>,
)
    requires
        previous.year != updated.year || previous.month != updated.month,
        fetched.len() == 2,
        (fetched[0].year, fetched[0].month) == (previous.year, previous.month),
        (fetched[1].year, fetched[1].month) == (updated.year, updated.month),
    ensures
        months_after_update(previous, updated) == seq![
            (previous.year, previous.month),
            (updated.year, updated.month),
        ],
        date_changed(previous, updated),
        with_months(cached, fetched)[(previous.year, previous.month)] == fetched[0].tasks@,
        with_months(cached, fetched)[(updated.year, updated.month)] == fetched[1].tasks@,
        with_months(cached, fetched).dom() == cached.dom().insert(
            (previous.year, previous.month),
        ).insert((updated.year, updated.month)),
{
    reveal_with_fuel(with_months, 3);
    assert(fetched.drop_last().drop_last().len() == 0);
    assert(fetched.drop_last().last() == fetched[0]);
    assert(with_months(cached, fetched).dom() =~= cached.dom().insert(
        (previous.year, previous.month),
    ).insert((updated.year, updated.month)));
}

/// What went wrong with a request to the service, as far as the program
/// tells it apart: the kind of failure, and for an answer with a failing
/// status the status as a text.
#[derive(Debug, PartialEq, Eq)]
pub struct RequestFailure {
    pub is_timeout: bool,
    pub is_connect: bool,
    pub is_request: bool,
    pub is_body: bool,
    pub is_status: bool,
    pub status: String,
}

/// The text of `display_error`.
pub open spec fn failure_text(
    is_timeout: bool,
    is_connect: bool,
    is_request: bool,
    is_body: bool,
    is_status: bool,
    status: Seq<char>,
) -> Seq<char> {
    if is_timeout {
        "Request timed out"@
    } else if is_connect {
        "Could not connect to the server"@
    } else if is_request {
        "Invalid request"@
    } else if is_body {
        "Invalid request body"@
    } else if is_status {
        status
    } else {
        "Unknown error"@
    }
}

/// A line that tells the user what went wrong with a request. The first
/// kind that applies decides: timed out, not connected, bad request, bad
/// body, then the failing status.
pub fn display_error(err: &RequestFailure) -> (r: String)
    ensures
        r@ == failure_text(
            err.is_timeout,
            err.is_connect,
            err.is_request,
            err.is_body,
            err.is_status,
            err.status@,
        ),
{
    if err.is_timeout {
        String::from_str("Request timed out")
    } else if err.is_connect {
        String::from_str("Could not connect to the server")
    } else if err.is_request {
        String::from_str("Invalid request")
    } else if err.is_body {
        String::from_str("Invalid request body")
    } else if err.is_status {
        err.status.clone()
    } else {
        String::from_str("Unknown error")
    }
}

} // verus!
