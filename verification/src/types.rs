//! Tasks as the task service stores them, and a month of tasks split by day.

use vstd::prelude::*;

verus! {

/// Most days that a month can have; a month of tasks has this many slots.
pub const MAX_DAYS_PER_MONTH: usize = 31;

/// A task that the service has not stored yet, or the stored fields of one.
#[derive(Debug, PartialEq, Eq)]
pub struct TaskData {
    pub year: i32,
    pub month: i32,
    pub day: i32,
    pub start_min: Option<i32>,
    pub end_min: Option<i32>,
    pub title: String,
    pub description: Option<String>,
    pub complete: bool,
}

/// The number under which the service stores a task.
#[derive(Clone, Copy, Debug, PartialEq, Eq, Structural)]
pub struct TaskId {
    pub task_id: i64,
}

/// A stored task.
#[derive(Debug, PartialEq, Eq)]
pub struct TaskDataWithId {
    pub year: i32,
    pub month: i32,
    pub day: i32,
    pub start_min: Option<i32>,
    pub end_min: Option<i32>,
    pub title: String,
    pub description: Option<String>,
    pub complete: bool,
    pub task_id: i64,
}

/// The tasks of one month: slot `d - 1` holds those of day `d`, in order.
#[derive(Debug, PartialEq, Eq)]
pub struct CalendarTasks {
    pub days: Vec<Vec<TaskDataWithId>>,
}

/// What a `TaskData` holds.
pub struct TaskDataView {
    pub year: i32,
    pub month: i32,
    pub day: i32,
    pub start_min: Option<i32>,
    pub end_min: Option<i32>,
    pub title: Seq<char>,
    pub description: Option<Seq<char>>,
    pub complete: bool,
}

/// What a `TaskDataWithId` holds.
pub struct TaskDataWithIdView {
    pub data: TaskDataView,
    pub task_id: i64,
}

impl DeepView for TaskData {
    type V = TaskDataView;

    open spec fn deep_view(&self) -> TaskDataView {
        TaskDataView {
            year: self.year,
            month: self.month,
            day: self.day,
            start_min: self.start_min,
            end_min: self.end_min,
            title: self.title@,
            description: self.description.deep_view(),
            complete: self.complete,
        }
    }
}

impl View for TaskData {
    type V = TaskDataView;

    open spec fn view(&self) -> TaskDataView {
        self.deep_view()
    }
}

impl DeepView for TaskDataWithId {
    type V = TaskDataWithIdView;

    open spec fn deep_view(&self) -> TaskDataWithIdView {
        TaskDataWithIdView {
            data: TaskDataView {
                year: self.year,
                month: self.month,
                day: self.day,
                start_min: self.start_min,
                end_min: self.end_min,
                title: self.title@,
                description: self.description.deep_view(),
                complete: self.complete,
            },
            task_id: self.task_id,
        }
    }
}

impl View for TaskDataWithId {
    type V = TaskDataWithIdView;

    open spec fn view(&self) -> TaskDataWithIdView {
        self.deep_view()
    }
}

impl DeepView for CalendarTasks {
    type V = Seq<Seq<TaskDataWithIdView>>;

    open spec fn deep_view(&self) -> Seq<Seq<TaskDataWithIdView>> {
        self.days.deep_view()
    }
}

impl View for CalendarTasks {
    type V = Seq<Seq<TaskDataWithIdView>>;

    open spec fn view(&self) -> Seq<Seq<TaskDataWithIdView>> {
        self.deep_view()
    }
}

impl TaskDataView {
    /// Whether the task is one that the service stores: its month is one of
    /// the twelve and its day one of 1 to 31, a start or end is a minute of
    /// the day, and a task with an end has a start.
    pub open spec fn storable(self) -> bool {
        &&& 1 <= self.month <= 12
        &&& 1 <= self.day <= 31
        &&& self.start_min matches Some(start) ==> 0 <= start < 1440
        &&& self.end_min matches Some(end) ==> 0 <= end < 1440
        &&& self.end_min is Some ==> self.start_min is Some
    }
}

fn is_minute_of_day(minute: Option<i32>) -> (r: bool)
    ensures
        r == (minute matches Some(m) ==> 0 <= m < 1440),
{
    match minute {
        Some(m) => 0 <= m && m < 1440,
        None => true,
    }
}

impl TaskData {
    /// Tests `storable`.
    pub fn is_storable(&self) -> (r: bool)
        ensures
            r == self@.storable(),
    {
        1 <= self.month && self.month <= 12 && 1 <= self.day && self.day <= 31
            && is_minute_of_day(self.start_min) && is_minute_of_day(self.end_min) && (
        self.end_min.is_none() || self.start_min.is_some())
    }
}

/// A copy of an optional text.
pub fn clone_opt_string(text: &Option<String>) -> (r: Option<String>)
    ensures
        r.deep_view() == text.deep_view(),
{
    match text {
        Some(t) => Some(t.clone()),
        None => None,
    }
}

impl Clone for TaskData {
    fn clone(&self) -> (r: Self)
        ensures
            r@ == self@,
    {
        TaskData {
            year: self.year,
            month: self.month,
            day: self.day,
            start_min: self.start_min,
            end_min: self.end_min,
            title: self.title.clone(),
            description: clone_opt_string(&self.description),
            complete: self.complete,
        }
    }
}

impl Clone for TaskDataWithId {
    fn clone(&self) -> (r: Self)
        ensures
            r@ == self@,
    {
        TaskDataWithId {
            year: self.year,
            month: self.month,
            day: self.day,
            start_min: self.start_min,
            end_min: self.end_min,
            title: self.title.clone(),
            description: clone_opt_string(&self.description),
            complete: self.complete,
            task_id: self.task_id,
        }
    }
}

/// A copy of a list of tasks.
pub fn clone_tasks(tasks: &Vec<TaskDataWithId>) -> (r: Vec<TaskDataWithId>)
    ensures
        r.deep_view() == tasks.deep_view(),
{
    let mut out: Vec<TaskDataWithId> = Vec::new();
    let mut i: usize = 0;
    while i < tasks.len()
        invariant
            i <= tasks.len(),
            out@.len() == i,
            forall|k: int| 0 <= k < i ==> out@[k]@ == tasks@[k]@,
        decreases tasks.len() - i,
    {
        out.push(tasks[i].clone());
        i += 1;
    }
    assert(out.deep_view() =~= tasks.deep_view());
    out
}

impl Clone for CalendarTasks {
    fn clone(&self) -> (r: Self)
        ensures
            r@ == self@,
    {
        let mut days: Vec<Vec<TaskDataWithId>> = Vec::new();
        let mut i: usize = 0;
        while i < self.days.len()
            invariant
                i <= self.days.len(),
                days@.len() == i,
                forall|k: int| 0 <= k < i ==> days@[k].deep_view() == self.days@[k].deep_view(),
            decreases self.days.len() - i,
        {
            days.push(clone_tasks(&self.days[i]));
            i += 1;
        }
        assert(days.deep_view() =~= self.days.deep_view());
        CalendarTasks { days }
    }
}

impl TaskDataWithId {
    /// How long the task lasts, where it has both a start and an end.
    pub fn duration_mins(&self) -> (r: Option<i32>)
        requires
            self.start_min is Some && self.end_min is Some ==> i32::MIN <= self.end_min->0
                - self.start_min->0 <= i32::MAX,
        ensures
            r == if self.start_min is Some && self.end_min is Some {
                Some((self.end_min->0 - self.start_min->0) as i32)
            } else {
                None
            },
    {
        match (self.start_min, self.end_min) {
            (Some(start), Some(end)) => Some(end - start),
            _ => None,
        }
    }

    /// The task's fields without its number.
    pub fn without_id(&self) -> (r: TaskData)
        ensures
            r@ == self@.data,
    {
        TaskData {
            year: self.year,
            month: self.month,
            day: self.day,
            start_min: self.start_min,
            end_min: self.end_min,
            title: self.title.clone(),
            description: clone_opt_string(&self.description),
            complete: self.complete,
        }
    }
}

/// The tasks of a list that fall on one day of the month, in the order of
/// the list.
pub open spec fn tasks_on_day(tasks: Seq<TaskDataWithIdView>, day: int) -> Seq<
    TaskDataWithIdView,
>
    decreases tasks.len(),
{
    if tasks.len() == 0 {
        Seq::empty()
    } else if tasks.last().data.day == day {
        tasks_on_day(tasks.drop_last(), day).push(tasks.last())
    } else {
        tasks_on_day(tasks.drop_last(), day)
    }
}

/// Whether `month` is the list of tasks split by day: one slot for each of
/// the 31 possible days, slot `d - 1` with the tasks of day `d`.
pub open spec fn is_split_by_day(
    month: Seq<Seq<TaskDataWithIdView>>,
    tasks: Seq<TaskDataWithIdView>,
) -> bool {
    &&& month.len() == MAX_DAYS_PER_MONTH
    &&& forall|slot: int| 0 <= slot < month.len() ==> #[trigger] month[slot] == tasks_on_day(
        tasks,
        slot + 1,
    )
}

/// Whether the day of every task is one of 1 to 31.
pub fn days_fit(tasks: &Vec<TaskDataWithId>) -> (r: bool)
    ensures
        r == forall|i: int| 0 <= i < tasks@.len() ==> 1 <= (#[trigger] tasks@[i]).day <= 31,
{
    let mut i: usize = 0;
    while i < tasks.len()
        invariant
            i <= tasks@.len(),
            forall|k: int| 0 <= k < i ==> 1 <= (#[trigger] tasks@[k]).day <= 31,
        decreases tasks.len() - i,
    {
        if tasks[i].day < 1 || tasks[i].day > 31 {
            return false;
        }
        i += 1;
    }
    true
}

/// Splits the tasks of a month by day. Each task goes to the slot of its
/// day; tasks of one day keep their order.
pub fn split_by_day(tasks: &Vec<TaskDataWithId>) -> (r: CalendarTasks)
    requires
        forall|i: int| 0 <= i < tasks@.len() ==> 1 <= (#[trigger] tasks@[i]).day <= 31,
    ensures
        is_split_by_day(r@, tasks.deep_view()),
{
    let mut days: Vec<Vec<TaskDataWithId>> = Vec::new();
    let mut slot: usize = 0;
    while slot < MAX_DAYS_PER_MONTH
        invariant
            slot <= MAX_DAYS_PER_MONTH,
            days@.len() == slot,
            forall|k: int| 0 <= k < slot ==> (#[trigger] days@[k])@.len() == 0,
        decreases MAX_DAYS_PER_MONTH - slot,
    {
        days.push(Vec::new());
        slot += 1;
    }
    let mut i: usize = 0;
    while i < tasks.len()
        invariant
            i <= tasks.len(),
            days@.len() == MAX_DAYS_PER_MONTH,
            forall|k: int| 0 <= k < tasks@.len() ==> 1 <= (#[trigger] tasks@[k]).day <= 31,
            forall|k: int|
                0 <= k < MAX_DAYS_PER_MONTH ==> (#[trigger] days@[k]).deep_view() == tasks_on_day(
                    tasks.deep_view().subrange(0, i as int),
                    k + 1,
                ),
        decreases tasks.len() - i,
    {
        let task = tasks[i].clone();
        let index = (task.day - 1) as usize;
        let ghost before = days@;
        let ghost seen = tasks.deep_view().subrange(0, i as int);
        let ghost next = tasks.deep_view().subrange(0, i + 1);
        assert(next.drop_last() =~= seen);
        assert(next.last() == task@);
        days[index].push(task);
        assert forall|k: int| 0 <= k < MAX_DAYS_PER_MONTH implies (#[trigger] days@[k]).deep_view()
            == tasks_on_day(next, k + 1) by {
            if k == index {
                assert(days@[k].deep_view() =~= before[k].deep_view().push(task@));
            } else {
                assert(days@[k] == before[k]);
            }
        }
        i += 1;
    }
    assert(tasks.deep_view().subrange(0, tasks.len() as int) =~= tasks.deep_view());
    let month = CalendarTasks { days };
    assert(month@.len() == MAX_DAYS_PER_MONTH);
    assert forall|slot: int| 0 <= slot < month@.len() implies #[trigger] month@[slot]
        == tasks_on_day(tasks.deep_view(), slot + 1) by {
        assert(month@[slot] == month.days@[slot].deep_view());
    }
    month
}

/// The tasks of one day of a month of tasks: slot `day - 1`, and nothing
/// where the month has no such slot.
pub open spec fn day_slot(month: Seq<Seq<TaskDataWithIdView>>, day: int) -> Seq<
    TaskDataWithIdView,
> {
    if 1 <= day <= month.len() {
        month[day - 1]
    } else {
        Seq::empty()
    }
}

impl CalendarTasks {
    /// A copy of the tasks of one day; empty where the month holds none for
    /// it.
    pub fn tasks_at_day(&self, day: u32) -> (r: Vec<TaskDataWithId>)
        ensures
            r.deep_view() == day_slot(self@, day as int),
    {
        if 1 <= day && day as usize <= self.days.len() {
            let tasks = clone_tasks(&self.days[day as usize - 1]);
            assert(self@[day - 1] == self.days@[day - 1].deep_view());
            tasks
        } else {
            let tasks: Vec<TaskDataWithId> = Vec::new();
            assert(tasks.deep_view() =~= Seq::empty());
            tasks
        }
    }
}

} // verus!
