//! The state of the program's screens, as values that the event handlers
//! take and give back.

use crate::date::RicalDate;
use crate::gregorian::date_exists;
use crate::types::{TaskData, TaskDataView, TaskDataWithId, TaskDataWithIdView};
use vstd::prelude::*;

verus! {

/// The whole state: which screen is shown, and what it holds.
#[derive(Debug, PartialEq, Eq)]
pub struct RicalState {
    pub screen_state: ScreenState,
}

/// The screens.
#[derive(Debug, PartialEq, Eq)]
pub enum ScreenState {
    Calendar(CalendarState),
    Menu(MenuState),
    ShouldQuit,
}

/// The pages of the menu.
#[derive(Debug, PartialEq, Eq)]
pub enum MenuState {
    MainMenu,
    About,
    Login(FormState<2>),
    Signup(FormState<3>),
}

/// A line of text under edit: its characters, and the position of the
/// cursor counted in characters from the left.
#[derive(Debug, PartialEq, Eq)]
pub struct TextInputState {
    pub cursor_pos: usize,
    pub contents: String,
}

/// A form of `N` fields. `form_pos` is the field that has the focus. While
/// `error_message` holds lines, they are shown in place of the fields.
#[derive(Debug, PartialEq, Eq)]
pub struct FormState<const N: usize> {
    pub form_pos: usize,
    pub fields: Vec<TextInputState>,
    pub error_message: Option<Vec<String>>,
}

/// Which half of the calendar screen takes the keys.
#[derive(Clone, Copy, Debug, PartialEq, Eq, Structural)]
pub enum CalendarPane {
    Month,
    Tasks,
}

/// A task under edit.
#[derive(Debug, PartialEq, Eq)]
pub struct EditTaskState {
    pub task_id: i64,
    pub form: FormState<8>,
}

/// The calendar screen: the selected day, the selected task of that day if
/// any, and the form that lies over the calendar if one is open.
#[derive(Debug, PartialEq, Eq)]
pub struct CalendarState {
    pub year: i32,
    pub month: u32,
    pub day: u32,
    pub task_id: Option<i64>,
    pub pane: CalendarPane,
    pub making_new_task: Option<FormState<4>>,
    pub editing_task: Option<EditTaskState>,
}

/// What a `TextInputState` holds.
pub struct TextInputView {
    pub cursor_pos: usize,
    pub contents: Seq<char>,
}

/// What a `FormState` holds.
pub struct FormView {
    pub form_pos: usize,
    pub fields: Seq<TextInputView>,
    pub error_message: Option<Seq<Seq<char>>>,
}

/// What an `EditTaskState` holds.
pub struct EditTaskView {
    pub task_id: i64,
    pub form: FormView,
}

/// What a `CalendarState` holds.
pub struct CalendarView {
    pub year: i32,
    pub month: u32,
    pub day: u32,
    pub task_id: Option<i64>,
    pub pane: CalendarPane,
    pub making_new_task: Option<FormView>,
    pub editing_task: Option<EditTaskView>,
}

/// What a `MenuState` holds.
pub enum MenuView {
    MainMenu,
    About,
    Login(FormView),
    Signup(FormView),
}

/// What a `ScreenState` holds.
pub enum ScreenView {
    Calendar(CalendarView),
    Menu(MenuView),
    ShouldQuit,
}

impl View for TextInputState {
    type V = TextInputView;

    open spec fn view(&self) -> TextInputView {
        TextInputView { cursor_pos: self.cursor_pos, contents: self.contents@ }
    }
}

impl DeepView for TextInputState {
    type V = TextInputView;

    open spec fn deep_view(&self) -> TextInputView {
        self@
    }
}

impl TextInputView {
    /// The cursor stands in the text or at its end.
    pub open spec fn wf(self) -> bool {
        self.cursor_pos <= self.contents.len()
    }

    /// A text with the cursor behind its last character.
    pub open spec fn at_end(contents: Seq<char>) -> TextInputView {
        TextInputView { cursor_pos: contents.len() as usize, contents }
    }
}

impl TextInputState {
    /// The cursor stands in the text or at its end.
    pub open spec fn wf(&self) -> bool {
        self@.wf()
    }

    /// Tests `wf`.
    pub fn is_wf(&self) -> (r: bool)
        ensures
            r == self.wf(),
    {
        self.cursor_pos <= self.contents.as_str().unicode_len()
    }

    /// An empty line.
    pub fn new() -> (r: TextInputState)
        ensures
            r@ == TextInputView::at_end(Seq::empty()),
            r.wf(),
    {
        TextInputState { cursor_pos: 0, contents: String::new() }
    }

    /// A line that holds `contents`, the cursor behind its last character.
    pub fn from_contents(contents: String) -> (r: TextInputState)
        ensures
            r@ == TextInputView::at_end(contents@),
            r.wf(),
    {
        TextInputState { cursor_pos: contents.as_str().unicode_len(), contents }
    }
}

impl Clone for TextInputState {
    fn clone(&self) -> (r: Self)
        ensures
            r@ == self@,
    {
        TextInputState { cursor_pos: self.cursor_pos, contents: self.contents.clone() }
    }
}

/// A copy of the fields of a form.
pub fn clone_fields(fields: &Vec<TextInputState>) -> (r: Vec<TextInputState>)
    ensures
        r.deep_view() == fields.deep_view(),
{
    let mut out: Vec<TextInputState> = Vec::new();
    let mut i: usize = 0;
    while i < fields.len()
        invariant
            i <= fields.len(),
            out@.len() == i,
            forall|k: int| 0 <= k < i ==> out@[k]@ == fields@[k]@,
        decreases fields.len() - i,
    {
        out.push(fields[i].clone());
        i += 1;
    }
    assert(out.deep_view() =~= fields.deep_view());
    out
}

/// A copy of some lines of text.
pub fn clone_lines(lines: &Vec<String>) -> (r: Vec<String>)
    ensures
        r.deep_view() == lines.deep_view(),
{
    let mut out: Vec<String> = Vec::new();
    let mut i: usize = 0;
    while i < lines.len()
        invariant
            i <= lines.len(),
            out@.len() == i,
            forall|k: int| 0 <= k < i ==> out@[k]@ == lines@[k]@,
        decreases lines.len() - i,
    {
        out.push(lines[i].clone());
        i += 1;
    }
    assert(out.deep_view() =~= lines.deep_view());
    out
}

/// `count` empty lines.
pub fn empty_fields(count: usize) -> (r: Vec<TextInputState>)
    ensures
        r.deep_view() == Seq::new(count as nat, |i: int| TextInputView::at_end(Seq::empty())),
{
    let mut out: Vec<TextInputState> = Vec::new();
    let mut i: usize = 0;
    while i < count
        invariant
            i <= count,
            out@.len() == i,
            forall|k: int| 0 <= k < i ==> out@[k]@ == TextInputView::at_end(Seq::empty()),
        decreases count - i,
    {
        out.push(TextInputState::new());
        i += 1;
    }
    assert(out.deep_view() =~= Seq::new(
        count as nat,
        |i: int| TextInputView::at_end(Seq::empty()),
    ));
    out
}

impl<const N: usize> View for FormState<N> {
    type V = FormView;

    open spec fn view(&self) -> FormView {
        FormView {
            form_pos: self.form_pos,
            fields: self.fields.deep_view(),
            error_message: self.error_message.deep_view(),
        }
    }
}

impl FormView {
    /// The form has `count` fields, the focus is on one of them, and the
    /// cursor of each stands in its text.
    pub open spec fn wf(self, count: int) -> bool {
        &&& self.fields.len() == count
        &&& self.form_pos < count
        &&& forall|i: int| 0 <= i < self.fields.len() ==> (#[trigger] self.fields[i]).wf()
    }

    /// A form of `count` empty fields with the focus on the first.
    pub open spec fn blank(count: int) -> FormView {
        FormView {
            form_pos: 0,
            fields: Seq::new(count as nat, |i: int| TextInputView::at_end(Seq::empty())),
            error_message: None,
        }
    }

    /// A form that shows a message over `count` empty fields.
    pub open spec fn message(count: int, lines: Seq<Seq<char>>) -> FormView {
        FormView { error_message: Some(lines), ..FormView::blank(count) }
    }

    /// The form with a message shown over its fields, which stay as they
    /// are.
    pub open spec fn with_message(self, lines: Seq<Seq<char>>) -> FormView {
        FormView { error_message: Some(lines), ..self }
    }
}

impl<const N: usize> FormState<N> {
    /// The form has its `N` fields, the focus is on one of them, and the
    /// cursor of each stands in its text.
    pub open spec fn wf(&self) -> bool {
        self@.wf(N as int)
    }

    /// Tests `wf`.
    pub fn is_wf(&self) -> (r: bool)
        ensures
            r == self.wf(),
    {
        if self.fields.len() != N || self.form_pos >= N {
            return false;
        }
        let mut i: usize = 0;
        while i < self.fields.len()
            invariant
                i <= self.fields@.len(),
                self.fields@.len() == N,
                self.form_pos < N,
                forall|k: int| 0 <= k < i ==> (#[trigger] self@.fields[k]).wf(),
            decreases self.fields.len() - i,
        {
            assert(self@.fields[i as int] == self.fields@[i as int]@);
            if !self.fields[i].is_wf() {
                return false;
            }
            i += 1;
        }
        true
    }

    /// A form of empty fields with the focus on the first.
    pub fn new() -> (r: FormState<N>)
        ensures
            r@ == FormView::blank(N as int),
            N > 0 ==> r.wf(),
    {
        FormState { form_pos: 0, fields: empty_fields(N), error_message: None }
    }

    /// A form whose fields hold the given texts, each cursor behind the last
    /// character, with the focus on field `form_pos`.
    pub fn from_field_contents(form_pos: usize, contents: [String; N]) -> (r: FormState<N>)
        ensures
            r@ == (FormView {
                form_pos,
                fields: Seq::new(N as nat, |i: int| TextInputView::at_end(contents@[i]@)),
                error_message: None,
            }),
            form_pos < N ==> r.wf(),
    {
        let mut fields: Vec<TextInputState> = Vec::new();
        let mut i: usize = 0;
        while i < N
            invariant
                i <= N,
                fields@.len() == i,
                forall|k: int| 0 <= k < i ==> fields@[k]@ == TextInputView::at_end(contents@[k]@),
            decreases N - i,
        {
            fields.push(TextInputState::from_contents(contents[i].clone()));
            i += 1;
        }
        assert(fields.deep_view() =~= Seq::new(
            N as nat,
            |i: int| TextInputView::at_end(contents@[i]@),
        ));
        FormState { form_pos, fields, error_message: None }
    }

    /// A form that shows the lines of a message in place of its fields.
    pub fn from_result_message(lines: Vec<String>) -> (r: FormState<N>)
        ensures
            r@ == FormView::message(N as int, lines.deep_view()),
            N > 0 ==> r.wf(),
    {
        FormState { form_pos: 0, fields: empty_fields(N), error_message: Some(lines) }
    }
}

impl<const N: usize> FormState<N> {
    /// The form with a message shown over its fields. The fields keep what
    /// they hold, and the focus stays where it is.
    pub fn with_message(&self, lines: Vec<String>) -> (r: FormState<N>)
        ensures
            r@ == self@.with_message(lines.deep_view()),
            self.wf() ==> r.wf(),
    {
        FormState {
            form_pos: self.form_pos,
            fields: clone_fields(&self.fields),
            error_message: Some(lines),
        }
    }
}

impl<const N: usize> Clone for FormState<N> {
    fn clone(&self) -> (r: Self)
        ensures
            r@ == self@,
    {
        let error_message = match &self.error_message {
            Some(lines) => Some(clone_lines(lines)),
            None => None,
        };
        FormState { form_pos: self.form_pos, fields: clone_fields(&self.fields), error_message }
    }
}

impl View for EditTaskState {
    type V = EditTaskView;

    open spec fn view(&self) -> EditTaskView {
        EditTaskView { task_id: self.task_id, form: self.form@ }
    }
}

impl Clone for EditTaskState {
    fn clone(&self) -> (r: Self)
        ensures
            r@ == self@,
    {
        EditTaskState { task_id: self.task_id, form: self.form.clone() }
    }
}

impl View for CalendarState {
    type V = CalendarView;

    open spec fn view(&self) -> CalendarView {
        CalendarView {
            year: self.year,
            month: self.month,
            day: self.day,
            task_id: self.task_id,
            pane: self.pane,
            making_new_task: match self.making_new_task {
                Some(form) => Some(form@),
                None => None,
            },
            editing_task: match self.editing_task {
                Some(edit) => Some(edit@),
                None => None,
            },
        }
    }
}

impl CalendarView {
    /// The selected day exists, and the forms that are open are well formed.
    pub open spec fn wf(self) -> bool {
        &&& date_exists(self.year as int, self.month as int, self.day as int)
        &&& self.making_new_task matches Some(form) ==> form.wf(4)
        &&& self.editing_task matches Some(edit) ==> edit.form.wf(8)
    }

    /// The calendar as it opens: the month pane, no task selected, no form.
    pub open spec fn opening() -> CalendarView {
        CalendarView {
            year: 2025,
            month: 8,
            day: 5,
            task_id: None,
            pane: CalendarPane::Month,
            making_new_task: None,
            editing_task: None,
        }
    }
}

impl CalendarState {
    /// The selected day exists, and the forms that are open are well formed.
    pub open spec fn wf(&self) -> bool {
        self@.wf()
    }

    /// Tests `wf`.
    pub fn is_wf(&self) -> (r: bool)
        ensures
            r == self.wf(),
    {
        let date = RicalDate { year: self.year, month: self.month, day: self.day };
        date.is_wf() && (match &self.making_new_task {
            Some(form) => form.is_wf(),
            None => true,
        }) && (match &self.editing_task {
            Some(edit) => edit.form.is_wf(),
            None => true,
        })
    }

    /// The calendar as it opens.
    pub fn new() -> (r: CalendarState)
        ensures
            r@ == CalendarView::opening(),
            r.wf(),
    {
        CalendarState {
            year: 2025,
            month: 8,
            day: 5,
            task_id: None,
            pane: CalendarPane::Month,
            making_new_task: None,
            editing_task: None,
        }
    }
}

impl Clone for CalendarState {
    fn clone(&self) -> (r: Self)
        ensures
            r@ == self@,
    {
        let making_new_task = match &self.making_new_task {
            Some(form) => Some(form.clone()),
            None => None,
        };
        let editing_task = match &self.editing_task {
            Some(edit) => Some(edit.clone()),
            None => None,
        };
        CalendarState {
            year: self.year,
            month: self.month,
            day: self.day,
            task_id: self.task_id,
            pane: self.pane,
            making_new_task,
            editing_task,
        }
    }
}

impl View for MenuState {
    type V = MenuView;

    open spec fn view(&self) -> MenuView {
        match self {
            MenuState::MainMenu => MenuView::MainMenu,
            MenuState::About => MenuView::About,
            MenuState::Login(form) => MenuView::Login(form@),
            MenuState::Signup(form) => MenuView::Signup(form@),
        }
    }
}

impl MenuView {
    /// The form of the page, if it has one, is well formed.
    pub open spec fn wf(self) -> bool {
        match self {
            MenuView::Login(form) => form.wf(2),
            MenuView::Signup(form) => form.wf(3),
            _ => true,
        }
    }
}

impl MenuState {
    /// The form of the page, if it has one, is well formed.
    pub open spec fn wf(&self) -> bool {
        self@.wf()
    }

    /// Tests `wf`.
    pub fn is_wf(&self) -> (r: bool)
        ensures
            r == self.wf(),
    {
        match self {
            MenuState::Login(form) => form.is_wf(),
            MenuState::Signup(form) => form.is_wf(),
            _ => true,
        }
    }
}

impl Clone for MenuState {
    fn clone(&self) -> (r: Self)
        ensures
            r@ == self@,
    {
        match self {
            MenuState::MainMenu => MenuState::MainMenu,
            MenuState::About => MenuState::About,
            MenuState::Login(form) => MenuState::Login(form.clone()),
            MenuState::Signup(form) => MenuState::Signup(form.clone()),
        }
    }
}

impl View for ScreenState {
    type V = ScreenView;

    open spec fn view(&self) -> ScreenView {
        match self {
            ScreenState::Calendar(calendar) => ScreenView::Calendar(calendar@),
            ScreenState::Menu(menu) => ScreenView::Menu(menu@),
            ScreenState::ShouldQuit => ScreenView::ShouldQuit,
        }
    }
}

impl ScreenView {
    /// What the screen holds is well formed.
    pub open spec fn wf(self) -> bool {
        match self {
            ScreenView::Calendar(calendar) => calendar.wf(),
            ScreenView::Menu(menu) => menu.wf(),
            ScreenView::ShouldQuit => true,
        }
    }
}

impl ScreenState {
    /// What the screen holds is well formed.
    pub open spec fn wf(&self) -> bool {
        self@.wf()
    }

    /// Tests `wf`.
    pub fn is_wf(&self) -> (r: bool)
        ensures
            r == self.wf(),
    {
        match self {
            ScreenState::Calendar(calendar) => calendar.is_wf(),
            ScreenState::Menu(menu) => menu.is_wf(),
            ScreenState::ShouldQuit => true,
        }
    }
}

impl Clone for ScreenState {
    fn clone(&self) -> (r: Self)
        ensures
            r@ == self@,
    {
        match self {
            ScreenState::Calendar(calendar) => ScreenState::Calendar(calendar.clone()),
            ScreenState::Menu(menu) => ScreenState::Menu(menu.clone()),
            ScreenState::ShouldQuit => ScreenState::ShouldQuit,
        }
    }
}

impl View for RicalState {
    type V = ScreenView;

    open spec fn view(&self) -> ScreenView {
        self.screen_state@
    }
}

impl Clone for RicalState {
    fn clone(&self) -> (r: Self)
        ensures
            r@ == self@,
    {
        RicalState { screen_state: self.screen_state.clone() }
    }
}

/// What a handler of keys hands back: the next screen, or what is to be
/// asked of the task service before the next screen can be told.
#[derive(Debug, PartialEq, Eq)]
pub enum ScreenStep {
    /// The key is dealt with, and this is the screen after it.
    Done(ScreenState),
    /// The month's tasks are to be fetched and stored; the key is then
    /// handed in once more.
    FetchMonth { year: i32, month: i32 },
    /// The session is to log in.
    Login { username: String, password: String },
    /// An account is to be made.
    Signup { username: String, password: String },
    /// The task is to be stored as a new one.
    PostTask(TaskData),
    /// The stored task of this number is to be changed to these fields.
    UpdateTask(TaskDataWithId),
}

/// What a `ScreenStep` holds.
pub enum StepView {
    Done(ScreenView),
    FetchMonth { year: i32, month: i32 },
    Login { username: Seq<char>, password: Seq<char> },
    Signup { username: Seq<char>, password: Seq<char> },
    PostTask(TaskDataView),
    UpdateTask(TaskDataWithIdView),
}

impl View for ScreenStep {
    type V = StepView;

    open spec fn view(&self) -> StepView {
        match self {
            ScreenStep::Done(screen) => StepView::Done(screen@),
            ScreenStep::FetchMonth { year, month } => StepView::FetchMonth {
                year: *year,
                month: *month,
            },
            ScreenStep::Login { username, password } => StepView::Login {
                username: username@,
                password: password@,
            },
            ScreenStep::Signup { username, password } => StepView::Signup {
                username: username@,
                password: password@,
            },
            ScreenStep::PostTask(task) => StepView::PostTask(task@),
            ScreenStep::UpdateTask(task) => StepView::UpdateTask(task@),
        }
    }
}

impl StepView {
    /// The screen that the step leads to, if it tells one, is well formed.
    pub open spec fn wf(self) -> bool {
        self matches StepView::Done(screen) ==> screen.wf()
    }
}

} // verus!
