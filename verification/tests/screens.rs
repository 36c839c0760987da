use rical::api::ApiHandler;
use rical::api::RequestFailure;
use rical::components::{calendar, edit_task_form, login, menu, new_task_form, root, signup};
use rical::components::calendar::{action_for, find_task, CalAction};
use rical::components::edit_task_form::{validate_field, validate_number, validate_yes_no};
use rical::components::new_task_form::validate_time;
use rical::format::fmt_timerange;
use rical::grid::GridDirection;
use rical::keys::{KeyCode, KeyInfo, KeyModifiers};
use rical::state::{
    CalendarPane, CalendarState, EditTaskState, FormState, MenuState, RicalState, ScreenState,
    ScreenStep, TextInputState,
};
use rical::styles::Styles;
use rical::types::{split_by_day, TaskData, TaskDataWithId};

fn plain(code: KeyCode) -> KeyInfo {
    KeyInfo { modifiers: KeyModifiers::Plain, code }
}

fn letter(c: char) -> KeyInfo {
    plain(KeyCode::Char(c))
}

fn control(c: char) -> KeyInfo {
    KeyInfo { modifiers: KeyModifiers::Control, code: KeyCode::Char(c) }
}

fn task(task_id: i64, day: i32, title: &str) -> TaskDataWithId {
    TaskDataWithId {
        year: 2025,
        month: 8,
        day,
        start_min: None,
        end_min: None,
        title: title.to_string(),
        description: None,
        complete: false,
        task_id,
    }
}

fn calendar_on(day: u32) -> CalendarState {
    CalendarState { day, ..CalendarState::new() }
}

fn in_tasks_pane(day: u32, task_id: Option<i64>) -> CalendarState {
    CalendarState { day, task_id, pane: CalendarPane::Tasks, ..CalendarState::new() }
}

fn august() -> ApiHandler {
    let mut handler = ApiHandler::new();
    let tasks = vec![task(10, 6, "a"), task(11, 7, "b"), task(12, 7, "c"), task(13, 7, "d")];
    handler.store_calendar_tasks(2025, 8, split_by_day(&tasks));
    handler
}

fn done(state: CalendarState) -> ScreenStep {
    ScreenStep::Done(ScreenState::Calendar(state))
}

fn timed_out() -> RequestFailure {
    RequestFailure {
        is_timeout: true,
        is_connect: false,
        is_request: false,
        is_body: false,
        is_status: false,
        status: String::new(),
    }
}

fn type_text(mut state: CalendarState, text: &str, handler: &ApiHandler) -> CalendarState {
    for c in text.chars() {
        match calendar::handle_input(&state, &letter(c), handler) {
            ScreenStep::Done(ScreenState::Calendar(next)) => state = next,
            other => panic!("typing led to {other:?}"),
        }
    }
    state
}

fn press(state: CalendarState, code: KeyCode, handler: &ApiHandler) -> CalendarState {
    match calendar::handle_input(&state, &plain(code), handler) {
        ScreenStep::Done(ScreenState::Calendar(next)) => next,
        other => panic!("the key led to {other:?}"),
    }
}

#[test]
fn the_calendar_opens_on_the_month_pane() {
    let state = CalendarState::new();
    assert_eq!((state.year, state.month, state.day), (2025, 8, 5));
    assert_eq!(state.task_id, None);
    assert_eq!(state.pane, CalendarPane::Month);
    assert_eq!(state.making_new_task, None);
    assert_eq!(state.editing_task, None);
    assert_eq!(state.clone(), state);
}

#[test]
fn styles_start_plain() {
    let styles = Styles::new();
    assert_eq!(
        styles,
        Styles {
            margin_left: 0,
            margin_top: 0,
            width: None,
            active: false,
            last_in_row: None,
            gap: None,
            wrap_text: false,
            height: None,
        }
    );
}

#[test]
fn calendar_keys_by_pane() {
    let month = CalendarPane::Month;
    let tasks = CalendarPane::Tasks;
    assert_eq!(action_for(month, &letter('j')), CalAction::Move(GridDirection::Down));
    assert_eq!(action_for(month, &letter('k')), CalAction::Move(GridDirection::Up));
    assert_eq!(action_for(month, &letter('h')), CalAction::Move(GridDirection::Left));
    assert_eq!(action_for(month, &letter('l')), CalAction::Move(GridDirection::Right));
    assert_eq!(action_for(month, &plain(KeyCode::Down)), CalAction::Move(GridDirection::Down));
    assert_eq!(action_for(month, &plain(KeyCode::Up)), CalAction::Move(GridDirection::Up));
    assert_eq!(action_for(month, &plain(KeyCode::Left)), CalAction::Move(GridDirection::Left));
    assert_eq!(action_for(month, &plain(KeyCode::Right)), CalAction::Move(GridDirection::Right));
    assert_eq!(action_for(month, &letter('o')), CalAction::StartNewTask);
    assert_eq!(action_for(month, &plain(KeyCode::Enter)), CalAction::SwitchToTasks);
    assert_eq!(action_for(month, &plain(KeyCode::Esc)), CalAction::Nothing);
    assert_eq!(action_for(month, &letter('b')), CalAction::Nothing);
    assert_eq!(action_for(month, &control('j')), CalAction::Nothing);
    assert_eq!(action_for(tasks, &letter('j')), CalAction::SelectTaskDown);
    assert_eq!(action_for(tasks, &letter('k')), CalAction::SelectTaskUp);
    assert_eq!(action_for(tasks, &plain(KeyCode::Down)), CalAction::SelectTaskDown);
    assert_eq!(action_for(tasks, &plain(KeyCode::Up)), CalAction::SelectTaskUp);
    assert_eq!(action_for(tasks, &letter('b')), CalAction::Move(GridDirection::Left));
    assert_eq!(action_for(tasks, &letter('w')), CalAction::Move(GridDirection::Right));
    assert_eq!(action_for(tasks, &letter('o')), CalAction::StartNewTask);
    assert_eq!(action_for(tasks, &plain(KeyCode::Esc)), CalAction::SwitchToMonth);
    assert_eq!(action_for(tasks, &plain(KeyCode::Enter)), CalAction::Nothing);
    assert_eq!(action_for(tasks, &letter('h')), CalAction::Nothing);
}

#[test]
fn moving_changes_the_day_and_lets_go_of_the_task() {
    let handler = ApiHandler::new();
    let start = CalendarState { task_id: Some(11), ..calendar_on(7) };
    assert_eq!(calendar::handle_input(&start, &letter('l'), &handler), done(calendar_on(8)));
    assert_eq!(calendar::handle_input(&start, &letter('h'), &handler), done(calendar_on(6)));
    assert_eq!(calendar::handle_input(&start, &letter('j'), &handler), done(calendar_on(14)));
    assert_eq!(
        calendar::handle_input(&start, &letter('k'), &handler),
        done(CalendarState { month: 7, day: 31, ..CalendarState::new() })
    );
    let new_years_eve = CalendarState { month: 12, day: 31, ..CalendarState::new() };
    assert_eq!(
        calendar::handle_input(&new_years_eve, &letter('l'), &handler),
        done(CalendarState { year: 2026, month: 1, day: 1, ..CalendarState::new() })
    );
}

#[test]
fn moving_stops_at_the_end_of_the_calendar() {
    let handler = ApiHandler::new();
    let last = CalendarState { year: 262142, month: 12, day: 31, ..CalendarState::new() };
    assert_eq!(calendar::handle_input(&last, &letter('l'), &handler), done(last.clone()));
    assert_eq!(calendar::handle_input(&last, &letter('j'), &handler), done(last.clone()));
    let first = CalendarState { year: -262143, month: 1, day: 1, ..CalendarState::new() };
    assert_eq!(calendar::handle_input(&first, &letter('h'), &handler), done(first.clone()));
}

#[test]
fn panes_switch_and_the_menu_key_leaves() {
    let handler = ApiHandler::new();
    let start = calendar_on(7);
    assert_eq!(
        calendar::handle_input(&start, &plain(KeyCode::Enter), &handler),
        done(in_tasks_pane(7, None))
    );
    assert_eq!(
        calendar::handle_input(&in_tasks_pane(7, Some(3)), &plain(KeyCode::Esc), &handler),
        done(CalendarState { task_id: Some(3), ..calendar_on(7) })
    );
    assert_eq!(
        calendar::handle_input(&start, &control('m'), &handler),
        ScreenStep::Done(ScreenState::Menu(MenuState::MainMenu))
    );
    assert_eq!(calendar::handle_input(&start, &letter('z'), &handler), done(start.clone()));
    assert_eq!(
        calendar::handle_input(&start, &letter('o'), &handler),
        done(CalendarState { making_new_task: Some(FormState::new()), ..calendar_on(7) })
    );
}

#[test]
fn find_task_gives_the_first_place() {
    let tasks = vec![task(5, 1, "a"), task(6, 1, "b"), task(5, 1, "c")];
    assert_eq!(find_task(&tasks, 5), Some(0));
    assert_eq!(find_task(&tasks, 6), Some(1));
    assert_eq!(find_task(&tasks, 7), None);
    assert_eq!(find_task(&vec![], 5), None);
}

#[test]
fn selecting_down_walks_the_tasks_and_then_the_days() {
    let handler = august();
    let mut state = in_tasks_pane(7, None);
    for expected in [Some(11), Some(12), Some(13)] {
        state = press(state, KeyCode::Char('j'), &handler);
        assert_eq!(state, in_tasks_pane(7, expected));
    }
    state = press(state, KeyCode::Char('j'), &handler);
    assert_eq!(state, in_tasks_pane(8, None));
    state = press(state, KeyCode::Char('j'), &handler);
    assert_eq!(state, in_tasks_pane(9, None));
    let stray = in_tasks_pane(7, Some(99));
    assert_eq!(press(stray, KeyCode::Char('j'), &handler), in_tasks_pane(7, None));
}

#[test]
fn selecting_up_walks_the_tasks_and_then_the_days() {
    let handler = august();
    let mut state = in_tasks_pane(8, None);
    state = press(state, KeyCode::Char('k'), &handler);
    assert_eq!(state, in_tasks_pane(7, Some(13)));
    for expected in [Some(12), Some(11), None] {
        state = press(state, KeyCode::Char('k'), &handler);
        assert_eq!(state, in_tasks_pane(7, expected));
    }
    state = press(state, KeyCode::Char('k'), &handler);
    assert_eq!(state, in_tasks_pane(6, Some(10)));
    state = press(state, KeyCode::Char('k'), &handler);
    assert_eq!(state, in_tasks_pane(6, None));
    state = press(state, KeyCode::Char('k'), &handler);
    assert_eq!(state, in_tasks_pane(5, None));
    let stray = in_tasks_pane(7, Some(99));
    assert_eq!(press(stray, KeyCode::Char('k'), &handler), in_tasks_pane(7, None));
}

#[test]
fn selecting_asks_for_months_that_are_not_remembered() {
    let empty = ApiHandler::new();
    assert_eq!(
        calendar::handle_input(&in_tasks_pane(7, None), &letter('j'), &empty),
        ScreenStep::FetchMonth { year: 2025, month: 8 }
    );
    assert_eq!(
        calendar::handle_input(&in_tasks_pane(7, None), &letter('k'), &empty),
        ScreenStep::FetchMonth { year: 2025, month: 8 }
    );
    let handler = august();
    assert_eq!(
        calendar::handle_input(&in_tasks_pane(1, None), &letter('k'), &handler),
        ScreenStep::FetchMonth { year: 2025, month: 7 }
    );
    assert_eq!(
        calendar::handle_input(&in_tasks_pane(31, None), &letter('j'), &handler),
        done(CalendarState { month: 9, day: 1, pane: CalendarPane::Tasks, ..CalendarState::new() })
    );
}

#[test]
fn time_fields_take_shorthand_times() {
    assert_eq!(validate_time("3pm"), Ok(()));
    assert_eq!(validate_time(" 15 : 45 "), Ok(()));
    assert_eq!(validate_time("15pm"), Err(String::new()));
    assert_eq!(validate_time(""), Err(String::new()));
}

#[test]
fn a_new_task_is_made_from_the_form() {
    let handler = ApiHandler::new();
    let mut state = press(calendar_on(7), KeyCode::Char('o'), &handler);
    state = type_text(state, "9", &handler);
    state = press(state, KeyCode::Enter, &handler);
    state = type_text(state, "10:30", &handler);
    state = press(state, KeyCode::Enter, &handler);
    state = type_text(state, "walk", &handler);
    state = press(state, KeyCode::Enter, &handler);
    state = type_text(state, "park", &handler);
    let form = state.making_new_task.clone().unwrap();
    assert_eq!(form.form_pos, 3);
    let step = calendar::handle_input(&state, &plain(KeyCode::Enter), &handler);
    let expected = TaskData {
        year: 2025,
        month: 8,
        day: 7,
        start_min: Some(540),
        end_min: Some(630),
        title: "walk".to_string(),
        description: Some("park".to_string()),
        complete: false,
    };
    assert_eq!(step, ScreenStep::PostTask(expected.clone()));
    assert_eq!(fmt_timerange(expected.start_min, expected.end_min), "09:00-10:30");
    assert_eq!(new_task_form::after_post(&state, Ok(())), ScreenState::Calendar(calendar_on(7)));
}

#[test]
fn a_bad_time_is_emptied_when_the_focus_leaves() {
    let handler = ApiHandler::new();
    let mut state = press(calendar_on(7), KeyCode::Char('o'), &handler);
    state = type_text(state, "15pm", &handler);
    assert_eq!(state.making_new_task.as_ref().unwrap().fields[0].contents, "15pm");
    state = press(state, KeyCode::Enter, &handler);
    let form = state.making_new_task.clone().unwrap();
    assert_eq!(form.form_pos, 1);
    assert_eq!(form.fields[0], TextInputState { cursor_pos: 0, contents: String::new() });
    state = press(state, KeyCode::Tab, &handler);
    state = press(state, KeyCode::Tab, &handler);
    let step = calendar::handle_input(&state, &plain(KeyCode::Enter), &handler);
    match step {
        ScreenStep::PostTask(task) => {
            assert_eq!(task.start_min, None);
            assert_eq!(task.end_min, None);
            assert_eq!(task.title, "");
            assert_eq!(task.description, Some(String::new()));
        }
        other => panic!("the key led to {other:?}"),
    }
}

#[test]
fn escape_drops_the_new_task_form() {
    let handler = ApiHandler::new();
    let mut state = press(calendar_on(7), KeyCode::Char('o'), &handler);
    state = type_text(state, "9", &handler);
    state = press(state, KeyCode::Enter, &handler);
    state = type_text(state, "half typed", &handler);
    assert_eq!(press(state, KeyCode::Esc, &handler), calendar_on(7));
}

#[test]
fn a_post_that_failed_shows_a_message_over_the_form() {
    let handler = ApiHandler::new();
    let typed = FormState::<4>::from_field_contents(
        3,
        ["9".to_string(), "8".to_string(), "walk".to_string(), "park".to_string()],
    );
    let state = CalendarState { making_new_task: Some(typed.clone()), ..calendar_on(7) };
    let lines = vec![
        "Could not create task:".to_string(),
        "  - Request timed out".to_string(),
        "Check that you entered valid times".to_string(),
    ];
    let failed = CalendarState {
        making_new_task: Some(FormState { error_message: Some(lines), ..typed }),
        ..calendar_on(7)
    };
    assert_eq!(
        new_task_form::after_post(&state, Err(timed_out())),
        ScreenState::Calendar(failed.clone())
    );
    assert_eq!(press(failed.clone(), KeyCode::Char('x'), &handler), state);
    assert_eq!(press(failed, KeyCode::Esc, &handler), calendar_on(7));
}

#[test]
fn edit_fields_have_their_checks() {
    assert_eq!(validate_number("12", 1, 12, "1"), Ok(()));
    assert_eq!(validate_number("13", 1, 12, "1"), Err("1".to_string()));
    assert_eq!(validate_number("0", 1, 12, "1"), Err("1".to_string()));
    assert_eq!(validate_number("x", 1, 12, "1"), Err("1".to_string()));
    assert_eq!(validate_yes_no("Yes"), Ok(()));
    assert_eq!(validate_yes_no("No"), Ok(()));
    assert_eq!(validate_yes_no("yes"), Err("No".to_string()));
    assert_eq!(validate_yes_no(""), Err("No".to_string()));
    assert_eq!(validate_field(0, "-44"), Ok(()));
    assert_eq!(validate_field(0, "soon"), Err("2000".to_string()));
    assert_eq!(validate_field(0, "99999999999"), Err("2000".to_string()));
    assert_eq!(validate_field(1, "12"), Ok(()));
    assert_eq!(validate_field(1, "13"), Err("1".to_string()));
    assert_eq!(validate_field(2, "31"), Ok(()));
    assert_eq!(validate_field(2, "32"), Err("1".to_string()));
    assert_eq!(validate_field(2, "0"), Err("1".to_string()));
    assert_eq!(validate_field(3, "3pm"), Ok(()));
    assert_eq!(validate_field(4, "25"), Err(String::new()));
    assert_eq!(validate_field(5, ""), Ok(()));
    assert_eq!(validate_field(6, "anything at all"), Ok(()));
    assert_eq!(validate_field(7, "Yes"), Ok(()));
    assert_eq!(validate_field(7, "maybe"), Err("No".to_string()));
    assert_eq!(validate_field(8, "no such field"), Ok(()));
}

fn editing(form_pos: usize, contents: [&str; 8]) -> CalendarState {
    CalendarState {
        task_id: Some(42),
        pane: CalendarPane::Tasks,
        editing_task: Some(EditTaskState {
            task_id: 42,
            form: FormState::from_field_contents(form_pos, contents.map(|c| c.to_string())),
        }),
        ..calendar_on(7)
    }
}

#[test]
fn an_edited_task_is_made_from_the_form() {
    let handler = ApiHandler::new();
    let state = editing(7, ["2025", "9", "1", "9", "10:30", "walk", "park", "Yes"]);
    assert_eq!(
        calendar::handle_input(&state, &plain(KeyCode::Enter), &handler),
        ScreenStep::UpdateTask(TaskDataWithId {
            year: 2025,
            month: 9,
            day: 1,
            start_min: Some(540),
            end_min: Some(630),
            title: "walk".to_string(),
            description: Some("park".to_string()),
            complete: true,
            task_id: 42,
        })
    );
    let state = editing(7, ["soon", "", "x", "", "15pm", "", "", "maybe"]);
    assert_eq!(
        edit_task_form::handle_input(&state, &plain(KeyCode::Enter)),
        ScreenStep::UpdateTask(TaskDataWithId {
            year: 2000,
            month: 1,
            day: 1,
            start_min: None,
            end_min: None,
            title: String::new(),
            description: Some(String::new()),
            complete: false,
            task_id: 42,
        })
    );
}

#[test]
fn edit_fields_are_mended_when_the_focus_leaves() {
    let handler = ApiHandler::new();
    let mut state = editing(0, ["soon", "13", "0", "25", "9", "walk", "park", "y"]);
    let mended = ["2000", "1", "1", "", "9", "walk", "park"];
    for (field, text) in mended.iter().enumerate() {
        state = press(state, KeyCode::Enter, &handler);
        let form = &state.editing_task.as_ref().unwrap().form;
        assert_eq!(form.form_pos, field + 1);
        assert_eq!(form.fields[field].contents, *text);
    }
    assert_eq!(
        calendar::handle_input(&state, &plain(KeyCode::Enter), &handler),
        ScreenStep::UpdateTask(TaskDataWithId {
            year: 2000,
            month: 1,
            day: 1,
            start_min: None,
            end_min: Some(540),
            title: "walk".to_string(),
            description: Some("park".to_string()),
            complete: false,
            task_id: 42,
        })
    );
    assert_eq!(
        press(state, KeyCode::Esc, &handler),
        CalendarState { task_id: Some(42), pane: CalendarPane::Tasks, ..calendar_on(7) }
    );
}

#[test]
fn after_an_update_the_form_is_gone() {
    let state = editing(7, ["2025", "8", "7", "", "", "walk", "", "No"]);
    let closed = CalendarState { task_id: Some(42), pane: CalendarPane::Tasks, ..calendar_on(7) };
    assert_eq!(
        edit_task_form::after_update(&state, Some(false)),
        ScreenState::Calendar(closed.clone())
    );
    assert_eq!(
        edit_task_form::after_update(&state, Some(true)),
        ScreenState::Calendar(CalendarState { task_id: None, ..closed.clone() })
    );
    let lines = vec!["The edit could not be saved. Make sure you entered valid times".to_string()];
    let typed = state.editing_task.clone().unwrap().form;
    assert_eq!(
        edit_task_form::after_update(&state, None),
        ScreenState::Calendar(CalendarState {
            editing_task: Some(EditTaskState {
                task_id: 42,
                form: FormState { error_message: Some(lines), ..typed },
            }),
            ..closed
        })
    );
}

fn typed_login(username: &str, password: &str) -> FormState<2> {
    FormState::from_field_contents(1, [username.to_string(), password.to_string()])
}

#[test]
fn the_main_menu_opens_its_pages() {
    assert_eq!(menu::handle_input_mainmenu(&letter('l')), MenuState::Login(FormState::new()));
    assert_eq!(menu::handle_input_mainmenu(&letter('s')), MenuState::Signup(FormState::new()));
    assert_eq!(menu::handle_input_mainmenu(&letter('a')), MenuState::About);
    assert_eq!(menu::handle_input_mainmenu(&letter('x')), MenuState::MainMenu);
    assert_eq!(menu::handle_input_mainmenu(&control('l')), MenuState::MainMenu);
    assert_eq!(
        menu::handle_input(&MenuState::About, &plain(KeyCode::Esc)),
        ScreenStep::Done(ScreenState::Menu(MenuState::MainMenu))
    );
    assert_eq!(
        menu::handle_input(&MenuState::About, &letter('x')),
        ScreenStep::Done(ScreenState::Menu(MenuState::About))
    );
    assert_eq!(
        menu::handle_input(&MenuState::MainMenu, &letter('a')),
        ScreenStep::Done(ScreenState::Menu(MenuState::About))
    );
}

#[test]
fn the_login_form_asks_to_log_in() {
    let form = typed_login("ada", "secret");
    assert_eq!(
        menu::handle_input(&MenuState::Login(form.clone()), &plain(KeyCode::Enter)),
        ScreenStep::Login { username: "ada".to_string(), password: "secret".to_string() }
    );
    assert_eq!(
        login::handle_input(&form, &plain(KeyCode::Esc)),
        ScreenStep::Done(ScreenState::Menu(MenuState::MainMenu))
    );
    assert_eq!(
        login::handle_input(&form, &letter('s')),
        ScreenStep::Done(ScreenState::Menu(MenuState::Login(typed_login("ada", "secrets"))))
    );
    let first = FormState::<2>::new();
    assert_eq!(
        login::handle_input(&first, &plain(KeyCode::Enter)),
        ScreenStep::Done(ScreenState::Menu(MenuState::Login(FormState {
            form_pos: 1,
            ..FormState::new()
        })))
    );
}

#[test]
fn after_a_login_the_calendar_opens_or_a_message_shows() {
    let form = typed_login("ada", "secret");
    let mut handler = august();
    let screen = login::after_login(&form, Some("token".to_string()), &mut handler);
    assert_eq!(screen, ScreenState::Calendar(CalendarState::new()));
    assert_eq!(handler.expect_auth_token(), Some("token".to_string()));

    let mut handler = ApiHandler::new();
    let screen = login::after_login(&form, None, &mut handler);
    assert_eq!(handler.expect_auth_token(), None);
    assert_eq!(
        screen,
        ScreenState::Menu(MenuState::Login(FormState {
            error_message: Some(vec![
                "Login failed. Make sure your username and password are correct.".to_string(),
                "If you don't have an account, sign up first!".to_string(),
            ]),
            ..form
        }))
    );
}

fn typed_signup(username: &str, password: &str, again: &str) -> FormState<3> {
    FormState::from_field_contents(
        2,
        [username.to_string(), password.to_string(), again.to_string()],
    )
}

#[test]
fn the_signup_form_wants_the_password_twice() {
    assert_eq!(
        signup::handle_input(&typed_signup("ada", "secret", "secret"), &plain(KeyCode::Enter)),
        ScreenStep::Signup { username: "ada".to_string(), password: "secret".to_string() }
    );
    assert_eq!(
        menu::handle_input(
            &MenuState::Signup(typed_signup("ada", "secret", "secrte")),
            &plain(KeyCode::Enter)
        ),
        ScreenStep::Done(ScreenState::Menu(MenuState::Signup(FormState::from_result_message(
            vec!["Your passwords don't match! Be careful when typing".to_string()]
        ))))
    );
    assert_eq!(
        signup::handle_input(&typed_signup("ada", "secret", "x"), &plain(KeyCode::Esc)),
        ScreenStep::Done(ScreenState::Menu(MenuState::MainMenu))
    );
}

#[test]
fn after_a_signup_a_message_shows() {
    let typed = typed_signup("ada", "secret", "secret");
    assert_eq!(
        signup::after_signup(&typed, "ada", Ok(())),
        ScreenState::Menu(MenuState::Signup(FormState::from_result_message(vec![
            "You've successfully signed up as ada!".to_string(),
            "Go back to the menu (esc) and log in to access your calendar".to_string(),
        ])))
    );
    assert_eq!(
        signup::after_signup(&typed, "ada", Err(timed_out())),
        ScreenState::Menu(MenuState::Signup(FormState {
            error_message: Some(vec![
                "Signing up failed:".to_string(),
                "  - Request timed out".to_string(),
                "Make sure you entered a unique username, and that you're connected to the server"
                    .to_string(),
                "as specified in 'rical_frontend/.env'".to_string(),
            ]),
            ..typed
        }))
    );
}

#[test]
fn the_quit_keys_work_on_every_screen() {
    let handler = ApiHandler::new();
    let screens = [
        ScreenState::Menu(MenuState::MainMenu),
        ScreenState::Menu(MenuState::Login(FormState::new())),
        ScreenState::Calendar(CalendarState::new()),
        ScreenState::Calendar(CalendarState {
            making_new_task: Some(FormState::new()),
            ..CalendarState::new()
        }),
        ScreenState::ShouldQuit,
    ];
    for screen_state in screens {
        let state = RicalState { screen_state };
        for key in [control('c'), control('q')] {
            assert_eq!(
                root::handle_input(&state, &key, &handler),
                ScreenStep::Done(ScreenState::ShouldQuit)
            );
        }
        assert_eq!(state.clone(), state);
    }
}

#[test]
fn other_keys_go_to_the_screen() {
    let handler = ApiHandler::new();
    let menu_screen = RicalState { screen_state: ScreenState::Menu(MenuState::MainMenu) };
    assert_eq!(
        root::handle_input(&menu_screen, &letter('a'), &handler),
        ScreenStep::Done(ScreenState::Menu(MenuState::About))
    );
    let calendar_screen = RicalState { screen_state: ScreenState::Calendar(calendar_on(7)) };
    assert_eq!(root::handle_input(&calendar_screen, &letter('l'), &handler), done(calendar_on(8)));
    let quitting = RicalState { screen_state: ScreenState::ShouldQuit };
    assert_eq!(
        root::handle_input(&quitting, &letter('l'), &handler),
        ScreenStep::Done(ScreenState::ShouldQuit)
    );
}
