use rical::components::{edit_task_form, login, menu, new_task_form, signup};
use rical::components::calendar_render::{
    calendar_title, candy_paint, candy_position, checkbox, date_height, date_square_paint,
    date_square_text, date_title, date_title_paint, get_viewport_width, is_mini_mode, is_overdue,
    is_task_selected, max_tasks_displayed, task_candy, tasks_pane_width, time_column_text,
    title_column_width, upcoming_dates, CandyPaint, DatePaint,
};
use rical::components::form::{hint, FormRenderParameters};
use rical::components::inputtext::{
    clears_rest_of_line, cursor_char, field_padding, label_width, region_width, shown_char,
    shown_text, wrapped_cell, InputMode,
};
use rical::components::text::{pad_characters, padded_text};
use rical::date::RicalDate;
use rical::state::{CalendarPane, CalendarState, FormState, TextInputState};
use rical::styles::Styles;
use rical::types::TaskDataWithId;

fn date(year: i32, month: u32, day: u32) -> RicalDate {
    RicalDate::new(year, month, day).unwrap()
}

fn timed(start_min: Option<i32>, end_min: Option<i32>) -> TaskDataWithId {
    TaskDataWithId {
        year: 2025,
        month: 8,
        day: 7,
        start_min,
        end_min,
        title: "walk".to_string(),
        description: None,
        complete: false,
        task_id: 42,
    }
}

fn line(contents: &str, cursor_pos: usize) -> TextInputState {
    TextInputState { cursor_pos, contents: contents.to_string() }
}

#[test]
fn rows_are_filled_up_to_their_width() {
    assert_eq!(pad_characters(5, 2, "_"), "___");
    assert_eq!(pad_characters(5, 5, "_"), "");
    assert_eq!(pad_characters(5, 9, "_"), "");
    assert_eq!(pad_characters(3, 0, "ab"), "ababab");
    assert_eq!(padded_text("abc", 6, "."), "abc...");
    assert_eq!(padded_text("abcdef", 6, "."), "abcdef");
    assert_eq!(padded_text("abcdefgh", 6, "."), "abcdefgh");
    assert_eq!(padded_text("", 2, "─"), "──");
    assert_eq!(padded_text("éé", 4, " "), "éé  ");
}

#[test]
fn passwords_are_drawn_as_stars() {
    assert_eq!(shown_char('a', InputMode::Normal), 'a');
    assert_eq!(shown_char('a', InputMode::Password), '*');
    assert_eq!(shown_text("sécret", InputMode::Normal), "sécret");
    assert_eq!(shown_text("sécret", InputMode::Password), "******");
    assert_eq!(shown_text("", InputMode::Password), "");
    assert_eq!(wrapped_cell("abc", 1, InputMode::Normal), 'b');
    assert_eq!(wrapped_cell("abc", 1, InputMode::Password), '*');
    assert_eq!(wrapped_cell("abc", 3, InputMode::Password), '_');
}

#[test]
fn a_field_takes_its_width() {
    let plain = Styles::new();
    assert_eq!(label_width("Title", &plain), 7);
    assert_eq!(label_width("Year", &Styles { gap: Some(2), ..plain }), 7);
    assert_eq!(label_width("", &Styles { gap: Some(0), ..plain }), 1);
    assert_eq!(label_width("x", &Styles { gap: Some(u16::MAX), ..plain }), u16::MAX);
    assert_eq!(field_padding("Title", &line("walk", 4), &plain), 30 - 7 - 4);
    assert_eq!(field_padding("Title", &line("walk", 4), &Styles { width: Some(11), ..plain }), 0);
    assert_eq!(field_padding("Title", &line("walk", 4), &Styles { width: Some(12), ..plain }), 1);
    assert_eq!(field_padding("Title", &line("walk", 4), &Styles { width: Some(3), ..plain }), 0);
    assert_eq!(region_width("Descr", &Styles { width: Some(40), ..plain }), 40 - 7 - 1);
    assert_eq!(region_width("Descr", &Styles { width: Some(7), ..plain }), 0);
    assert_eq!(region_width("Descr", &Styles { width: Some(8), ..plain }), 0);
    assert_eq!(region_width("Descr", &Styles { width: Some(9), ..plain }), 1);
}

#[test]
fn the_cursor_shows_what_is_under_it() {
    assert_eq!(cursor_char(&line("abc", 0)), 'a');
    assert_eq!(cursor_char(&line("abc", 2)), 'c');
    assert_eq!(cursor_char(&line("abc", 3)), '_');
    assert_eq!(cursor_char(&line("", 0)), '_');
    assert!(clears_rest_of_line(&Styles::new()));
    assert!(clears_rest_of_line(&Styles { last_in_row: Some(true), ..Styles::new() }));
    assert!(!clears_rest_of_line(&Styles { last_in_row: Some(false), ..Styles::new() }));
}

#[test]
fn the_hint_names_what_enter_does() {
    let first = FormState::<2>::new();
    assert_eq!(hint(&first), "(enter) Next field");
    let last = FormState::<2> { form_pos: 1, ..FormState::new() };
    assert_eq!(hint(&last), "(enter) Submit");
    assert_eq!(hint(&FormState::<1>::new()), "(enter) Submit");
}

fn check_layout<const N: usize>(params: &FormRenderParameters<N>, names: [&str; N]) {
    assert_eq!(params.fields.len(), N);
    for (field, name) in params.fields.iter().zip(names) {
        assert_eq!(field.name, name);
        assert!(4 <= field.styles.margin_top && field.styles.margin_top < params.hint_y);
    }
    for row in &params.clear_lines {
        assert!(4 <= *row && *row < params.hint_y);
    }
    for decoration in &params.decoration_strings {
        assert!(4 <= decoration.y && decoration.y < params.hint_y);
    }
}

#[test]
fn the_forms_are_laid_out_between_title_and_hint() {
    let login = login::render(&FormState::new());
    assert_eq!(login.title, "Login");
    assert_eq!(login.hint_y, 7);
    check_layout(&login, ["Username", "Password"]);
    assert_eq!(login.fields[0].input_mode, InputMode::Normal);
    assert_eq!(login.fields[1].input_mode, InputMode::Password);
    assert_eq!(login.fields[1].styles.width, Some(38));

    let signup = signup::render(&FormState::new());
    assert_eq!(signup.title, "Sign up");
    check_layout(&signup, ["New username", "New password", "^ Confirm pw"]);
    assert_eq!(signup.fields[2].input_mode, InputMode::Password);

    let state = CalendarState { day: 7, ..CalendarState::new() };
    let new_task = new_task_form::render(&state);
    assert_eq!(new_task.title, "New Task");
    check_layout(&new_task, ["Start", "End", "Title", "Descr"]);
    assert_eq!(new_task.decoration_strings[0].text, "2025/08/07 - Thursday");
    assert!(new_task.decoration_strings[0].clear_rest_of_line);
    assert!(new_task.fields[3].styles.wrap_text);
    assert_eq!(new_task.fields[3].styles.height, Some(3));
    assert_eq!(new_task.fields[1].styles.margin_left, 18);

    let edit = edit_task_form::render(&state);
    assert_eq!(edit.title, "Edit Task");
    check_layout(
        &edit,
        ["Year", "Month", "Day", "Start", "End", "Title", "Descr", "Complete"],
    );
    assert_eq!(edit.fields[2].styles.gap, Some(3));
    assert_eq!(edit.clear_lines, vec![7, 9, 12, 14]);
}

#[test]
fn the_menu_has_its_lines() {
    let lines = menu::render_mainmenu();
    assert_eq!(lines.len(), 10);
    assert_eq!(lines[0], "Rical API");
    assert_eq!(lines[1], "(l) Log in");
    assert_eq!(lines[3], "");
    assert_eq!(lines[9], "(^C) Quit");
    let about = menu::render_about("0.1.0");
    assert_eq!(about.len(), 5);
    assert_eq!(about[0], "(esc) back");
    assert_eq!(about[2], "Rical Frontend v0.1.0");
}

#[test]
fn the_panes_share_the_viewport() {
    assert_eq!(get_viewport_width(80), 79);
    assert_eq!(get_viewport_width(0), 0);
    assert_eq!(tasks_pane_width(79), 48);
    assert_eq!(tasks_pane_width(0), 24);
    assert_eq!(tasks_pane_width(31), 24);
    assert_eq!(tasks_pane_width(55), 24);
    assert_eq!(tasks_pane_width(56), 25);
    assert_eq!(tasks_pane_width(121), 90);
    assert_eq!(tasks_pane_width(u16::MAX), 90);
    assert_eq!(title_column_width(24), 5);
    assert_eq!(title_column_width(90), 71);
    assert!(is_mini_mode(29));
    assert!(!is_mini_mode(30));
    assert_eq!(date_height(true), 3);
    assert_eq!(date_height(false), 4);
    assert_eq!(max_tasks_displayed(3), 4);
    assert_eq!(max_tasks_displayed(4), 6);
    assert_eq!(candy_position(1, 4, 0), Some((2, 5)));
    assert_eq!(candy_position(1, 4, 1), Some((3, 5)));
    assert_eq!(candy_position(1, 4, 2), Some((2, 6)));
    assert_eq!(candy_position(5, 8, 5), Some((7, 11)));
    assert_eq!(candy_position(u16::MAX, 0, 0), None);
    assert_eq!(candy_position(u16::MAX - 1, 0, 0), Some((u16::MAX, 1)));
    assert_eq!(candy_position(u16::MAX - 1, 0, 1), None);
    assert_eq!(candy_position(0, u16::MAX, 0), None);
}

#[test]
fn the_mark_of_a_task_grows_with_its_time() {
    assert_eq!(task_candy(&timed(None, None)), '•');
    assert_eq!(task_candy(&timed(None, Some(60))), '•');
    assert_eq!(task_candy(&timed(Some(60), None)), '▼');
    assert_eq!(task_candy(&timed(Some(60), Some(60))), '▂');
    assert_eq!(task_candy(&timed(Some(60), Some(75))), '▂');
    assert_eq!(task_candy(&timed(Some(60), Some(76))), '▃');
    assert_eq!(task_candy(&timed(Some(60), Some(90))), '▃');
    assert_eq!(task_candy(&timed(Some(60), Some(105))), '▄');
    assert_eq!(task_candy(&timed(Some(60), Some(120))), '▅');
    assert_eq!(task_candy(&timed(Some(60), Some(180))), '▆');
    assert_eq!(task_candy(&timed(Some(60), Some(181))), '█');
    assert_eq!(task_candy(&timed(Some(90), Some(60))), '▂');
    assert_eq!(task_candy(&timed(Some(i32::MIN), Some(i32::MAX))), '█');
    assert_eq!(candy_paint(true, true), CandyPaint::Complete);
    assert_eq!(candy_paint(true, false), CandyPaint::Complete);
    assert_eq!(candy_paint(false, true), CandyPaint::Overdue);
    assert_eq!(candy_paint(false, false), CandyPaint::Open);
}

#[test]
fn days_gone_by_are_overdue() {
    let today = date(2025, 8, 7);
    assert!(is_overdue(&date(2025, 8, 6), &today));
    assert!(is_overdue(&date(2024, 12, 31), &today));
    assert!(!is_overdue(&today, &today));
    assert!(!is_overdue(&date(2025, 8, 8), &today));
    assert!(!is_overdue(&date(2026, 1, 1), &today));
}

#[test]
fn squares_show_the_day_with_two_digits() {
    assert_eq!(date_square_text(Some(7)), " 07 ");
    assert_eq!(date_square_text(Some(10)), " 10 ");
    assert_eq!(date_square_text(Some(31)), " 31 ");
    assert_eq!(date_square_text(None), " -- ");
}

#[test]
fn days_are_set_off_by_selection_and_today() {
    let month = CalendarPane::Month;
    let tasks = CalendarPane::Tasks;
    assert_eq!(date_square_paint(false, true, true, month), DatePaint::Dim);
    assert_eq!(date_square_paint(true, true, true, month), DatePaint::SelectedTodayFocused);
    assert_eq!(date_square_paint(true, true, true, tasks), DatePaint::SelectedToday);
    assert_eq!(date_square_paint(true, true, false, month), DatePaint::SelectedFocused);
    assert_eq!(date_square_paint(true, true, false, tasks), DatePaint::Selected);
    assert_eq!(date_square_paint(true, false, true, month), DatePaint::Today);
    assert_eq!(date_square_paint(true, false, false, tasks), DatePaint::Plain);
    assert_eq!(date_title_paint(true, None, true, tasks), DatePaint::SelectedTodayFocused);
    assert_eq!(date_title_paint(true, None, true, month), DatePaint::SelectedToday);
    assert_eq!(date_title_paint(true, None, false, tasks), DatePaint::SelectedFocused);
    assert_eq!(date_title_paint(true, None, false, month), DatePaint::Selected);
    assert_eq!(date_title_paint(true, Some(3), true, tasks), DatePaint::Today);
    assert_eq!(date_title_paint(true, Some(3), false, tasks), DatePaint::Dim);
    assert_eq!(date_title_paint(false, None, false, tasks), DatePaint::Dim);
    assert!(is_task_selected(true, Some(42), &timed(None, None)));
    assert!(!is_task_selected(false, Some(42), &timed(None, None)));
    assert!(!is_task_selected(true, Some(41), &timed(None, None)));
    assert!(!is_task_selected(true, None, &timed(None, None)));
}

#[test]
fn the_tasks_pane_has_its_texts() {
    assert_eq!(checkbox(true), "[x]");
    assert_eq!(checkbox(false), "[ ]");
    assert_eq!(time_column_text(&timed(Some(540), Some(630))), " 09:00-10:30");
    assert_eq!(time_column_text(&timed(None, None)), " ");
    assert_eq!(date_title(&date(2025, 8, 7)), " 2025/08/07 - Thursday ");
    assert_eq!(calendar_title(2025, 8), " 2025/08 - August ");
    assert_eq!(calendar_title(987, 12), " 987/12 - December ");
}

#[test]
fn the_tasks_pane_lists_a_week_within_the_month() {
    let days = |dates: Vec<RicalDate>| dates.iter().map(|d| d.day).collect::<Vec<u32>>();
    let week = upcoming_dates(&date(2025, 8, 7));
    assert_eq!(days(week.clone()), vec![7, 8, 9, 10, 11, 12, 13]);
    assert!(week.iter().all(|d| d.year == 2025 && d.month == 8));
    assert_eq!(days(upcoming_dates(&date(2025, 8, 25))), vec![25, 26, 27, 28, 29, 30, 31]);
    assert_eq!(days(upcoming_dates(&date(2025, 8, 29))), vec![29, 30, 31]);
    assert_eq!(days(upcoming_dates(&date(2025, 8, 31))), vec![31]);
    assert_eq!(days(upcoming_dates(&date(2024, 2, 27))), vec![27, 28, 29]);
    assert_eq!(days(upcoming_dates(&date(262142, 12, 30))), vec![30, 31]);
}
