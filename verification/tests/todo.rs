use loshell::storage::TaskData;
use loshell::todo::{save_due, Task, TodoList};

fn fresh_list() -> TodoList {
    TodoList::load(TaskData::default())
}

#[test]
fn task_new_starts_clean() {
    let t = Task::new(7, String::from("write tests"));
    assert_eq!(t.id, 7);
    assert_eq!(t.text, "write tests");
    assert!(!t.completed);
    assert_eq!(t.time_spent_secs, 0);
}

#[test]
fn format_time_exact_values() {
    let mut t = Task::new(1, String::from("x"));
    assert_eq!(t.format_time(), "--");
    t.time_spent_secs = 59;
    assert_eq!(t.format_time(), "0h 00m");
    t.time_spent_secs = 60;
    assert_eq!(t.format_time(), "0h 01m");
    t.time_spent_secs = 3660;
    assert_eq!(t.format_time(), "1h 01m");
    t.time_spent_secs = 2 * 3600 + 30 * 60;
    assert_eq!(t.format_time(), "2h 30m");
    t.time_spent_secs = 10 * 3600 + 9 * 60 + 59;
    assert_eq!(t.format_time(), "10h 09m");
}

#[test]
fn load_gives_an_id_counter_of_at_least_one() {
    let t = fresh_list();
    assert_eq!(t.next_id, 1);
    assert!(t.tasks.is_empty());
    assert_eq!(t.selected, 0);
    assert!(!t.visible);
    assert!(t.active_task.is_none());

    let data = TaskData { tasks: vec![Task::new(3, String::from("a"))], next_id: 4 };
    let t = TodoList::load(data);
    assert_eq!(t.next_id, 4);
    assert_eq!(t.tasks.len(), 1);
}

#[test]
fn add_task_appends_and_hands_out_the_record() {
    let mut t = fresh_list();
    let d = t.add_task(String::from("ship it"));
    assert_eq!(t.tasks.len(), 1);
    assert_eq!(t.tasks[0].text, "ship it");
    assert_eq!(t.tasks[0].id, 1);
    assert_eq!(t.next_id, 2);
    assert_eq!(d.tasks.len(), 1);
    assert_eq!(d.next_id, 2);
}

#[test]
fn confirm_input_trims_and_skips_blank_lines() {
    let mut t = fresh_list();
    t.enter_input_mode();
    for c in "  hello world \t".chars() {
        t.type_char(c);
    }
    let d = t.confirm_input();
    assert!(d.is_some());
    assert_eq!(t.tasks.len(), 1);
    assert_eq!(t.tasks[0].text, "hello world");
    assert!(!t.input_mode);
    assert!(t.input_buffer.is_empty());

    t.enter_input_mode();
    for c in "   \t ".chars() {
        t.type_char(c);
    }
    let d = t.confirm_input();
    assert!(d.is_none());
    assert_eq!(t.tasks.len(), 1);
    assert!(!t.input_mode);
}

#[test]
fn typing_is_confined_to_input_mode() {
    let mut t = fresh_list();
    t.type_char('x');
    assert!(t.input_buffer.is_empty());

    t.enter_input_mode();
    t.type_char('h');
    t.type_char('i');
    assert_eq!(t.input_buffer, "hi");
    t.backspace();
    assert_eq!(t.input_buffer, "h");
    t.backspace();
    assert_eq!(t.input_buffer, "");
    t.backspace();
    assert_eq!(t.input_buffer, "");

    t.cancel_input();
    assert!(!t.input_mode);
    assert!(t.input_buffer.is_empty());
}

#[test]
fn delete_selected_keeps_the_cursor_on_a_task() {
    let mut t = fresh_list();
    t.add_task(String::from("a"));
    t.add_task(String::from("b"));
    t.add_task(String::from("c"));
    t.move_down();
    t.move_down();
    assert_eq!(t.selected, 2);

    let d = t.delete_selected();
    assert!(d.is_some());
    assert_eq!(t.tasks.len(), 2);
    assert_eq!(t.selected, 1);
    assert_eq!(t.tasks[1].text, "b");

    t.delete_selected();
    assert_eq!(t.selected, 0);
    t.delete_selected();
    assert_eq!(t.tasks.len(), 0);
    assert_eq!(t.selected, 0);

    // a safe no-op on an empty list
    let d = t.delete_selected();
    assert!(d.is_none());
}

#[test]
fn deleting_the_tracked_task_unmarks_it() {
    let mut t = fresh_list();
    t.add_task(String::from("a"));
    t.select_for_pomodoro();
    assert_eq!(t.active_task, Some(t.tasks[0].id));
    t.delete_selected();
    assert!(t.active_task.is_none());
}

#[test]
fn toggle_completed_flips_the_selected_task() {
    let mut t = fresh_list();
    t.add_task(String::from("a"));
    let d = t.toggle_completed();
    assert!(d.is_some());
    assert!(t.tasks[0].completed);
    t.toggle_completed();
    assert!(!t.tasks[0].completed);

    let mut empty = fresh_list();
    assert!(empty.toggle_completed().is_none());
}

#[test]
fn select_for_pomodoro_marks_and_unmarks() {
    let mut t = fresh_list();
    t.add_task(String::from("a"));
    t.add_task(String::from("b"));
    t.select_for_pomodoro();
    assert_eq!(t.active_task, Some(t.tasks[0].id));
    t.select_for_pomodoro();
    assert!(t.active_task.is_none());
    t.move_down();
    t.select_for_pomodoro();
    assert_eq!(t.active_task, Some(t.tasks[1].id));
}

#[test]
fn add_time_reaches_the_task_with_that_id() {
    let mut t = fresh_list();
    t.add_task(String::from("a"));
    t.add_task(String::from("b"));
    let id = t.tasks[1].id;
    t.add_time(id, 90);
    assert_eq!(t.tasks[1].time_spent_secs, 90);
    assert_eq!(t.tasks[0].time_spent_secs, 0);
    t.add_time(id, 30);
    assert_eq!(t.tasks[1].time_spent_secs, 120);

    // an unknown id changes nothing
    t.add_time(9999, 5);
    assert_eq!(t.tasks[0].time_spent_secs, 0);
    assert_eq!(t.tasks[1].time_spent_secs, 120);
}

#[test]
fn cursor_movement_stops_at_the_edges() {
    let mut t = fresh_list();
    t.move_down();
    assert_eq!(t.selected, 0);
    t.move_up();
    assert_eq!(t.selected, 0);

    t.add_task(String::from("a"));
    t.add_task(String::from("b"));
    t.move_down();
    assert_eq!(t.selected, 1);
    t.move_down();
    assert_eq!(t.selected, 1);
    t.move_up();
    assert_eq!(t.selected, 0);
    t.move_up();
    assert_eq!(t.selected, 0);
}

#[test]
fn hiding_the_list_abandons_the_input_line() {
    let mut t = fresh_list();
    t.toggle_visible();
    assert!(t.visible);
    t.enter_input_mode();
    t.type_char('x');
    t.toggle_visible();
    assert!(!t.visible);
    assert!(!t.input_mode);
    assert!(t.input_buffer.is_empty());
}

#[test]
fn save_hands_out_a_snapshot() {
    let mut t = fresh_list();
    t.add_task(String::from("a"));
    let d = t.save();
    assert_eq!(d.tasks.len(), 1);
    assert_eq!(d.tasks[0].text, "a");
    assert_eq!(d.next_id, 2);

    // a snapshot taken the moment after is withheld by the throttle
    let d = t.save_throttled();
    assert!(d.is_none());
}

#[test]
fn save_due_measures_the_interval() {
    assert!(save_due(0, 60));
    assert!(!save_due(0, 59));
    assert!(save_due(100, 160));
    assert!(!save_due(100, 90));
    assert!(!save_due(u64::MAX, 0));
}
