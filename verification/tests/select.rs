use cli_select::keys::{KeyCode, KeyEvent, KeyModifiers};
use cli_select::select::{EventOutcome, Select, SelectError};
use cli_select::SelectDialogKey;

fn three_items() -> Vec<String> {
    vec![
        String::from("item1"),
        String::from("item2"),
        String::from("item3"),
    ]
}

#[test]
fn it_works() {}

#[test]
fn initial_print_works() {
    let items = three_items();
    let buffer = String::new();

    let mut select = Select::new(items, buffer);

    Select::build_lines(&mut select);
    Select::print_lines(&mut select);

    assert_eq!("> item1\n  item2\n  item3\n", select.out)
}

/// test that moving down works when index is less than last item
#[test]
fn move_down_works() {
    let items = three_items();
    let buffer = String::new();

    let mut select = Select::new(items, buffer);

    Select::build_lines(&mut select);
    Select::move_down(&mut select);

    assert_eq!("  item1\n> item2\n  item3\n", select.out);
    assert_eq!(select.selected_item, 1);
}

/// test that moving up is not possible when selected item is 0
#[test]
fn no_output_when_moving_up_not_possible() {
    let items = three_items();
    let buffer = String::new();

    let mut select = Select::new(items, buffer);

    Select::build_lines(&mut select);
    Select::move_up(&mut select);

    assert_eq!("", select.out);
    assert_eq!(select.selected_item, 0);
}

#[test]
fn no_output_when_moving_down_not_possible() {
    let items = three_items();
    let buffer = String::new();

    let mut select = Select::new(items, buffer);

    Select::build_lines(&mut select);

    select.selected_item = 2; // selected item is now item3
    Select::move_down(&mut select);

    assert_eq!("", select.out);

    assert_eq!(select.selected_item, 2);
}

#[test]
fn rows_render_with_default_pointer() {
    let mut select = Select::new(three_items(), String::new());
    select.begin().unwrap();
    assert_eq!(select.lines[0].render(), "> item1");
    assert_eq!(select.lines[1].render(), "  item2");
    assert_eq!(select.lines[2].render(), "  item3");
}

#[test]
fn down_then_confirm_selects_second_item() {
    let mut select = Select::new(three_items(), String::new());
    select.begin().unwrap();

    let mut change_count = 0;
    let mut last_direction = None;
    let mut last_item = String::new();

    let (outcome, _term) = select.handle_event(KeyEvent::plain(KeyCode::Down));
    if let EventOutcome::Moved(direction) = outcome {
        change_count += 1;
        last_direction = Some(direction);
        last_item = select.items[select.selected_item].clone();
    }
    let (outcome, _term) = select.handle_event(KeyEvent::plain(KeyCode::Enter));
    assert_eq!(outcome, EventOutcome::Confirmed);

    assert_eq!(select.items[select.selected_item], "item2");
    assert_eq!(change_count, 1);
    assert_eq!(last_direction, Some(SelectDialogKey::DownKey));
    assert_eq!(last_item, "item2");
}

#[test]
fn single_item_confirmed_immediately() {
    let mut select = Select::new(vec![String::from("only")], String::new());
    select.begin().unwrap();

    let (outcome, term) = select.handle_event(KeyEvent::plain(KeyCode::Enter));
    assert_eq!(outcome, EventOutcome::Confirmed);
    assert_eq!(term, "");
    assert_eq!(select.items[select.selected_item], "only");
    assert_eq!(select.out, "> only\n");
}

#[test]
fn up_key_equal_to_confirm_key_is_refused() {
    let mut select = Select::new(three_items(), String::new());
    let result = select.add_up_key(KeyCode::Enter);
    assert_eq!(result, Err(SelectError::ConfirmKeyAsNavigation));
    // construction failed before any rendering
    assert_eq!(select.out, "");
    assert_eq!(select.up_keys.len(), 0);

    let result = select.add_down_key(KeyCode::Enter);
    assert_eq!(result, Err(SelectError::ConfirmKeyAsNavigation));
    let result = select.set_up_key(KeyCode::Enter);
    assert_eq!(result, Err(SelectError::ConfirmKeyAsNavigation));
    let result = select.set_down_key(KeyCode::Enter);
    assert_eq!(result, Err(SelectError::ConfirmKeyAsNavigation));
}

#[test]
fn empty_item_list_is_refused() {
    let mut select = Select::new(Vec::new(), String::new());
    assert_eq!(select.begin(), Err(SelectError::EmptyItemList));
    assert_eq!(select.out, "");
}

#[test]
fn up_at_top_boundary_changes_nothing() {
    let mut select = Select::new(three_items(), String::new());
    select.begin().unwrap();
    let before = select.out.clone();

    let (outcome, term) = select.handle_event(KeyEvent::plain(KeyCode::Up));
    assert_eq!(outcome, EventOutcome::Ignored);
    assert_eq!(term, "");
    assert_eq!(select.out, before);
    assert_eq!(select.selected_item, 0);
}

#[test]
fn down_at_bottom_boundary_changes_nothing() {
    let mut select = Select::new(three_items(), String::new());
    select.begin().unwrap();
    select.handle_event(KeyEvent::plain(KeyCode::Down));
    select.handle_event(KeyEvent::plain(KeyCode::Down));
    assert_eq!(select.selected_item, 2);
    let before = select.out.clone();

    let (outcome, term) = select.handle_event(KeyEvent::plain(KeyCode::Down));
    assert_eq!(outcome, EventOutcome::Ignored);
    assert_eq!(term, "");
    assert_eq!(select.out, before);
    assert_eq!(select.selected_item, 2);
}

#[test]
fn modified_key_press_is_ignored() {
    let mut select = Select::new(three_items(), String::new());
    select.begin().unwrap();
    let event = KeyEvent {
        code: KeyCode::Down,
        modifiers: KeyModifiers {
            shift: false,
            control: true,
            alt: false,
        },
    };
    let (outcome, _term) = select.handle_event(event);
    assert_eq!(outcome, EventOutcome::Ignored);
    assert_eq!(select.selected_item, 0);
}

#[test]
fn unrecognized_key_is_ignored() {
    let mut select = Select::new(three_items(), String::new());
    select.begin().unwrap();
    let (outcome, term) = select.handle_event(KeyEvent::plain(KeyCode::Char('z')));
    assert_eq!(outcome, EventOutcome::Ignored);
    assert_eq!(term, "");
    assert_eq!(select.selected_item, 0);
}

#[test]
fn added_keys_move_the_highlight() {
    let mut select = Select::new(three_items(), String::new());
    select.add_down_key(KeyCode::Char('j')).unwrap();
    select.add_up_key(KeyCode::Char('k')).unwrap();
    select.begin().unwrap();

    let (outcome, _term) = select.handle_event(KeyEvent::plain(KeyCode::Char('j')));
    assert_eq!(outcome, EventOutcome::Moved(SelectDialogKey::DownKey));
    assert_eq!(select.selected_item, 1);

    let (outcome, _term) = select.handle_event(KeyEvent::plain(KeyCode::Char('k')));
    assert_eq!(outcome, EventOutcome::Moved(SelectDialogKey::UpKey));
    assert_eq!(select.selected_item, 0);
}

#[test]
fn move_emits_erase_then_new_frame() {
    let mut select = Select::new(three_items(), String::new());
    select.begin().unwrap();
    assert_eq!(select.out, "> item1\n  item2\n  item3\n");

    let (outcome, term) = select.handle_event(KeyEvent::plain(KeyCode::Down));
    assert_eq!(outcome, EventOutcome::Moved(SelectDialogKey::DownKey));
    // cursor up over the 3 rows and the row above, one blank per row
    // (each row is 7 characters wide), cursor up again
    assert_eq!(term, "\u{1b}[4A       \n       \n       \n\u{1b}[4A");
    assert_eq!(
        select.out,
        "> item1\n  item2\n  item3\n  item1\n> item2\n  item3\n"
    );
}

#[test]
fn underline_option_decorates_only_selected_row() {
    let mut select = Select::new(three_items(), String::new());
    select.underline_selected_item();
    select.begin().unwrap();
    assert_eq!(
        select.out,
        "> \u{1b}[4mitem1\u{1b}[0m\n  item2\n  item3\n"
    );
}

#[test]
fn move_forward_option_widens_only_selected_row() {
    let mut select = Select::new(three_items(), String::new());
    select.move_selected_item_forward();
    select.begin().unwrap();
    assert_eq!(select.out, ">  item1\n  item2\n  item3\n");
}

#[test]
fn custom_pointers_are_used() {
    let mut select = Select::new(three_items(), String::new());
    select.pointer('#');
    select.not_selected_pointer('-');
    select.begin().unwrap();
    assert_eq!(select.out, "# item1\n- item2\n- item3\n");
}

#[test]
fn replaced_default_keys_are_recognized() {
    let mut select = Select::new(three_items(), String::new());
    select.set_down_key(KeyCode::Char('s')).unwrap();
    select.set_up_key(KeyCode::Char('w')).unwrap();
    select.begin().unwrap();

    let (outcome, _term) = select.handle_event(KeyEvent::plain(KeyCode::Char('s')));
    assert_eq!(outcome, EventOutcome::Moved(SelectDialogKey::DownKey));
    let (outcome, _term) = select.handle_event(KeyEvent::plain(KeyCode::Char('w')));
    assert_eq!(outcome, EventOutcome::Moved(SelectDialogKey::UpKey));
}

#[test]
fn longest_item_len_tracks_widest_row() {
    let mut select = Select::new(
        vec![String::from("a"), String::from("abcdef"), String::from("ab")],
        String::new(),
    );
    Select::build_lines(&mut select);
    // widest row: pointer column + one space + "abcdef"
    assert_eq!(select.longest_item_len, 8);
}

#[test]
fn rows_above_widens_the_erase_pass() {
    let mut select = Select::new(three_items(), String::new());
    select.rows_above(3);
    select.begin().unwrap();

    let (_outcome, term) = select.handle_event(KeyEvent::plain(KeyCode::Down));
    // cursor up over the 3 rows and the 3 rows above the list
    assert_eq!(term, "\u{1b}[6A       \n       \n       \n\u{1b}[6A");
}

#[test]
fn paging_and_function_keys_can_be_bound() {
    let mut select = Select::new(three_items(), String::new());
    select.add_down_key(KeyCode::PageDown).unwrap();
    select.add_up_key(KeyCode::PageUp).unwrap();
    select.add_down_key(KeyCode::End).unwrap();
    select.add_up_key(KeyCode::F(5)).unwrap();
    select.begin().unwrap();

    let (outcome, _term) = select.handle_event(KeyEvent::plain(KeyCode::PageDown));
    assert_eq!(outcome, EventOutcome::Moved(SelectDialogKey::DownKey));
    let (outcome, _term) = select.handle_event(KeyEvent::plain(KeyCode::F(5)));
    assert_eq!(outcome, EventOutcome::Moved(SelectDialogKey::UpKey));
    let (outcome, _term) = select.handle_event(KeyEvent::plain(KeyCode::End));
    assert_eq!(outcome, EventOutcome::Moved(SelectDialogKey::DownKey));
    let (outcome, _term) = select.handle_event(KeyEvent::plain(KeyCode::PageUp));
    assert_eq!(outcome, EventOutcome::Moved(SelectDialogKey::UpKey));
    assert_eq!(select.selected_item, 0);
}

#[test]
fn color_option_changes_nothing() {
    let mut select = Select::new(three_items(), String::new());
    select.color_selected_item();
    select.begin().unwrap();
    assert_eq!(select.out, "> item1\n  item2\n  item3\n");
}
