use multi_window_output::colors::Color;
use multi_window_output::window::Priority;
use multi_window_output::{Screen, ScreenError, MAX_WIN};

#[test]
fn create_screen() {
    let mut screen = Screen::new();
    let id_1 = screen.append_left_child(0).unwrap();
    let id_2 = screen.append_down_child(0).unwrap();
    screen.println(id_1, "Hello World").unwrap();
    screen.println(id_2, "Hello World").unwrap();
}

#[test]
fn not_found() {
    let mut screen = Screen::new();
    let err = screen.flush(3);
    assert_eq!(Err(ScreenError::NotFound), err);
}

#[test]
fn alredy_exists() {
    let mut screen = Screen::new();
    screen.append_left_child(0).unwrap();
    let err = screen.append_left_child(0);
    assert_eq!(Err(ScreenError::AlreadyExists), err);
}

#[test]
fn out_of_memory() {
    let mut screen = Screen::new();
    let mut id: usize = 0;
    for _ in 0..(MAX_WIN - 1) {
        id = screen.append_left_child(id).unwrap();
    }
    let err = screen.append_left_child(0);
    assert_eq!(Err(ScreenError::OutOfCapacity), err);
}

#[test]
fn change_colors() {
    let mut screen = Screen::new();
    screen.set_screen_color(Color::Blue);
    screen.set_window_color(0, Color::Blue).unwrap();
}

#[test]
fn colors_sample_code() {
    let mut screen = Screen::new();

    // Change screen's color
    screen.set_screen_color(Color::Green);

    // Change window's color
    screen.set_window_color(0, Color::Yellow).unwrap();
}

#[test]
fn lib_sample_code() {
    // Create a new screen. It will create a `Screen` with a single window
    // with id = 0.
    let mut screen = Screen::new();

    // Create new windows either to the left of or below the already created
    // windows.
    let first_window_id = 0;
    let second_window_id = screen.append_left_child(first_window_id).unwrap();
    let third_window_id = screen.append_down_child(first_window_id).unwrap();
    let fourth_window_id = screen.append_down_child(second_window_id).unwrap();

    // Set the Screen's and windows' names.
    screen.set_name("My new Screen");
    screen
        .set_window_name(third_window_id, "This is the third window")
        .unwrap();

    // Change the Screen's and windows' colors.
    screen.set_screen_color(Color::LightBlack);
    screen.set_window_color(first_window_id, Color::Blue).unwrap();
    screen
        .set_window_color(fourth_window_id, Color::Yellow)
        .unwrap();

    // Print things on screen.
    screen.println(third_window_id, "Hello, World!").unwrap();
    screen
        .print(second_window_id, "Hello, multi_window_output!")
        .unwrap();
}

#[test]
fn first_split_fixes_orientation() {
    // Left then down: the orientation recorded on window 0 stays Vertical.
    let mut screen = Screen::new();
    screen.append_left_child(0).unwrap();
    screen.append_down_child(0).unwrap();
    assert_eq!(
        screen.get_window(0).unwrap().priority,
        Some(Priority::Vertical)
    );

    // Down then left on a fresh window: Horizontal wins.
    let mut screen = Screen::new();
    screen.append_down_child(0).unwrap();
    screen.append_left_child(0).unwrap();
    assert_eq!(
        screen.get_window(0).unwrap().priority,
        Some(Priority::Horizontal)
    );
}

#[test]
fn second_split_leaves_tree_unchanged() {
    let mut screen = Screen::new();
    let first = screen.append_left_child(0).unwrap();
    assert_eq!(first, 1);
    let err = screen.append_left_child(0);
    assert_eq!(Err(ScreenError::AlreadyExists), err);
    assert_eq!(screen.count(), 2);
    let root = screen.get_window(0).unwrap();
    assert_eq!(root.left_child, Some(1));
    assert_eq!(root.down_child, None);
    assert_eq!(root.priority, Some(Priority::Vertical));
    assert!(screen.get_window(1).is_some());
}

#[test]
fn full_table_consumes_no_identity() {
    let mut screen = Screen::new();
    let mut id: usize = 0;
    for _ in 0..(MAX_WIN - 1) {
        id = screen.append_left_child(id).unwrap();
    }
    assert_eq!(screen.count(), MAX_WIN);
    let err = screen.append_left_child(0);
    assert_eq!(Err(ScreenError::OutOfCapacity), err);
    assert_eq!(screen.count(), MAX_WIN);
}

#[test]
fn invalid_identities_are_not_found() {
    let mut screen = Screen::new();
    // The table size itself is never a valid identity.
    assert_eq!(Err(ScreenError::NotFound), screen.flush(MAX_WIN));
    assert_eq!(Err(ScreenError::NotFound), screen.print(MAX_WIN, "x"));
    assert_eq!(Err(ScreenError::NotFound), screen.println(MAX_WIN, "x"));
    assert_eq!(Err(ScreenError::NotFound), screen.append_left_child(MAX_WIN).map(|_| ()));
    // An unallocated slot inside the range fails the same way.
    assert_eq!(Err(ScreenError::NotFound), screen.flush(3));
    assert_eq!(Err(ScreenError::NotFound), screen.print(3, "x"));
    assert_eq!(Err(ScreenError::NotFound), screen.println(3, "x"));
    assert_eq!(Err(ScreenError::NotFound), screen.append_down_child(3).map(|_| ()));
    assert_eq!(Err(ScreenError::NotFound), screen.set_window_name(3, "n"));
    assert_eq!(Err(ScreenError::NotFound), screen.set_window_color(3, Color::Red));
}

#[test]
fn full_table_still_validates_identity_first() {
    // Even on a full table, an out-of-range or unallocated identity fails
    // with NotFound, not OutOfCapacity.
    let mut screen = Screen::new();
    let mut id: usize = 0;
    for _ in 0..(MAX_WIN - 1) {
        id = screen.append_left_child(id).unwrap();
    }
    assert_eq!(screen.count(), MAX_WIN);
    assert_eq!(
        Err(ScreenError::NotFound),
        screen.append_left_child(MAX_WIN).map(|_| ())
    );
    assert_eq!(
        Err(ScreenError::NotFound),
        screen.append_down_child(MAX_WIN + 3).map(|_| ())
    );
    // A valid identity on the full table still reports the capacity.
    assert_eq!(
        Err(ScreenError::OutOfCapacity),
        screen.append_down_child(0).map(|_| ())
    );
}

#[test]
fn println_lands_in_each_pane_buffer() {
    let mut screen = Screen::new();
    let id_1 = screen.append_left_child(0).unwrap();
    assert_eq!(id_1, 1);
    let id_2 = screen.append_down_child(0).unwrap();
    assert_eq!(id_2, 2);
    screen.println(id_1, "Hello World").unwrap();
    screen.println(id_2, "Hello World").unwrap();
    for id in [id_1, id_2] {
        let window = screen.get_window(id).unwrap();
        let mut it = window.buffer.iter();
        assert_eq!(it.next(), Some(&Some(String::from("Hello World"))));
        assert_eq!(it.next(), None);
    }
}

#[test]
fn render_fills_grid_rows_and_title() {
    let mut screen = Screen::new();
    screen.set_dimensions(10, 5);
    screen.flush(0).unwrap();
    let grid = screen.grid();
    // The root pane owns rows 0..4 and columns 0..10; rows 0..3 are content,
    // row 3 is the title bar.
    // Row 0 shows the one (empty) stored line: blank, with the pane-colored
    // separator in the rightmost column.
    assert_eq!(grid[0][0], (b' ', Color::Null));
    assert_eq!(grid[0][9], (b' ', Color::Green));
    // Row 1 has no line and shows the placeholder.
    assert_eq!(grid[1][0], (b'-', Color::Null));
    assert_eq!(grid[1][1], (b'-', Color::Null));
    assert_eq!(grid[1][2], (b' ', Color::Null));
    // The title bar shows "Window 0 ID: 0" clipped to ten columns, all on the
    // window's color.
    let expected = b"Window 0 I";
    for j in 0..10 {
        assert_eq!(grid[3][j], (expected[j], Color::Green));
    }
    // Outside the render region the grid keeps its previous content: row 4
    // still holds the placeholder painted by the construction-time render at
    // the full supported size.
    assert_eq!(grid[4][0], (b'-', Color::Null));
}

#[test]
fn set_window_name_shows_in_title() {
    let mut screen = Screen::new();
    screen.set_window_name(0, "logs").unwrap();
    assert_eq!(screen.get_window(0).unwrap().name, "logs");
    screen.set_dimensions(12, 3);
    screen.flush(0).unwrap();
    let grid = screen.grid();
    let expected = b"logs ID: 0  ";
    for j in 0..12 {
        assert_eq!(grid[1][j], (expected[j], Color::Green));
    }
}
