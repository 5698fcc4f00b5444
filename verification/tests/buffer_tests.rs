use multi_window_output::window::buffer::Buffer;
use multi_window_output::window::Window;

#[test]
#[allow(non_snake_case)]
fn Window_create_window() {
    let mut window = Window::new(0);
    window.print(&format!("Hello World"));
    let mut it = window.buffer.iter();
    while let Some(text) = it.next() {
        assert_eq!(text, &Some(String::from("Hello World")));
    }
}

#[test]
fn window_create_window() {
    let mut window = Window::new(0);
    window.print(&format!("Hello World"));
    let mut it = window.buffer.iter();
    while let Some(text) = it.next() {
        assert_eq!(text, &Some(String::from("Hello World")));
    }
}

#[test]
#[allow(non_snake_case)]
fn Buffer_print_buffer() {
    let mut buffer = Buffer::new();

    for _ in 0..1026 {
        buffer.append(&format!("Hello World"));
        buffer.flush();
    }

    let mut it = buffer.iter();
    while let Some(i) = it.next() {
        assert_eq!(i, &Some(String::from("Hello World")));
    }
}

#[test]
fn buffer_print_buffer() {
    let mut buffer = Buffer::new();

    for _ in 0..1026 {
        buffer.append(&format!("Hello World"));
        buffer.flush();
    }

    let mut it = buffer.iter();
    while let Some(i) = it.next() {
        assert_eq!(i, &Some(String::from("Hello World")));
    }
}

#[test]
fn append_sanitizes_and_concatenates() {
    // Newline and NUL are dropped, a tab becomes four spaces, and a carriage
    // return resets only what this append call had accumulated.
    let mut buffer = Buffer::new();
    buffer.append("a\tb\nc\rd");
    buffer.flush();
    let mut it = buffer.iter();
    assert_eq!(it.next(), Some(&Some(String::from("d"))));
    assert_eq!(it.next(), None);

    let mut buffer = Buffer::new();
    buffer.append("a\tb");
    buffer.flush();
    let mut it = buffer.iter();
    assert_eq!(it.next(), Some(&Some(String::from("a    b"))));
    assert_eq!(it.next(), None);
}

#[test]
fn append_run_composes_one_line() {
    // A carriage return in a later append does not erase earlier appends.
    let mut buffer = Buffer::new();
    buffer.append("x\r");
    buffer.append("yz");
    buffer.append("\n\0");
    buffer.flush();
    let mut it = buffer.iter();
    assert_eq!(it.next(), Some(&Some(String::from("yz"))));
    assert_eq!(it.next(), None);
}

#[test]
fn saturated_buffer_evicts_oldest_first() {
    // More flushes than the capacity of 63 stored lines: the count stays at
    // 63 and the oldest lines have been evicted first.
    let mut buffer = Buffer::new();
    for i in 0..70 {
        buffer.append(&format!("line {}", i));
        buffer.flush();
    }
    let mut collected: Vec<String> = Vec::new();
    let mut it = buffer.iter();
    while let Some(line) = it.next() {
        collected.push(line.clone().unwrap());
    }
    assert_eq!(collected.len(), 63);
    assert_eq!(collected[0], "line 7");
    assert_eq!(collected[62], "line 69");
}

#[test]
fn iterate_is_chronological_and_restartable() {
    let mut buffer = Buffer::new();
    for i in 0..5 {
        buffer.append(&format!("line {}", i));
        buffer.flush();
    }
    let mut first_pass: Vec<String> = Vec::new();
    let mut it = buffer.iter();
    while let Some(line) = it.next() {
        first_pass.push(line.clone().unwrap());
    }
    let mut second_pass: Vec<String> = Vec::new();
    let mut it = buffer.iter();
    while let Some(line) = it.next() {
        second_pass.push(line.clone().unwrap());
    }
    assert_eq!(first_pass.len(), 5);
    for i in 0..5 {
        assert_eq!(first_pass[i], format!("line {}", i));
    }
    assert_eq!(first_pass, second_pass);
}

#[test]
fn flush_without_content_stores_unset_line() {
    let mut buffer = Buffer::new();
    buffer.flush();
    let mut it = buffer.iter();
    assert_eq!(it.next(), Some(&None));
    assert_eq!(it.next(), None);
}

#[test]
fn window_name_carries_identity() {
    let window = Window::new(3);
    assert_eq!(window.get_name(), "Window 3");
    assert_eq!(window.get_id(), 3);
}
