use clutch::editor::ComposeBuffer;

#[test]
fn scenario_append_backspace() {
    let mut b = ComposeBuffer::new();
    b.append('h');
    b.append('i');
    assert_eq!(b.contents(), "hi");
    b.backspace();
    assert_eq!(b.contents(), "h");
}

#[test]
fn backspace_on_empty_is_noop() {
    let mut b = ComposeBuffer::new();
    b.backspace();
    b.backspace();
    b.backspace();
    assert_eq!(b.contents(), "");
    b.append('x');
    assert_eq!(b.contents(), "x");
}

#[test]
fn take_and_clear_round_trip() {
    let mut b = ComposeBuffer::new();
    b.append('h');
    b.append('e');
    b.append('l');
    b.append('z');
    b.backspace();
    b.append('l');
    b.append('o');
    let taken = b.take_and_clear();
    assert_eq!(taken, "hello");
    assert_eq!(b.contents(), "");
}

#[test]
fn take_on_empty_yields_empty() {
    let mut b = ComposeBuffer::new();
    let taken = b.take_and_clear();
    assert_eq!(taken, "");
    assert_eq!(b.contents(), "");
}

#[test]
fn length_tracks_appends_minus_backspaces() {
    let mut b = ComposeBuffer::new();
    for _ in 0..5 {
        b.append('a');
    }
    for _ in 0..3 {
        b.backspace();
    }
    assert_eq!(b.contents().len(), 2);
    for _ in 0..10 {
        b.backspace();
    }
    assert_eq!(b.contents().len(), 0);
}
