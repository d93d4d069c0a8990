use cell_extras::atomic_init_cell::AtomicInitCell;

#[test]
fn filled_cell_is_read() {
    let mut cell = AtomicInitCell::<usize>::new();
    cell.init(7);
    let view = cell.borrow();
    assert_eq!(7, *view);
    let guard = view.into_guard();
    cell.release(guard);
}

#[test]
fn filled_cell_is_written() {
    let mut cell = AtomicInitCell::<String>::new();
    cell.init(String::from("foo"));
    {
        let mut view = cell.borrow_mut();
        view.push_str("bar");
        assert_eq!("foobar", view.as_str());
        let guard = view.into_guard();
        cell.release_mut(guard);
    }
    let view = cell.borrow();
    assert_eq!("foobar", view.as_str());
}

#[test]
fn init_leaves_the_cell_free() {
    let mut cell = AtomicInitCell::<u8>::new();
    cell.init(3);
    let mut writer = cell.borrow_mut();
    *writer = 4;
    let guard = writer.into_guard();
    cell.release_mut(guard);
    let first = cell.borrow().into_guard();
    let second = cell.borrow().into_guard();
    cell.release(first);
    cell.release(second);
    assert_eq!(4, *cell.borrow_mut());
}

#[test]
fn atomic_init_cell_debug_text_shows_the_value() {
    let mut cell = AtomicInitCell::<usize>::new();
    cell.init(10);
    let text = cell.debug_text(|value| format!("{:?}", value));
    assert_eq!("InitCell(10)", text);
}
