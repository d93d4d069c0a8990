use cell_extras::init_cell::debug_frame;
use cell_extras::InitCell;

#[test]
fn init() {
    let mut cell = InitCell::<usize>::new();
    assert_eq!(None, cell.get());

    cell.init(10);
    assert_eq!(Some(&10), cell.get());
}

#[test]
fn empty_cell_gives_nothing_to_write_to() {
    let mut cell = InitCell::<usize>::new();
    assert_eq!(None, cell.get_mut());
    assert_eq!(None, cell.get());
}

#[test]
fn get_mut_writes_through() {
    let mut cell = InitCell::<usize>::new();
    cell.init(7);
    if let Some(data) = cell.get_mut() {
        *data = 21;
    }
    assert_eq!(Some(&21), cell.get());
}

#[test]
fn filled_cell_holds_a_string() {
    let mut cell = InitCell::<String>::new();
    cell.init("foo".into());
    cell.get_mut().expect("filled").push_str("bar");
    assert_eq!("foobar", cell.get().expect("filled"));
}

#[test]
fn init_cell_debug_text_shows_the_value() {
    let mut cell = InitCell::<usize>::new();
    cell.init(10);
    let text = cell.debug_text(|value| format!("{:?}", value));
    assert_eq!("InitCell(10)", text);
}

#[test]
fn init_cell_debug_frame_wraps_the_text() {
    assert_eq!("InitCell(\"foo\")", debug_frame("\"foo\""));
    assert_eq!("InitCell()", debug_frame(""));
}
