use cell_extras::atomic_ref_cell::debug_frame;
use cell_extras::atomic_ref_cell::AtomicRef;
use cell_extras::atomic_ref_cell::AtomicRefMut;
use cell_extras::AtomicRefCell;

#[test]
fn non_send_type() {
    AtomicRefCell::new(::std::ptr::null::<usize>());
}

#[test]
fn non_sync_type() {
    AtomicRefCell::new(::std::ptr::null::<usize>());
}

#[test]
fn new_then_into_inner_gives_the_value_back() {
    let cell = AtomicRefCell::new(5);
    let inner = cell.into_inner();
    assert_eq!(5, inner);
}

#[test]
fn written_value_is_read_back() {
    let mut cell = AtomicRefCell::new(5);
    let mut writer = cell.try_borrow_mut().expect("a free cell grants the exclusive view");
    assert_eq!(5, *writer);
    *writer = 42;
    let guard = writer.into_guard();
    cell.release_mut(guard);
    let reader = cell.try_borrow().expect("a free cell grants a shared view");
    assert_eq!(42, *reader);
    let guard = reader.into_guard();
    cell.release(guard);
    assert_eq!(42, cell.into_inner());
}

#[test]
fn two_readers_see_the_value_and_keep_the_writer_out() {
    let mut cell = AtomicRefCell::new(7);
    let first = cell.borrow().into_guard();
    let second = cell.borrow().into_guard();
    {
        let one = cell.resume(first);
        let two = cell.resume(second);
        assert_eq!(7, *one);
        assert_eq!(7, *two);
        let first = one.into_guard();
        let second = two.into_guard();
        assert!(cell.try_borrow_mut().is_none());
        cell.release(first);
        assert!(cell.try_borrow_mut().is_none());
        cell.release(second);
    }
    assert!(cell.try_borrow_mut().is_some());
}

#[test]
fn many_readers_are_all_granted() {
    let mut cell = AtomicRefCell::new(String::from("shared"));
    let mut guards = Vec::new();
    for _ in 0..100 {
        let view = cell.try_borrow().expect("no writer is live");
        assert_eq!("shared", view.as_str());
        guards.push(view.into_guard());
    }
    assert!(cell.try_borrow_mut().is_none());
    let mut left = guards.len();
    for guard in guards {
        assert!(cell.try_borrow_mut().is_none());
        cell.release(guard);
        left -= 1;
    }
    assert_eq!(0, left);
    assert!(cell.try_borrow_mut().is_some());
}

#[test]
fn writer_keeps_readers_out() {
    let mut cell = AtomicRefCell::new(5);
    let writer = cell.borrow_mut().into_guard();
    assert!(cell.try_borrow().is_none());
    assert!(cell.try_borrow().is_none());
    cell.release_mut(writer);
    assert!(cell.try_borrow().is_some());
}

#[test]
fn writer_keeps_a_second_writer_out() {
    let mut cell = AtomicRefCell::new(5);
    let writer = cell.borrow_mut().into_guard();
    assert!(cell.try_borrow_mut().is_none());
    assert!(cell.try_borrow_mut().is_none());
    cell.release_mut(writer);
    assert!(cell.try_borrow_mut().is_some());
}

#[test]
fn reader_keeps_the_writer_out() {
    let mut cell = AtomicRefCell::new(5);
    let reader = cell.borrow().into_guard();
    assert!(cell.try_borrow_mut().is_none());
    assert!(cell.try_borrow().is_some());
    cell.release(reader);
}

#[test]
fn refused_request_changes_nothing() {
    let mut cell = AtomicRefCell::new(11);
    let writer = cell.borrow_mut().into_guard();
    assert!(cell.try_borrow().is_none());
    assert!(cell.try_borrow_mut().is_none());
    {
        let mut resumed = cell.resume_mut(writer);
        assert_eq!(11, *resumed);
        *resumed = 12;
        let writer = resumed.into_guard();
        cell.release_mut(writer);
    }
    assert_eq!(12, cell.into_inner());
}

#[test]
fn released_writer_frees_the_cell_at_once() {
    let mut cell = AtomicRefCell::new(1);
    let writer = cell.try_borrow_mut().expect("free").into_guard();
    cell.release_mut(writer);
    let again = cell.try_borrow_mut().expect("free again").into_guard();
    cell.release_mut(again);
    assert_eq!(1, cell.into_inner());
}

#[test]
fn map_narrows_a_shared_view() {
    let mut cell = AtomicRefCell::new((5u32, 'b'));
    let whole: AtomicRef<(u32, char)> = cell.borrow();
    let part: AtomicRef<u32> = AtomicRef::map(whole, |t| &t.0);
    assert_eq!(*part, 5);
}

#[test]
fn two_narrowed_views_live_side_by_side() {
    let mut cell = AtomicRefCell::new((5u32, 'b'));
    let first = cell.borrow().into_guard();
    let second = cell.borrow().into_guard();
    let number = AtomicRef::map(cell.resume(first), |t| &t.0);
    let letter = AtomicRef::map(cell.resume(second), |t| &t.1);
    assert_eq!(5, *number);
    assert_eq!('b', *letter);
    assert_eq!(5, *number);
    let first = number.into_guard();
    let second = letter.into_guard();
    assert!(cell.try_borrow_mut().is_none());
    cell.release(first);
    cell.release(second);
    assert!(cell.try_borrow_mut().is_some());
}

#[test]
fn map_narrows_the_exclusive_view() {
    let mut cell = AtomicRefCell::new((5u32, 'b'));
    {
        let whole: AtomicRefMut<(u32, char)> = cell.borrow_mut();
        let mut part: AtomicRefMut<u32> = AtomicRefMut::map(whole, |t| &mut t.0);
        assert_eq!(*part, 5);
        *part = 42;
        let guard = part.into_guard();
        cell.release_mut(guard);
    }
    let reader = cell.borrow();
    assert_eq!(*reader, (42, 'b'));
}

#[test]
fn narrowing_does_not_touch_the_register() {
    let mut cell = AtomicRefCell::new((1u8, 2u8));
    let narrowed = AtomicRef::map(cell.borrow(), |t| &t.1);
    assert_eq!(2, *narrowed);
    let guard = narrowed.into_guard();
    assert!(cell.try_borrow_mut().is_none());
    cell.release(guard);
    assert!(cell.try_borrow_mut().is_some());
}

#[test]
fn debug_text_shows_the_value() {
    let cell = AtomicRefCell::new(5);
    let text = cell.debug_text(|value| format!("{:?}", value));
    assert_eq!("AtomicRefCell { value: 5 }", text);
}

#[test]
fn debug_text_shows_the_value_beside_readers() {
    let mut cell = AtomicRefCell::new("seven");
    let reader = cell.borrow().into_guard();
    let text = cell.debug_text(|value| format!("{:?}", value));
    assert_eq!("AtomicRefCell { value: \"seven\" }", text);
    cell.release(reader);
}

#[test]
fn debug_text_does_not_fail_beside_the_writer() {
    let mut cell = AtomicRefCell::new(5);
    let writer = cell.borrow_mut().into_guard();
    let text = cell.debug_text(|value| format!("{:?}", value));
    assert_eq!("AtomicRefCell { value: <borrowed> }", text);
    cell.release_mut(writer);
}

#[test]
fn debug_frame_builds_both_texts() {
    assert_eq!("AtomicRefCell { value: (1, 2) }", debug_frame(Some("(1, 2)")));
    assert_eq!("AtomicRefCell { value:  }", debug_frame(Some("")));
    assert_eq!("AtomicRefCell { value: <borrowed> }", debug_frame(None));
}
