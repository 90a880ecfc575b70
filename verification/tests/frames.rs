use mini_backtrace::{frame_address, has_proc_info, step_succeeded};
use mini_backtrace::{CapacityError, Frames, UNW_ESUCCESS};

#[test]
fn new_list_is_empty() {
    let frames = Frames::<4>::new();
    assert_eq!(frames.len(), 0);
    assert_eq!(frames.get(0), None);
    assert_eq!(frames.as_slice(), &[] as &[usize]);
}

#[test]
fn try_push_appends_in_order() {
    let mut frames = Frames::<3>::new();
    assert_eq!(frames.try_push(7), Ok(()));
    assert_eq!(frames.try_push(5), Ok(()));
    assert_eq!(frames.len(), 2);
    assert_eq!(frames.get(0), Some(7));
    assert_eq!(frames.get(1), Some(5));
    assert_eq!(frames.get(2), None);
    assert_eq!(frames.as_slice(), &[7, 5]);
}

#[test]
fn try_push_on_a_full_list_hands_the_address_back() {
    let mut frames = Frames::<2>::new();
    assert_eq!(frames.try_push(1), Ok(()));
    assert_eq!(frames.try_push(2), Ok(()));
    assert_eq!(frames.try_push(3), Err(CapacityError { element: 3 }));
    assert_eq!(frames.as_slice(), &[1, 2]);
    assert_eq!(frames.len(), 2);
}

#[test]
fn list_without_capacity_takes_nothing() {
    let mut frames = Frames::<0>::new();
    assert_eq!(frames.try_push(9), Err(CapacityError { element: 9 }));
    assert_eq!(frames.len(), 0);
    assert_eq!(frames.get(0), None);
}

#[test]
fn push_appends() {
    let mut frames = Frames::<2>::new();
    frames.push(0x10);
    frames.push(0x20);
    assert_eq!(frames.as_slice(), &[0x10, 0x20]);
    assert_eq!(frames.len(), 2);
}

#[test]
fn get_beyond_the_capacity_is_none() {
    let mut frames = Frames::<2>::new();
    frames.push(0x10);
    assert_eq!(frames.get(1), None);
    assert_eq!(frames.get(2), None);
    assert_eq!(frames.get(usize::MAX), None);
}

#[test]
fn cloned_list_holds_the_same_addresses() {
    let mut frames = Frames::<3>::new();
    frames.push(4);
    frames.push(8);
    let copy = frames.clone();
    frames.push(15);
    assert_eq!(copy.as_slice(), &[4, 8]);
    assert_eq!(frames.as_slice(), &[4, 8, 15]);
}

#[test]
fn step_succeeded_only_for_positive_status() {
    assert!(step_succeeded(1));
    assert!(step_succeeded(i32::MAX));
    assert!(!step_succeeded(0));
    assert!(!step_succeeded(-1));
    assert!(!step_succeeded(-6540));
    assert!(!step_succeeded(i32::MIN));
}

#[test]
fn has_proc_info_only_for_success() {
    assert_eq!(UNW_ESUCCESS, 0);
    assert!(has_proc_info(UNW_ESUCCESS));
    assert!(!has_proc_info(-6549));
    assert!(!has_proc_info(1));
    assert!(!has_proc_info(-1));
}

#[test]
fn frame_address_steps_back_from_a_return_address() {
    assert_eq!(frame_address(0x8eb1, 0), 0x8eb0);
    assert_eq!(frame_address(1, 0), 0);
    assert_eq!(frame_address(usize::MAX, 0), usize::MAX - 1);
    assert_eq!(frame_address(0x8eb1, -1), 0x8eb0);
}

#[test]
fn frame_address_keeps_the_address_of_a_signal_frame() {
    assert_eq!(frame_address(0x8eb1, 1), 0x8eb1);
    assert_eq!(frame_address(0, 1), 0);
    assert_eq!(frame_address(usize::MAX, i32::MAX), usize::MAX);
}

#[test]
fn frame_address_at_the_end_of_a_function_stays_inside_it() {
    // A function at 0x1000..0x1040 whose last instruction is a call: the
    // return address is the start of the next function.
    let recorded = frame_address(0x1040, 0);
    assert!(0x1000 <= recorded && recorded < 0x1040);
}
