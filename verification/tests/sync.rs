use batch_os::batch::KernelStack;
use batch_os::sync::UPSafeCell;
use batch_os::trap::Spp;
use batch_os::trap::TrapContext;

#[test]
fn the_cell_hands_its_value_out_and_back() {
    let mut cell: UPSafeCell<u32> = UPSafeCell::new(5);
    assert_eq!(*cell.borrow_value(), 5);
    let v = cell.exclusive_access();
    assert_eq!(v, 5);
    // while the view is live the cell is empty
    assert!(cell.inner.is_none());
    cell.release(v + 2);
    assert_eq!(*cell.borrow_value(), 7);
}

#[test]
fn push_context_stores_the_one_live_frame() {
    let mut stack = KernelStack { base: 0x200000, saved: None };
    stack.push_context(TrapContext::app_init_context(0x80400000, 0x300000));
    let first = stack.saved.as_ref().expect("frame stored");
    assert_eq!(first.sepc, 0x80400000);
    assert_eq!(first.x[2], 0x300000);
    assert_eq!(first.sstatus.spp, Spp::User);

    // a second push overwrites the frame: at most one is ever live
    stack.push_context(TrapContext::app_init_context(0x80401000, 0x300010));
    let second = stack.saved.as_ref().expect("frame stored");
    assert_eq!(second.sepc, 0x80401000);
    assert_eq!(stack.base, 0x200000);
}
