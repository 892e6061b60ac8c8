use array_vec::ArrayVec;
use std::cell::Cell;
use std::cell::RefCell;
use std::rc::Rc;

const MAGIC: u32 = 0xDEFEC8ED;

struct Droppings {
    magic: u32,
    flag: Rc<Cell<bool>>,
}

impl Droppings {
    fn new(flag: &Rc<Cell<bool>>) -> Self {
        Droppings { magic: MAGIC, flag: Rc::clone(flag) }
    }
}

impl Drop for Droppings {
    fn drop(&mut self) {
        // Check for the magic value from new(). The magic is used to
        // distinguish properly-initialized values from random garbage.
        assert!(self.magic == MAGIC);
        self.flag.set(true);
    }
}

#[test]
fn uninitialized_drop() {
    let dropped = Rc::new(Cell::new(false));
    let mut a: ArrayVec<Droppings, 3> = ArrayVec::new();
    a.push(Droppings::new(&dropped)).unwrap();
    a.push(Droppings::new(&dropped)).unwrap();
    a.pop();

    // check whether dropping the vector executes elements' destructors
    dropped.set(false);
    drop(a);
    assert!(dropped.get());
}

struct Logged {
    magic: u32,
    id: u32,
    log: Rc<RefCell<Vec<u32>>>,
}

impl Logged {
    fn new(id: u32, log: &Rc<RefCell<Vec<u32>>>) -> Self {
        Logged { magic: MAGIC, id, log: Rc::clone(log) }
    }
}

impl Drop for Logged {
    fn drop(&mut self) {
        assert!(self.magic == MAGIC);
        self.log.borrow_mut().push(self.id);
    }
}

#[test]
fn teardown_drops_in_reverse_push_order_exactly_once() {
    let log = Rc::new(RefCell::new(Vec::new()));
    let mut a: ArrayVec<Logged, 4> = ArrayVec::new();
    a.push(Logged::new(1, &log)).unwrap();
    a.push(Logged::new(2, &log)).unwrap();
    a.push(Logged::new(3, &log)).unwrap();
    a.teardown();
    assert_eq!(vec![3, 2, 1], *log.borrow());
    assert_eq!(0, a.length());
    drop(a);
    // releasing the torn-down storage fires no destructor again
    assert_eq!(vec![3, 2, 1], *log.borrow());
}

#[test]
fn drain_reversed_returns_last_pushed_first() {
    let mut a: ArrayVec<i32, 5> = ArrayVec::new();
    a.push(1).unwrap();
    a.push(2).unwrap();
    a.push(3).unwrap();
    let removed = a.drain_reversed();
    assert_eq!(vec![3, 2, 1], removed);
    assert_eq!(0, a.length());
}

#[test]
fn pop_then_teardown_fires_each_destructor_exactly_once() {
    let log = Rc::new(RefCell::new(Vec::new()));
    let mut a: ArrayVec<Logged, 3> = ArrayVec::new();
    a.push(Logged::new(1, &log)).unwrap();
    a.push(Logged::new(2, &log)).unwrap();
    assert_eq!(2, a.length());

    // the caller discards the popped value, so its destructor fires now
    let popped = a.pop();
    assert!(popped.is_some());
    drop(popped);
    assert_eq!(vec![2], *log.borrow());

    // teardown then drops the remaining live value, once, and never touches
    // the third, always-vacant slot
    a.teardown();
    drop(a);
    assert_eq!(vec![2, 1], *log.borrow());
    assert_eq!(1, log.borrow().iter().filter(|&&x| x == 1).count());
    assert_eq!(1, log.borrow().iter().filter(|&&x| x == 2).count());
}

#[test]
fn overwriting_a_live_slot_drops_the_old_value_once() {
    let log = Rc::new(RefCell::new(Vec::new()));
    let mut a: ArrayVec<Logged, 2> = ArrayVec::new();
    a.push(Logged::new(1, &log)).unwrap();
    a.set_at(0, Logged::new(9, &log));
    assert_eq!(vec![1], *log.borrow());
    a.teardown();
    assert_eq!(vec![1, 9], *log.borrow());
}
