use std::cell::{Cell, RefCell};
use std::rc::Rc;
use vstd::prelude::*;

verus! {

#[verifier::external_type_specification]
#[verifier::external_body]
#[verifier::reject_recursive_types(T)]
pub struct ExRefCell<T: ?Sized>(RefCell<T>);

#[verifier::external_type_specification]
#[verifier::external_body]
#[verifier::reject_recursive_types(T)]
pub struct ExCell<T: ?Sized>(Cell<T>);

/// Relies on `RefCell::new`, which moves the value into a fresh cell; what the
/// cell holds is not visible to the verifier.
pub assume_specification<T>[ RefCell::<T>::new ](value: T) -> RefCell<T>;

/// Relies on `Cell::new`, which moves the value into a fresh cell; what the
/// cell holds is not visible to the verifier.
pub assume_specification<T>[ Cell::<T>::new ](value: T) -> Cell<T>;

/// A reference-counted cell with checked interior mutability.
pub type SharedRefCell<T> = Rc<RefCell<T>>;

/// A reference-counted cell for values that are copied in and out.
pub type SharedCell<T> = Rc<Cell<T>>;

/// Places `data` in a fresh shared `RefCell`.
pub fn shared_ref_cell<T>(data: T) -> SharedRefCell<T> {
    Rc::new(RefCell::new(data))
}

/// Places `data` in a fresh shared `Cell`.
pub fn shared_cell<T>(data: T) -> SharedCell<T> {
    Rc::new(Cell::new(data))
}

} // verus!
