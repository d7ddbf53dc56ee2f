//! A minimal cooperative task: a computation that suspends and resumes under
//! explicit control of a driver, with an inert waker passed to every poll.

pub mod waker;
pub mod task;
pub mod driver;
