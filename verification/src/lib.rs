//! A small verified exercise library: a corporate e-mail address generator
//! (as a free function and as a method on an `Employee`), a greeting, and a
//! parity check.

pub mod basics;
pub mod email;
pub mod employee;

pub use basics::is_even;
pub use basics::say_hello;
pub use email::generate_email_address;
pub use email::InputError;
pub use employee::Employee;
