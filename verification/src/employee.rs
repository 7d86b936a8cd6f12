//! An `Employee` record: a thin object-style convenience over the free
//! address generator.

use vstd::prelude::*;

use crate::email::email_spec;
use crate::email::generate_email_address;
use crate::email::InputError;

verus! {

/// A person known by a first and a last name.
pub struct Employee {
    pub first_name: String,
    pub last_name: String,
}

impl Employee {
    /// Builds the record from the two names.
    pub fn new(first_name: String, last_name: String) -> (e: Employee)
        ensures
            e.first_name@ == first_name@,
            e.last_name@ == last_name@,
    {
        Employee { first_name, last_name }
    }

    /// Derives the address for this employee's names, or reports that the
    /// first name is empty and so has no initial.
    pub fn generate_email_address(&self) -> (r: Result<String, InputError>)
        ensures
            self.first_name@.len() > 0 ==> (r matches Ok(address) && address@ == email_spec(
                self.first_name@,
                self.last_name@,
            )),
            self.first_name@.len() == 0 ==> r == Err::<String, InputError>(InputError),
    {
        generate_email_address(self.first_name.as_str(), self.last_name.as_str())
    }
}

} // verus!
