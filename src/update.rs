use vstd::prelude::*;

use crate::error::Error;

verus! {

/// Updating a value from another one, such as a record from a form.
pub trait Update<T> {
    /// Updates `self` from `form`. Implementations decide what is taken over and may refuse
    /// the form, most often with [`Error::ValidationError`].
    fn update(&mut self, form: &T) -> Result<(), Error>;

    /// Replaces `value` by a clone of `new_value` when it is given; leaves it unchanged
    /// otherwise.
    fn update_field_from_option<U: Clone>(value: &mut U, new_value: &Option<U>)
        ensures
            match new_value {
                Some(v) => cloned(*v, *final(value)),
                None => *final(value) == *old(value),
            },
    {
        match new_value {
            Some(val) => {
                *value = val.clone();
            },
            None => {},
        }
    }
}

} // verus!
