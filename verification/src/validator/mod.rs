//! Validation of field values.

pub mod error;
pub mod length;

pub use self::error::{ValidationError, ValidationErrors};
pub use self::length::{HasLength, Length, LengthValidator};

use vstd::prelude::*;

verus! {

/// A rule that a value of type `T` either passes or fails with an error.
pub trait Validator<T> {
    /// Whether `failure` is what the rule says of `val`: nothing where the
    /// value passes, the error where it fails. A rule that does not state
    /// what it says allows either.
    open spec fn says(&self, val: &T, failure: Option<ValidationError>) -> bool {
        true
    }

    /// Holds `val` to the rule.
    fn validate(&self, val: &T) -> (failure: Option<ValidationError>)
        ensures
            self.says(val, failure),
    ;
}

/// Holds an optional value to a rule: an absent value passes; a present
/// one gets whatever the rule says of it.
pub fn validate_option<T, V: Validator<T>>(rule: &V, value: &Option<T>) -> (failure: Option<
    ValidationError,
>)
    ensures
        match *value {
            Some(inner) => rule.says(&inner, failure),
            None => failure.is_none(),
        },
{
    match value {
        Some(inner) => rule.validate(inner),
        None => None,
    }
}

/// Holds the value of `field` to a rule and records what the rule says.
pub fn validate_field<T, V: Validator<T>>(
    errors: &mut ValidationErrors,
    field: &str,
    rule: &V,
    value: &T,
)
    ensures
        exists|failure: Option<ValidationError>|
            #![trigger rule.says(value, failure)]
            rule.says(value, failure) && match failure {
                Some(error) => final(errors)@ == old(errors)@.push((field@, error@)),
                None => final(errors)@ == old(errors)@,
            },
{
    let failure = rule.validate(value);
    let ghost said = failure;
    errors.record(field, failure);
    proof {
        assert(rule.says(value, said));
    }
}

/// Every rule on `T` is a rule on `Option<T>`: an absent value passes, and
/// a present one gets what the rule says of it.
impl<T, V> Validator<Option<T>> for V where V: Validator<T> {
    open spec fn says(&self, value: &Option<T>, failure: Option<ValidationError>) -> bool {
        match *value {
            Some(inner) => <V as Validator<T>>::says(self, &inner, failure),
            None => failure.is_none(),
        }
    }

    fn validate(&self, value: &Option<T>) -> (failure: Option<ValidationError>) {
        validate_option(self, value)
    }
}

} // verus!
