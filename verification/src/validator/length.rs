//! Bounds on the length of a value.

use super::error::{ValidationError, ValidationErrorView};
use super::Validator;
use std::borrow::Cow;
use std::collections::{HashMap, HashSet};
use vstd::prelude::*;
use vstd::std_specs::hash::{spec_hash_map_len, spec_hash_set_len};
use vstd::string::StringSliceAdditionalSpecFns;
use vstd::utf8::encode_utf8;

verus! {

/// A rule on lengths with an optional lower and an optional upper bound,
/// both inclusive.
#[allow(non_snake_case)]
pub fn Length(min: Option<usize>, max: Option<usize>) -> (rule: LengthValidator)
    ensures
        rule.min() == min,
        rule.max() == max,
{
    LengthValidator(min, max)
}

/// Holds a length between two optional inclusive bounds.
pub struct LengthValidator(Option<usize>, Option<usize>);

/// What a length rule says of a length: nothing when it is within the bounds
/// that are set; otherwise the code `length` with both bounds when both are
/// set, `min_length` with the lower bound when only that is set and the
/// length is below it, `max_length` with the upper bound when only that is
/// set and the length is above it.
pub open spec fn length_verdict(min: Option<usize>, max: Option<usize>, len: usize) -> Option<
    ValidationErrorView,
> {
    match (min, max) {
        (Some(lo), Some(hi)) => if lo > len || len > hi {
            Some(ValidationErrorView { code: "length"@, params: seq![lo, hi] })
        } else {
            None
        },
        (Some(lo), None) => if lo > len {
            Some(ValidationErrorView { code: "min_length"@, params: seq![lo] })
        } else {
            None
        },
        (None, Some(hi)) => if len > hi {
            Some(ValidationErrorView { code: "max_length"@, params: seq![hi] })
        } else {
            None
        },
        (None, None) => None,
    }
}

impl LengthValidator {
    /// The lower bound, if set.
    pub closed spec fn min(&self) -> Option<usize> {
        self.0
    }

    /// The upper bound, if set.
    pub closed spec fn max(&self) -> Option<usize> {
        self.1
    }

    /// Holds `len` to the bounds.
    pub fn check(&self, len: usize) -> (failure: Option<ValidationError>)
        ensures
            match length_verdict(self.min(), self.max(), len) {
                Some(expected) => failure.is_some() && failure.unwrap()@ == expected,
                None => failure.is_none(),
            },
    {
        match (self.0, self.1) {
            (Some(lo), Some(hi)) => {
                if lo > len || len > hi {
                    let bounds = [lo, hi];
                    assert(bounds@ =~= seq![lo, hi]);
                    Some(ValidationError::with_params("length", bounds.as_slice()))
                } else {
                    None
                }
            },
            (Some(lo), None) => {
                if lo > len {
                    let bounds = [lo];
                    assert(bounds@ =~= seq![lo]);
                    Some(ValidationError::with_params("min_length", bounds.as_slice()))
                } else {
                    None
                }
            },
            (None, Some(hi)) => {
                if len > hi {
                    let bounds = [hi];
                    assert(bounds@ =~= seq![hi]);
                    Some(ValidationError::with_params("max_length", bounds.as_slice()))
                } else {
                    None
                }
            },
            (None, None) => None,
        }
    }
}

impl<T> Validator<T> for LengthValidator where T: HasLength {
    open spec fn says(&self, value: &T, failure: Option<ValidationError>) -> bool {
        match length_verdict(self.min(), self.max(), value.spec_length()) {
            Some(expected) => failure.is_some() && failure.unwrap()@ == expected,
            None => failure.is_none(),
        }
    }

    fn validate(&self, value: &T) -> (failure: Option<ValidationError>) {
        self.check(value.length())
    }
}

/// A value that has a length.
pub trait HasLength {
    /// The length as contracts see it.
    spec fn spec_length(&self) -> usize;

    fn length(&self) -> (len: usize)
        ensures
            len == self.spec_length(),
    ;
}

/// A string slice is as long as its UTF-8 encoding.
impl<'a> HasLength for &'a str {
    open spec fn spec_length(&self) -> usize {
        encode_utf8(self@).len() as usize
    }

    fn length(&self) -> (len: usize) {
        self.len()
    }
}

/// A string is as long as its UTF-8 encoding.
impl HasLength for String {
    open spec fn spec_length(&self) -> usize {
        encode_utf8(self@).len() as usize
    }

    fn length(&self) -> (len: usize) {
        self.as_str().len()
    }
}

/// A borrowed or owned string is as long as its UTF-8 encoding.
impl<'a> HasLength for Cow<'a, str> {
    open spec fn spec_length(&self) -> usize {
        encode_utf8(self@).len() as usize
    }

    fn length(&self) -> (len: usize) {
        match self {
            Cow::Borrowed(text) => text.len(),
            Cow::Owned(text) => text.as_str().len(),
        }
    }
}

/// A vector is as long as the number of its elements.
impl<T> HasLength for Vec<T> {
    open spec fn spec_length(&self) -> usize {
        self@.len() as usize
    }

    fn length(&self) -> (len: usize) {
        self.len()
    }
}

/// A map is as long as the number of its entries.
impl<K, V> HasLength for HashMap<K, V> {
    open spec fn spec_length(&self) -> usize {
        spec_hash_map_len(self)
    }

    fn length(&self) -> (len: usize) {
        self.len()
    }
}

/// A set is as long as the number of its elements.
impl<V> HasLength for HashSet<V> {
    open spec fn spec_length(&self) -> usize {
        spec_hash_set_len(self)
    }

    fn length(&self) -> (len: usize) {
        self.len()
    }
}

} // verus!
