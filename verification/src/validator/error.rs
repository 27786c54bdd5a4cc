//! What a failed validation reports.

use vstd::prelude::*;
use vstd::string::StringExecFns;

verus! {

/// A failed rule: its code and the parameters it was configured with.
#[derive(Debug, PartialEq, Eq)]
pub struct ValidationError {
    code: String,
    params: Vec<usize>,
}

/// A validation error as contracts see it.
pub struct ValidationErrorView {
    pub code: Seq<char>,
    pub params: Seq<usize>,
}

impl View for ValidationError {
    type V = ValidationErrorView;

    closed spec fn view(&self) -> ValidationErrorView {
        ValidationErrorView { code: self.code@, params: self.params@ }
    }
}

impl Clone for ValidationError {
    fn clone(&self) -> (copy: Self)
        ensures
            copy@ == self@,
    {
        ValidationError::with_params(self.code.as_str(), self.params.as_slice())
    }
}

impl ValidationError {
    /// An error with the given code and no parameters.
    pub fn new(code: &str) -> (error: Self)
        ensures
            error@.code == code@,
            error@.params == Seq::<usize>::empty(),
    {
        ValidationError { code: String::from_str(code), params: Vec::new() }
    }

    /// An error with the given code and parameters, in the given order.
    pub fn with_params(code: &str, params: &[usize]) -> (error: Self)
        ensures
            error@.code == code@,
            error@.params == params@,
    {
        let mut copied: Vec<usize> = Vec::new();
        let mut i: usize = 0;
        while i < params.len()
            invariant
                i <= params.len(),
                copied@ == params@.subrange(0, i as int),
            decreases params.len() - i,
        {
            copied.push(params[i]);
            proof {
                assert(copied@ =~= params@.subrange(0, i + 1));
            }
            i += 1;
        }
        proof {
            assert(params@.subrange(0, params.len() as int) =~= params@);
        }
        ValidationError { code: String::from_str(code), params: copied }
    }

    /// Adds one parameter after those already there.
    pub fn param(&mut self, param: usize)
        ensures
            final(self)@.code == old(self)@.code,
            final(self)@.params == old(self)@.params.push(param),
    {
        self.params.push(param);
    }

    /// The error's code.
    pub fn code(&self) -> (code: &str)
        ensures
            code@ == self@.code,
    {
        self.code.as_str()
    }

    /// The error's parameters.
    pub fn params(&self) -> (params: &[usize])
        ensures
            params@ == self@.params,
    {
        self.params.as_slice()
    }
}

/// The errors of the fields of one value, in the order in which they were
/// found.
#[derive(Debug, PartialEq, Eq)]
pub struct ValidationErrors {
    found: Vec<(String, ValidationError)>,
}

/// The errors among `found` that belong to `field`, in order.
pub open spec fn errors_of(found: Seq<(Seq<char>, ValidationErrorView)>, field: Seq<char>) -> Seq<
    ValidationErrorView,
>
    decreases found.len(),
{
    if found.len() == 0 {
        Seq::empty()
    } else {
        let earlier = errors_of(found.drop_last(), field);
        if found.last().0 == field {
            earlier.push(found.last().1)
        } else {
            earlier
        }
    }
}

/// A list of errors as contracts see it.
pub open spec fn views(errors: Seq<ValidationError>) -> Seq<ValidationErrorView> {
    Seq::new(errors.len(), |i: int| errors[i]@)
}

impl View for ValidationErrors {
    type V = Seq<(Seq<char>, ValidationErrorView)>;

    closed spec fn view(&self) -> Seq<(Seq<char>, ValidationErrorView)> {
        Seq::new(self.found@.len(), |i: int| (self.found@[i].0@, self.found@[i].1@))
    }
}

impl ValidationErrors {
    /// No errors.
    pub fn new() -> (errors: Self)
        ensures
            errors@.len() == 0,
    {
        ValidationErrors { found: Vec::new() }
    }

    /// Whether no field has failed.
    pub fn is_empty(&self) -> (empty: bool)
        ensures
            empty == (self@.len() == 0),
    {
        self.found.len() == 0
    }

    /// The number of errors, over all fields.
    pub fn len(&self) -> (n: usize)
        ensures
            n == self@.len(),
    {
        self.found.len()
    }

    /// Records one more error of `field`.
    pub fn add(&mut self, field: &str, error: ValidationError)
        ensures
            final(self)@ == old(self)@.push((field@, error@)),
    {
        self.found.push((String::from_str(field), error));
        proof {
            assert(self@ =~= old(self)@.push((field@, error@)));
        }
    }

    /// Records what a rule said of the value of `field`: an error, or
    /// nothing.
    pub fn record(&mut self, field: &str, failure: Option<ValidationError>)
        ensures
            match failure {
                Some(error) => final(self)@ == old(self)@.push((field@, error@)),
                None => final(self)@ == old(self)@,
            },
    {
        match failure {
            Some(error) => self.add(field, error),
            None => {},
        }
    }

    /// The errors of `field`, in the order in which they were found.
    pub fn get(&self, field: &str) -> (errors: Vec<ValidationError>)
        ensures
            views(errors@) == errors_of(self@, field@),
    {
        let wanted = String::from_str(field);
        let mut errors: Vec<ValidationError> = Vec::new();
        let mut i: usize = 0;
        proof {
            assert(self@.subrange(0, 0) =~= Seq::empty());
            assert(views(errors@) =~= Seq::empty());
        }
        while i < self.found.len()
            invariant
                i <= self.found@.len(),
                self@.len() == self.found@.len(),
                wanted@ == field@,
                views(errors@) == errors_of(self@.subrange(0, i as int), field@),
            decreases self.found@.len() - i,
        {
            let ghost before = errors@;
            let ghost next = self@.subrange(0, i + 1);
            proof {
                assert(next.drop_last() =~= self@.subrange(0, i as int));
                assert(next.last() == self@[i as int]);
            }
            if self.found[i].0 == wanted {
                errors.push(self.found[i].1.clone());
                proof {
                    assert(views(errors@) =~= views(before).push(self@[i as int].1));
                }
            }
            i += 1;
        }
        proof {
            assert(self@.subrange(0, self@.len() as int) =~= self@);
        }
        errors
    }
}

} // verus!
