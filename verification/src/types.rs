//! Validation outcome types: a success-or-reason result for address
//! checks, and an aggregated error for attribute validation.

use vstd::prelude::*;

verus! {

/// Outcome of a single address validation: success, or one failure reason.
#[derive(Clone, Debug)]
pub enum ValidationResult {
    Success,
    Failure(String),
}

impl ValidationResult {
    pub fn success() -> (r: ValidationResult)
        ensures
            r is Success,
    {
        ValidationResult::Success
    }

    pub fn failure(message: &str) -> (r: ValidationResult)
        ensures
            r matches ValidationResult::Failure(m) && m@ == message@,
    {
        ValidationResult::Failure(String::from_str(message))
    }

    pub fn is_success(&self) -> (r: bool)
        ensures
            r == (self is Success),
    {
        match self {
            ValidationResult::Success => true,
            ValidationResult::Failure(_) => false,
        }
    }

    pub fn is_failure(&self) -> (r: bool)
        ensures
            r == !(self is Success),
    {
        !self.is_success()
    }

    /// The failure reason, or the empty string on success.
    pub fn get_message(&self) -> (r: String)
        ensures
            self is Success ==> r@ == Seq::<char>::empty(),
            self matches ValidationResult::Failure(m) ==> r@ == m@,
    {
        match self {
            ValidationResult::Success => String::new(),
            ValidationResult::Failure(m) => m.clone(),
        }
    }
}

/// One or more validation failure reasons, joined into a single message.
#[derive(Clone, Debug)]
pub struct ValidationError {
    pub message: String,
}

impl ValidationError {
    pub fn new(message: &str) -> (e: ValidationError)
        ensures
            e.message@ == message@,
    {
        ValidationError { message: String::from_str(message) }
    }

    pub fn from_string(message: String) -> (e: ValidationError)
        ensures
            e.message@ == message@,
    {
        ValidationError { message }
    }

    /// The joined failure reasons.
    pub fn to_string(&self) -> (r: String)
        ensures
            r@ == self.message@,
    {
        self.message.clone()
    }
}

/// A check's result carries exactly the expected failure reason, or is
/// `Ok` when no failure is expected.
pub open spec fn spec_check_result(r: Result<(), ValidationError>, err: Option<Seq<char>>) -> bool {
    match err {
        None => r is Ok,
        Some(m) => r matches Err(e) && e.message@ == m,
    }
}

/// An optional failure reason as a (possibly empty) list of reasons.
pub open spec fn spec_opt_msg(o: Option<Seq<char>>) -> Seq<Seq<char>> {
    match o {
        Some(m) => seq![m],
        None => Seq::empty(),
    }
}

} // verus!
