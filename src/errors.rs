use vstd::prelude::*;

use crate::text::same_text;

verus! {

/// A field of an input that failed validation, and why.
#[derive(Debug)]
pub struct FieldValidationError {
    pub field: String,
    pub message: String,
}

impl Clone for FieldValidationError {
    fn clone(&self) -> (r: Self)
        ensures
            r == *self,
    {
        FieldValidationError { field: self.field.clone(), message: self.message.clone() }
    }
}

/// The store's code for a violated uniqueness constraint.
pub open spec fn unique_violation_code() -> Seq<char> {
    seq!['2', '0', '6', '7']
}

/// The meaning of an error code reported by the store.
#[derive(Debug)]
pub enum ErrorCode {
    UniqueConstraintViolation,
    Unknown(String),
}

impl ErrorCode {
    /// Classifies a code reported by the store.
    pub fn from(code: &str) -> (r: ErrorCode)
        ensures
            code@ == unique_violation_code() ==> r is UniqueConstraintViolation,
            code@ != unique_violation_code() ==> (r matches ErrorCode::Unknown(c) && c@ == code@),
    {
        proof {
            reveal_strlit("2067");
        }
        if same_text(code, "2067") {
            assert("2067"@ =~= unique_violation_code());
            ErrorCode::UniqueConstraintViolation
        } else {
            assert("2067"@ =~= unique_violation_code());
            ErrorCode::Unknown(code.to_string())
        }
    }
}

} // verus!
