//! Validation of request bodies: byte-length rules on text fields, and the
//! violations reported for the fields that break them.

use crate::schema::utf8_len;
use vstd::prelude::*;

verus! {

/// Which bound of a length rule a field broke.
#[derive(Clone, Copy, Debug, PartialEq, Eq, Structural)]
pub enum LengthViolation {
    /// Shorter than the minimum, which is given.
    TooShort(usize),
    /// Longer than the maximum, which is given.
    TooLong(usize),
}

/// A field of a request body.
#[derive(Clone, Copy, Debug, PartialEq, Eq, Structural)]
pub enum RequestField {
    Slug,
    Name,
    Description,
    Content,
}

impl RequestField {
    /// The field's name in the request body.
    pub fn name(&self) -> (text: &'static str)
        ensures
            *self == RequestField::Slug ==> text@ == "slug"@,
            *self == RequestField::Name ==> text@ == "name"@,
            *self == RequestField::Description ==> text@ == "description"@,
            *self == RequestField::Content ==> text@ == "content"@,
    {
        match self {
            RequestField::Slug => "slug",
            RequestField::Name => "name",
            RequestField::Description => "description",
            RequestField::Content => "content",
        }
    }
}

/// A field of a request that failed its length rule, and how.
#[derive(Clone, Copy, Debug, PartialEq, Eq, Structural)]
pub struct FieldViolation {
    pub field: RequestField,
    pub violation: LengthViolation,
}

/// How a length of `len` fares against the rule `min..=max`: `None` when it
/// passes, else the bound it breaks (the minimum is checked first).
pub open spec fn length_verdict(len: int, min: usize, max: usize) -> Option<LengthViolation> {
    if len < min {
        Some(LengthViolation::TooShort(min))
    } else if len > max {
        Some(LengthViolation::TooLong(max))
    } else {
        None
    }
}

/// Checks a length against the rule `min..=max`.
pub fn check_length(len: usize, min: usize, max: usize) -> (r: Option<LengthViolation>)
    ensures
        r == length_verdict(len as int, min, max),
{
    if len < min {
        Some(LengthViolation::TooShort(min))
    } else if len > max {
        Some(LengthViolation::TooLong(max))
    } else {
        None
    }
}

/// The violations, if any, of one field against the rule `min..=max` on its
/// byte length.
pub open spec fn field_violations(field: RequestField, text: Seq<char>, min: usize, max: usize) -> Seq<FieldViolation> {
    match length_verdict(utf8_len(text), min, max) {
        Some(v) => seq![FieldViolation { field, violation: v }],
        None => Seq::empty(),
    }
}

/// Checks one field; the result is the spec's `field_violations`.
pub fn check_field(field: RequestField, text: &String, min: usize, max: usize) -> (r: Vec<FieldViolation>)
    ensures
        r@ == field_violations(field, text@, min, max),
{
    let mut r: Vec<FieldViolation> = Vec::new();
    let view: &str = text.as_str();
    let encoded: &[u8] = view.as_bytes();
    let bytes: usize = encoded.len();
    assert(bytes == utf8_len(text@));
    match check_length(bytes, min, max) {
        Some(v) => {
            r.push(FieldViolation { field, violation: v });
        },
        None => {},
    }
    proof {
        assert(r@ =~= field_violations(field, text@, min, max));
    }
    r
}

} // verus!
