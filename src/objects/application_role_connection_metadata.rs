//! The metadata of linked roles.

use vstd::prelude::*;
use crate::objects::Translation;

verus! {

/// A condition that a linked role checks; the member `type` of the wire form is `kind` here.
pub struct ApplicationRoleConnectionMetadata {
    pub kind: ApplicationRoleConnectionMetadataType,
    pub key: String,
    pub name: Name,
    pub name_localizations: Option<Translation<Name>>,
    pub description: Description,
    pub description_localizations: Option<Translation<Description>>,
}

/// How a linked role compares a value.
#[derive(Clone, Copy, Debug, PartialEq, Eq, Structural, Hash)]
pub enum ApplicationRoleConnectionMetadataType {
    IntegerLessThanOrEqual,
    IntegerGreaterThanOrEqual,
    IntegerEqual,
    IntegerNotEqual,
    DatetimeLessThanOrEqual,
    DatetimeGreaterThanOrEqual,
    BooleanEqual,
    BooleanNotEqual,
}

impl ApplicationRoleConnectionMetadataType {
    /// The integer this value travels as.
    pub open spec fn spec_code(self) -> u64 {
        match self {
            ApplicationRoleConnectionMetadataType::IntegerLessThanOrEqual => 1,
            ApplicationRoleConnectionMetadataType::IntegerGreaterThanOrEqual => 2,
            ApplicationRoleConnectionMetadataType::IntegerEqual => 3,
            ApplicationRoleConnectionMetadataType::IntegerNotEqual => 4,
            ApplicationRoleConnectionMetadataType::DatetimeLessThanOrEqual => 5,
            ApplicationRoleConnectionMetadataType::DatetimeGreaterThanOrEqual => 6,
            ApplicationRoleConnectionMetadataType::BooleanEqual => 7,
            ApplicationRoleConnectionMetadataType::BooleanNotEqual => 8,
        }
    }

    pub fn code(&self) -> (r: u64)
        ensures
            r == self.spec_code(),
    {
        match self {
            ApplicationRoleConnectionMetadataType::IntegerLessThanOrEqual => 1,
            ApplicationRoleConnectionMetadataType::IntegerGreaterThanOrEqual => 2,
            ApplicationRoleConnectionMetadataType::IntegerEqual => 3,
            ApplicationRoleConnectionMetadataType::IntegerNotEqual => 4,
            ApplicationRoleConnectionMetadataType::DatetimeLessThanOrEqual => 5,
            ApplicationRoleConnectionMetadataType::DatetimeGreaterThanOrEqual => 6,
            ApplicationRoleConnectionMetadataType::BooleanEqual => 7,
            ApplicationRoleConnectionMetadataType::BooleanNotEqual => 8,
        }
    }

    /// The value that travels as `code`, if any.
    pub fn from_code(code: u64) -> (r: Option<ApplicationRoleConnectionMetadataType>)
        ensures
            r matches Some(x) ==> x.spec_code() == code,
            r is None ==> forall|x: ApplicationRoleConnectionMetadataType| x.spec_code() != code,
    {
        if code == 1 {
            Some(ApplicationRoleConnectionMetadataType::IntegerLessThanOrEqual)
        } else if code == 2 {
            Some(ApplicationRoleConnectionMetadataType::IntegerGreaterThanOrEqual)
        } else if code == 3 {
            Some(ApplicationRoleConnectionMetadataType::IntegerEqual)
        } else if code == 4 {
            Some(ApplicationRoleConnectionMetadataType::IntegerNotEqual)
        } else if code == 5 {
            Some(ApplicationRoleConnectionMetadataType::DatetimeLessThanOrEqual)
        } else if code == 6 {
            Some(ApplicationRoleConnectionMetadataType::DatetimeGreaterThanOrEqual)
        } else if code == 7 {
            Some(ApplicationRoleConnectionMetadataType::BooleanEqual)
        } else if code == 8 {
            Some(ApplicationRoleConnectionMetadataType::BooleanNotEqual)
        } else {
            None
        }
    }
}

/// The name of a condition.
pub struct Name(pub String);

/// The description of a condition.
pub struct Description(pub String);

} // verus!
