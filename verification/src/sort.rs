//! Sort directions as callers name them and as the store encodes them.

use vstd::prelude::*;

verus! {

/// Sort direction as callers spell it.
#[derive(Clone, Copy, Debug, PartialEq, Eq, Structural)]
pub enum SortDirectionEnum {
    Ascending,
    Descending,
}

impl SortDirectionEnum {
    /// The variant's name, as transports spell it.
    pub open spec fn spec_name(self) -> Seq<char> {
        match self {
            SortDirectionEnum::Ascending => "Ascending"@,
            SortDirectionEnum::Descending => "Descending"@,
        }
    }

    pub fn to_string(&self) -> (s: String)
        ensures
            s@ == self.spec_name(),
    {
        match self {
            SortDirectionEnum::Ascending => "Ascending".to_string(),
            SortDirectionEnum::Descending => "Descending".to_string(),
        }
    }
}

/// Sort direction as the store encodes it: `1` ascending, `-1` descending.
#[derive(Clone, Copy, Debug, PartialEq, Eq, Structural)]
pub enum SortDirectionBsonEnum {
    Ascending,
    Descending,
}

impl SortDirectionBsonEnum {
    /// The store-side encoding of the direction.
    pub open spec fn spec_encoding(self) -> i8 {
        match self {
            SortDirectionBsonEnum::Ascending => 1i8,
            SortDirectionBsonEnum::Descending => -1i8,
        }
    }

    pub fn to_i8(&self) -> (r: i8)
        ensures
            r == self.spec_encoding(),
    {
        match self {
            SortDirectionBsonEnum::Ascending => 1,
            SortDirectionBsonEnum::Descending => -1,
        }
    }
}

} // verus!
