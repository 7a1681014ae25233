use vstd::prelude::*;

verus! {

/// Conversation category. Two users are only ever paired when both asked for
/// the same category.
#[derive(Debug, Clone, Copy, PartialEq, Eq, Structural)]
pub enum ChatType {
    Regular,
    Vulgar,
}

impl ChatType {
    /// The integer under which a category is stored.
    pub open spec fn code(self) -> int {
        match self {
            ChatType::Regular => 0,
            ChatType::Vulgar => 1,
        }
    }

    /// Reads a stored category code back. Only `0` and `1` are category codes.
    pub fn from(value: i32) -> (r: ChatType)
        requires
            value == 0 || value == 1,
        ensures
            r.code() == value,
    {
        if value == 0 {
            ChatType::Regular
        } else {
            ChatType::Vulgar
        }
    }

    /// The stored code of this category.
    pub fn to_i32(self) -> (r: i32)
        ensures
            r == self.code(),
    {
        match self {
            ChatType::Regular => 0,
            ChatType::Vulgar => 1,
        }
    }
}

} // verus!
