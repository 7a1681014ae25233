use crate::text::{lowercase, str_eq, to_lowercase};
use vstd::prelude::*;
use vstd::std_specs::convert::FromSpecImpl;

verus! {

/// A user's gender, and the gender a user asks to be paired with.
#[derive(Debug, Clone, Copy, PartialEq, Eq, Structural)]
pub enum Gender {
    Male,
    Female,
}

impl Gender {
    /// The integer under which a gender is stored.
    pub open spec fn code(self) -> int {
        match self {
            Gender::Male => 0,
            Gender::Female => 1,
        }
    }

    /// The gender that an already lowercased name stands for.
    pub open spec fn of_lowercase(name: Seq<char>) -> Option<Gender> {
        if name == "male"@ {
            Some(Gender::Male)
        } else if name == "female"@ {
            Some(Gender::Female)
        } else {
            None
        }
    }

    /// The English name of a gender.
    pub open spec fn name(self) -> Seq<char> {
        match self {
            Gender::Male => "Male"@,
            Gender::Female => "Female"@,
        }
    }

    /// Reads a gender from a name that is already in lowercase: `male` or
    /// `female`; anything else is refused.
    pub fn from_lowercase(name: &str) -> (r: Result<Gender, &'static str>)
        ensures
            match Gender::of_lowercase(name@) {
                Some(g) => r == Ok::<Gender, &'static str>(g),
                None => r is Err && r->Err_0@ == "Invalid gender string"@,
            },
    {
        if str_eq(name, "male") {
            Ok(Gender::Male)
        } else if str_eq(name, "female") {
            Ok(Gender::Female)
        } else {
            Err("Invalid gender string")
        }
    }

    /// Reads a gender from its name, whatever the case of its letters.
    pub fn from_str(s: &str) -> (r: Result<Gender, &'static str>)
        ensures
            match Gender::of_lowercase(lowercase(s@)) {
                Some(g) => r == Ok::<Gender, &'static str>(g),
                None => r is Err && r->Err_0@ == "Invalid gender string"@,
            },
    {
        let lowered = to_lowercase(s);
        Gender::from_lowercase(lowered.as_str())
    }

    /// The English name of this gender, as it is stored with a profile.
    pub fn to_string(&self) -> (r: String)
        ensures
            r@ == self.name(),
    {
        match self {
            Gender::Male => "Male".to_owned(),
            Gender::Female => "Female".to_owned(),
        }
    }

    /// The stored code of this gender.
    pub fn to_i32(self) -> (r: i32)
        ensures
            r == self.code(),
    {
        match self {
            Gender::Male => 0,
            Gender::Female => 1,
        }
    }
}

impl From<i32> for Gender {
    /// Reads a stored gender code back: `1` is female, every other code male.
    fn from(value: i32) -> (r: Gender) {
        if value == 1 {
            Gender::Female
        } else {
            Gender::Male
        }
    }
}

impl FromSpecImpl<i32> for Gender {
    open spec fn obeys_from_spec() -> bool {
        true
    }

    open spec fn from_spec(value: i32) -> Gender {
        if value == 1 {
            Gender::Female
        } else {
            Gender::Male
        }
    }
}

} // verus!
