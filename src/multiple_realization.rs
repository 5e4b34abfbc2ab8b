//! One type lending out different parts of itself through several
//! implementations of the same generic trait.

use vstd::prelude::*;

verus! {

/// A person's name and age.
pub struct Person {
    pub age: u32,
    pub name: String,
}

/// What a person does for a living.
pub trait Profession {
    fn describe(&self) -> String;
}

/// A person together with a profession of any kind.
pub struct Citizen {
    pub person: Person,
    pub profession: Box<dyn Profession>,
}

impl AsRef<Person> for Citizen {
    fn as_ref(&self) -> &Person
        returns
            &self.person,
    {
        &self.person
    }
}

impl AsRef<Box<dyn Profession>> for Citizen {
    fn as_ref(&self) -> &Box<dyn Profession>
        returns
            &self.profession,
    {
        &self.profession
    }
}

} // verus!
