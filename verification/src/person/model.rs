//! A person with a type and a name.
use vstd::prelude::*;
use crate::person::PersonType;

verus! {

pub struct Person {
    person_type: PersonType,
    first_name: String,
    last_name: String,
}

impl Person {
    pub closed spec fn kind(&self) -> PersonType {
        self.person_type
    }

    pub closed spec fn first(&self) -> Seq<char> {
        self.first_name@
    }

    pub closed spec fn last(&self) -> Seq<char> {
        self.last_name@
    }

    pub fn new(person_type: PersonType, first_name: String, last_name: String) -> (p: Person)
        ensures
            p.kind() == person_type,
            p.first() == first_name@,
            p.last() == last_name@,
    {
        Person { first_name, last_name, person_type }
    }

    pub fn person_type(&self) -> (t: &PersonType)
        ensures
            *t == self.kind(),
    {
        &self.person_type
    }

    pub fn first_name(&self) -> (s: &str)
        ensures
            s@ == self.first(),
    {
        self.first_name.as_str()
    }

    pub fn last_name(&self) -> (s: &str)
        ensures
            s@ == self.last(),
    {
        self.last_name.as_str()
    }
}

} // verus!
