//! A person with a legal type and a name.
use vstd::prelude::*;
use crate::person::PersonType;

verus! {

pub struct Person {
    legal_person_type: PersonType,
    first_name: String,
    last_name: String,
}

impl Person {
    pub closed spec fn kind(&self) -> PersonType {
        self.legal_person_type
    }

    pub closed spec fn first(&self) -> Seq<char> {
        self.first_name@
    }

    pub closed spec fn last(&self) -> Seq<char> {
        self.last_name@
    }

    pub fn new(legal_person_type: PersonType, first_name: String, last_name: String) -> (p: Person)
        ensures
            p.kind() == legal_person_type,
            p.first() == first_name@,
            p.last() == last_name@,
    {
        Person { legal_person_type, first_name, last_name }
    }

    pub fn get_person_type(&self) -> (t: &PersonType)
        ensures
            *t == self.kind(),
    {
        &self.legal_person_type
    }

    pub fn get_first_name(&self) -> (s: &str)
        ensures
            s@ == self.first(),
    {
        self.first_name.as_str()
    }

    pub fn get_last_name(&self) -> (s: &str)
        ensures
            s@ == self.last(),
    {
        self.last_name.as_str()
    }

    pub fn get_legal_person_type(&self) -> (t: &PersonType)
        ensures
            *t == self.kind(),
    {
        &self.legal_person_type
    }
}

} // verus!
