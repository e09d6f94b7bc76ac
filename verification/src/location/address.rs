//! Postal addresses.
use vstd::prelude::*;
use crate::location::country::Country;

verus! {

/// The kind of public way an address lies on.
#[derive(Clone, Copy, Debug, PartialEq, Eq, Structural)]
pub enum Thoroughfare {
    Street,
}

/// A postal address.
pub struct Address {
    country: Country,
    thoroughfare: Thoroughfare,
    line_1: String,
    line_2: Option<String>,
}

impl Address {
    pub closed spec fn country(&self) -> Country {
        self.country
    }

    pub closed spec fn thoroughfare(&self) -> Thoroughfare {
        self.thoroughfare
    }

    pub closed spec fn line_1(&self) -> Seq<char> {
        self.line_1@
    }

    pub closed spec fn line_2(&self) -> Option<Seq<char>> {
        match self.line_2 {
            Some(s) => Some(s@),
            None => None,
        }
    }

    pub fn new(country: Country, thoroughfare: Thoroughfare, line_1: String, line_2: Option<String>) -> (a: Address)
        ensures
            a.country() == country,
            a.thoroughfare() == thoroughfare,
            a.line_1() == line_1@,
            a.line_2() == (match line_2 { Some(s) => Some(s@), None => None::<Seq<char>> }),
    {
        Address { country, thoroughfare, line_1, line_2 }
    }

    pub fn get_country(&self) -> (c: &Country)
        ensures
            *c == self.country(),
    {
        &self.country
    }

    pub fn get_thoroughfare(&self) -> (t: &Thoroughfare)
        ensures
            *t == self.thoroughfare(),
    {
        &self.thoroughfare
    }

    pub fn get_line_1(&self) -> (s: &str)
        ensures
            s@ == self.line_1(),
    {
        self.line_1.as_str()
    }

    pub fn get_line_2(&self) -> (s: Option<&str>)
        ensures
            match s {
                Some(t) => self.line_2() == Some(t@),
                None => self.line_2() is None,
            },
    {
        match &self.line_2 {
            Some(l) => Some(l.as_str()),
            None => None,
        }
    }
}

} // verus!
