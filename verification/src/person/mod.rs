//! People, natural or legal.
pub mod model;
pub mod models;

use vstd::prelude::*;

verus! {

/// Whether a person is a human being or an organisation.
#[derive(Clone, Copy, Debug, PartialEq, Eq, Structural)]
pub enum PersonType {
    NaturalPerson,
}

} // verus!
