//! The contact record: a payload shape of plain string fields.

use vstd::prelude::*;

verus! {

#[derive(Debug, PartialEq, Eq)]
pub struct Contact {
    pub created_at: String,
    pub email: String,
    pub id: String,
    pub name: String,
    pub phone_country_code: String,
    pub phone_number: String,
    pub slug: String,
    pub title: String,
    pub type_: String,
    pub updated_at: String,
}

} // verus!
