//! The record that the service keeps.

use vstd::prelude::*;

verus! {

/// A product. A record that comes from storage has an identifier; one that a
/// client sends to have it stored need not.
#[derive(Debug, Clone, PartialEq, Eq)]
pub struct Product {
    pub id: Option<i32>,
    pub name: String,
    pub price: i32,
}

/// A product as a mathematical value.
pub struct ProductView {
    pub id: Option<int>,
    pub name: Seq<char>,
    pub price: int,
}

impl View for Product {
    type V = ProductView;

    open spec fn view(&self) -> ProductView {
        ProductView {
            id: match self.id {
                Some(v) => Some(v as int),
                None => None,
            },
            name: self.name@,
            price: self.price as int,
        }
    }
}

} // verus!
