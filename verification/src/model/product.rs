//! The part of a product that a notification speaks of.

use vstd::prelude::*;

verus! {

/// A product as the notification service reads it: its identifier and its
/// title.
#[derive(Debug, PartialEq, Eq)]
pub struct Product {
    pub id: u64,
    pub title: String,
}

/// The mathematical value of a [`Product`].
pub struct ProductView {
    pub id: nat,
    pub title: Seq<char>,
}

impl View for Product {
    type V = ProductView;

    open spec fn view(&self) -> ProductView {
        ProductView { id: self.id as nat, title: self.title@ }
    }
}

impl Clone for Product {
    fn clone(&self) -> (copy: Self)
        ensures
            copy@ == self@,
    {
        Product { id: self.id, title: self.title.clone() }
    }
}

} // verus!
