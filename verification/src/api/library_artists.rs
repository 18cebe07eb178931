use vstd::prelude::*;

verus! {

#[derive(Debug, Clone)]
pub struct LibraryArtists {
    pub id: String, 
    pub type_: String,
    pub href: String,
    pub attributes: Attributes,
}

#[derive(Debug, Clone)]
pub struct Attributes {
    pub name: String,
}

} // verus!
