use vstd::prelude::*;

verus! {

#[derive(Debug)]
pub struct Lyrics {
    pub href: String,
    pub data: Vec<LyricData>,
}

#[derive(Debug)]
pub struct LyricData {
    pub id: String,
    pub type_: String,
    pub attributes: LyricAttributes,
}

#[derive(Debug)]
pub struct LyricAttributes {
    pub ttml: String,
    pub play_params: PlayParams,
}

#[derive(Debug)]
pub struct PlayParams {
    pub id: String,
    pub kind: String,
    pub catalog_id: String,
    pub display_type: i32,
}

} // verus!
