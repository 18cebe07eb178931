use vstd::prelude::*;

verus! {

#[derive(Debug)]
pub struct Song {
    pub id: String,
    pub type_: String,
    pub href: String,
    pub attributes: Attributes,
    pub relationships: Relationships,
    pub meta: Meta,
}

#[derive(Debug)]
pub struct Artwork {
    pub width: u32,
    pub url: String,
    pub height: u32,
    pub text_color3: String,
    pub text_color2: String,
    pub text_color4: String,
    pub text_color1: String,
    pub bg_color: String,
    pub has_p3: bool,
}

#[derive(Debug)]
pub struct Attributes {
    pub album_name: String,
    pub has_time_synced_lyrics: bool,
    pub genre_names: Vec<String>,
    pub track_number: u32,
    pub duration_in_millis: u64,
    pub release_date: String,
    pub is_vocal_attenuation_allowed: bool,
    pub is_mastered_for_itunes: bool,
    pub isrc: String,
    pub artwork: Artwork,
    pub composer_name: Option<String>,
    pub audio_locale: String,
    pub url: String,
    pub play_params: PlayParams,
    pub disc_number: u32,
    pub has_lyrics: bool,
    pub is_apple_digital_master: bool,
    pub audio_traits: Vec<String>,
    pub name: String,
    pub previews: Vec<Preview>,
    pub artist_name: String,
    pub extended_asset_urls: ExtendedAssetUrls,
}

#[derive(Debug)]
pub struct PlayParams {
    pub id: String,
    pub kind: String,
}

#[derive(Debug)]
pub struct Preview {
    pub url: String,
}

#[derive(Debug)]
pub struct ExtendedAssetUrls {
    pub plus: String,
    pub lightweight: String,
    pub super_lightweight: String,
    pub lightweight_plus: String,
    pub enhanced_hls: String,
}

#[derive(Debug)]
pub struct Relationships {
    pub albums: RelationshipData,
    pub artists: RelationshipData,
}

#[derive(Debug)]
pub struct RelationshipData {
    pub href: String,
    pub data: Vec<RelationshipItem>,
}

#[derive(Debug)]
pub struct RelationshipItem {
    pub id: String,
    pub type_: String,
    pub href: String,
}

#[derive(Debug)]
pub struct Meta {
    pub content_version: Option<ContentVersion>,
}

#[derive(Debug)]
pub struct ContentVersion {
    pub rtci: u64,
    pub mz_indexer: u64,
}

} // verus!
