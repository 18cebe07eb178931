use vstd::prelude::*;

verus! {

#[derive(Debug)]
pub struct WebPlayBack {
    pub song_list: Vec<Song>,
    pub status: u8,
}

#[derive(Debug)]
pub struct Song {
    pub artwork_urls: ArtworkUrls,
    pub assets: Vec<Asset>,
    pub hls_key_cert_url: String,
    pub hls_key_server_url: String,
    pub is_itunes_stream: bool,
    pub song_id: String,
    pub widevine_cert_url: String,
}

#[derive(Debug)]
pub struct Asset {
    pub url: String,
    pub artwork_url: String,
    pub chunks: Chunks,
    pub download_key: String,
    pub file_size: u64,
    pub flavor: String,
    pub md5: String,
    pub metadata: Metadata,
}

#[derive(Debug)]
pub struct Chunks {
    pub chunk_size: u64,
}

#[derive(Debug)]
pub struct Metadata {
    pub artist_id: String,
    pub artist_name: String,
    pub bit_rate: u32,
    pub compilation: bool,
    pub composer_id: String,
    pub composer_name: String,
    pub copyright: String,
    pub disc_count: u32,
    pub disc_number: u32,
    pub duration: u64,
    pub explicit: u8,
    pub file_extension: String,
    pub gapless: bool,
    pub genre: String,
    pub genre_id: u32,
    pub is_mastered_for_itunes: bool,
    pub item_id: String,
    pub item_name: String,
    pub kind: String,
    pub playlist_artist_name: String,
    pub playlist_id: String,
    pub playlist_name: String,
    pub rank: u32,
    pub release_date: String,
    pub s: u32,
    pub sample_rate: u32,
    pub sort_album: String,
    pub sort_artist: String,
    pub sort_composer: String,
    pub sort_name: String,
    pub track_count: u32,
    pub track_number: u32,
    pub vendor_id: u32,
    pub xid: String,
    pub year: u32,
}

#[derive(Debug)]
pub struct ArtworkUrls {
    pub default: ArtWorkUrlDefault,
    pub defaultx2: ArtWorkUrlDefaultx2,
    pub image_type: String,
}

#[derive(Debug)]
pub struct ArtWorkUrlDefault {
    pub url: String,
}

#[derive(Debug)]
pub struct ArtWorkUrlDefaultx2 {
    pub url: String,
}

} // verus!
