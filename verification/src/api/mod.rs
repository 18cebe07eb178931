//! The resource objects of the catalog and playback APIs, as plain data.

pub mod albums;
pub mod artwork;
pub mod editorial_notes;
pub mod genres;
pub mod library_albums;
pub mod library_artists;
pub mod library_music_video;
pub mod library_songs;
pub mod lyrics;
pub mod music_videos;
pub mod play_parameters;
pub mod playlists;
pub mod previews;
pub mod search;
pub mod songs;
pub mod webplayback;
