use oxify::config::{default_audio_format, default_bitrate, default_cache_limit_size, default_initial_volume, Audio};
use oxify::model::track_data::{
    Album, AlbumCollection, Artist, ArtistCollection, ArtistItem, ExternalIds, ExternalUrls,
    Followers, PlaylistCollection, PlaylistItem, TrackCollection, TrackItem, TrackReference,
};
use oxify::rows::{album_rows, artist_rows, millis_to_mm_ss, playlist_rows, track_rows};
use oxify::screen::{player_update, PlayerEvent, Welcome, WelcomeEvent, WelcomeMessage};
use oxify::ui::SelectedTab;

fn urls() -> ExternalUrls {
    ExternalUrls { spotify: "https://open.spotify.com/x".to_string() }
}

fn artist(name: &str) -> Artist {
    Artist { external_urls: urls(), href: String::new(), id: String::new(), name: name.to_string(), uri: String::new() }
}

fn album(name: &str, artists: Vec<Artist>) -> Album {
    Album {
        album_type: "album".to_string(),
        total_tracks: 12,
        available_markets: vec![],
        external_urls: urls(),
        href: String::new(),
        id: String::new(),
        images: vec![],
        name: name.to_string(),
        release_date: "1997-05-21".to_string(),
        release_date_precision: "day".to_string(),
        uri: "spotify:album:1".to_string(),
        artists,
    }
}

fn collection<T>(items: Vec<T>) -> (String, u32, Option<String>, u32, Option<String>, u32, Vec<T>) {
    let n = items.len() as u32;
    (String::new(), 20, None, 0, None, n, items)
}

#[test]
fn tabs_step_within_bounds() {
    assert_eq!(SelectedTab::Tracks.next(), SelectedTab::Albums);
    assert_eq!(SelectedTab::Artists.next(), SelectedTab::Playlists);
    assert_eq!(SelectedTab::Playlists.next(), SelectedTab::Playlists);
    assert_eq!(SelectedTab::Tracks.previous(), SelectedTab::Tracks);
    assert_eq!(SelectedTab::Albums.previous(), SelectedTab::Tracks);
    assert_eq!(SelectedTab::Playlists.previous(), SelectedTab::Artists);
    assert_eq!(SelectedTab::default(), SelectedTab::Tracks);
    assert_eq!(SelectedTab::Artists.name(), "Artists");
    assert_eq!(SelectedTab::from_index(4), None);
}

#[test]
fn welcome_login_raises_attempt() {
    let mut w = Welcome::new();
    assert_eq!(w.update(WelcomeMessage::Login), Some(WelcomeEvent::LoginAttempt));
    assert_eq!(w.update(WelcomeMessage::ReloadConfig), None);
    assert_eq!(w.update(WelcomeMessage::OpenWebsite), None);
    assert_eq!(player_update(WelcomeMessage::ReloadConfig), Some(PlayerEvent::ReloadConfigAttempt));
    assert_eq!(player_update(WelcomeMessage::Login), Some(PlayerEvent::LoginAttempt));
    assert_eq!(player_update(WelcomeMessage::OpenConfigDir), None);
}

#[test]
fn audio_defaults() {
    let a = Audio::default();
    assert_eq!(a.format, "S16");
    assert_eq!(a.cache_limit_size, "2G");
    assert_eq!(a.bitrate, 160);
    assert_eq!(a.initial_volume, 50);
    assert_eq!(default_audio_format(), "S16");
    assert_eq!(default_cache_limit_size(), "2G");
    assert_eq!(default_bitrate(), 160);
    assert_eq!(default_initial_volume(), 50);
}

#[test]
fn durations_as_minutes_and_seconds() {
    assert_eq!(millis_to_mm_ss(0), "00:00");
    assert_eq!(millis_to_mm_ss(61_999), "01:01");
    assert_eq!(millis_to_mm_ss(225_000), "03:45");
    assert_eq!(millis_to_mm_ss(3_599_999), "59:59");
    assert_eq!(millis_to_mm_ss(6_000_000), "100:00");
}

#[test]
fn track_rows_take_first_artist() {
    let item = TrackItem {
        album: album("OK Computer", vec![artist("Radiohead")]),
        artists: vec![artist("Radiohead"), artist("Other")],
        available_markets: vec![],
        disc_number: 1,
        duration_ms: 284_000,
        explicit: false,
        external_ids: ExternalIds { isrc: None, ean: None, upc: None },
        external_urls: urls(),
        href: String::new(),
        id: String::new(),
        is_playable: Some(true),
        name: "Paranoid Android".to_string(),
        popularity: 80,
        preview_url: None,
        track_number: 2,
        uri: "spotify:track:1".to_string(),
        is_local: false,
    };
    let (href, limit, next, offset, previous, total, items) = collection(vec![item]);
    let c = TrackCollection { href, limit, next, offset, previous, total, items };
    let rows = track_rows(&c);
    assert_eq!(rows.len(), 1);
    assert_eq!(rows[0].name, "Paranoid Android");
    assert_eq!(rows[0].artist, "Radiohead");
    assert_eq!(rows[0].album, "OK Computer");
    assert_eq!(rows[0].duration, "04:44");
    assert_eq!(rows[0].uri, "spotify:track:1");
}

#[test]
fn album_rows_show_track_count() {
    let (href, limit, next, offset, previous, total, items) = collection(vec![album("Kid A", vec![artist("Radiohead")])]);
    let c = AlbumCollection { href, limit, next, offset, previous, total, items };
    let rows = album_rows(&c);
    assert_eq!(rows[0].name, "Kid A");
    assert_eq!(rows[0].artist, "Radiohead");
    assert_eq!(rows[0].year, "1997-05-21");
    assert_eq!(rows[0].num_tracks, "12");
}

#[test]
fn artist_rows_capitalize_genres() {
    let with = ArtistItem {
        external_urls: urls(),
        followers: Some(Followers { href: None, total: 1234 }),
        genres: vec!["rock".to_string(), "indie pop".to_string(), "".to_string(), "édm".to_string()],
        href: String::new(),
        id: String::new(),
        images: vec![],
        name: "Band".to_string(),
        popularity: 1,
        uri: "spotify:artist:1".to_string(),
    };
    let without = ArtistItem {
        external_urls: urls(),
        followers: None,
        genres: vec![],
        href: String::new(),
        id: String::new(),
        images: vec![],
        name: "Solo".to_string(),
        popularity: 1,
        uri: "spotify:artist:2".to_string(),
    };
    let (href, limit, next, offset, previous, total, items) = collection(vec![with, without]);
    let c = ArtistCollection { href, limit, next, offset, previous, total, items };
    let rows = artist_rows(&c);
    assert_eq!(rows[0].genre, "Rock, Indie pop, , Édm");
    assert_eq!(rows[0].followers, "1234");
    assert_eq!(rows[1].genre, "");
    assert_eq!(rows[1].followers, "0");
}

#[test]
fn playlist_rows_show_track_total() {
    let item = PlaylistItem {
        collaborative: false,
        description: "Mix".to_string(),
        external_urls: urls(),
        href: String::new(),
        id: String::new(),
        images: vec![],
        name: "Daily".to_string(),
        public: Some(true),
        snapshot_id: String::new(),
        tracks: TrackReference { href: String::new(), total: 50 },
        uri: "spotify:playlist:1".to_string(),
    };
    let (href, limit, next, offset, previous, total, items) = collection(vec![item]);
    let c = PlaylistCollection { href, limit, next, offset, previous, total, items };
    let rows = playlist_rows(&c);
    assert_eq!(rows[0].name, "Daily");
    assert_eq!(rows[0].description, "Mix");
    assert_eq!(rows[0].num_tracks, "50");
}
