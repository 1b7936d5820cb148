//! The rows that the result tables show for each kind of search result.
use vstd::prelude::*;
use crate::model::track_data::{
    AlbumCollection, ArtistCollection, ArtistItem, PlaylistCollection, TrackCollection,
};
use crate::text::{decimal, decimal_text, join_with};

verus! {

/// A row of the tracks table; `uri` is kept for playback and not shown.
#[derive(Debug, Clone)]
pub struct TrackRow {
    pub name: String,
    pub artist: String,
    pub album: String,
    pub duration: String,
    pub uri: String,
}

/// A row of the albums table.
#[derive(Debug, Clone)]
pub struct AlbumRow {
    pub name: String,
    pub artist: String,
    pub year: String,
    pub num_tracks: String,
    pub uri: String,
}

/// A row of the artists table.
#[derive(Debug, Clone)]
pub struct ArtistRow {
    pub name: String,
    pub genre: String,
    pub followers: String,
    pub uri: String,
}

/// A row of the playlists table.
#[derive(Debug, Clone)]
pub struct PlaylistRow {
    pub name: String,
    pub description: String,
    pub num_tracks: String,
    pub uri: String,
}

/// `n` in decimal, padded with a leading zero to at least two digits.
pub open spec fn two_digits(n: nat) -> Seq<char> {
    if n < 10 {
        seq!['0'] + decimal(n)
    } else {
        decimal(n)
    }
}

/// A duration in milliseconds as `mm:ss`, whole seconds, minutes unbounded.
pub open spec fn mm_ss(milliseconds: nat) -> Seq<char> {
    two_digits(milliseconds / 1000 / 60) + seq![':'] + two_digits(milliseconds / 1000 % 60)
}

fn two_digit_text(n: u32) -> (r: String)
    ensures
        r@ == two_digits(n as nat),
{
    proof {
        reveal_strlit("0");
    }
    if n < 10 {
        let mut r = String::from_str("0");
        let d = decimal_text(n as usize);
        r.append(d.as_str());
        r
    } else {
        decimal_text(n as usize)
    }
}

/// A track length in milliseconds as shown in the tracks table (see `mm_ss`).
pub fn millis_to_mm_ss(milliseconds: u32) -> (r: String)
    ensures
        r@ == mm_ss(milliseconds as nat),
{
    proof {
        reveal_strlit(":");
    }
    let seconds = milliseconds / 1000;
    let minutes = seconds / 60;
    let remaining_seconds = seconds % 60;
    let mut r = two_digit_text(minutes);
    r.append(":");
    let s = two_digit_text(remaining_seconds);
    r.append(s.as_str());
    r
}

/// The tracks table of a page of tracks, one row per track, in order. The
/// artist shown is the first one credited.
pub fn track_rows(collection: &TrackCollection) -> (r: Vec<TrackRow>)
    requires
        forall|i: int| 0 <= i < collection.items@.len() ==> #[trigger] collection.items@[i].artists@.len() > 0,
    ensures
        r@.len() == collection.items@.len(),
        forall|i: int|
            0 <= i < r@.len() ==> {
                let item = #[trigger] collection.items@[i];
                &&& r@[i].name@ == item.name@
                &&& r@[i].artist@ == item.artists@[0].name@
                &&& r@[i].album@ == item.album.name@
                &&& r@[i].duration@ == mm_ss(item.duration_ms as nat)
                &&& r@[i].uri@ == item.uri@
            },
{
    let mut rows: Vec<TrackRow> = Vec::new();
    let mut i: usize = 0;
    while i < collection.items.len()
        invariant
            i <= collection.items@.len(),
            rows@.len() == i,
            forall|j: int| 0 <= j < collection.items@.len() ==> #[trigger] collection.items@[j].artists@.len() > 0,
            forall|j: int|
                0 <= j < i ==> {
                    let item = #[trigger] collection.items@[j];
                    &&& rows@[j].name@ == item.name@
                    &&& rows@[j].artist@ == item.artists@[0].name@
                    &&& rows@[j].album@ == item.album.name@
                    &&& rows@[j].duration@ == mm_ss(item.duration_ms as nat)
                    &&& rows@[j].uri@ == item.uri@
                },
        decreases collection.items@.len() - i,
    {
        let item = &collection.items[i];
        let row = TrackRow {
            name: item.name.clone(),
            artist: item.artists[0].name.clone(),
            album: item.album.name.clone(),
            duration: millis_to_mm_ss(item.duration_ms),
            uri: item.uri.clone(),
        };
        rows.push(row);
        i = i + 1;
    }
    rows
}

/// The albums table of a page of albums, one row per album, in order. The
/// artist shown is the first one credited; the year is the release date as given.
pub fn album_rows(collection: &AlbumCollection) -> (r: Vec<AlbumRow>)
    requires
        forall|i: int| 0 <= i < collection.items@.len() ==> #[trigger] collection.items@[i].artists@.len() > 0,
    ensures
        r@.len() == collection.items@.len(),
        forall|i: int|
            0 <= i < r@.len() ==> {
                let item = #[trigger] collection.items@[i];
                &&& r@[i].name@ == item.name@
                &&& r@[i].artist@ == item.artists@[0].name@
                &&& r@[i].year@ == item.release_date@
                &&& r@[i].num_tracks@ == decimal(item.total_tracks as nat)
                &&& r@[i].uri@ == item.uri@
            },
{
    let mut rows: Vec<AlbumRow> = Vec::new();
    let mut i: usize = 0;
    while i < collection.items.len()
        invariant
            i <= collection.items@.len(),
            rows@.len() == i,
            forall|j: int| 0 <= j < collection.items@.len() ==> #[trigger] collection.items@[j].artists@.len() > 0,
            forall|j: int|
                0 <= j < i ==> {
                    let item = #[trigger] collection.items@[j];
                    &&& rows@[j].name@ == item.name@
                    &&& rows@[j].artist@ == item.artists@[0].name@
                    &&& rows@[j].year@ == item.release_date@
                    &&& rows@[j].num_tracks@ == decimal(item.total_tracks as nat)
                    &&& rows@[j].uri@ == item.uri@
                },
        decreases collection.items@.len() - i,
    {
        let item = &collection.items[i];
        let row = AlbumRow {
            name: item.name.clone(),
            artist: item.artists[0].name.clone(),
            year: item.release_date.clone(),
            num_tracks: decimal_text(item.total_tracks as usize),
            uri: item.uri.clone(),
        };
        rows.push(row);
        i = i + 1;
    }
    rows
}

/// The playlists table of a page of playlists, one row per playlist, in order.
pub fn playlist_rows(collection: &PlaylistCollection) -> (r: Vec<PlaylistRow>)
    ensures
        r@.len() == collection.items@.len(),
        forall|i: int|
            0 <= i < r@.len() ==> {
                let item = #[trigger] collection.items@[i];
                &&& r@[i].name@ == item.name@
                &&& r@[i].description@ == item.description@
                &&& r@[i].num_tracks@ == decimal(item.tracks.total as nat)
                &&& r@[i].uri@ == item.uri@
            },
{
    let mut rows: Vec<PlaylistRow> = Vec::new();
    let mut i: usize = 0;
    while i < collection.items.len()
        invariant
            i <= collection.items@.len(),
            rows@.len() == i,
            forall|j: int|
                0 <= j < i ==> {
                    let item = #[trigger] collection.items@[j];
                    &&& rows@[j].name@ == item.name@
                    &&& rows@[j].description@ == item.description@
                    &&& rows@[j].num_tracks@ == decimal(item.tracks.total as nat)
                    &&& rows@[j].uri@ == item.uri@
                },
        decreases collection.items@.len() - i,
    {
        let item = &collection.items[i];
        let row = PlaylistRow {
            name: item.name.clone(),
            description: item.description.clone(),
            num_tracks: decimal_text(item.tracks.total as usize),
            uri: item.uri.clone(),
        };
        rows.push(row);
        i = i + 1;
    }
    rows
}

/// The Unicode uppercase mapping of `c`.
pub uninterp spec fn upper_of(c: char) -> Seq<char>;

/// Relies on std's `char::to_uppercase`, collected into a `String`: the
/// Unicode uppercase mapping of `c`, which depends on `c` alone.
#[verifier::external_body]
fn uppercase_char(c: char) -> (r: String)
    ensures
        r@ == upper_of(c),
{
    c.to_uppercase().collect()
}

/// `word` with its first character in uppercase.
pub open spec fn capitalized(word: Seq<char>) -> Seq<char> {
    if word.len() == 0 {
        word
    } else {
        upper_of(word[0]) + word.drop_first()
    }
}

/// The genres column: each genre capitalized, joined with `, `.
pub open spec fn genre_line(genres: Seq<String>) -> Seq<char> {
    join_with(genres.map_values(|g: String| capitalized(g@)), ", "@)
}

/// The followers column: the follower count, 0 where it is not given.
pub open spec fn followers_text(item: ArtistItem) -> Seq<char> {
    match item.followers {
        Some(f) => decimal(f.total as nat),
        None => "0"@,
    }
}

fn capitalize(word: &str) -> (r: String)
    ensures
        r@ == capitalized(word@),
{
    let n = word.unicode_len();
    if n == 0 {
        return String::new();
    }
    let mut r = uppercase_char(word.get_char(0));
    r.append(word.substring_char(1, n));
    assert(word@.subrange(1, n as int) =~= word@.drop_first());
    r
}

fn genre_text(genres: &Vec<String>) -> (r: String)
    ensures
        r@ == genre_line(genres@),
{
    let ghost words = genres@.map_values(|g: String| capitalized(g@));
    let mut r = String::new();
    let mut i: usize = 0;
    while i < genres.len()
        invariant
            i <= genres@.len(),
            words == genres@.map_values(|g: String| capitalized(g@)),
            r@ == join_with(words.take(i as int), ", "@),
        decreases genres@.len() - i,
    {
        proof {
            assert(words.take(i + 1).drop_last() =~= words.take(i as int));
        }
        if i > 0 {
            r.append(", ");
        }
        let word = capitalize(genres[i].as_str());
        r.append(word.as_str());
        proof {
            if i == 0 {
                assert(r@ =~= words.take(1)[0]);
            }
        }
        i = i + 1;
    }
    assert(words.take(genres@.len() as int) =~= words);
    r
}

/// The artists table of a page of artists, one row per artist, in order.
pub fn artist_rows(collection: &ArtistCollection) -> (r: Vec<ArtistRow>)
    ensures
        r@.len() == collection.items@.len(),
        forall|i: int|
            0 <= i < r@.len() ==> {
                let item = #[trigger] collection.items@[i];
                &&& r@[i].name@ == item.name@
                &&& r@[i].genre@ == genre_line(item.genres@)
                &&& r@[i].followers@ == followers_text(item)
                &&& r@[i].uri@ == item.uri@
            },
{
    let mut rows: Vec<ArtistRow> = Vec::new();
    let mut i: usize = 0;
    while i < collection.items.len()
        invariant
            i <= collection.items@.len(),
            rows@.len() == i,
            forall|j: int|
                0 <= j < i ==> {
                    let item = #[trigger] collection.items@[j];
                    &&& rows@[j].name@ == item.name@
                    &&& rows@[j].genre@ == genre_line(item.genres@)
                    &&& rows@[j].followers@ == followers_text(item)
                    &&& rows@[j].uri@ == item.uri@
                },
        decreases collection.items@.len() - i,
    {
        let item = &collection.items[i];
        let followers = match &item.followers {
            Some(f) => decimal_text(f.total as usize),
            None => String::from_str("0"),
        };
        let row = ArtistRow {
            name: item.name.clone(),
            genre: genre_text(&item.genres),
            followers,
            uri: item.uri.clone(),
        };
        rows.push(row);
        i = i + 1;
    }
    rows
}

} // verus!
