use vstd::prelude::*;
use vstd::string::*;

verus! {

/// How the player repeats once the current song ends.
#[derive(Clone, Copy, Debug, PartialEq, Eq, Structural)]
pub enum RepeatMode {
    Song,
    Playlist,
    NoRepeat,
}

/// A reference to an artist, as shown next to a song.
#[derive(Debug, PartialEq, Eq)]
pub struct ArtistRef {
    pub id: String,
    pub name: String,
}

impl Clone for ArtistRef {
    fn clone(&self) -> (r: Self)
        ensures
            r == *self,
    {
        ArtistRef { id: self.id.clone(), name: self.name.clone() }
    }
}

/// A reference to the album a song belongs to.
#[derive(Debug, PartialEq, Eq)]
pub struct AlbumRef {
    pub id: String,
    pub name: String,
}

impl Clone for AlbumRef {
    fn clone(&self) -> (r: Self)
        ensures
            r == *self,
    {
        AlbumRef { id: self.id.clone(), name: self.name.clone() }
    }
}

/// Clones a list of artists element by element.
pub fn clone_artists(artists: &Vec<ArtistRef>) -> (r: Vec<ArtistRef>)
    ensures
        r@ == artists@,
{
    let mut r: Vec<ArtistRef> = Vec::new();
    let n = artists.len();
    for i in 0..n
        invariant
            n == artists@.len(),
            r@ == artists@.take(i as int),
    {
        r.push(artists[i].clone());
        assert(artists@.take(i + 1) == artists@.take(i as int).push(artists@[i as int]));
    }
    assert(artists@.take(n as int) == artists@);
    r
}

/// The name list shown for a song: the names joined by `sep`.
pub open spec fn joined(names: Seq<Seq<char>>, sep: Seq<char>) -> Seq<char>
    decreases names.len(),
{
    if names.len() == 0 {
        Seq::empty()
    } else if names.len() == 1 {
        names[0]
    } else {
        joined(names.drop_last(), sep) + sep + names.last()
    }
}

/// The total length of the names.
pub open spec fn total_length(names: Seq<Seq<char>>) -> nat
    decreases names.len(),
{
    if names.len() == 0 {
        0
    } else {
        total_length(names.drop_last()) + names.last().len()
    }
}

/// Joining names: none gives the empty text, one gives that name, and one more name after at
/// least one gives the text so far, the separator, then that name. So every name appears, in
/// order, whatever their number.
pub proof fn lemma_joined_names(names: Seq<Seq<char>>, sep: Seq<char>, x: Seq<char>)
    ensures
        joined(Seq::<Seq<char>>::empty(), sep) == Seq::<char>::empty(),
        joined(seq![x], sep) == x,
        names.len() >= 1 ==> joined(names.push(x), sep) == joined(names, sep) + sep + x,
{
    assert(names.push(x).drop_last() =~= names);
}

/// The joined text is as long as all names together plus one separator between each two.
pub proof fn lemma_joined_length(names: Seq<Seq<char>>, sep: Seq<char>)
    requires
        names.len() >= 1,
    ensures
        joined(names, sep).len() == total_length(names) + sep.len() * (names.len() - 1),
    decreases names.len(),
{
    if names.len() == 1 {
        assert(names.drop_last().len() == 0);
    } else {
        lemma_joined_length(names.drop_last(), sep);
        assert(sep.len() * (names.len() - 1) == sep.len() * (names.len() - 2) + sep.len()) by (nonlinear_arith)
            requires names.len() >= 2;
    }
}

/// The names of the given artists, in order.
pub open spec fn artist_names(artists: Seq<ArtistRef>) -> Seq<Seq<char>> {
    artists.map_values(|a: ArtistRef| a.name@)
}

/// A song as the player knows it.
#[derive(Debug, PartialEq, Eq)]
pub struct SongDescription {
    pub id: String,
    pub title: String,
    pub artists: Vec<ArtistRef>,
    pub album: AlbumRef,
    /// Length of the song in milliseconds.
    pub duration: u32,
    /// Address of the cover art, if there is one.
    pub art: Option<String>,
}

/// What a song is, with its artist list as a sequence.
pub struct SongDescriptionView {
    pub id: String,
    pub title: String,
    pub artists: Seq<ArtistRef>,
    pub album: AlbumRef,
    pub duration: u32,
    pub art: Option<String>,
}

impl View for SongDescription {
    type V = SongDescriptionView;

    open spec fn view(&self) -> SongDescriptionView {
        SongDescriptionView {
            id: self.id,
            title: self.title,
            artists: self.artists@,
            album: self.album,
            duration: self.duration,
            art: self.art,
        }
    }
}

impl Clone for SongDescription {
    fn clone(&self) -> (r: Self)
        ensures
            r@ == self@,
    {
        let art = match &self.art {
            Some(a) => Some(a.clone()),
            None => None,
        };
        SongDescription {
            id: self.id.clone(),
            title: self.title.clone(),
            artists: clone_artists(&self.artists),
            album: self.album.clone(),
            duration: self.duration,
            art,
        }
    }
}

impl SongDescription {
    /// The artists' names joined by ", ".
    pub fn artists_name(&self) -> (r: String)
        ensures
            r@ == joined(artist_names(self.artists@), ", "@),
    {
        let ghost names = artist_names(self.artists@);
        let mut r = String::new();
        let n = self.artists.len();
        for i in 0..n
            invariant
                n == self.artists@.len(),
                names == artist_names(self.artists@),
                r@ == joined(names.take(i as int), ", "@),
        {
            assert(names.take(i + 1).drop_last() == names.take(i as int));
            if i != 0 {
                r.append(", ");
            }
            r.append(self.artists[i].name.as_str());
        }
        assert(names.take(n as int) == names);
        r
    }
}

/// A Spotify Connect device that playback can be sent to.
#[derive(Debug, PartialEq, Eq)]
pub struct ConnectDevice {
    pub id: String,
    pub label: String,
    pub is_active: bool,
}

impl Clone for ConnectDevice {
    fn clone(&self) -> (r: Self)
        ensures
            r == *self,
    {
        ConnectDevice { id: self.id.clone(), label: self.label.clone(), is_active: self.is_active }
    }
}

/// Where the songs in the play queue came from.
#[derive(Debug, PartialEq, Eq)]
pub enum SongsSource {
    Playlist(String),
    Album(String),
    SavedTracks,
}

impl Clone for SongsSource {
    fn clone(&self) -> (r: Self)
        ensures
            r == *self,
    {
        match self {
            SongsSource::Playlist(id) => SongsSource::Playlist(id.clone()),
            SongsSource::Album(id) => SongsSource::Album(id.clone()),
            SongsSource::SavedTracks => SongsSource::SavedTracks,
        }
    }
}

impl SongsSource {
    /// Whether the source can be named by a Spotify URI (so a Connect player can load it).
    pub open spec fn spec_has_spotify_uri(self) -> bool {
        self is Playlist || self is Album
    }

    pub fn has_spotify_uri(&self) -> (r: bool)
        ensures
            r == self.spec_has_spotify_uri(),
    {
        match self {
            SongsSource::Playlist(_) => true,
            SongsSource::Album(_) => true,
            SongsSource::SavedTracks => false,
        }
    }
}

} // verus!
