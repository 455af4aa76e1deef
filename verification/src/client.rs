//! The API client core: session establishment, the catalog queries'
//! URLs, parameters and headers, the response policies, media-stream
//! selection, and playback-URL construction.
//!
//! Nothing here performs I/O. The transport layer sends the requests this
//! module describes and hands back the HTTP status and the decoded JSON
//! payload; every decision about them is made, and verified, here.

use crate::entities::{
    decode_artists, decode_discography, decode_lyrics, decode_media_sources, spec_artists,
    spec_discography, spec_lyrics, spec_media_source, Artist, Credentials, Discography,
    MediaSource, MediaStream, MediaSourceView, MediaStreamView,
};
use crate::json::{
    field, get_opt_str, spec_arr_field, spec_field, spec_opt_str_field, str_eq, JsonVal, JsonValue,
};
use vstd::prelude::*;

verus! {

/// A session with the server: where it is, and who we are to it.
///
/// The token and the user id are empty exactly when authentication was
/// refused; callers must check for emptiness before relying on
/// authenticated calls.
#[derive(Debug, Clone, PartialEq)]
pub struct Client {
    pub base_url: String,
    pub access_token: String,
    pub user_id: String,
}

#[verifier::ext_equal]
pub ghost struct ClientView {
    pub base_url: Seq<char>,
    pub access_token: Seq<char>,
    pub user_id: Seq<char>,
}

impl View for Client {
    type V = ClientView;

    open spec fn view(&self) -> ClientView {
        ClientView {
            base_url: self.base_url@,
            access_token: self.access_token@,
            user_id: self.user_id@,
        }
    }
}

/// A successful authentication response turned out malformed: the one
/// condition under which session establishment fails hard, since an
/// authenticated flow with no token cannot proceed.
#[derive(Debug, Clone, Copy, PartialEq, Eq, Structural)]
pub enum AuthError {
    MissingAccessToken,
    MissingUserId,
}

/// Whether an HTTP status code reports success.
pub open spec fn spec_status_success(status: u16) -> bool {
    200 <= status < 300
}

/// Whether an HTTP status code reports success.
pub fn status_success(status: u16) -> (r: bool)
    ensures
        r == spec_status_success(status),
{
    200 <= status && status < 300
}

/// The access token of an authentication response, when it carries one.
pub open spec fn spec_auth_token(v: JsonVal) -> Option<Seq<char>> {
    spec_opt_str_field(v, "AccessToken"@)
}

/// The user id of an authentication response, when it carries one.
pub open spec fn spec_auth_user_id(v: JsonVal) -> Option<Seq<char>> {
    match spec_field(v, "User"@) {
        Some(u) => spec_opt_str_field(u, "Id"@),
        None => None,
    }
}

/// The fixed client-identity header sent with every request, sign-in
/// included: the name, then the value.
pub fn identity_header() -> (r: (String, String))
    ensures
        r.0@ == "x-emby-authorization"@,
        r.1@
            == "MediaBrowser Client=\"jellyfin-tui\", Device=\"jellyfin-tui\", DeviceId=\"None\", Version=\"10.4.3\""@,
{
    (
        "x-emby-authorization".to_owned(),
        "MediaBrowser Client=\"jellyfin-tui\", Device=\"jellyfin-tui\", DeviceId=\"None\", Version=\"10.4.3\"".to_owned(),
    )
}

/// The sign-in payload: the username and the password under the field
/// names the server expects, and nothing else.
pub fn auth_request_body(credentials: &Credentials) -> (r: JsonValue)
    ensures
        r@ == JsonVal::Obj(
            seq![
                ("Username"@, JsonVal::Str(credentials.username@)),
                ("Pw"@, JsonVal::Str(credentials.password@)),
            ],
        ),
{
    let mut fields: Vec<(String, JsonValue)> = Vec::new();
    fields.push(("Username".to_owned(), JsonValue::Str(credentials.username.clone())));
    fields.push(("Pw".to_owned(), JsonValue::Str(credentials.password.clone())));
    assert(fields@.len() == 2);
    assert(fields@[0].0@ == "Username"@ && fields@[0].1@ == JsonVal::Str(credentials.username@));
    assert(fields@[1].0@ == "Pw"@ && fields@[1].1@ == JsonVal::Str(credentials.password@));
    let r = JsonValue::Obj(fields);
    proof {
        let s1 = (match r@ {
            JsonVal::Obj(s) => s,
            _ => Seq::empty(),
        });
        let s2 = seq![
            ("Username"@, JsonVal::Str(credentials.username@)),
            ("Pw"@, JsonVal::Str(credentials.password@)),
        ];
        assert(s1[0] == s2[0]);
        assert(s1[1] == s2[1]);
        assert(s1 =~= s2);
    }
    r
}

impl Client {
    /// Builds the session from the authentication exchange's outcome.
    ///
    /// A non-success status yields a degraded but usable session with an
    /// empty token and user id, never a failure. On success, the token and
    /// the user id are taken from the body; only a success body lacking
    /// either is an error, and the error says which was missing.
    pub fn new(base_url: &str, status: u16, body: &JsonValue) -> (r: Result<Client, AuthError>)
        ensures
            !spec_status_success(status) ==> (r matches Ok(c) && c@ == (ClientView {
                base_url: base_url@,
                access_token: Seq::empty(),
                user_id: Seq::empty(),
            })),
            spec_status_success(status) ==> match r {
                Ok(c) => {
                    &&& spec_auth_token(body@) matches Some(token) && c@.access_token == token
                    &&& spec_auth_user_id(body@) matches Some(id) && c@.user_id == id
                    &&& c@.base_url == base_url@
                },
                Err(AuthError::MissingAccessToken) => spec_auth_token(body@) is None,
                Err(AuthError::MissingUserId) => spec_auth_token(body@) is Some
                    && spec_auth_user_id(body@) is None,
            },
    {
        if !status_success(status) {
            return Ok(
                Client {
                    base_url: base_url.to_owned(),
                    access_token: String::new(),
                    user_id: String::new(),
                },
            );
        }
        let access_token = match get_opt_str(body, "AccessToken") {
            Some(t) => t,
            None => {
                return Err(AuthError::MissingAccessToken);
            },
        };
        let user_id = match field(body, "User") {
            Some(user) => match get_opt_str(user, "Id") {
                Some(id) => id,
                None => {
                    return Err(AuthError::MissingUserId);
                },
            },
            None => {
                return Err(AuthError::MissingUserId);
            },
        };
        Ok(Client { base_url: base_url.to_owned(), access_token, user_id })
    }

    /// The token header sent with every authenticated request.
    pub fn token_header(&self) -> (r: (String, String))
        ensures
            r.0@ == "X-MediaBrowser-Token"@,
            r.1@ == self@.access_token,
    {
        ("X-MediaBrowser-Token".to_owned(), self.access_token.clone())
    }

    /// The URL of the artist listing.
    pub fn artists_url(&self) -> (r: String)
        ensures
            r@ == self@.base_url + "/Artists"@,
    {
        let r = self.base_url.clone().concat("/Artists");
        r
    }

    /// The query of the artist listing: sorted by name ascending,
    /// recursive, unlimited image tags, starting at offset zero.
    pub fn artists_query() -> (r: Vec<(String, String)>)
        ensures
            r@.len() == 6,
            r@[0].0@ == "SortBy"@ && r@[0].1@ == "SortName"@,
            r@[1].0@ == "SortOrder"@ && r@[1].1@ == "Ascending"@,
            r@[2].0@ == "Recursive"@ && r@[2].1@ == "true"@,
            r@[3].0@ == "Fields"@ && r@[3].1@ == "SortName"@,
            r@[4].0@ == "ImageTypeLimit"@ && r@[4].1@ == "-1"@,
            r@[5].0@ == "StartIndex"@ && r@[5].1@ == "0"@,
    {
        vec![
            ("SortBy".to_owned(), "SortName".to_owned()),
            ("SortOrder".to_owned(), "Ascending".to_owned()),
            ("Recursive".to_owned(), "true".to_owned()),
            ("Fields".to_owned(), "SortName".to_owned()),
            ("ImageTypeLimit".to_owned(), "-1".to_owned()),
            ("StartIndex".to_owned(), "0".to_owned()),
        ]
    }

    /// The artist listing decoded under the empty-on-failure policy: a
    /// non-success status yields an empty list, indistinguishable from a
    /// server with no artists.
    pub fn artists_from_response(status: u16, body: &JsonValue) -> (r: Vec<Artist>)
        ensures
            r@.map_values(|a: Artist| a@) == if spec_status_success(status) {
                spec_artists(body@).items
            } else {
                Seq::<crate::entities::ArtistView>::empty()
            },
    {
        if !status_success(status) {
            let r: Vec<Artist> = Vec::new();
            assert(r@.map_values(|a: Artist| a@) =~= Seq::<crate::entities::ArtistView>::empty());
            return r;
        }
        decode_artists(body).items
    }

    /// The URL of the items query used for an artist's discography.
    pub fn discography_url(&self) -> (r: String)
        ensures
            r@ == self@.base_url + "/Users/"@ + self@.user_id + "/Items"@,
    {
        let mut r = self.base_url.clone();
        r.append("/Users/");
        r.append(self.user_id.as_str());
        r.append("/Items");
        assert(r@ =~= self@.base_url + "/Users/"@ + self@.user_id + "/Items"@);
        r
    }

    /// The query of the discography listing: audio items of the artist,
    /// sorted by album then index, with the extra fields the entities need.
    /// The starting offset appears twice, as the client has always sent it.
    pub fn discography_query(artist_id: &str) -> (r: Vec<(String, String)>)
        ensures
            r@.len() == 9,
            r@[0].0@ == "SortBy"@ && r@[0].1@ == "Album,IndexNumber"@,
            r@[1].0@ == "SortOrder"@ && r@[1].1@ == "Ascending"@,
            r@[2].0@ == "Recursive"@ && r@[2].1@ == "true"@,
            r@[3].0@ == "IncludeItemTypes"@ && r@[3].1@ == "Audio"@,
            r@[4].0@ == "Fields"@ && r@[4].1@ == "Genres, DateCreated, MediaSources, ParentId"@,
            r@[5].0@ == "StartIndex"@ && r@[5].1@ == "0"@,
            r@[6].0@ == "ImageTypeLimit"@ && r@[6].1@ == "1"@,
            r@[7].0@ == "ArtistIds"@ && r@[7].1@ == artist_id@,
            r@[8].0@ == "StartIndex"@ && r@[8].1@ == "0"@,
    {
        vec![
            ("SortBy".to_owned(), "Album,IndexNumber".to_owned()),
            ("SortOrder".to_owned(), "Ascending".to_owned()),
            ("Recursive".to_owned(), "true".to_owned()),
            ("IncludeItemTypes".to_owned(), "Audio".to_owned()),
            ("Fields".to_owned(), "Genres, DateCreated, MediaSources, ParentId".to_owned()),
            ("StartIndex".to_owned(), "0".to_owned()),
            ("ImageTypeLimit".to_owned(), "1".to_owned()),
            ("ArtistIds".to_owned(), artist_id.to_owned()),
            ("StartIndex".to_owned(), "0".to_owned()),
        ]
    }

    /// The discography decoded under the empty-on-failure policy.
    pub fn discography_from_response(status: u16, body: &JsonValue) -> (r: Discography)
        ensures
            r@.items == if spec_status_success(status) {
                spec_discography(body@).items
            } else {
                Seq::<crate::entities::DiscographySongView>::empty()
            },
    {
        if !status_success(status) {
            let r = Discography { items: Vec::new() };
            assert(r@.items =~= Seq::<crate::entities::DiscographySongView>::empty());
            return r;
        }
        decode_discography(body)
    }

    /// The URL of a track's lyric resource.
    pub fn lyrics_url(&self, song_id: &str) -> (r: String)
        ensures
            r@ == self@.base_url + "/Audio/"@ + song_id@ + "/Lyrics"@,
    {
        let mut r = self.base_url.clone();
        r.append("/Audio/");
        r.append(song_id);
        r.append("/Lyrics");
        assert(r@ =~= self@.base_url + "/Audio/"@ + song_id@ + "/Lyrics"@);
        r
    }

    /// The lyric lines decoded under the empty-on-failure policy, each
    /// line prefixed with one space of display padding, in server order.
    #[verifier::loop_isolation(false)]
    pub fn lyrics_from_response(status: u16, body: &JsonValue) -> (r: Vec<String>)
        ensures
            r.deep_view() == if spec_status_success(status) {
                spec_lyrics(body@).lyrics.map_values(
                    |l: crate::entities::LyricView| seq![' '] + l.text,
                )
            } else {
                Seq::<Seq<char>>::empty()
            },
    {
        let mut out: Vec<String> = Vec::new();
        if !status_success(status) {
            assert(out.deep_view() =~= Seq::<Seq<char>>::empty());
            return out;
        }
        let lyrics = decode_lyrics(body);
        let n = lyrics.lyrics.len();
        proof {
            reveal_strlit(" ");
        }
        for i in 0..n
            invariant
                out@.len() == i,
                forall|j: int|
                    0 <= j < i ==> out@[j]@ == seq![' '] + spec_lyrics(body@).lyrics[j].text,
        {
            let mut line = " ".to_owned();
            line.append(lyrics.lyrics[i].text.as_str());
            proof {
                assert(" "@ =~= seq![' ']);
            }
            out.push(line);
        }
        assert(out.deep_view() =~= spec_lyrics(body@).lyrics.map_values(
            |l: crate::entities::LyricView| seq![' '] + l.text,
        ));
        out
    }

    /// The URL of one item's full record.
    pub fn metadata_url(&self, song_id: &str) -> (r: String)
        ensures
            r@ == self@.base_url + "/Users/"@ + self@.user_id + "/Items/"@ + song_id@,
    {
        let mut r = self.base_url.clone();
        r.append("/Users/");
        r.append(self.user_id.as_str());
        r.append("/Items/");
        r.append(song_id);
        assert(r@ =~= self@.base_url + "/Users/"@ + self@.user_id + "/Items/"@ + song_id@);
        r
    }

    /// The playable stream of an item payload: the first audio stream
    /// across its media sources, as [`first_audio_of`] pins it down.
    pub fn metadata_from_response(body: &JsonValue) -> (r: MediaStream)
        ensures
            first_audio_of(
                spec_arr_field(body@, "MediaSources"@).map_values(
                    |e: JsonVal| spec_media_source(e),
                ),
                r@,
            ),
    {
        let sources = decode_media_sources(body);
        first_audio_stream(&sources)
    }

    /// The URL of one album's primary cover image, at the fixed 512x512 size.
    pub fn cover_art_url(&self, album_id: &str) -> (r: String)
        ensures
            r@ == self@.base_url + "/Items/"@ + album_id@
                + "/Images/Primary?fillHeight=512&fillWidth=512&quality=96&tag=be2a8642e97e2151ef0580fc72f3505a"@,
    {
        let mut r = self.base_url.clone();
        r.append("/Items/");
        r.append(album_id);
        r.append(
            "/Images/Primary?fillHeight=512&fillWidth=512&quality=96&tag=be2a8642e97e2151ef0580fc72f3505a",
        );
        assert(r@ =~= self@.base_url + "/Items/"@ + album_id@
            + "/Images/Primary?fillHeight=512&fillWidth=512&quality=96&tag=be2a8642e97e2151ef0580fc72f3505a"@);
        r
    }

    /// The universal audio URL of a track: the direct-play containers the
    /// client accepts, the transcoding fallback, a start at the beginning
    /// of the track, and the session's user id and token.
    pub fn song_url_sync(&self, song_id: String) -> (r: String)
        ensures
            r@ == spec_song_url(self@, song_id@),
    {
        let mut r = self.base_url.clone();
        r.append("/Audio/");
        r.append(song_id.as_str());
        r.append("/universal");
        r.append("?UserId=");
        r.append(self.user_id.as_str());
        r.append(
            "&Container=opus,webm|opus,mp3,aac,m4a|aac,m4b|aac,flac,webma,webm|webma,wav,ogg&TranscodingContainer=mp4&TranscodingProtocol=hls&AudioCodec=aac&api_key=",
        );
        r.append(self.access_token.as_str());
        r.append("&");
        r.append("StartTimeTicks=0");
        r.append("&EnableRedirection=true&EnableRemoteMedia=false");
        assert(r@ =~= spec_song_url(self@, song_id@));
        r
    }
}

/// The universal audio URL, character for character.
pub open spec fn spec_song_url(c: ClientView, song_id: Seq<char>) -> Seq<char> {
    c.base_url + "/Audio/"@ + song_id + "/universal"@ + "?UserId="@ + c.user_id
        + "&Container=opus,webm|opus,mp3,aac,m4a|aac,m4b|aac,flac,webma,webm|webma,wav,ogg&TranscodingContainer=mp4&TranscodingProtocol=hls&AudioCodec=aac&api_key="@
        + c.access_token + "&"@ + "StartTimeTicks=0"@
        + "&EnableRedirection=true&EnableRemoteMedia=false"@
}

/// Whether `part` occurs in `whole` starting at `at`.
pub open spec fn occurs_at(whole: Seq<char>, part: Seq<char>, at: int) -> bool {
    0 <= at && at + part.len() <= whole.len() && whole.subrange(at, at + part.len()) == part
}

/// Law: the universal audio URL carries the supplied song id, the
/// session's user id and access token, and the fixed start at tick zero.
/// (On arbitrary ids "exactly once" cannot hold — a song id of `0` also
/// occurs inside `StartTimeTicks=0` — so containment is what is stated.)
pub proof fn lemma_song_url_contains_identities(c: ClientView, song_id: Seq<char>)
    ensures
        occurs_at(spec_song_url(c, song_id), song_id, c.base_url.len() + "/Audio/"@.len() as int),
        occurs_at(
            spec_song_url(c, song_id),
            c.user_id,
            c.base_url.len() + "/Audio/"@.len() + song_id.len() + "/universal"@.len()
                + "?UserId="@.len() as int,
        ),
        exists|at: int| occurs_at(spec_song_url(c, song_id), c.access_token, at),
        exists|at: int| occurs_at(spec_song_url(c, song_id), "StartTimeTicks=0"@, at),
{
    let url = spec_song_url(c, song_id);
    let head = c.base_url + "/Audio/"@;
    assert(url.subrange(
        head.len() as int,
        head.len() + song_id.len() as int,
    ) =~= song_id);
    let head2 = head + song_id + "/universal"@ + "?UserId="@;
    assert(url.subrange(
        head2.len() as int,
        head2.len() + c.user_id.len() as int,
    ) =~= c.user_id);
    let head3 = head2 + c.user_id
        + "&Container=opus,webm|opus,mp3,aac,m4a|aac,m4b|aac,flac,webma,webm|webma,wav,ogg&TranscodingContainer=mp4&TranscodingProtocol=hls&AudioCodec=aac&api_key="@;
    assert(url.subrange(
        head3.len() as int,
        head3.len() + c.access_token.len() as int,
    ) =~= c.access_token);
    assert(occurs_at(url, c.access_token, head3.len() as int));
    let head4 = head3 + c.access_token + "&"@;
    assert(url.subrange(
        head4.len() as int,
        head4.len() + "StartTimeTicks=0"@.len() as int,
    ) =~= "StartTimeTicks=0"@);
    assert(occurs_at(url, "StartTimeTicks=0"@, head4.len() as int));
}

/// Whether a media stream is the audio channel of its source.
pub open spec fn is_audio(s: MediaStreamView) -> bool {
    s.type_ == "Audio"@
}

/// Whether a media source holds at least one audio stream.
pub open spec fn source_has_audio(m: MediaSourceView) -> bool {
    exists|j: int| 0 <= j < m.media_streams.len() && is_audio(m.media_streams[j])
}

/// The sentinel stream returned when no source holds audio: every field
/// zero or empty, to be read as "unknown", not as a literal format.
pub open spec fn spec_zero_stream() -> MediaStreamView {
    MediaStreamView {
        codec: Seq::empty(),
        bit_rate: 0,
        channels: 0,
        sample_rate: 0,
        type_: Seq::empty(),
    }
}

/// Pins `r` down as the first audio stream of the first source holding
/// one, or the zero sentinel when no source holds any.
pub open spec fn first_audio_of(sources: Seq<MediaSourceView>, r: MediaStreamView) -> bool {
    if exists|i: int| 0 <= i < sources.len() && source_has_audio(sources[i]) {
        exists|i: int, j: int|
            {
                &&& 0 <= i < sources.len()
                &&& 0 <= j < sources[i].media_streams.len()
                &&& r == sources[i].media_streams[j]
                &&& is_audio(r)
                &&& forall|i2: int| 0 <= i2 < i ==> !source_has_audio(#[trigger] sources[i2])
                &&& forall|j2: int| 0 <= j2 < j ==> !is_audio(#[trigger] sources[i].media_streams[j2])
            }
    } else {
        r == spec_zero_stream()
    }
}

/// Selects the first audio stream across `sources`, source order first,
/// stream order within a source second; the zero sentinel when none exists.
#[verifier::loop_isolation(false)]
pub fn first_audio_stream(sources: &Vec<MediaSource>) -> (r: MediaStream)
    ensures
        first_audio_of(sources@.map_values(|m: MediaSource| m@), r@),
{
    let ghost srcs = sources@.map_values(|m: MediaSource| m@);
    let n = sources.len();
    for i in 0..n
        invariant
            forall|i2: int| 0 <= i2 < i ==> !source_has_audio(#[trigger] srcs[i2]),
    {
        let streams = &sources[i].media_streams;
        let m = streams.len();
        assert(streams@.map_values(|s: MediaStream| s@) == srcs[i as int].media_streams);
        for j in 0..m
            invariant
                forall|j2: int|
                    0 <= j2 < j ==> !is_audio(#[trigger] srcs[i as int].media_streams[j2]),
        {
            assert(streams@[j as int]@ == srcs[i as int].media_streams[j as int]);
            if str_eq(streams[j].type_.as_str(), "Audio") {
                let s = &streams[j];
                let r = MediaStream {
                    codec: s.codec.clone(),
                    bit_rate: s.bit_rate,
                    channels: s.channels,
                    sample_rate: s.sample_rate,
                    type_: s.type_.clone(),
                };
                assert(r@ == srcs[i as int].media_streams[j as int]);
                assert(source_has_audio(srcs[i as int]));
                return r;
            }
        }
        assert(!source_has_audio(srcs[i as int]));
    }
    let r = MediaStream {
        codec: String::new(),
        bit_rate: 0,
        channels: 0,
        sample_rate: 0,
        type_: String::new(),
    };
    assert(r@ =~= spec_zero_stream());
    assert(forall|i: int| 0 <= i < srcs.len() ==> !source_has_audio(#[trigger] srcs[i]));
    r
}

/// The file extension chosen for a downloaded cover image: the declared
/// content type when it is one of the recognized image types, `png`
/// otherwise.
pub open spec fn spec_cover_extension(content_type: Seq<char>) -> Seq<char> {
    if content_type == "image/png"@ {
        "png"@
    } else if content_type == "image/jpeg"@ {
        "jpeg"@
    } else if content_type == "image/jpg"@ {
        "jpg"@
    } else if content_type == "image/webp"@ {
        "webp"@
    } else {
        "png"@
    }
}

/// The extension for a cover image with the given declared content type.
pub fn cover_extension(content_type: &str) -> (r: &'static str)
    ensures
        r@ == spec_cover_extension(content_type@),
{
    if str_eq(content_type, "image/png") {
        "png"
    } else if str_eq(content_type, "image/jpeg") {
        "jpeg"
    } else if str_eq(content_type, "image/jpg") {
        "jpg"
    } else if str_eq(content_type, "image/webp") {
        "webp"
    } else {
        "png"
    }
}

/// The file name a downloaded cover is reported under.
pub fn cover_file_name(content_type: &str) -> (r: String)
    ensures
        r@ == "cover."@ + spec_cover_extension(content_type@),
{
    let mut r = "cover.".to_owned();
    r.append(cover_extension(content_type));
    r
}

/// The local path a downloaded cover is written to, inside the `covers`
/// directory; a newer download under the same extension overwrites an
/// older one.
pub fn cover_art_path(content_type: &str) -> (r: String)
    ensures
        r@ == "covers/cover."@ + spec_cover_extension(content_type@),
{
    let mut r = "covers/cover.".to_owned();
    r.append(cover_extension(content_type));
    r
}

} // verus!
