//! The domain entities and their decoder.
//!
//! Every entity decodes from a [`JsonValue`] payload totally: a field the
//! payload lacks, or carries with an unexpected type, reads as the zero
//! value of the entity's field (empty string, zero, `false`, empty list),
//! never as an error. Each entity has a ghost view (`...View`) over which
//! the decoder's contracts are stated; `spec_...` gives the decoded view
//! of a payload.

use crate::json::{
    arr_field, field, get_bool, get_json, get_num_text, get_opt_str, get_str, get_str_list,
    get_u64, spec_arr_field, spec_bool_field, spec_field, spec_field_or_null, spec_num_text_field,
    spec_opt_str_field, spec_str_field, spec_str_list_field, spec_u64_field, JsonVal, JsonValue,
};
use vstd::prelude::*;

verus! {

/// The sign-in credentials, as the authentication payload carries them.
#[derive(Debug, Clone, PartialEq)]
pub struct Credentials {
    pub username: String,
    pub password: String,
}

/// Play-state bookkeeping attached to an artist.
#[derive(Debug, Clone, PartialEq)]
pub struct UserData {
    pub playback_position_ticks: u64,
    pub play_count: u64,
    pub is_favorite: bool,
    pub played: bool,
    pub key: String,
}

#[verifier::ext_equal]
pub ghost struct UserDataView {
    pub playback_position_ticks: u64,
    pub play_count: u64,
    pub is_favorite: bool,
    pub played: bool,
    pub key: Seq<char>,
}

impl View for UserData {
    type V = UserDataView;

    open spec fn view(&self) -> UserDataView {
        UserDataView {
            playback_position_ticks: self.playback_position_ticks,
            play_count: self.play_count,
            is_favorite: self.is_favorite,
            played: self.played,
            key: self.key@,
        }
    }
}

/// The view a payload decodes to as user data.
pub open spec fn spec_user_data(v: JsonVal) -> UserDataView {
    UserDataView {
        playback_position_ticks: spec_u64_field(v, "PlaybackPositionTicks"@),
        play_count: spec_u64_field(v, "PlayCount"@),
        is_favorite: spec_bool_field(v, "IsFavorite"@),
        played: spec_bool_field(v, "Played"@),
        key: spec_str_field(v, "Key"@),
    }
}

/// Decodes user data from its own payload object.
pub fn decode_user_data(v: &JsonValue) -> (r: UserData)
    ensures
        r@ == spec_user_data(v@),
{
    UserData {
        playback_position_ticks: get_u64(v, "PlaybackPositionTicks"),
        play_count: get_u64(v, "PlayCount"),
        is_favorite: get_bool(v, "IsFavorite"),
        played: get_bool(v, "Played"),
        key: get_str(v, "Key"),
    }
}

/// Decodes the user data under `key` of `v`; an absent field decodes
/// as an all-zero value, like any other.
pub fn decode_user_data_field(v: &JsonValue, key: &str) -> (r: UserData)
    ensures
        r@ == spec_user_data(spec_field_or_null(v@, key@)),
{
    match field(v, key) {
        Some(u) => decode_user_data(u),
        None => UserData {
            playback_position_ticks: 0,
            play_count: 0,
            is_favorite: false,
            played: false,
            key: String::new(),
        },
    }
}

/// One logical channel within a media source: audio, an embedded image,
/// lyric text, and so on, told apart by `type_`.
#[derive(Debug, Clone, PartialEq)]
pub struct MediaStream {
    pub codec: String,
    pub bit_rate: u64,
    pub channels: u64,
    pub sample_rate: u64,
    pub type_: String,
}

#[verifier::ext_equal]
pub ghost struct MediaStreamView {
    pub codec: Seq<char>,
    pub bit_rate: u64,
    pub channels: u64,
    pub sample_rate: u64,
    pub type_: Seq<char>,
}

impl View for MediaStream {
    type V = MediaStreamView;

    open spec fn view(&self) -> MediaStreamView {
        MediaStreamView {
            codec: self.codec@,
            bit_rate: self.bit_rate,
            channels: self.channels,
            sample_rate: self.sample_rate,
            type_: self.type_@,
        }
    }
}

/// The view a payload decodes to as a media stream.
pub open spec fn spec_media_stream(v: JsonVal) -> MediaStreamView {
    MediaStreamView {
        codec: spec_str_field(v, "Codec"@),
        bit_rate: spec_u64_field(v, "BitRate"@),
        channels: spec_u64_field(v, "Channels"@),
        sample_rate: spec_u64_field(v, "SampleRate"@),
        type_: spec_str_field(v, "Type"@),
    }
}

/// Decodes one media stream.
pub fn decode_media_stream(v: &JsonValue) -> (r: MediaStream)
    ensures
        r@ == spec_media_stream(v@),
{
    MediaStream {
        codec: get_str(v, "Codec"),
        bit_rate: get_u64(v, "BitRate"),
        channels: get_u64(v, "Channels"),
        sample_rate: get_u64(v, "SampleRate"),
        type_: get_str(v, "Type"),
    }
}

/// One physical representation of a track, with its logical streams.
#[derive(Debug, Clone, PartialEq)]
pub struct MediaSource {
    pub container: String,
    pub size: u64,
    pub media_streams: Vec<MediaStream>,
}

#[verifier::ext_equal]
pub ghost struct MediaSourceView {
    pub container: Seq<char>,
    pub size: u64,
    pub media_streams: Seq<MediaStreamView>,
}

impl View for MediaSource {
    type V = MediaSourceView;

    open spec fn view(&self) -> MediaSourceView {
        MediaSourceView {
            container: self.container@,
            size: self.size,
            media_streams: self.media_streams@.map_values(|m: MediaStream| m@),
        }
    }
}

/// The view a payload decodes to as a media source.
pub open spec fn spec_media_source(v: JsonVal) -> MediaSourceView {
    MediaSourceView {
        container: spec_str_field(v, "Container"@),
        size: spec_u64_field(v, "Size"@),
        media_streams: spec_arr_field(v, "MediaStreams"@).map_values(
            |e: JsonVal| spec_media_stream(e),
        ),
    }
}

/// Decodes one media source and the streams inside it.
#[verifier::loop_isolation(false)]
pub fn decode_media_source(v: &JsonValue) -> (r: MediaSource)
    ensures
        r@ == spec_media_source(v@),
{
    let mut streams: Vec<MediaStream> = Vec::new();
    match arr_field(v, "MediaStreams") {
        Some(xs) => {
            let n = xs.len();
            for i in 0..n
                invariant
                    streams@.len() == i,
                    forall|j: int|
                        0 <= j < i ==> streams@[j]@ == spec_media_stream(
                            spec_arr_field(v@, "MediaStreams"@)[j],
                        ),
            {
                streams.push(decode_media_stream(&xs[i]));
            }
        },
        None => {},
    }
    let r = MediaSource {
        container: get_str(v, "Container"),
        size: get_u64(v, "Size"),
        media_streams: streams,
    };
    assert(r@.media_streams =~= spec_media_source(v@).media_streams);
    r
}

/// Decodes the media sources listed under `MediaSources` of an item payload.
#[verifier::loop_isolation(false)]
pub fn decode_media_sources(v: &JsonValue) -> (r: Vec<MediaSource>)
    ensures
        r@.map_values(|m: MediaSource| m@) == spec_arr_field(v@, "MediaSources"@).map_values(
            |e: JsonVal| spec_media_source(e),
        ),
{
    let mut out: Vec<MediaSource> = Vec::new();
    match arr_field(v, "MediaSources") {
        Some(xs) => {
            let n = xs.len();
            for i in 0..n
                invariant
                    out@.len() == i,
                    forall|j: int|
                        0 <= j < i ==> out@[j]@ == spec_media_source(
                            spec_arr_field(v@, "MediaSources"@)[j],
                        ),
            {
                out.push(decode_media_source(&xs[i]));
            }
        },
        None => {},
    }
    assert(out@.map_values(|m: MediaSource| m@) =~= spec_arr_field(v@, "MediaSources"@).map_values(
        |e: JsonVal| spec_media_source(e),
    ));
    out
}

/// One artist of the server's catalog. Identity is `id`; the image maps
/// are carried opaquely for consumers that render them.
#[derive(Debug, Clone, PartialEq)]
pub struct Artist {
    pub name: String,
    pub id: String,
    pub sort_name: String,
    pub run_time_ticks: u64,
    pub type_: String,
    pub user_data: UserData,
    pub image_tags: JsonValue,
    pub image_blur_hashes: JsonValue,
    pub location_type: String,
    pub media_type: String,
}

#[verifier::ext_equal]
pub ghost struct ArtistView {
    pub name: Seq<char>,
    pub id: Seq<char>,
    pub sort_name: Seq<char>,
    pub run_time_ticks: u64,
    pub type_: Seq<char>,
    pub user_data: UserDataView,
    pub image_tags: JsonVal,
    pub image_blur_hashes: JsonVal,
    pub location_type: Seq<char>,
    pub media_type: Seq<char>,
}

impl View for Artist {
    type V = ArtistView;

    open spec fn view(&self) -> ArtistView {
        ArtistView {
            name: self.name@,
            id: self.id@,
            sort_name: self.sort_name@,
            run_time_ticks: self.run_time_ticks,
            type_: self.type_@,
            user_data: self.user_data@,
            image_tags: self.image_tags@,
            image_blur_hashes: self.image_blur_hashes@,
            location_type: self.location_type@,
            media_type: self.media_type@,
        }
    }
}

/// The view a payload decodes to as an artist.
pub open spec fn spec_artist(v: JsonVal) -> ArtistView {
    ArtistView {
        name: spec_str_field(v, "Name"@),
        id: spec_str_field(v, "Id"@),
        sort_name: spec_str_field(v, "SortName"@),
        run_time_ticks: spec_u64_field(v, "RunTimeTicks"@),
        type_: spec_str_field(v, "Type"@),
        user_data: spec_user_data(spec_field_or_null(v, "UserData"@)),
        image_tags: spec_field_or_null(v, "ImageTags"@),
        image_blur_hashes: spec_field_or_null(v, "ImageBlurHashes"@),
        location_type: spec_str_field(v, "LocationType"@),
        media_type: spec_str_field(v, "MediaType"@),
    }
}

/// Decodes one artist.
pub fn decode_artist(v: &JsonValue) -> (r: Artist)
    ensures
        r@ == spec_artist(v@),
{
    Artist {
        name: get_str(v, "Name"),
        id: get_str(v, "Id"),
        sort_name: get_str(v, "SortName"),
        run_time_ticks: get_u64(v, "RunTimeTicks"),
        type_: get_str(v, "Type"),
        user_data: decode_user_data_field(v, "UserData"),
        image_tags: get_json(v, "ImageTags"),
        image_blur_hashes: get_json(v, "ImageBlurHashes"),
        location_type: get_str(v, "LocationType"),
        media_type: get_str(v, "MediaType"),
    }
}

/// The envelope around a queried artist list.
#[derive(Debug, Clone, PartialEq)]
pub struct Artists {
    pub items: Vec<Artist>,
    pub start_index: u64,
    pub total_record_count: u64,
}

#[verifier::ext_equal]
pub ghost struct ArtistsView {
    pub items: Seq<ArtistView>,
    pub start_index: u64,
    pub total_record_count: u64,
}

impl View for Artists {
    type V = ArtistsView;

    open spec fn view(&self) -> ArtistsView {
        ArtistsView {
            items: self.items@.map_values(|a: Artist| a@),
            start_index: self.start_index,
            total_record_count: self.total_record_count,
        }
    }
}

/// The view a payload decodes to as an artist-list envelope.
pub open spec fn spec_artists(v: JsonVal) -> ArtistsView {
    ArtistsView {
        items: spec_arr_field(v, "Items"@).map_values(|e: JsonVal| spec_artist(e)),
        start_index: spec_u64_field(v, "StartIndex"@),
        total_record_count: spec_u64_field(v, "TotalRecordCount"@),
    }
}

/// Decodes an artist-list envelope.
#[verifier::loop_isolation(false)]
pub fn decode_artists(v: &JsonValue) -> (r: Artists)
    ensures
        r@ == spec_artists(v@),
{
    let mut items: Vec<Artist> = Vec::new();
    match arr_field(v, "Items") {
        Some(xs) => {
            let n = xs.len();
            for i in 0..n
                invariant
                    items@.len() == i,
                    forall|j: int|
                        0 <= j < i ==> items@[j]@ == spec_artist(spec_arr_field(v@, "Items"@)[j]),
            {
                items.push(decode_artist(&xs[i]));
            }
        },
        None => {},
    }
    let r = Artists {
        items,
        start_index: get_u64(v, "StartIndex"),
        total_record_count: get_u64(v, "TotalRecordCount"),
    };
    assert(r@.items =~= spec_artists(v@).items);
    r
}

/// Play-state bookkeeping attached to a track.
#[derive(Debug, Clone, PartialEq)]
pub struct DiscographySongUserData {
    pub playback_position_ticks: u64,
    pub play_count: u64,
    pub is_favorite: bool,
    pub played: bool,
    pub key: String,
}

#[verifier::ext_equal]
pub ghost struct DiscographySongUserDataView {
    pub playback_position_ticks: u64,
    pub play_count: u64,
    pub is_favorite: bool,
    pub played: bool,
    pub key: Seq<char>,
}

impl View for DiscographySongUserData {
    type V = DiscographySongUserDataView;

    open spec fn view(&self) -> DiscographySongUserDataView {
        DiscographySongUserDataView {
            playback_position_ticks: self.playback_position_ticks,
            play_count: self.play_count,
            is_favorite: self.is_favorite,
            played: self.played,
            key: self.key@,
        }
    }
}

/// The view a payload decodes to as a track's user data.
pub open spec fn spec_song_user_data(v: JsonVal) -> DiscographySongUserDataView {
    DiscographySongUserDataView {
        playback_position_ticks: spec_u64_field(v, "PlaybackPositionTicks"@),
        play_count: spec_u64_field(v, "PlayCount"@),
        is_favorite: spec_bool_field(v, "IsFavorite"@),
        played: spec_bool_field(v, "Played"@),
        key: spec_str_field(v, "Key"@),
    }
}

/// Decodes the track user data under `key` of a song payload.
pub fn decode_song_user_data_field(v: &JsonValue, key: &str) -> (r: DiscographySongUserData)
    ensures
        r@ == spec_song_user_data(spec_field_or_null(v@, key@)),
{
    let inner = match field(v, key) {
        Some(u) => DiscographySongUserData {
            playback_position_ticks: get_u64(u, "PlaybackPositionTicks"),
            play_count: get_u64(u, "PlayCount"),
            is_favorite: get_bool(u, "IsFavorite"),
            played: get_bool(u, "Played"),
            key: get_str(u, "Key"),
        },
        None => DiscographySongUserData {
            playback_position_ticks: 0,
            play_count: 0,
            is_favorite: false,
            played: false,
            key: String::new(),
        },
    };
    inner
}

/// One track of an artist's discography. Album nesting is not stored here:
/// grouping by `album_id` is a derived view.
///
/// `normalization_gain` is carried textually, as the server wrote the
/// number; this crate never computes with it.
#[derive(Debug, Clone, PartialEq)]
pub struct DiscographySong {
    pub album: String,
    pub album_artist: String,
    pub album_id: String,
    pub artists: Vec<String>,
    pub backdrop_image_tags: Vec<String>,
    pub channel_id: Option<String>,
    pub date_created: String,
    pub genres: Vec<String>,
    pub has_lyrics: bool,
    pub id: String,
    pub is_folder: bool,
    pub media_sources: Vec<MediaSource>,
    pub media_type: String,
    pub name: String,
    pub normalization_gain: String,
    pub parent_id: String,
    pub parent_index_number: u64,
    pub premiere_date: String,
    pub production_year: u64,
    pub run_time_ticks: u64,
    pub server_id: String,
    pub user_data: DiscographySongUserData,
}

#[verifier::ext_equal]
pub ghost struct DiscographySongView {
    pub album: Seq<char>,
    pub album_artist: Seq<char>,
    pub album_id: Seq<char>,
    pub artists: Seq<Seq<char>>,
    pub backdrop_image_tags: Seq<Seq<char>>,
    pub channel_id: Option<Seq<char>>,
    pub date_created: Seq<char>,
    pub genres: Seq<Seq<char>>,
    pub has_lyrics: bool,
    pub id: Seq<char>,
    pub is_folder: bool,
    pub media_sources: Seq<MediaSourceView>,
    pub media_type: Seq<char>,
    pub name: Seq<char>,
    pub normalization_gain: Seq<char>,
    pub parent_id: Seq<char>,
    pub parent_index_number: u64,
    pub premiere_date: Seq<char>,
    pub production_year: u64,
    pub run_time_ticks: u64,
    pub server_id: Seq<char>,
    pub user_data: DiscographySongUserDataView,
}

impl View for DiscographySong {
    type V = DiscographySongView;

    open spec fn view(&self) -> DiscographySongView {
        DiscographySongView {
            album: self.album@,
            album_artist: self.album_artist@,
            album_id: self.album_id@,
            artists: self.artists.deep_view(),
            backdrop_image_tags: self.backdrop_image_tags.deep_view(),
            channel_id: self.channel_id.deep_view(),
            date_created: self.date_created@,
            genres: self.genres.deep_view(),
            has_lyrics: self.has_lyrics,
            id: self.id@,
            is_folder: self.is_folder,
            media_sources: self.media_sources@.map_values(|m: MediaSource| m@),
            media_type: self.media_type@,
            name: self.name@,
            normalization_gain: self.normalization_gain@,
            parent_id: self.parent_id@,
            parent_index_number: self.parent_index_number,
            premiere_date: self.premiere_date@,
            production_year: self.production_year,
            run_time_ticks: self.run_time_ticks,
            server_id: self.server_id@,
            user_data: self.user_data@,
        }
    }
}

/// The view a payload decodes to as a track.
pub open spec fn spec_song(v: JsonVal) -> DiscographySongView {
    DiscographySongView {
        album: spec_str_field(v, "Album"@),
        album_artist: spec_str_field(v, "AlbumArtist"@),
        album_id: spec_str_field(v, "AlbumId"@),
        artists: spec_str_list_field(v, "Artists"@),
        backdrop_image_tags: spec_str_list_field(v, "BackdropImageTags"@),
        channel_id: spec_opt_str_field(v, "ChannelId"@),
        date_created: spec_str_field(v, "DateCreated"@),
        genres: spec_str_list_field(v, "Genres"@),
        has_lyrics: spec_bool_field(v, "HasLyrics"@),
        id: spec_str_field(v, "Id"@),
        is_folder: spec_bool_field(v, "IsFolder"@),
        media_sources: spec_arr_field(v, "MediaSources"@).map_values(
            |e: JsonVal| spec_media_source(e),
        ),
        media_type: spec_str_field(v, "MediaType"@),
        name: spec_str_field(v, "Name"@),
        normalization_gain: spec_num_text_field(v, "NormalizationGain"@),
        parent_id: spec_str_field(v, "ParentId"@),
        parent_index_number: spec_u64_field(v, "ParentIndexNumber"@),
        premiere_date: spec_str_field(v, "PremiereDate"@),
        production_year: spec_u64_field(v, "ProductionYear"@),
        run_time_ticks: spec_u64_field(v, "RunTimeTicks"@),
        server_id: spec_str_field(v, "ServerId"@),
        user_data: spec_song_user_data(spec_field_or_null(v, "UserData"@)),
    }
}

/// Decodes one track.
pub fn decode_song(v: &JsonValue) -> (r: DiscographySong)
    ensures
        r@ == spec_song(v@),
{
    let r = DiscographySong {
        album: get_str(v, "Album"),
        album_artist: get_str(v, "AlbumArtist"),
        album_id: get_str(v, "AlbumId"),
        artists: get_str_list(v, "Artists"),
        backdrop_image_tags: get_str_list(v, "BackdropImageTags"),
        channel_id: get_opt_str(v, "ChannelId"),
        date_created: get_str(v, "DateCreated"),
        genres: get_str_list(v, "Genres"),
        has_lyrics: get_bool(v, "HasLyrics"),
        id: get_str(v, "Id"),
        is_folder: get_bool(v, "IsFolder"),
        media_sources: decode_media_sources(v),
        media_type: get_str(v, "MediaType"),
        name: get_str(v, "Name"),
        normalization_gain: get_num_text(v, "NormalizationGain"),
        parent_id: get_str(v, "ParentId"),
        parent_index_number: get_u64(v, "ParentIndexNumber"),
        premiere_date: get_str(v, "PremiereDate"),
        production_year: get_u64(v, "ProductionYear"),
        run_time_ticks: get_u64(v, "RunTimeTicks"),
        server_id: get_str(v, "ServerId"),
        user_data: decode_song_user_data_field(v, "UserData"),
    };
    assert(r@ =~= spec_song(v@));
    r
}

/// The zero track: every field at its type's zero value.
pub open spec fn spec_default_song() -> DiscographySongView {
    DiscographySongView {
        album: Seq::empty(),
        album_artist: Seq::empty(),
        album_id: Seq::empty(),
        artists: Seq::empty(),
        backdrop_image_tags: Seq::empty(),
        channel_id: None,
        date_created: Seq::empty(),
        genres: Seq::empty(),
        has_lyrics: false,
        id: Seq::empty(),
        is_folder: false,
        media_sources: Seq::empty(),
        media_type: Seq::empty(),
        name: Seq::empty(),
        normalization_gain: Seq::empty(),
        parent_id: Seq::empty(),
        parent_index_number: 0,
        premiere_date: Seq::empty(),
        production_year: 0,
        run_time_ticks: 0,
        server_id: Seq::empty(),
        user_data: DiscographySongUserDataView {
            playback_position_ticks: 0,
            play_count: 0,
            is_favorite: false,
            played: false,
            key: Seq::empty(),
        },
    }
}

/// The zero artist: every field at its type's zero value, the opaque
/// image maps null.
pub open spec fn spec_default_artist() -> ArtistView {
    ArtistView {
        name: Seq::empty(),
        id: Seq::empty(),
        sort_name: Seq::empty(),
        run_time_ticks: 0,
        type_: Seq::empty(),
        user_data: UserDataView {
            playback_position_ticks: 0,
            play_count: 0,
            is_favorite: false,
            played: false,
            key: Seq::empty(),
        },
        image_tags: JsonVal::Null,
        image_blur_hashes: JsonVal::Null,
        location_type: Seq::empty(),
        media_type: Seq::empty(),
    }
}

/// Law: a payload carrying none of an entity's fields — an empty object,
/// a null, anything without them — decodes to the zero values throughout.
/// The decoder never fails on absent fields.
pub proof fn lemma_decode_defaults(v: JsonVal)
    requires
        forall|key: Seq<char>| spec_field(v, key) is None,
    ensures
        spec_song(v) == spec_default_song(),
        spec_artist(v) == spec_default_artist(),
{
    assert(spec_str_list_field(v, "Artists"@) =~= Seq::<Seq<char>>::empty());
    assert(spec_str_list_field(v, "BackdropImageTags"@) =~= Seq::<Seq<char>>::empty());
    assert(spec_str_list_field(v, "Genres"@) =~= Seq::<Seq<char>>::empty());
    assert(spec_arr_field(v, "MediaSources"@).map_values(|e: JsonVal| spec_media_source(e))
        =~= Seq::<MediaSourceView>::empty());
    assert(spec_song(v) =~= spec_default_song());
    assert(spec_artist(v) =~= spec_default_artist());
}

/// The flat track list the discography query returns for one artist.
#[derive(Debug, Clone, PartialEq)]
pub struct Discography {
    pub items: Vec<DiscographySong>,
}

#[verifier::ext_equal]
pub ghost struct DiscographyView {
    pub items: Seq<DiscographySongView>,
}

impl View for Discography {
    type V = DiscographyView;

    open spec fn view(&self) -> DiscographyView {
        DiscographyView { items: self.items@.map_values(|s: DiscographySong| s@) }
    }
}

/// The view a payload decodes to as a discography envelope.
pub open spec fn spec_discography(v: JsonVal) -> DiscographyView {
    DiscographyView { items: spec_arr_field(v, "Items"@).map_values(|e: JsonVal| spec_song(e)) }
}

/// Decodes a discography envelope.
#[verifier::loop_isolation(false)]
pub fn decode_discography(v: &JsonValue) -> (r: Discography)
    ensures
        r@ == spec_discography(v@),
{
    let mut items: Vec<DiscographySong> = Vec::new();
    match arr_field(v, "Items") {
        Some(xs) => {
            let n = xs.len();
            for i in 0..n
                invariant
                    items@.len() == i,
                    forall|j: int|
                        0 <= j < i ==> items@[j]@ == spec_song(spec_arr_field(v@, "Items"@)[j]),
            {
                items.push(decode_song(&xs[i]));
            }
        },
        None => {},
    }
    let r = Discography { items };
    assert(r@.items =~= spec_discography(v@).items);
    r
}

/// The tracks of one album, in the order the discography listed them.
#[derive(Debug, Clone, PartialEq)]
pub struct DiscographyAlbum {
    pub songs: Vec<DiscographySong>,
}

/// One line of a track's lyrics.
#[derive(Debug, Clone, PartialEq)]
pub struct Lyric {
    pub text: String,
}

#[verifier::ext_equal]
pub ghost struct LyricView {
    pub text: Seq<char>,
}

impl View for Lyric {
    type V = LyricView;

    open spec fn view(&self) -> LyricView {
        LyricView { text: self.text@ }
    }
}

/// The view a payload decodes to as one lyric line.
pub open spec fn spec_lyric(v: JsonVal) -> LyricView {
    LyricView { text: spec_str_field(v, "Text"@) }
}

/// A track's lyrics: an ordered sequence of lines, order preserved.
#[derive(Debug, Clone, PartialEq)]
pub struct Lyrics {
    pub metadata: JsonValue,
    pub lyrics: Vec<Lyric>,
}

#[verifier::ext_equal]
pub ghost struct LyricsView {
    pub metadata: JsonVal,
    pub lyrics: Seq<LyricView>,
}

impl View for Lyrics {
    type V = LyricsView;

    open spec fn view(&self) -> LyricsView {
        LyricsView {
            metadata: self.metadata@,
            lyrics: self.lyrics@.map_values(|l: Lyric| l@),
        }
    }
}

/// The view a payload decodes to as a lyrics resource.
pub open spec fn spec_lyrics(v: JsonVal) -> LyricsView {
    LyricsView {
        metadata: spec_field_or_null(v, "Metadata"@),
        lyrics: spec_arr_field(v, "Lyrics"@).map_values(|e: JsonVal| spec_lyric(e)),
    }
}

/// Decodes a lyrics resource.
#[verifier::loop_isolation(false)]
pub fn decode_lyrics(v: &JsonValue) -> (r: Lyrics)
    ensures
        r@ == spec_lyrics(v@),
{
    let mut lines: Vec<Lyric> = Vec::new();
    match arr_field(v, "Lyrics") {
        Some(xs) => {
            let n = xs.len();
            for i in 0..n
                invariant
                    lines@.len() == i,
                    forall|j: int|
                        0 <= j < i ==> lines@[j]@ == spec_lyric(spec_arr_field(v@, "Lyrics"@)[j]),
            {
                lines.push(Lyric { text: get_str(&xs[i], "Text") });
            }
        },
        None => {},
    }
    let r = Lyrics { metadata: get_json(v, "Metadata"), lyrics: lines };
    assert(r@.lyrics =~= spec_lyrics(v@).lyrics);
    r
}

} // verus!
