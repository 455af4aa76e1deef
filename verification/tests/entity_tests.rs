use jellyfin_tui::entities::{
    decode_artist, decode_artists, decode_discography, decode_lyrics, decode_media_stream,
    decode_song,
};
use jellyfin_tui::json::JsonValue;

fn s(text: &str) -> JsonValue {
    JsonValue::Str(text.to_string())
}

fn full_song() -> JsonValue {
    JsonValue::Obj(vec![
        ("Album".to_string(), s("Cardan")),
        ("AlbumArtist".to_string(), s("Agar Agar")),
        ("AlbumId".to_string(), s("alb1")),
        (
            "Artists".to_string(),
            JsonValue::Arr(vec![s("Agar Agar")]),
        ),
        (
            "BackdropImageTags".to_string(),
            JsonValue::Arr(vec![s("tag1")]),
        ),
        ("ChannelId".to_string(), s("chan")),
        ("DateCreated".to_string(), s("2024-03-12T12:41:07Z")),
        (
            "Genres".to_string(),
            JsonValue::Arr(vec![s("Synthpop"), s("Electronic")]),
        ),
        ("HasLyrics".to_string(), JsonValue::Bool(true)),
        ("Id".to_string(), s("song1")),
        ("IsFolder".to_string(), JsonValue::Bool(false)),
        (
            "MediaSources".to_string(),
            JsonValue::Arr(vec![JsonValue::Obj(vec![
                ("Container".to_string(), s("mp3")),
                ("Size".to_string(), JsonValue::UInt(14487065)),
                (
                    "MediaStreams".to_string(),
                    JsonValue::Arr(vec![JsonValue::Obj(vec![
                        ("Codec".to_string(), s("mp3")),
                        ("BitRate".to_string(), JsonValue::UInt(320000)),
                        ("Channels".to_string(), JsonValue::UInt(2)),
                        ("SampleRate".to_string(), JsonValue::UInt(44100)),
                        ("Type".to_string(), s("Audio")),
                    ])]),
                ),
            ])]),
        ),
        ("MediaType".to_string(), s("Audio")),
        ("Name".to_string(), s("Cuidado")),
        ("NormalizationGain".to_string(), JsonValue::FNum("-10.45".to_string())),
        ("ParentId".to_string(), s("par1")),
        ("ParentIndexNumber".to_string(), JsonValue::UInt(1)),
        ("PremiereDate".to_string(), s("2016-01-01")),
        ("ProductionYear".to_string(), JsonValue::UInt(2016)),
        ("RunTimeTicks".to_string(), JsonValue::UInt(3600979590)),
        ("ServerId".to_string(), s("srv1")),
        (
            "UserData".to_string(),
            JsonValue::Obj(vec![
                ("PlaybackPositionTicks".to_string(), JsonValue::UInt(5)),
                ("PlayCount".to_string(), JsonValue::UInt(3)),
                ("IsFavorite".to_string(), JsonValue::Bool(true)),
                ("Played".to_string(), JsonValue::Bool(true)),
                ("Key".to_string(), s("key1")),
            ]),
        ),
    ])
}

#[test]
fn decodes_a_full_song() {
    let song = decode_song(&full_song());
    assert_eq!(song.album, "Cardan");
    assert_eq!(song.album_artist, "Agar Agar");
    assert_eq!(song.album_id, "alb1");
    assert_eq!(song.artists, vec!["Agar Agar".to_string()]);
    assert_eq!(song.backdrop_image_tags, vec!["tag1".to_string()]);
    assert_eq!(song.channel_id, Some("chan".to_string()));
    assert_eq!(song.date_created, "2024-03-12T12:41:07Z");
    assert_eq!(song.genres, vec!["Synthpop".to_string(), "Electronic".to_string()]);
    assert!(song.has_lyrics);
    assert_eq!(song.id, "song1");
    assert!(!song.is_folder);
    assert_eq!(song.media_sources.len(), 1);
    assert_eq!(song.media_sources[0].container, "mp3");
    assert_eq!(song.media_sources[0].size, 14487065);
    assert_eq!(song.media_sources[0].media_streams.len(), 1);
    assert_eq!(song.media_sources[0].media_streams[0].codec, "mp3");
    assert_eq!(song.media_type, "Audio");
    assert_eq!(song.name, "Cuidado");
    assert_eq!(song.normalization_gain, "-10.45");
    assert_eq!(song.parent_id, "par1");
    assert_eq!(song.parent_index_number, 1);
    assert_eq!(song.premiere_date, "2016-01-01");
    assert_eq!(song.production_year, 2016);
    assert_eq!(song.run_time_ticks, 3600979590);
    assert_eq!(song.server_id, "srv1");
    assert_eq!(song.user_data.playback_position_ticks, 5);
    assert_eq!(song.user_data.play_count, 3);
    assert!(song.user_data.is_favorite);
    assert!(song.user_data.played);
    assert_eq!(song.user_data.key, "key1");
}

#[test]
fn empty_song_payload_decodes_to_zero_values() {
    let song = decode_song(&JsonValue::Obj(vec![]));
    assert_eq!(song.album, "");
    assert_eq!(song.album_artist, "");
    assert_eq!(song.album_id, "");
    assert_eq!(song.artists, Vec::<String>::new());
    assert_eq!(song.backdrop_image_tags, Vec::<String>::new());
    assert_eq!(song.channel_id, None);
    assert_eq!(song.date_created, "");
    assert_eq!(song.genres, Vec::<String>::new());
    assert!(!song.has_lyrics);
    assert_eq!(song.id, "");
    assert!(!song.is_folder);
    assert!(song.media_sources.is_empty());
    assert_eq!(song.media_type, "");
    assert_eq!(song.name, "");
    assert_eq!(song.normalization_gain, "");
    assert_eq!(song.parent_id, "");
    assert_eq!(song.parent_index_number, 0);
    assert_eq!(song.premiere_date, "");
    assert_eq!(song.production_year, 0);
    assert_eq!(song.run_time_ticks, 0);
    assert_eq!(song.server_id, "");
    assert_eq!(song.user_data.playback_position_ticks, 0);
    assert_eq!(song.user_data.play_count, 0);
    assert!(!song.user_data.is_favorite);
    assert!(!song.user_data.played);
    assert_eq!(song.user_data.key, "");
}

#[test]
fn whole_number_gain_renders_in_decimal() {
    let v = JsonValue::Obj(vec![(
        "NormalizationGain".to_string(),
        JsonValue::UInt(3),
    )]);
    assert_eq!(decode_song(&v).normalization_gain, "3");
}

#[test]
fn empty_artist_payload_decodes_to_zero_values() {
    let artist = decode_artist(&JsonValue::Obj(vec![]));
    assert_eq!(artist.name, "");
    assert_eq!(artist.id, "");
    assert_eq!(artist.sort_name, "");
    assert_eq!(artist.run_time_ticks, 0);
    assert_eq!(artist.type_, "");
    assert_eq!(artist.user_data.key, "");
    assert_eq!(artist.image_tags, JsonValue::Null);
    assert_eq!(artist.image_blur_hashes, JsonValue::Null);
    assert_eq!(artist.location_type, "");
    assert_eq!(artist.media_type, "");
}

#[test]
fn decodes_an_artist() {
    let v = JsonValue::Obj(vec![
        ("Name".to_string(), s("Flam")),
        ("Id".to_string(), s("a9b0")),
        ("SortName".to_string(), s("flam")),
        ("RunTimeTicks".to_string(), JsonValue::UInt(4505260770)),
        ("Type".to_string(), s("MusicArtist")),
        (
            "UserData".to_string(),
            JsonValue::Obj(vec![("Key".to_string(), s("Artist-1"))]),
        ),
        ("ImageTags".to_string(), JsonValue::Obj(vec![])),
        ("LocationType".to_string(), s("FileSystem")),
        ("MediaType".to_string(), s("Unknown")),
    ]);
    let artist = decode_artist(&v);
    assert_eq!(artist.name, "Flam");
    assert_eq!(artist.id, "a9b0");
    assert_eq!(artist.sort_name, "flam");
    assert_eq!(artist.run_time_ticks, 4505260770);
    assert_eq!(artist.type_, "MusicArtist");
    assert_eq!(artist.user_data.key, "Artist-1");
    assert_eq!(artist.image_tags, JsonValue::Obj(vec![]));
    assert_eq!(artist.location_type, "FileSystem");
    assert_eq!(artist.media_type, "Unknown");
}

#[test]
fn decodes_an_artists_envelope() {
    let v = JsonValue::Obj(vec![
        (
            "Items".to_string(),
            JsonValue::Arr(vec![
                JsonValue::Obj(vec![("Name".to_string(), s("A"))]),
                JsonValue::Obj(vec![("Name".to_string(), s("B"))]),
            ]),
        ),
        ("StartIndex".to_string(), JsonValue::UInt(0)),
        ("TotalRecordCount".to_string(), JsonValue::UInt(2)),
    ]);
    let artists = decode_artists(&v);
    assert_eq!(artists.items.len(), 2);
    assert_eq!(artists.items[0].name, "A");
    assert_eq!(artists.items[1].name, "B");
    assert_eq!(artists.start_index, 0);
    assert_eq!(artists.total_record_count, 2);
}

#[test]
fn decodes_a_discography_envelope() {
    let v = JsonValue::Obj(vec![(
        "Items".to_string(),
        JsonValue::Arr(vec![full_song()]),
    )]);
    let d = decode_discography(&v);
    assert_eq!(d.items.len(), 1);
    assert_eq!(d.items[0].name, "Cuidado");
}

#[test]
fn decodes_a_media_stream_with_defaults() {
    let stream = decode_media_stream(&JsonValue::Obj(vec![]));
    assert_eq!(stream.codec, "");
    assert_eq!(stream.bit_rate, 0);
    assert_eq!(stream.channels, 0);
    assert_eq!(stream.sample_rate, 0);
    assert_eq!(stream.type_, "");
}

#[test]
fn lyrics_preserve_line_order() {
    let v = JsonValue::Obj(vec![
        ("Metadata".to_string(), JsonValue::Obj(vec![])),
        (
            "Lyrics".to_string(),
            JsonValue::Arr(vec![
                JsonValue::Obj(vec![("Text".to_string(), s("first"))]),
                JsonValue::Obj(vec![("Text".to_string(), s("second"))]),
                JsonValue::Obj(vec![("Text".to_string(), s("third"))]),
            ]),
        ),
    ]);
    let lyrics = decode_lyrics(&v);
    assert_eq!(lyrics.lyrics.len(), 3);
    assert_eq!(lyrics.lyrics[0].text, "first");
    assert_eq!(lyrics.lyrics[1].text, "second");
    assert_eq!(lyrics.lyrics[2].text, "third");
}

#[test]
fn lyrics_decode_from_empty_payload() {
    let lyrics = decode_lyrics(&JsonValue::Obj(vec![]));
    assert!(lyrics.lyrics.is_empty());
    assert_eq!(lyrics.metadata, JsonValue::Null);
}
