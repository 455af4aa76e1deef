use jellyfin_tui::entities::{DiscographySong, DiscographySongUserData};
use jellyfin_tui::grouping::group_by_album;

fn song(id: &str, album_id: &str, name: &str) -> DiscographySong {
    DiscographySong {
        album: String::new(),
        album_artist: String::new(),
        album_id: album_id.to_string(),
        artists: vec![],
        backdrop_image_tags: vec![],
        channel_id: None,
        date_created: String::new(),
        genres: vec![],
        has_lyrics: false,
        id: id.to_string(),
        is_folder: false,
        media_sources: vec![],
        media_type: String::new(),
        name: name.to_string(),
        normalization_gain: String::new(),
        parent_id: String::new(),
        parent_index_number: 0,
        premiere_date: String::new(),
        production_year: 0,
        run_time_ticks: 0,
        server_id: String::new(),
        user_data: DiscographySongUserData {
            playback_position_ticks: 0,
            play_count: 0,
            is_favorite: false,
            played: false,
            key: String::new(),
        },
    }
}

#[test]
fn groups_by_album_in_first_seen_order() {
    let songs = vec![
        song("1", "a", "s1"),
        song("2", "b", "s2"),
        song("3", "a", "s3"),
        song("4", "c", "s4"),
        song("5", "b", "s5"),
    ];
    let groups = group_by_album(songs);
    assert_eq!(groups.len(), 3);
    assert_eq!(groups[0].songs.iter().map(|s| s.id.as_str()).collect::<Vec<_>>(), vec!["1", "3"]);
    assert_eq!(groups[1].songs.iter().map(|s| s.id.as_str()).collect::<Vec<_>>(), vec!["2", "5"]);
    assert_eq!(groups[2].songs.iter().map(|s| s.id.as_str()).collect::<Vec<_>>(), vec!["4"]);
}

#[test]
fn flattening_the_groups_permutes_the_original() {
    let songs = vec![
        song("1", "x", "s1"),
        song("2", "y", "s2"),
        song("3", "x", "s3"),
        song("4", "z", "s4"),
        song("5", "y", "s5"),
        song("6", "x", "s6"),
    ];
    let original = songs.clone();
    let groups = group_by_album(songs);
    let mut flattened: Vec<DiscographySong> = Vec::new();
    for g in groups {
        flattened.extend(g.songs);
    }
    assert_eq!(flattened.len(), original.len());
    let mut flat_ids: Vec<String> = flattened.iter().map(|s| s.id.clone()).collect();
    let mut orig_ids: Vec<String> = original.iter().map(|s| s.id.clone()).collect();
    flat_ids.sort();
    orig_ids.sort();
    assert_eq!(flat_ids, orig_ids);
    // every grouped song equals the original one with its id, field for field
    for s in &flattened {
        let o = original.iter().find(|o| o.id == s.id).unwrap();
        assert_eq!(o, s);
    }
}

#[test]
fn each_group_keeps_the_original_internal_order() {
    let songs = vec![
        song("1", "a", "s1"),
        song("2", "a", "s2"),
        song("3", "b", "s3"),
        song("4", "a", "s4"),
    ];
    let groups = group_by_album(songs);
    let ids: Vec<&str> = groups[0].songs.iter().map(|s| s.id.as_str()).collect();
    assert_eq!(ids, vec!["1", "2", "4"]);
}

#[test]
fn grouping_an_empty_list_yields_no_groups() {
    assert!(group_by_album(vec![]).is_empty());
}

#[test]
fn one_album_yields_one_group() {
    let songs = vec![song("1", "a", "s1"), song("2", "a", "s2")];
    let groups = group_by_album(songs);
    assert_eq!(groups.len(), 1);
    assert_eq!(groups[0].songs.len(), 2);
}

#[test]
fn empty_album_ids_group_together() {
    let songs = vec![song("1", "", "s1"), song("2", "a", "s2"), song("3", "", "s3")];
    let groups = group_by_album(songs);
    assert_eq!(groups.len(), 2);
    assert_eq!(groups[0].songs.len(), 2);
    assert_eq!(groups[1].songs.len(), 1);
}
