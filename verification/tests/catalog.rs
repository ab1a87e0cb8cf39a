use mplayer_client::catalog::{find_track, parse_query, CatalogError, Musics};
use mplayer_client::fuzzy_search::{
    fuzzy_search_music_artist_best_n, fuzzy_search_music_duration_best_n,
    fuzzy_search_music_titles_best_n, fuzzy_search_music_titles_sorted,
    fuzzy_search_musics_by_title, Criterion, Score,
};
use mplayer_client::parser::{Config, Sorting};
use mplayer_client::track::{Length, Music};

fn track(title: &str, artist: &str, secs: u64) -> Music {
    Music::new(
        title.to_string(),
        format!("/music/{title}.mp3"),
        Length::from_secs(secs),
        artist.to_string(),
        "Genre".to_string(),
    )
}

fn titles(list: &[Music]) -> Vec<&str> {
    list.iter().map(|m| m.title.as_str()).collect()
}

fn sample() -> Vec<Music> {
    vec![
        track("Hilo", "Ana", 150),
        track("alpha", "Bob", 95),
        track("Zulu", "Ana", 150),
        track("Beta", "Cid", 30),
        track("Hilos", "Bob", 600),
    ]
}

fn numbered(n: usize) -> Vec<Music> {
    (0..n).map(|i| track(&format!("Track {i:02}"), "Band", 100 + i as u64)).collect()
}

#[test]
fn test_search() {
    let mut musics = Musics::new(sample());
    musics.search("Hilo".to_string());
    assert_eq!(titles(&musics.que), vec!["Hilo", "Hilos", "alpha", "Zulu", "Beta"]);
    assert_eq!(titles(&musics.full_que), vec!["Hilo", "alpha", "Zulu", "Beta", "Hilos"]);
}

#[test]
fn test_que() {
    let config = Config { path: None, sorting: Some(Sorting::ByTitleAscending), repeat: None };
    let mut musics = Musics::new(sample());
    musics.sort(config.sorting);
    assert!(musics.que == musics.full_que);
}

#[test]
fn sort_musics() {
    let config = Config { path: None, sorting: None, repeat: None };
    let mut musics = Musics::new(sample());
    musics.sort(config.sorting);
    assert_eq!(titles(&musics.full_que), vec!["Hilo", "alpha", "Zulu", "Beta", "Hilos"]);
    assert!(musics.que == musics.full_que);
}

#[test]
fn a_new_catalog_shows_everything_and_plays_nothing() {
    let musics = Musics::new(sample());
    assert!(musics.que == musics.full_que);
    assert_eq!(musics.que.len(), 5);
    assert_eq!(musics.selected, 0);
    assert_eq!(musics.playing_index, None);
}

#[test]
fn sorting_by_title_is_case_sensitive_and_by_byte() {
    let mut musics = Musics::new(sample());
    musics.sort(Some(Sorting::ByTitleAscending));
    assert_eq!(titles(&musics.full_que), vec!["Beta", "Hilo", "Hilos", "Zulu", "alpha"]);
    musics.sort(Some(Sorting::ByTitleDescending));
    assert_eq!(titles(&musics.full_que), vec!["alpha", "Zulu", "Hilos", "Hilo", "Beta"]);
}

#[test]
fn sorting_by_duration_keeps_equal_lengths_in_their_order() {
    let mut musics = Musics::new(sample());
    musics.sort(Some(Sorting::ByDurationAscending));
    assert_eq!(titles(&musics.full_que), vec!["Beta", "alpha", "Hilo", "Zulu", "Hilos"]);
    let mut musics = Musics::new(sample());
    musics.sort(Some(Sorting::ByDurationDescending));
    assert_eq!(titles(&musics.full_que), vec!["Hilos", "Hilo", "Zulu", "alpha", "Beta"]);
}

#[test]
fn durations_compare_by_their_nanoseconds_too() {
    let mut a = track("a", "x", 10);
    a.length = Length { secs: 10, nanos: 500 };
    let mut b = track("b", "x", 10);
    b.length = Length { secs: 10, nanos: 20 };
    let mut c = track("c", "x", 9);
    c.length = Length { secs: 9, nanos: 999_999_999 };
    let mut musics = Musics::new(vec![a, b, c]);
    musics.sort(Some(Sorting::ByDurationAscending));
    assert_eq!(titles(&musics.full_que), vec!["c", "b", "a"]);
}

#[test]
fn sorting_shows_the_whole_collection_again() {
    let mut musics = Musics::new(sample());
    musics.search("artist:Ana".to_string());
    for order in [
        Sorting::ByTitleAscending,
        Sorting::ByTitleDescending,
        Sorting::ByDurationAscending,
        Sorting::ByDurationDescending,
        Sorting::Shuffle,
    ] {
        musics.sort(Some(order));
        assert!(musics.que == musics.full_que);
        assert_eq!(musics.full_que.len(), 5);
    }
}

#[test]
fn every_order_keeps_the_same_tracks() {
    for order in [
        Sorting::ByTitleAscending,
        Sorting::ByTitleDescending,
        Sorting::ByDurationAscending,
        Sorting::ByDurationDescending,
        Sorting::Shuffle,
    ] {
        let mut musics = Musics::new(numbered(40));
        for _ in 0..5 {
            musics.sort(Some(order));
            let mut got = titles(&musics.full_que);
            got.sort();
            let want = numbered(40);
            assert_eq!(got, titles(&want), "{order:?}");
        }
    }
}

#[test]
fn sorting_leaves_the_cursors() {
    let mut musics = Musics::new(sample());
    musics.move_down();
    musics.mark_playing(&track("Beta", "Cid", 30));
    musics.sort(Some(Sorting::ByTitleAscending));
    assert_eq!(musics.selected, 1);
    assert_eq!(musics.playing_index, Some(3));
}

#[test]
fn queries_are_read_by_their_field() {
    assert_eq!(parse_query(""), None);
    assert_eq!(parse_query("hilo"), Some((Criterion::Title, "hilo".to_string())));
    assert_eq!(parse_query("duration:02:30"), Some((Criterion::Duration, "02:30".to_string())));
    assert_eq!(parse_query("artist:ana"), Some((Criterion::Artist, "ana".to_string())));
    assert_eq!(parse_query("artist:"), Some((Criterion::Artist, "".to_string())));
}

#[test]
fn an_unknown_field_is_searched_as_a_title() {
    assert_eq!(parse_query("genre:rock"), Some((Criterion::Title, "genre:rock".to_string())));
    assert_eq!(parse_query(":"), Some((Criterion::Title, ":".to_string())));
    assert_eq!(parse_query("Artist:x"), Some((Criterion::Title, "Artist:x".to_string())));
    let mut musics = Musics::new(sample());
    musics.search("genre:Hilo".to_string());
    let by_field = titles(&musics.que).iter().map(|s| s.to_string()).collect::<Vec<_>>();
    let ranked = fuzzy_search_music_titles_best_n("genre:Hilo", &musics.full_que, 20);
    let want: Vec<String> = ranked.iter().map(|e| e.0.title.clone()).collect();
    assert_eq!(by_field, want);
    assert_eq!(by_field[0], "Hilo");
}

#[test]
fn a_duration_query_ranks_by_the_shown_duration_only() {
    let mut list = sample();
    list.push(track("02:30", "Dan", 61));
    let mut musics = Musics::new(list);
    musics.search("duration:02:30".to_string());
    // 150 s is shown as 02:30; the track whose title is "02:30" lasts 01:01,
    // which shares the one window "  0" with the query.
    assert_eq!(titles(&musics.que)[..2], ["Hilo", "Zulu"]);
    let ranked = fuzzy_search_music_duration_best_n("02:30", &musics.full_que, 20);
    assert_eq!(ranked[0].1, Score { matches: 6, total: 6 });
    assert_eq!(ranked[1].1, Score { matches: 6, total: 6 });
    let by_title = ranked.iter().find(|e| e.0.title == "02:30").unwrap();
    assert_eq!(by_title.1, Score { matches: 1, total: 6 });
}

#[test]
fn an_artist_query_ranks_by_the_artist() {
    let mut musics = Musics::new(sample());
    musics.search("artist:bob".to_string());
    assert_eq!(titles(&musics.que), vec!["alpha", "Hilos", "Hilo", "Zulu", "Beta"]);
    let ranked = fuzzy_search_music_artist_best_n("bob", &musics.full_que, 2);
    assert_eq!(ranked.len(), 2);
    assert_eq!(ranked[0].1, Score { matches: 4, total: 4 });
}

#[test]
fn a_query_shows_the_best_twenty() {
    let mut musics = Musics::new(numbered(30));
    musics.search("track 07".to_string());
    assert_eq!(musics.que.len(), 20);
    assert_eq!(musics.que[0].title, "Track 07");
    assert_eq!(musics.full_que.len(), 30);
    assert_eq!(titles(&musics.full_que), titles(&numbered(30)));
}

#[test]
fn alpha_and_alpine_outscore_beta() {
    let list = vec![track("Alpha", "a", 1), track("Beta", "b", 2), track("Alpine", "c", 3)];
    let mut musics = Musics::new(list);
    musics.search("alp".to_string());
    assert_eq!(titles(&musics.que)[..2], ["Alpha", "Alpine"]);
    assert_eq!(titles(&musics.que), vec!["Alpha", "Alpine", "Beta"]);
    let ranked = fuzzy_search_music_titles_sorted("alp", &musics.full_que);
    assert!(ranked[2].1.less_than(&ranked[0].1));
    assert!(ranked[2].1.less_than(&ranked[1].1));
    musics.search("".to_string());
    assert_eq!(titles(&musics.que), vec!["Alpha", "Beta", "Alpine"]);
}

#[test]
fn the_empty_query_restores_the_last_sorted_order() {
    let mut musics = Musics::new(sample());
    musics.sort(Some(Sorting::ByTitleDescending));
    musics.search("hilo".to_string());
    musics.search("".to_string());
    assert_eq!(titles(&musics.que), vec!["alpha", "Zulu", "Hilos", "Hilo", "Beta"]);
    assert!(musics.que == musics.full_que);
}

#[test]
fn title_search_pairs_each_track_with_its_score() {
    let list = vec![track("Alpha", "a", 1), track("Beta", "b", 2)];
    let r = fuzzy_search_musics_by_title("alp", &list);
    assert_eq!(r.len(), 2);
    assert!(r[0].0 == list[0] && r[1].0 == list[1]);
    assert_eq!(r[0].1, Score { matches: 3, total: 4 });
    assert_eq!(r[1].1, Score { matches: 0, total: 4 });
}

#[test]
fn a_query_never_changes_the_collection() {
    let mut musics = Musics::new(sample());
    for q in ["hilo", "artist:ana", "duration:10:00", "x:y", "", "zzz"] {
        musics.search(q.to_string());
        assert_eq!(titles(&musics.full_que), vec!["Hilo", "alpha", "Zulu", "Beta", "Hilos"]);
    }
}

#[test]
fn a_selection_beyond_the_result_goes_to_the_first_track() {
    let mut musics = Musics::new(numbered(30));
    for _ in 0..25 {
        musics.move_down();
    }
    assert_eq!(musics.selected, 25);
    musics.search("track".to_string());
    assert_eq!(musics.que.len(), 20);
    assert_eq!(musics.selected, 0);
    let mut musics = Musics::new(numbered(30));
    for _ in 0..7 {
        musics.move_down();
    }
    musics.search("track".to_string());
    assert_eq!(musics.selected, 7);
}

#[test]
fn the_selection_wraps_round_five_tracks() {
    let mut musics = Musics::new(numbered(5));
    assert_eq!(musics.selected, 0);
    musics.move_up();
    assert_eq!(musics.selected, 4);
    musics.move_down();
    assert_eq!(musics.selected, 0);
    musics.move_down();
    assert_eq!(musics.selected, 1);
    musics.move_up();
    assert_eq!(musics.selected, 0);
}

#[test]
fn an_empty_catalog_ignores_navigation() {
    let mut musics = Musics::new(Vec::new());
    musics.move_up();
    musics.move_down();
    musics.jump_top();
    musics.jump_bottom();
    musics.jump_to_playing();
    musics.search("x".to_string());
    musics.sort(Some(Sorting::Shuffle));
    musics.reset_search();
    assert_eq!(musics.selected, 0);
    assert_eq!(musics.playing_index, None);
    assert_eq!(musics.current_selection(), Err(CatalogError::NotFound));
    assert!(musics.next_song().is_none());
    assert!(musics.previous_song().is_none());
}

#[test]
fn jumps_go_to_the_ends() {
    let mut musics = Musics::new(numbered(5));
    musics.jump_bottom();
    assert_eq!(musics.selected, 4);
    musics.jump_top();
    assert_eq!(musics.selected, 0);
}

#[test]
fn the_selection_is_the_shown_track_under_the_cursor() {
    let mut musics = Musics::new(sample());
    musics.move_down();
    assert_eq!(musics.current_selection().unwrap().title, "alpha");
    musics.search("hilos".to_string());
    assert_eq!(musics.current_selection().unwrap().title, "Hilo");
}

#[test]
fn marking_finds_the_track_in_the_collection() {
    let mut musics = Musics::new(sample());
    musics.mark_playing(&track("Zulu", "Ana", 150));
    assert_eq!(musics.playing_index, Some(2));
    musics.mark_playing(&track("Zulu", "Someone else", 150));
    assert_eq!(musics.playing_index, None);
    musics.mark_playing(&track("Hilo", "Ana", 150));
    assert_eq!(musics.playing_index, Some(0));
}

#[test]
fn marking_takes_the_first_of_equal_tracks() {
    let mut list = sample();
    list.push(track("alpha", "Bob", 95));
    assert_eq!(find_track(&list, &track("alpha", "Bob", 95)), Some(1));
    assert_eq!(find_track(&list, &track("nowhere", "Bob", 95)), None);
}

#[test]
fn going_to_the_playing_track_finds_it_in_a_filtered_list() {
    let mut musics = Musics::new(sample());
    let zulu = track("Zulu", "Ana", 150);
    musics.mark_playing(&zulu);
    musics.search("artist:Ana".to_string());
    assert_eq!(titles(&musics.que)[..2], ["Hilo", "Zulu"]);
    musics.jump_to_playing();
    assert_eq!(musics.selected, 1);
    assert!(musics.que[musics.selected] == zulu);
    assert_eq!(musics.playing_index, Some(2));
}

#[test]
fn going_to_the_playing_track_selects_the_first_when_it_is_not_shown() {
    let mut musics = Musics::new(numbered(30));
    musics.mark_playing(&numbered(30)[29]);
    musics.search("track 0".to_string());
    musics.jump_bottom();
    assert!(!musics.que.contains(&numbered(30)[29]));
    musics.jump_to_playing();
    assert_eq!(musics.selected, 0);
    let mut musics = Musics::new(numbered(5));
    musics.jump_bottom();
    musics.jump_to_playing();
    assert_eq!(musics.selected, 0);
}

#[test]
fn skipping_walks_the_collection_whatever_is_shown() {
    let mut musics = Musics::new(sample());
    assert_eq!(musics.next_song().unwrap().title, "Hilo");
    assert_eq!(musics.previous_song().unwrap().title, "Hilos");
    musics.mark_playing(&track("Zulu", "Ana", 150));
    musics.search("beta".to_string());
    assert_eq!(musics.next_song().unwrap().title, "Beta");
    assert_eq!(musics.previous_song().unwrap().title, "alpha");
    musics.mark_playing(&track("Hilos", "Bob", 600));
    assert_eq!(musics.next_song().unwrap().title, "Hilo");
    musics.mark_playing(&track("Hilo", "Ana", 150));
    assert_eq!(musics.previous_song().unwrap().title, "Hilos");
}

#[test]
fn scrolling_moves_by_the_step_or_wraps_at_the_ends() {
    let mut musics = Musics::new(numbered(30));
    assert!(musics.scrolls_down(7));
    musics.scroll_down(7);
    assert_eq!(musics.selected, 7);
    assert!(musics.scrolls_up(7));
    musics.scroll_up(7);
    assert_eq!(musics.selected, 0);
    musics.scroll_up(7);
    assert_eq!(musics.selected, 29);
    musics.scroll_down(7);
    assert_eq!(musics.selected, 0);
    musics.move_down();
    assert!(!musics.scrolls_up(7));
    musics.jump_bottom();
    musics.move_up();
    assert!(!musics.scrolls_down(7));
}

#[test]
fn a_catalog_made_by_its_operations_is_well_formed() {
    let mut musics = Musics::new(sample());
    assert!(musics.well_formed());
    musics.search("hil".to_string());
    musics.jump_bottom();
    musics.mark_playing(&track("Beta", "Cid", 30));
    musics.sort(Some(Sorting::Shuffle));
    assert!(musics.well_formed());
    assert!(Musics::new(Vec::new()).well_formed());
}

#[test]
fn a_catalog_edited_by_hand_may_be_ill_formed() {
    let mut musics = Musics::new(sample());
    musics.selected = 5;
    assert!(!musics.well_formed());
    let mut musics = Musics::new(sample());
    musics.playing_index = Some(5);
    assert!(!musics.well_formed());
    let mut musics = Musics::new(sample());
    musics.que[0] = track("stranger", "x", 1);
    assert!(!musics.well_formed());
    let mut musics = Musics::new(sample());
    musics.full_que.pop();
    assert!(!musics.well_formed());
    let mut musics = Musics::new(sample());
    musics.que.clear();
    assert!(musics.well_formed());
    musics.selected = 1;
    assert!(!musics.well_formed());
}
