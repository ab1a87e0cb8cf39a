use mplayer_client::fuzzy_search::{
    fuzzy_compare, fuzzy_compare_durations, fuzzy_search, fuzzy_search_best_n,
    fuzzy_search_sorted, fuzzy_search_threshold, score_folded, trigrams, Score,
};

fn texts(list: &[&str]) -> Vec<String> {
    list.iter().map(|s| s.to_string()).collect()
}

fn names(ranked: &[(String, Score)]) -> Vec<&str> {
    ranked.iter().map(|e| e.0.as_str()).collect()
}

#[test]
fn trigrams_of_the_empty_text_are_one_window_of_blanks() {
    assert_eq!(trigrams(""), vec![(' ', ' ', ' ')]);
}

#[test]
fn trigrams_of_one_character() {
    assert_eq!(trigrams("a"), vec![(' ', ' ', 'a'), (' ', 'a', ' ')]);
}

#[test]
fn trigrams_slide_over_the_padded_text() {
    assert_eq!(
        trigrams("abc"),
        vec![(' ', ' ', 'a'), (' ', 'a', 'b'), ('a', 'b', 'c'), ('b', 'c', ' ')]
    );
}

#[test]
fn trigrams_count_scalars_not_bytes() {
    assert_eq!(
        trigrams("дом"),
        vec![(' ', ' ', 'д'), (' ', 'д', 'о'), ('д', 'о', 'м'), ('о', 'м', ' ')]
    );
}

#[test]
fn a_text_matches_itself_fully() {
    for a in ["", "a", "abc", "Hello World", "дом", "日本語のタイトル", "aaaa"] {
        let s = fuzzy_compare(a, a);
        assert_eq!(s.matches, s.total, "{a:?}");
        assert!(s.is_full());
    }
}

#[test]
fn the_empty_text_scores_one_of_one_against_itself() {
    assert_eq!(fuzzy_compare("", ""), Score { matches: 1, total: 1 });
}

#[test]
fn scores_stay_between_zero_and_one() {
    let samples = ["", "a", "ab", "abc", "alp", "Alpha", "aaaa", "banana", "  ", "дом"];
    for a in samples {
        for b in samples {
            let s = fuzzy_compare(a, b);
            assert!(s.matches <= s.total, "{a:?} {b:?}");
            assert!(s.total > 0);
            assert_eq!(s.total, a.to_lowercase().chars().count() + 1);
        }
    }
}

#[test]
fn similarity_of_disjoint_texts_is_zero() {
    let s = fuzzy_compare("abc", "xyz");
    assert_eq!(s, Score { matches: 0, total: 4 });
    assert!(s.is_none());
}

#[test]
fn the_score_counts_the_query_trigrams_found() {
    assert_eq!(fuzzy_compare("alp", "Alpha"), Score { matches: 3, total: 4 });
    assert_eq!(fuzzy_compare("alp", "Alpine"), Score { matches: 3, total: 4 });
    assert_eq!(fuzzy_compare("alp", "Beta"), Score { matches: 0, total: 4 });
}

#[test]
fn the_score_is_not_symmetric() {
    assert_eq!(fuzzy_compare("ab", "abc"), Score { matches: 2, total: 3 });
    assert_eq!(fuzzy_compare("abc", "ab"), Score { matches: 2, total: 4 });
}

#[test]
fn a_repeated_query_trigram_counts_each_time() {
    // "aaaa" has the window "aaa" twice; the candidate holds it once.
    assert_eq!(fuzzy_compare("aaaa", "aaa"), Score { matches: 5, total: 5 });
    assert_eq!(fuzzy_compare("aaa", "aaaa"), Score { matches: 4, total: 4 });
}

#[test]
fn case_is_folded_on_both_sides() {
    assert_eq!(fuzzy_compare("ABC", "abc"), Score { matches: 4, total: 4 });
    assert_eq!(fuzzy_compare("abc", "ABC"), Score { matches: 4, total: 4 });
    assert_eq!(fuzzy_compare("ДОМ", "дом"), Score { matches: 4, total: 4 });
}

#[test]
fn without_folding_case_counts() {
    assert_eq!(score_folded("ABC", "abc"), Score { matches: 0, total: 4 });
    assert_eq!(score_folded("abc", "abc"), Score { matches: 4, total: 4 });
}

#[test]
fn durations_are_scored_like_any_text() {
    assert_eq!(fuzzy_compare_durations("02:30", "02:30"), Score { matches: 6, total: 6 });
    assert_eq!(fuzzy_compare_durations("02:30", "02:31"), Score { matches: 4, total: 6 });
}

#[test]
fn scores_compare_by_value() {
    let half = Score { matches: 1, total: 2 };
    let two_quarters = Score { matches: 2, total: 4 };
    let third = Score { matches: 1, total: 3 };
    assert!(third.less_than(&half));
    assert!(!half.less_than(&third));
    assert!(!half.less_than(&two_quarters));
    assert!(!two_quarters.less_than(&half));
    assert!(Score::none().less_than(&Score::full()));
    assert!(!Score::full().less_than(&Score::full()));
}

#[test]
fn a_score_out_of_range_counts_as_zero() {
    let above = Score { matches: 5, total: 4 };
    let no_parts = Score { matches: 3, total: 0 };
    assert!(above.is_none());
    assert!(no_parts.is_none());
    assert!(above.less_than(&Score { matches: 1, total: 100 }));
    assert!(!Score::none().less_than(&above));
    assert!(!above.less_than(&no_parts));
}

#[test]
fn search_scores_each_candidate_in_order() {
    let list = texts(&["Alpha", "Beta", "Alpine"]);
    let r = fuzzy_search("alp", &list);
    assert_eq!(
        r,
        vec![
            ("Alpha".to_string(), Score { matches: 3, total: 4 }),
            ("Beta".to_string(), Score { matches: 0, total: 4 }),
            ("Alpine".to_string(), Score { matches: 3, total: 4 }),
        ]
    );
}

#[test]
fn sorted_search_keeps_every_candidate() {
    let list = texts(&["Alpha", "Beta", "Alpine", "Gamma"]);
    assert_eq!(fuzzy_search_sorted("alp", &list).len(), 4);
    assert_eq!(fuzzy_search_sorted("alp", &[]).len(), 0);
}

#[test]
fn sorted_search_puts_the_best_first_and_keeps_ties_in_order() {
    let list = texts(&["Beta", "Alpine", "alp", "Alpha", "Gamma"]);
    let r = fuzzy_search_sorted("alp", &list);
    assert_eq!(names(&r), vec!["alp", "Alpine", "Alpha", "Beta", "Gamma"]);
    assert_eq!(r[0].1, Score { matches: 4, total: 4 });
    assert_eq!(r[1].1, Score { matches: 3, total: 4 });
    assert_eq!(r[3].1, Score { matches: 0, total: 4 });
}

#[test]
fn best_n_is_the_head_of_the_sorted_search() {
    let list = texts(&["Beta", "Alpine", "alp", "Alpha", "Gamma"]);
    let all = fuzzy_search_sorted("alp", &list);
    for n in 0..8 {
        let best = fuzzy_search_best_n("alp", &list, n);
        let k = n.min(list.len());
        assert_eq!(best.len(), k);
        assert_eq!(best, all[..k].to_vec());
    }
}

#[test]
fn threshold_keeps_what_reaches_it_in_list_order() {
    let list = texts(&["Beta", "Alpine", "alp", "Alpha"]);
    let r = fuzzy_search_threshold("alp", &list, Score { matches: 3, total: 4 });
    assert_eq!(names(&r), vec!["Alpine", "alp", "Alpha"]);
    let r = fuzzy_search_threshold("alp", &list, Score::full());
    assert_eq!(names(&r), vec!["alp"]);
    let r = fuzzy_search_threshold("alp", &list, Score::none());
    assert_eq!(names(&r), vec!["Beta", "Alpine", "alp", "Alpha"]);
}
