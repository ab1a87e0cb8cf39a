use mplayer_client::states::{State, Status};
use mplayer_client::text::{
    bytes_less, char_is_space, chars_of, contains_text, find_line, render_duration, same_text,
    str_less, string_of, trim_of,
};
use mplayer_client::ui::UI;
use mplayer_client::utils::{RunStatus, StatusOption, StringFeatures};

fn chars(s: &str) -> Vec<char> {
    s.chars().collect()
}

#[test]
fn durations_are_shown_as_minutes_and_seconds() {
    assert_eq!(render_duration(0), "00:00");
    assert_eq!(render_duration(9), "00:09");
    assert_eq!(render_duration(10), "00:10");
    assert_eq!(render_duration(59), "00:59");
    assert_eq!(render_duration(60), "01:00");
    assert_eq!(render_duration(150), "02:30");
    assert_eq!(render_duration(599), "09:59");
    assert_eq!(render_duration(600), "10:00");
    assert_eq!(render_duration(6005), "100:05");
    assert_eq!(render_duration(u64::MAX), "307445734561825860:15");
}

#[test]
fn the_interface_shows_durations_the_same_way() {
    for t in [0, 7, 61, 150, 3599, 3600, 123456] {
        assert_eq!(UI::duration_to_string(t), render_duration(t));
        assert_eq!(UI::duration_to_string(t), format!("{:02}:{:02}", t / 60, t % 60));
    }
}

#[test]
fn strings_order_by_their_bytes() {
    let samples = ["", "a", "A", "ab", "abc", "b", "Zulu", "alpha", "é", "z", "日本", "a\u{0}"];
    for a in samples {
        for b in samples {
            assert_eq!(str_less(a, b), a < b, "{a:?} {b:?}");
            assert_eq!(bytes_less(a.as_bytes(), b.as_bytes()), a.as_bytes() < b.as_bytes());
        }
    }
}

#[test]
fn a_prefix_comes_before_the_longer_text() {
    assert!(str_less("Hilo", "Hilos"));
    assert!(!str_less("Hilos", "Hilo"));
    assert!(!str_less("Hilo", "Hilo"));
    assert!(str_less("", "a"));
}

#[test]
fn texts_are_the_same_by_their_characters() {
    assert!(same_text("duration", "duration"));
    assert!(!same_text("duration", "Duration"));
    assert!(!same_text("duration", "duratio"));
    assert!(same_text("", ""));
}

#[test]
fn characters_and_strings_convert_both_ways() {
    assert_eq!(chars_of("añb"), vec!['a', 'ñ', 'b']);
    assert_eq!(chars_of(""), Vec::<char>::new());
    let v = chars("hello world");
    assert_eq!(string_of(&v, 0, 11), "hello world");
    assert_eq!(string_of(&v, 6, 11), "world");
    assert_eq!(string_of(&v, 3, 3), "");
}

#[test]
fn white_space_is_what_unicode_says() {
    for u in 0..=0x10FFFFu32 {
        if let Some(c) = char::from_u32(u) {
            assert_eq!(char_is_space(c), c.is_whitespace(), "{u:#x}");
        }
    }
}

#[test]
fn trimming_takes_white_space_off_both_ends() {
    for s in ["  a b  ", "a", "", "   ", "\t x\n", "\u{a0}é \u{2003}", " a", "a "] {
        let v = chars(s);
        assert_eq!(trim_of(&v, 0, v.len()), s.trim(), "{s:?}");
    }
    let v = chars("name:  value  ;");
    assert_eq!(trim_of(&v, 5, 14), "value");
}

#[test]
fn lines_end_at_line_feeds() {
    let v = chars("one\n\nthree\n");
    assert_eq!(find_line(&v, 0), Some((0, 3)));
    assert_eq!(find_line(&v, 1), Some((4, 4)));
    assert_eq!(find_line(&v, 2), Some((5, 10)));
    assert_eq!(find_line(&v, 3), None);
    assert_eq!(find_line(&chars(""), 0), None);
    assert_eq!(find_line(&chars("x"), 0), Some((0, 1)));
    assert_eq!(find_line(&chars("x"), 1), None);
    for s in ["a\nb", "a\nb\n", "\n", "\n\n", "abc", "a\n\nb\n\n"] {
        let v = chars(s);
        let want: Vec<&str> = s.split_terminator('\n').collect();
        for n in 0..5 {
            let got = find_line(&v, n).map(|(a, b)| string_of(&v, a, b));
            assert_eq!(got.as_deref(), want.get(n).copied(), "{s:?} {n}");
        }
    }
}

#[test]
fn a_pattern_is_found_anywhere_in_the_text() {
    let v = chars("state: Stopped");
    assert!(contains_text(&v, 0, v.len(), "Stopped"));
    assert!(contains_text(&v, 0, v.len(), "state"));
    assert!(contains_text(&v, 0, v.len(), ""));
    assert!(!contains_text(&v, 0, v.len(), "stopped"));
    assert!(!contains_text(&v, 0, v.len() - 1, "Stopped"));
    assert!(!contains_text(&v, 0, 3, "state"));
    assert!(!contains_text(&v, 0, v.len(), "state: Stopped!"));
}

#[test]
fn the_status_line_tells_what_the_player_does() {
    assert_eq!(State::handle_state("Stopped"), Status::Stopping);
    assert_eq!(State::handle_state("status: Stopped"), Status::Stopping);
    assert_eq!(State::handle_state("Pausing"), Status::Pausing);
    assert_eq!(State::handle_state("Playing"), Status::Playing);
    assert_eq!(State::handle_state(""), Status::Playing);
    assert_eq!(State::handle_state("Pausing, was Stopped"), Status::Stopping);
}

#[test]
fn the_path_line_gives_what_stands_behind_the_colon() {
    assert_eq!(State::handle_path("path: /music/a.mp3"), "/music/a.mp3");
    assert_eq!(State::handle_path("path:/music/a b.mp3  "), "/music/a b.mp3");
    assert_eq!(State::handle_path("path: c:/x"), "c:/x");
    assert_eq!(State::handle_path("no colon"), "");
    assert_eq!(State::handle_path(""), "");
    assert_eq!(State::handle_path("path:"), "");
}

#[test]
fn the_volume_line_gives_the_number_as_written() {
    assert_eq!(State::handle_volume("volume: 0.75"), "0.75");
    assert_eq!(State::handle_volume("0.75"), "0.5");
    assert_eq!(State::handle_volume(""), "0.5");
}

#[test]
fn the_status_answer_is_read_line_by_line() {
    let r = State::hande_status_call("Playing\npath: /music/a.mp3\nvolume: 0.8\n");
    assert_eq!(r, (Status::Playing, "/music/a.mp3".to_string(), "0.8".to_string()));
    let r = State::hande_status_call("Pausing\npath: /x");
    assert_eq!(r, (Status::Pausing, "/x".to_string(), "0.5".to_string()));
    let r = State::hande_status_call("");
    assert_eq!(r, (Status::Stopping, "".to_string(), "0.5".to_string()));
    let r = State::hande_status_call("Stopped");
    assert_eq!(r, (Status::Stopping, "".to_string(), "0.5".to_string()));
}

#[test]
fn the_timer_answer_splits_at_the_first_slash() {
    assert_eq!(
        State::timer_parts("180.5/12.25"),
        Some(("180.5".to_string(), "12.25".to_string()))
    );
    assert_eq!(State::timer_parts("1/2/3"), Some(("1".to_string(), "2/3".to_string())));
    assert_eq!(State::timer_parts("/"), Some(("".to_string(), "".to_string())));
    assert_eq!(State::timer_parts("180.5"), None);
    assert_eq!(State::timer_parts(""), None);
}

#[test]
fn an_empty_string_is_filled_and_a_full_one_left() {
    let mut s = String::new();
    s.insert_if_empty("Unknown");
    assert_eq!(s, "Unknown");
    s.insert_if_empty("Other");
    assert_eq!(s, "Unknown");
}

#[test]
fn run_status_tells_success_from_failure() {
    assert!(RunStatus::ok().is_ok());
    assert_eq!(RunStatus::ok().error_messge, "");
    let e = RunStatus::handler_errror();
    assert!(!e.is_ok());
    assert_eq!(e.status_type, StatusOption::CoudntGetSHandler);
    assert_eq!(e.error_messge, "coudn't get stream handler!");
    let w = RunStatus::new("no such file".to_string(), StatusOption::WrongPath);
    assert!(!w.is_ok());
    assert_eq!(w.error_messge, "no such file");
    assert!(RunStatus::new(String::new(), StatusOption::Success).is_ok());
}
