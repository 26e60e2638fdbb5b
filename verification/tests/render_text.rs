use tomatocrab::App;
use tomatocrab::SessionFilter;
use tomatocrab::View;
use tomatocrab::create_big_time;
use tomatocrab::format_duration;
use tomatocrab::format_duration_long;
use tomatocrab::format_duration_short;
use tomatocrab::is_blank;
use tomatocrab::string_of_chars;

#[test]
fn clock_duration_format() {
    assert_eq!(format_duration(0), "0:00");
    assert_eq!(format_duration(5), "0:05");
    assert_eq!(format_duration(90), "1:30");
    assert_eq!(format_duration(125), "2:05");
    assert_eq!(format_duration(3600), "60:00");
}

#[test]
fn short_duration_format() {
    assert_eq!(format_duration_short(0), "0m");
    assert_eq!(format_duration_short(59), "0m");
    assert_eq!(format_duration_short(60), "1m");
    assert_eq!(format_duration_short(2700), "45m");
    assert_eq!(format_duration_short(8100), "2h15m");
    assert_eq!(format_duration_short(3660), "1h1m");
}

#[test]
fn long_duration_format() {
    assert_eq!(format_duration_long(45), "45s");
    assert_eq!(format_duration_long(125), "2m 5s");
    assert_eq!(format_duration_long(3725), "1h 2m 5s");
    assert_eq!(format_duration_long(0), "0s");
}

const DIGIT_ROWS: [[&str; 5]; 10] = [
    [" ███ ", "█   █", "█   █", "█   █", " ███ "],
    ["  █  ", " ██  ", "  █  ", "  █  ", " ███ "],
    [" ███ ", "    █", " ███ ", "█    ", "█████"],
    ["█████", "    █", " ███ ", "    █", "█████"],
    ["█   █", "█   █", "█████", "    █", "    █"],
    ["█████", "█    ", "█████", "    █", "█████"],
    [" ███ ", "█    ", "█████", "█   █", " ███ "],
    ["█████", "    █", "   █ ", "  █  ", "  █  "],
    [" ███ ", "█   █", " ███ ", "█   █", " ███ "],
    [" ███ ", "█   █", "█████", "    █", " ███ "],
];

const COLON_ROWS: [&str; 5] = [" ", "█", " ", "█", " "];

fn expected_big_time(minutes: u32, seconds: u32) -> String {
    let time = format!("{:02}:{:02}", minutes, seconds);
    let mut rows: Vec<String> = vec![String::new(); 5];
    let chars: Vec<char> = time.chars().collect();
    for (i, c) in chars.iter().enumerate() {
        for (r, row) in rows.iter_mut().enumerate() {
            if *c == ':' {
                row.push_str(COLON_ROWS[r]);
            } else {
                let d = c.to_digit(10).unwrap() as usize;
                row.push_str(DIGIT_ROWS[d][r]);
            }
            if i + 1 < chars.len() {
                row.push(' ');
            }
        }
    }
    rows.join("\n")
}

#[test]
fn big_time_renders_block_digits() {
    assert_eq!(create_big_time(25, 0), expected_big_time(25, 0));
    assert_eq!(create_big_time(0, 0), expected_big_time(0, 0));
    assert_eq!(create_big_time(9, 59), expected_big_time(9, 59));
    let shown = create_big_time(12, 34);
    assert_eq!(shown.lines().count(), 5);
    assert_eq!(shown, expected_big_time(12, 34));
}

#[test]
fn big_time_handles_wide_minute_counts() {
    // more than two digits of minutes still render, one glyph per digit
    let shown = create_big_time(120, 0);
    assert_eq!(shown, expected_big_time(120, 0));
}

#[test]
fn blank_test_matches_trimming() {
    let blank: Vec<char> = " \t\r\n".chars().collect();
    assert!(is_blank(&blank));
    let not_blank: Vec<char> = "  a ".chars().collect();
    assert!(!is_blank(&not_blank));
    let empty: Vec<char> = Vec::new();
    assert!(is_blank(&empty));
    let unicode_blank: Vec<char> = "\u{00A0}\u{2003}".chars().collect();
    assert!(is_blank(&unicode_blank));
}

#[test]
fn string_of_chars_round_trips() {
    let v: Vec<char> = "hello, würld".chars().collect();
    assert_eq!(string_of_chars(&v), "hello, würld");
}

#[test]
fn filter_labels_and_tab_indices() {
    let mut app = App::new(25, 5, 15, 4);
    app.session_filter = SessionFilter::Today;
    assert_eq!(app.filter_label(), "Today");
    app.session_filter = SessionFilter::Week;
    assert_eq!(app.filter_label(), "This Week");
    app.session_filter = SessionFilter::All;
    assert_eq!(app.filter_label(), "All Time");

    assert_eq!(View::Timer.index(), 0);
    assert_eq!(View::History.index(), 1);
    assert_eq!(View::Stats.index(), 2);
    assert_eq!(View::Timer.next(), View::History);
    assert_eq!(View::Stats.next(), View::Timer);
    assert_eq!(View::Timer.prev(), View::Stats);
}

#[test]
fn selected_index_counts_from_newest() {
    let mut app = App::new(25, 5, 15, 4);
    assert_eq!(app.selected_index(0), 0);
    assert_eq!(app.selected_index(5), 4);
    app.history_selected = 2;
    assert_eq!(app.selected_index(5), 2);
    app.history_selected = 10;
    assert_eq!(app.selected_index(5), 0);
}
