use livesplit_core::component::slideshow::{self, InnerComponentSettings};
use livesplit_core::component::text::{Component, Settings, State, Text};
use livesplit_core::hotkey::KeyCode;
use livesplit_core::index::Directory;
use livesplit_core::networking::speedrun_com::{
    assemble, find_category, find_game, Leaderboard, LeaderboardError, RunAnswer, RunInfo,
    RunState, Variable, Variables,
};
use livesplit_core::platform::Instant;
use livesplit_core::settings::{Color, Gradient, Value};
use livesplit_core::signature::Signature;
use livesplit_core::whitespace::{blank, is_whitespace, trim};

fn center(text: &str) -> Text {
    Text::Center(String::from(text))
}

fn split(left: &str, right: &str) -> Text {
    Text::Split(String::from(left), String::from(right))
}

fn parts(text: &Text) -> (bool, &str, &str) {
    match text {
        Text::Center(text) => (false, text.as_str(), ""),
        Text::Split(left, right) => (true, left.as_str(), right.as_str()),
    }
}

fn with_text(text: Text) -> Component {
    let mut settings = Settings::default();
    settings.text = text;
    Component::with_settings(settings)
}

fn field(component: &Component, index: usize) -> (String, String) {
    let description = component.settings_description();
    let field = &description.fields[index];
    let value = match &field.value {
        Value::Bool(b) => format!("bool {}", b),
        Value::String(s) => format!("string {}", s),
        Value::OptionalColor(c) => format!("color {:?}", c.map(|c| c.alpha)),
        Value::Gradient(g) => format!("gradient {}", matches!(g, Gradient::Vertical(_, _))),
    };
    (field.text.clone(), value)
}

#[test]
fn a_text_is_split_or_centered() {
    assert!(!center("a").is_split());
    assert!(split("a", "b").is_split());
}

#[test]
fn setting_a_part_of_a_text_switches_its_mode() {
    let mut text = center("old");
    text.set_center(String::from("new"));
    assert_eq!(parts(&text), (false, "new", ""));
    text.set_left(String::from("left"));
    assert_eq!(parts(&text), (true, "left", ""));
    text.set_right(String::from("right"));
    assert_eq!(parts(&text), (true, "left", "right"));
    text.set_left(String::from("other"));
    assert_eq!(parts(&text), (true, "other", "right"));
    text.set_center(String::from("middle"));
    assert_eq!(parts(&text), (false, "middle", ""));
    text.set_right(String::from("right"));
    assert_eq!(parts(&text), (true, "", "right"));
}

#[test]
fn a_new_text_component_starts_empty() {
    let component = Component::new();
    let settings = component.settings();
    assert_eq!(parts(&settings.text), (false, "", ""));
    assert!(!settings.display_two_rows);
    assert_eq!(settings.left_center_color, None);
    assert_eq!(settings.right_color, None);
    assert_eq!(
        settings.background,
        Gradient::Vertical(
            Color::from_bits(0x3F80_0000, 0x3F80_0000, 0x3F80_0000, 0.06f32.to_bits()),
            Color::from_bits(0x3F80_0000, 0x3F80_0000, 0x3F80_0000, 0.005f32.to_bits()),
        )
    );
    assert_eq!(component.name(), "Text");
}

#[test]
fn the_name_of_a_text_component_is_its_text() {
    assert_eq!(with_text(center("World Record")).name(), "World Record");
    assert_eq!(with_text(split("World Record", "Some Guy")).name(), "World Record Some Guy");
    assert_eq!(with_text(split("World Record", "")).name(), "World Record");
    assert_eq!(with_text(split("", "Some Guy")).name(), "Some Guy");
    assert_eq!(with_text(split("", "")).name(), "Text");
    assert_eq!(with_text(center(" \t ")).name(), "Text");
    assert_eq!(with_text(split(" ", " ")).name(), "Text");
    assert_eq!(with_text(center(" padded ")).name(), " padded ");
}

#[test]
fn two_rows_are_only_shown_for_a_split_text() {
    let mut component = with_text(split("World Record", "Some Guy"));
    component.settings_mut().display_two_rows = true;
    component.settings_mut().right_color = Some(Color::white());
    let state: State = component.state();
    assert!(state.display_two_rows);
    assert_eq!(parts(&state.text), (true, "World Record", "Some Guy"));
    assert_eq!(state.right_color, Some(Color::white()));
    assert_eq!(state.background, component.settings().background);

    let mut component = with_text(center("World Record"));
    component.settings_mut().display_two_rows = true;
    assert!(!component.state().display_two_rows);
}

#[test]
fn the_settings_of_a_centered_text_are_described() {
    let component = with_text(center("hello"));
    assert_eq!(component.settings_description().fields.len(), 4);
    assert_eq!(field(&component, 0), ("Background".into(), "gradient true".into()));
    assert_eq!(field(&component, 1), ("Split".into(), "bool false".into()));
    assert_eq!(field(&component, 2), ("Text".into(), "string hello".into()));
    assert_eq!(field(&component, 3), ("Text Color".into(), "color None".into()));
}

#[test]
fn the_settings_of_a_split_text_are_described() {
    let mut component = with_text(split("l", "r"));
    component.settings_mut().display_two_rows = true;
    component.settings_mut().right_color = Some(Color::from_bits(0, 0, 0, 7));
    assert_eq!(component.settings_description().fields.len(), 7);
    assert_eq!(field(&component, 1), ("Split".into(), "bool true".into()));
    assert_eq!(field(&component, 2), ("Left".into(), "string l".into()));
    assert_eq!(field(&component, 3), ("Left Color".into(), "color None".into()));
    assert_eq!(field(&component, 4), ("Right".into(), "string r".into()));
    assert_eq!(field(&component, 5), ("Right Color".into(), "color Some(7)".into()));
    assert_eq!(field(&component, 6), ("Display 2 Rows".into(), "bool true".into()));
}

#[test]
fn settings_are_set_by_their_index() {
    let mut component = with_text(center("hello"));
    component.set_value(0, Value::Gradient(Gradient::Transparent));
    assert_eq!(component.settings().background, Gradient::Transparent);
    component.set_value(2, Value::String(String::from("world")));
    assert_eq!(parts(&component.settings().text), (false, "world", ""));
    component.set_value(3, Value::OptionalColor(Some(Color::white())));
    assert_eq!(component.settings().left_center_color, Some(Color::white()));
    component.set_value(5, Value::OptionalColor(Some(Color::transparent())));
    assert_eq!(component.settings().right_color, Some(Color::transparent()));
    component.set_value(6, Value::Bool(true));
    assert!(component.settings().display_two_rows);

    // Splitting keeps the text as the left part and resets the right one.
    component.set_value(1, Value::Bool(true));
    assert_eq!(parts(&component.settings().text), (true, "world", ""));
    assert_eq!(component.settings().right_color, Some(Color::white()));
    assert!(!component.settings().display_two_rows);
    // Splitting what is split changes nothing.
    component.set_value(6, Value::Bool(true));
    component.set_value(1, Value::Bool(true));
    assert!(component.settings().display_two_rows);

    component.set_value(2, Value::String(String::from("left")));
    component.set_value(4, Value::String(String::from("right")));
    assert_eq!(parts(&component.settings().text), (true, "left", "right"));

    // Joining puts a space between the two parts.
    component.set_value(1, Value::Bool(false));
    assert_eq!(parts(&component.settings().text), (false, "left right", ""));
    component.set_value(1, Value::Bool(false));
    assert_eq!(parts(&component.settings().text), (false, "left right", ""));
}

#[test]
fn joining_a_text_with_an_empty_part_adds_no_space() {
    let mut component = with_text(split("left", ""));
    component.set_value(1, Value::Bool(false));
    assert_eq!(parts(&component.settings().text), (false, "left", ""));
    let mut component = with_text(split("", "right"));
    component.set_value(1, Value::Bool(false));
    assert_eq!(parts(&component.settings().text), (false, "right", ""));
}

#[test]
fn values_tell_their_switch() {
    assert_eq!(Value::Bool(true).into_bool(), Some(true));
    assert_eq!(Value::String(String::new()).into_bool(), None);
}

#[test]
fn white_space_is_trimmed_at_both_ends() {
    assert_eq!(trim("  a b \t\n"), "a b");
    assert_eq!(trim("a"), "a");
    assert_eq!(trim(""), "");
    assert_eq!(trim(" \u{2003}\u{a0} "), "");
    assert_eq!(trim("\u{2003}x\u{2003}"), "x");
    assert_eq!(trim("é "), "é");
    assert!(blank(" \t"));
    assert!(blank(""));
    assert!(!blank(" . "));
}

#[test]
fn white_space_is_what_the_standard_library_takes_for_it() {
    let mut code = 0u32;
    while code <= 0x10FFFF {
        if let Some(c) = char::from_u32(code) {
            assert_eq!(is_whitespace(c), c.is_whitespace(), "U+{:04X}", code);
        }
        code += 1;
    }
    assert_eq!(trim(" \u{3000}a\u{85}\u{2028}"), " \u{3000}a\u{85}\u{2028}".trim());
}

#[test]
fn a_slideshow_starts_with_its_first_component() {
    let component = slideshow::Component::new(0);
    assert_eq!(component.name(), "Slideshow");
    assert_eq!(
        component.settings().components,
        vec![
            InnerComponentSettings::PreviousSegment,
            InnerComponentSettings::PossibleTimeSave,
            InnerComponentSettings::SumOfBest,
        ]
    );
    assert!(component.settings_description().fields.is_empty());
}

#[test]
fn a_slideshow_moves_on_after_five_seconds() {
    let second = 1_000_000_000i64;
    let values = vec![String::from("a"), String::from("b"), String::from("c")];
    let mut component = slideshow::Component::new(0);
    // Within five seconds the first component stays.
    assert_eq!(component.state(second, &values), 0);
    assert_eq!(component.state(5 * second, &values), 0);
    // Then the queue is followed: 1, then 2.
    assert_eq!(component.state(5 * second + 1, &values), 1);
    assert_eq!(component.state(6 * second, &values), 1);
    assert_eq!(component.state(11 * second, &values), 2);
    // Nothing waits any more, and no value has changed: 2 stays.
    assert_eq!(component.state(17 * second, &values), 2);
    // A changed value queues its component, which is shown next.
    let changed = vec![String::from("a"), String::from("new"), String::from("c")];
    assert_eq!(component.state(18 * second, &changed), 2);
    assert_eq!(component.state(19 * second, &changed), 1);
}

#[test]
fn a_slideshow_requeues_what_was_not_shown_for_long() {
    let second = 1_000_000_000i64;
    let values = vec![String::from("a"), String::from("b")];
    let settings = slideshow::Settings {
        components: vec![
            InnerComponentSettings::Delta,
            InnerComponentSettings::CurrentPace,
        ],
    };
    let mut component = slideshow::Component::with_settings(settings, 0);
    // The values are news at first, so both components take their turn.
    assert_eq!(component.state(6 * second, &values), 1);
    assert_eq!(component.state(12 * second, &values), 0);
    // Nothing waits and nothing changes: component 0 stays.
    assert_eq!(component.state(18 * second, &values), 0);
    // Component 1 was shown last at 6. Twenty seconds later it is not yet
    // away for more than ten seconds per component.
    assert_eq!(component.state(26 * second, &values), 0);
    // A moment later it is, joins the queue, and is shown the next time.
    assert_eq!(component.state(26 * second + 1, &values), 0);
    assert_eq!(component.state(27 * second, &values), 1);
}

#[test]
fn a_signature_is_found_where_it_first_matches() {
    let signature = Signature::new("AB ?? cd");
    assert_eq!(signature.scan(&[0xAB, 0x00, 0xCD]), Some(0));
    assert_eq!(signature.scan(&[0x00, 0xAB, 0xFF, 0xCD, 0xAB, 0x01, 0xCD]), Some(1));
    assert_eq!(signature.scan(&[0xAB, 0xAB, 0xAB, 0xCD, 0xCD]), Some(1));
    assert_eq!(signature.scan(&[0xAB, 0x00, 0xCE, 0xCD, 0xAB, 0x00]), None);
    assert_eq!(signature.scan(&[0x00, 0x00, 0x00]), None);
}

#[test]
fn a_signature_of_one_byte_is_found() {
    let signature = Signature::new("7f");
    assert_eq!(signature.scan(&[0x7F]), Some(0));
    assert_eq!(signature.scan(&[0x00, 0x01, 0x7F, 0x7F]), Some(2));
    assert_eq!(signature.scan(&[0x00, 0x01]), None);
}

#[test]
fn a_signature_with_a_repeated_byte_is_not_passed_over() {
    let signature = Signature::new("01 02 01 02 03");
    let buf = [0x01, 0x02, 0x01, 0x02, 0x01, 0x02, 0x03, 0x00];
    assert_eq!(signature.scan(&buf), Some(2));
    let gap = Signature::new("01 ?? 03 04");
    assert_eq!(gap.scan(&[0x01, 0x01, 0x09, 0x03, 0x04]), Some(1));
    assert_eq!(gap.scan(&[0x03, 0x04, 0x01, 0x03, 0x03, 0x04]), Some(2));
}

#[test]
fn a_half_gap_is_a_byte_like_any_other() {
    // A single question mark stands for 16, whose upper half is lost.
    let signature = Signature::new("?A A?");
    assert_eq!(signature.scan(&[0x00, 0x0A, 0xB0]), Some(1));
    assert_eq!(signature.scan(&[0x1A, 0xA0, 0x00]), None);
}

#[test]
fn every_instant_is_the_same() {
    assert_eq!(Instant::now(), Instant::now());
    assert_eq!(Instant::now().nanoseconds_since(Instant::now()), 0);
}

#[test]
fn every_name_is_the_one_key_code() {
    assert_eq!("Space".parse::<KeyCode>(), Ok(KeyCode));
    assert_eq!("".parse::<KeyCode>(), Ok(KeyCode));
}

fn run(id: usize, players: u64, time: u64) -> RunInfo {
    RunInfo { id, players, time }
}

fn shown(rank: Option<u32>, run: usize) -> RunState {
    RunState { rank, run }
}

#[test]
fn runs_are_ranked_by_their_time() {
    let mut leaderboard = Leaderboard::new(vec![
        run(0, 1, 100),
        run(1, 2, 100),
        run(2, 1, 120),
        run(3, 3, 150),
        run(4, 2, 150),
        run(5, 4, 150),
    ]);
    // Obsolete runs are hidden; runs of the same time share a rank, and
    // the next rank counts them all.
    assert_eq!(
        leaderboard.state().runs,
        vec![
            shown(Some(1), 0),
            shown(Some(1), 1),
            shown(Some(3), 3),
            shown(Some(3), 5),
        ]
    );
    leaderboard.set_hide_obsolete(false);
    assert_eq!(
        leaderboard.state().runs,
        vec![
            shown(Some(1), 0),
            shown(Some(1), 1),
            shown(None, 2),
            shown(Some(3), 3),
            shown(None, 4),
            shown(Some(3), 5),
        ]
    );
    assert!(Leaderboard::new(vec![]).state().runs.is_empty());
}

#[test]
fn a_leaderboard_puts_its_runs_in_order() {
    // The runs come in any order; runs of the same time stay in theirs.
    let leaderboard = Leaderboard::new(vec![
        run(0, 1, 300),
        run(1, 2, 100),
        run(2, 3, 200),
        run(3, 2, 50),
        run(4, 4, 100),
        run(5, 1, 100),
    ]);
    assert_eq!(
        leaderboard.state().runs,
        vec![
            shown(Some(1), 3),
            shown(Some(2), 4),
            shown(Some(2), 5),
            shown(Some(4), 2),
        ]
    );
}

#[test]
fn a_run_of_no_time_has_rank_zero() {
    let leaderboard = Leaderboard::new(vec![run(0, 8, 5), run(1, 7, 0)]);
    assert_eq!(
        leaderboard.state().runs,
        vec![shown(Some(0), 1), shown(Some(2), 0)]
    );
}

#[test]
fn a_game_and_a_category_are_found_by_their_exact_names() {
    let names = vec![
        String::from("The Wind Waker HD"),
        String::from("The Wind Waker"),
        String::from("the wind waker"),
        String::from("The Wind Waker"),
    ];
    assert_eq!(find_game(&names, &String::from("The Wind Waker")), Ok(1));
    assert_eq!(find_game(&names, &String::from("the wind waker")), Ok(2));
    assert_eq!(
        find_game(&names, &String::from("Wind Waker")),
        Err(LeaderboardError::GameNotFound)
    );
    assert_eq!(find_game(&vec![], &String::new()), Err(LeaderboardError::GameNotFound));
    let categories = vec![String::from("Any%"), String::from("100%")];
    assert_eq!(find_category(&categories, &String::from("100%")), Ok(1));
    assert_eq!(
        find_category(&categories, &String::from("any%")),
        Err(LeaderboardError::CategoryNotFound)
    );
}

#[test]
fn items_are_found_by_their_numbers() {
    let directory = Directory::new(&vec![40, 10, 30, 10]);
    assert_eq!(directory.find(40), Some(0));
    assert_eq!(directory.find(30), Some(2));
    // Of two items with the same number the later one is found.
    assert_eq!(directory.find(10), Some(3));
    assert_eq!(directory.find(0), None);
    assert_eq!(directory.find(1), None);
    assert_eq!(Directory::new(&vec![]).find(40), None);
}

fn answer(players: Option<u64>, platform: u32, region: Option<u32>, values: &[(u32, u32)]) -> RunAnswer {
    RunAnswer {
        id: 9,
        players,
        time: 1234,
        platform,
        region,
        values: values.to_vec(),
    }
}

fn looked_up(answer: &RunAnswer) -> Result<(RunInfo, usize, Option<usize>, Vec<(usize, usize)>), LeaderboardError> {
    let platforms = Directory::new(&vec![100, 200]);
    let regions = Directory::new(&vec![7, 8, 9]);
    let variables = Variables::new(&vec![
        Variable {
            id: 50,
            values: vec![1, 2],
        },
        Variable {
            id: 60,
            values: vec![3],
        },
    ]);
    assemble(answer, &platforms, &regions, &variables)
        .map(|d| (d.info, d.platform, d.region, d.variables))
}

#[test]
fn a_run_is_looked_up_in_what_the_website_answered() {
    assert_eq!(
        looked_up(&answer(Some(5), 200, Some(9), &[(60, 3), (50, 2)])),
        Ok((
            RunInfo {
                id: 9,
                players: 5,
                time: 1234
            },
            1,
            Some(2),
            vec![(1, 0), (0, 1)]
        ))
    );
    assert_eq!(
        looked_up(&answer(Some(5), 100, None, &[])),
        Ok((
            RunInfo {
                id: 9,
                players: 5,
                time: 1234
            },
            0,
            None,
            vec![]
        ))
    );
}

#[test]
fn what_a_run_names_and_is_missing_is_an_error() {
    assert_eq!(
        looked_up(&answer(None, 300, Some(1), &[(70, 1)])),
        Err(LeaderboardError::PlayersNotEmbedded)
    );
    assert_eq!(
        looked_up(&answer(Some(5), 300, Some(1), &[(70, 1)])),
        Err(LeaderboardError::PlatformDoesntExist)
    );
    assert_eq!(
        looked_up(&answer(Some(5), 100, Some(1), &[(70, 1)])),
        Err(LeaderboardError::RegionDoesntExist)
    );
    assert_eq!(
        looked_up(&answer(Some(5), 100, Some(7), &[(50, 1), (70, 1), (50, 9)])),
        Err(LeaderboardError::VariableDoesntExist)
    );
    assert_eq!(
        looked_up(&answer(Some(5), 100, None, &[(50, 1), (60, 1)])),
        Err(LeaderboardError::VariableValueDoesntExist)
    );
    assert_eq!(
        looked_up(&answer(Some(5), 100, None, &[(50, 3), (70, 1)])),
        Err(LeaderboardError::VariableValueDoesntExist)
    );
}
