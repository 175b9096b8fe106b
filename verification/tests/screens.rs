use weatherman::render::{BorderSpec, ForecastPosition, TextColor, get_controls,
    get_forecast_paragraphs, get_loading_message, get_menu_list, get_tabs, get_title};
use weatherman::screen::{AppState, InputKey, Screen, Transition};
use weatherman::weather::{APIDaily, WeeklyForecast};

#[test]
fn forecast_position_is_a_pure_function_of_the_index() {
    let expected = [
        ForecastPosition::Left,
        ForecastPosition::Left,
        ForecastPosition::Left,
        ForecastPosition::Middle,
        ForecastPosition::Right,
        ForecastPosition::Right,
        ForecastPosition::Right,
    ];
    for (i, want) in expected.iter().enumerate() {
        assert_eq!(ForecastPosition::from_index(&i), *want);
    }
}

#[test]
fn menu_cursor_wraps_down_after_three_steps() {
    let mut state = AppState { screen: Screen::Menu, cursor: Some(0) };
    for _ in 0..3 {
        let t = state.handle_key(InputKey::Char('j'));
        assert_eq!(t, Transition::Continue);
    }
    assert_eq!(state.cursor, Some(0));
    assert_eq!(state.screen, Screen::Menu);
}

#[test]
fn menu_cursor_wraps_up_from_the_top() {
    let mut state = AppState { screen: Screen::Menu, cursor: Some(0) };
    let t = state.handle_key(InputKey::Char('k'));
    assert_eq!(t, Transition::Continue);
    assert_eq!(state.cursor, Some(2));
}

#[test]
fn enter_on_second_entry_opens_hourly() {
    let mut state = AppState { screen: Screen::Menu, cursor: Some(1) };
    let t = state.handle_key(InputKey::Enter);
    assert_eq!(t, Transition::Continue);
    assert_eq!(state.screen, Screen::Hourly);
    assert_eq!(state.cursor, Some(1));
}

#[test]
fn menu_round_trip_returns_to_the_forecast() {
    let mut state = AppState::new();
    assert_eq!(state.screen, Screen::Forecast);
    state.handle_key(InputKey::Char('m'));
    assert_eq!(state.screen, Screen::Menu);
    assert_eq!(state.cursor, Some(0));
    state.handle_key(InputKey::Enter);
    assert_eq!(state.screen, Screen::Forecast);
}

#[test]
fn quit_works_from_every_state_and_changes_nothing() {
    let screens = [Screen::Forecast, Screen::Menu, Screen::Hourly, Screen::Options];
    for screen in screens {
        let mut state = AppState { screen, cursor: Some(2) };
        let t = state.handle_key(InputKey::Char('q'));
        assert_eq!(t, Transition::Quit);
        assert_eq!(state.screen, screen);
        assert_eq!(state.cursor, Some(2));
    }
}

#[test]
fn unrecognized_keys_are_a_no_op() {
    let screens = [Screen::Forecast, Screen::Menu, Screen::Hourly, Screen::Options];
    for screen in screens {
        let mut state = AppState { screen, cursor: Some(1) };
        let t = state.handle_key(InputKey::Char('x'));
        assert_eq!(t, Transition::Continue);
        assert_eq!(state.screen, screen);
        assert_eq!(state.cursor, Some(1));
        let t = state.handle_key(InputKey::Other);
        assert_eq!(t, Transition::Continue);
        assert_eq!(state.screen, screen);
    }
}

#[test]
fn hourly_and_options_react_only_to_quit() {
    for screen in [Screen::Hourly, Screen::Options] {
        let mut state = AppState { screen, cursor: Some(0) };
        state.handle_key(InputKey::Char('m'));
        state.handle_key(InputKey::Char('j'));
        state.handle_key(InputKey::Enter);
        assert_eq!(state.screen, screen);
        assert_eq!(state.cursor, Some(0));
    }
}

#[test]
fn menu_selection_from_none_starts_at_the_ends() {
    let mut state = AppState { screen: Screen::Menu, cursor: None };
    state.handle_key(InputKey::Char('j'));
    assert_eq!(state.cursor, Some(0));
    let mut state = AppState { screen: Screen::Menu, cursor: None };
    state.handle_key(InputKey::Char('k'));
    assert_eq!(state.cursor, Some(2));
    let mut state = AppState { screen: Screen::Menu, cursor: None };
    let t = state.handle_key(InputKey::Enter);
    assert_eq!(t, Transition::Continue);
    assert_eq!(state.screen, Screen::Menu);
}

#[test]
fn chrome_blocks_carry_their_static_text() {
    assert_eq!(get_title().text, "weatherman 🌩️");
    assert_eq!(get_tabs().text, "7 day forecast");
    assert_eq!(get_controls().text, "Q: quit | M: menu ");
    assert_eq!(get_loading_message().text, "Loading...");
    let all = BorderSpec { top: true, bottom: true, left: true, right: true };
    assert_eq!(get_title().borders, all);
    assert_eq!(get_title().color, TextColor::LightBlue);
}

#[test]
fn menu_list_highlights_the_cursor_entry() {
    let menu = get_menu_list(Some(2));
    assert_eq!(menu.entries, vec!["forecast", "hourly", "options"]);
    assert_eq!(menu.selected, Some(2));
    let menu = get_menu_list(None);
    assert_eq!(menu.selected, None);
}

fn sample_day() -> weatherman::weather::DailyWeather {
    let daily = APIDaily {
        time: vec!["2024-03-05".to_string(); 7],
        temperature_2m_max: vec!["45.1".to_string(); 7],
        temperature_2m_min: vec!["31.5".to_string(); 7],
        sunrise: vec!["2024-03-05T06:42".to_string(); 7],
        sunset: vec!["2024-03-05T18:20".to_string(); 7],
        precipitation_sum: vec!["0.12".to_string(); 7],
        windspeed_10m_max: vec!["10.4".to_string(); 7],
    };
    let week = WeeklyForecast::from_daily(&daily).unwrap();
    week.days[0].clone()
}

#[test]
fn forecast_column_rows_are_in_fixed_order() {
    let day = sample_day();
    let blocks = get_forecast_paragraphs(&day, ForecastPosition::Middle);
    assert_eq!(blocks.len(), 8);
    assert_eq!(blocks[0].text, "03/05/2024");
    assert!(blocks[0].emphasized);
    assert_eq!(blocks[1].text, "");
    assert_eq!(blocks[2].text, "high: 45.1°F");
    assert_eq!(blocks[3].text, "low: 31.5°F");
    assert_eq!(blocks[4].text, "sunrise: 06:42");
    assert_eq!(blocks[5].text, "sunset: 18:20");
    assert_eq!(blocks[6].text, "precip: 0.12in");
    assert_eq!(blocks[7].text, "winds: 10.4mph");
}

#[test]
fn column_borders_follow_the_position() {
    let day = sample_day();
    let left = get_forecast_paragraphs(&day, ForecastPosition::Left);
    let middle = get_forecast_paragraphs(&day, ForecastPosition::Middle);
    let right = get_forecast_paragraphs(&day, ForecastPosition::Right);
    // a shared vertical edge is drawn by exactly one neighbour
    assert_eq!(left[3].borders, BorderSpec { top: false, bottom: false, left: true, right: false });
    assert_eq!(
        middle[3].borders,
        BorderSpec { top: false, bottom: false, left: true, right: true }
    );
    assert_eq!(
        right[3].borders,
        BorderSpec { top: false, bottom: false, left: false, right: true }
    );
    // the first data row closes the column at the top, the last at the bottom
    assert!(left[2].borders.top);
    assert!(!left[2].borders.bottom);
    assert!(left[7].borders.bottom);
    assert!(!left[7].borders.top);
    // the date header draws all four edges
    assert_eq!(left[0].borders, BorderSpec { top: true, bottom: true, left: true, right: true });
}

#[test]
fn forecast_frame_places_every_block() {
    let daily = APIDaily {
        time: vec!["2024-03-05".to_string(); 7],
        temperature_2m_max: vec!["45.1".to_string(); 7],
        temperature_2m_min: vec!["31.5".to_string(); 7],
        sunrise: vec!["2024-03-05T06:42".to_string(); 7],
        sunset: vec!["2024-03-05T18:20".to_string(); 7],
        precipitation_sum: vec!["0.12".to_string(); 7],
        windspeed_10m_max: vec!["10.4".to_string(); 7],
    };
    let week = WeeklyForecast::from_daily(&daily).unwrap();
    let area = weatherman::layout::Region { x: 0, y: 0, width: 140, height: 60 };
    let frame = weatherman::frame::build_forecast_frame(&week, area);
    assert_eq!(frame.len(), 59);
    assert_eq!(frame[0].block.text, "weatherman 🌩️");
    assert_eq!(frame[1].block.text, "7 day forecast");
    assert_eq!(frame[2].block.text, "Q: quit | M: menu ");
    // the chrome rows stack from the top of the screen
    assert_eq!(frame[0].region.y, 0);
    assert_eq!(frame[1].region.y, 5);
    assert_eq!(frame[2].region.y, 53);
    // each day's eight rows sit inside that day's column of the body row
    let body_y = 10; // title and tabs rows above it, 5 cells each
    for i in 0..7 {
        let column_blocks = &frame[3 + 8 * i..3 + 8 * (i + 1)];
        assert_eq!(column_blocks[0].block.text, "03/05/2024");
        assert_eq!(column_blocks[7].block.text, "winds: 10.4mph");
        let x = column_blocks[0].region.x;
        for p in column_blocks {
            assert_eq!(p.region.x, x);
            assert!(p.region.y >= body_y);
        }
    }
    let loading = weatherman::frame::build_loading_frame(area);
    assert_eq!(loading.block.text, "Loading...");
    let (menu, list_region) = weatherman::frame::build_menu_frame(Some(1), area);
    assert_eq!(menu.selected, Some(1));
    assert_eq!(menu.entries.len(), 3);
    assert_eq!(list_region.y, 19); // below the 33% title third of 60 rows
}
