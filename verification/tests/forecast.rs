use weatherman::weather::{APIDaily, DecodeError, WeeklyForecast};

fn strings(items: &[&str]) -> Vec<String> {
    items.iter().map(|s| s.to_string()).collect()
}

fn valid_daily() -> APIDaily {
    APIDaily {
        time: strings(&[
            "2024-03-05",
            "2024-03-06",
            "2024-03-07",
            "2024-03-08",
            "2024-03-09",
            "2024-03-10",
            "2024-03-11",
        ]),
        temperature_2m_max: strings(&["45.1", "47.9", "50.2", "52.0", "49.3", "44.8", "41.0"]),
        temperature_2m_min: strings(&["31.5", "33.0", "35.8", "37.2", "34.9", "30.1", "28.4"]),
        sunrise: strings(&[
            "2024-03-05T06:42",
            "2024-03-06T06:40",
            "2024-03-07T06:39",
            "2024-03-08T06:37",
            "2024-03-09T06:35",
            "2024-03-10T07:34",
            "2024-03-11T07:32",
        ]),
        sunset: strings(&[
            "2024-03-05T18:20",
            "2024-03-06T18:21",
            "2024-03-07T18:22",
            "2024-03-08T18:24",
            "2024-03-09T18:25",
            "2024-03-10T19:26",
            "2024-03-11T19:27",
        ]),
        precipitation_sum: strings(&["0.00", "0.12", "0.05", "0.00", "0.33", "0.08", "0.00"]),
        windspeed_10m_max: strings(&["10.4", "12.1", "9.8", "14.3", "11.0", "8.7", "13.5"]),
    }
}

#[test]
fn seven_day_response_constructs_in_order() {
    let daily = valid_daily();
    let week = WeeklyForecast::from_daily(&daily).unwrap();
    assert_eq!(week.days.len(), 7);
    for i in 0..7 {
        assert_eq!(week.days[i].date, daily.time[i]);
        assert_eq!(week.days[i].max_temp, daily.temperature_2m_max[i]);
        assert_eq!(week.days[i].min_temp, daily.temperature_2m_min[i]);
        assert_eq!(week.days[i].precipitation, daily.precipitation_sum[i]);
        assert_eq!(week.days[i].max_windspeed, daily.windspeed_10m_max[i]);
    }
}

#[test]
fn sunrise_sunset_keep_only_time_of_day() {
    let daily = valid_daily();
    let week = WeeklyForecast::from_daily(&daily).unwrap();
    assert_eq!(week.days[0].sunrise, "06:42");
    assert_eq!(week.days[0].sunset, "18:20");
    assert_eq!(week.days[6].sunrise, "07:32");
    assert_eq!(week.days[6].sunset, "19:27");
}

#[test]
fn short_response_fails_with_length_mismatch() {
    let mut daily = valid_daily();
    daily.time.pop();
    let r = WeeklyForecast::from_daily(&daily);
    assert_eq!(r.unwrap_err(), DecodeError::LengthMismatch);
}

#[test]
fn empty_response_fails_with_length_mismatch() {
    let daily = APIDaily {
        time: vec![],
        temperature_2m_max: vec![],
        temperature_2m_min: vec![],
        sunrise: vec![],
        sunset: vec![],
        precipitation_sum: vec![],
        windspeed_10m_max: vec![],
    };
    let r = WeeklyForecast::from_daily(&daily);
    assert_eq!(r.unwrap_err(), DecodeError::LengthMismatch);
}

#[test]
fn bad_date_fails_with_malformed_date() {
    let mut daily = valid_daily();
    daily.time[3] = "2024/03/08".to_string();
    let r = WeeklyForecast::from_daily(&daily);
    assert_eq!(r.unwrap_err(), DecodeError::MalformedDate);
}

#[test]
fn sunrise_without_time_fails_with_malformed_time() {
    let mut daily = valid_daily();
    daily.sunrise[2] = "2024-03-07".to_string();
    let r = WeeklyForecast::from_daily(&daily);
    assert_eq!(r.unwrap_err(), DecodeError::MalformedTime);
}

#[test]
fn first_bad_day_decides_the_error() {
    let mut daily = valid_daily();
    daily.time[1] = "bad".to_string();
    daily.sunset[0] = "no time here".to_string();
    let r = WeeklyForecast::from_daily(&daily);
    assert_eq!(r.unwrap_err(), DecodeError::MalformedTime);
}

#[test]
fn daily_display_lists_every_field() {
    let daily = valid_daily();
    let week = WeeklyForecast::from_daily(&daily).unwrap();
    let text = week.days[0].display_string();
    assert_eq!(
        text,
        "date: 03/05/2024\nmax temp: 45.1\nmin temp: 31.5\nsunrise: 06:42\nsunset: 18:20\nprecipitation: 0.00\nmax windspeed: 10.4"
    );
}

#[test]
fn weekly_display_joins_days_with_blank_lines() {
    let daily = valid_daily();
    let week = WeeklyForecast::from_daily(&daily).unwrap();
    let text = week.display_string();
    let first = week.days[0].display_string();
    assert!(text.starts_with(&format!("{}\n", first)));
    assert_eq!(text.matches("date: ").count(), 7);
    assert!(text.ends_with('\n'));
}

#[test]
fn entries_pair_labels_with_values() {
    let daily = valid_daily();
    let week = WeeklyForecast::from_daily(&daily).unwrap();
    let entries = week.days[1].to_entries();
    assert_eq!(entries.len(), 7);
    assert_eq!(entries[0], ("date".to_string(), "03/06/2024".to_string()));
    assert_eq!(entries[1], ("max temp".to_string(), "47.9".to_string()));
    assert_eq!(entries[2], ("min temp".to_string(), "33.0".to_string()));
    assert_eq!(entries[3], ("sunrise".to_string(), "06:40".to_string()));
    assert_eq!(entries[4], ("sunset".to_string(), "18:21".to_string()));
    assert_eq!(entries[5], ("precipitation".to_string(), "0.12".to_string()));
    assert_eq!(entries[6], ("max windspeed".to_string(), "12.1".to_string()));
}
