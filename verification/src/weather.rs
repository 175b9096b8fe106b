use vstd::prelude::*;
use crate::text::{
    is_iso_date, display_of_iso, has_time_part, time_part_of, check_iso_date, reformat_date,
    extract_time,
};

verus! {

/// The `daily` object of a provider response: seven parallel arrays, one
/// entry per day, indexed by day offset. The decimal fields arrive already
/// rendered as text in their domain unit.
#[derive(Clone, Debug)]
pub struct APIDaily {
    pub time: Vec<String>,
    pub temperature_2m_max: Vec<String>,
    pub temperature_2m_min: Vec<String>,
    pub sunrise: Vec<String>,
    pub sunset: Vec<String>,
    pub precipitation_sum: Vec<String>,
    pub windspeed_10m_max: Vec<String>,
}

/// One calendar day's forecast, immutable once constructed.
#[derive(Clone, Debug)]
pub struct DailyWeather {
    /// ISO `YYYY-MM-DD` calendar date.
    pub date: String,
    pub max_temp: String,
    pub min_temp: String,
    /// Local time of day, `HH:MM`.
    pub sunrise: String,
    pub sunset: String,
    pub precipitation: String,
    pub max_windspeed: String,
}

/// The text `DailyWeather::display_string` renders: one labelled line per
/// field, the date in its display form.
pub open spec fn daily_display(day: DailyWeather) -> Seq<char> {
    "date: "@ + display_of_iso(day.date@) + "\nmax temp: "@ + day.max_temp@ + "\nmin temp: "@
        + day.min_temp@ + "\nsunrise: "@ + day.sunrise@ + "\nsunset: "@ + day.sunset@
        + "\nprecipitation: "@ + day.precipitation@ + "\nmax windspeed: "@ + day.max_windspeed@
}

impl DailyWeather {
    /// The date keeps the ISO shape it was validated with.
    pub open spec fn wf(self) -> bool {
        is_iso_date(self.date@)
    }

    /// Renders the day as text: one `label: value` line per field, with the
    /// date reformatted to its display form.
    pub fn display_string(&self) -> (r: String)
        requires
            self.wf(),
        ensures
            r@ == daily_display(*self),
    {
        let date: String = reformat_date(self.date.as_str());
        let mut r: String = String::from_str("date: ");
        r.append(date.as_str());
        r.append("\nmax temp: ");
        r.append(self.max_temp.as_str());
        r.append("\nmin temp: ");
        r.append(self.min_temp.as_str());
        r.append("\nsunrise: ");
        r.append(self.sunrise.as_str());
        r.append("\nsunset: ");
        r.append(self.sunset.as_str());
        r.append("\nprecipitation: ");
        r.append(self.precipitation.as_str());
        r.append("\nmax windspeed: ");
        r.append(self.max_windspeed.as_str());
        proof {
            assert(r@ =~= daily_display(*self));
        }
        r
    }

    /// The day as labelled pairs, in field order: what each line of the
    /// display text says, ready to be keyed by its label.
    pub fn to_entries(&self) -> (entries: Vec<(String, String)>)
        requires
            self.wf(),
        ensures
            entries@.len() == 7,
            entries@[0].0@ == "date"@ && entries@[0].1@ == display_of_iso(self.date@),
            entries@[1].0@ == "max temp"@ && entries@[1].1@ == self.max_temp@,
            entries@[2].0@ == "min temp"@ && entries@[2].1@ == self.min_temp@,
            entries@[3].0@ == "sunrise"@ && entries@[3].1@ == self.sunrise@,
            entries@[4].0@ == "sunset"@ && entries@[4].1@ == self.sunset@,
            entries@[5].0@ == "precipitation"@ && entries@[5].1@ == self.precipitation@,
            entries@[6].0@ == "max windspeed"@ && entries@[6].1@ == self.max_windspeed@,
    {
        let mut entries: Vec<(String, String)> = Vec::new();
        entries.push((String::from_str("date"), reformat_date(self.date.as_str())));
        entries.push((String::from_str("max temp"), self.max_temp.clone()));
        entries.push((String::from_str("min temp"), self.min_temp.clone()));
        entries.push((String::from_str("sunrise"), self.sunrise.clone()));
        entries.push((String::from_str("sunset"), self.sunset.clone()));
        entries.push((String::from_str("precipitation"), self.precipitation.clone()));
        entries.push((String::from_str("max windspeed"), self.max_windspeed.clone()));
        entries
    }
}

/// Why a provider response failed to construct a forecast.
#[derive(Clone, Copy, PartialEq, Eq, Structural, Debug)]
pub enum DecodeError {
    /// Some daily array does not hold exactly seven entries.
    LengthMismatch,
    /// Some date is not of the ISO `YYYY-MM-DD` shape.
    MalformedDate,
    /// Some sunrise or sunset datetime holds no time-of-day portion.
    MalformedTime,
}

/// Every daily array holds exactly one entry per day of the week.
pub open spec fn day_count_ok(d: APIDaily) -> bool {
    &&& d.time@.len() == 7
    &&& d.temperature_2m_max@.len() == 7
    &&& d.temperature_2m_min@.len() == 7
    &&& d.sunrise@.len() == 7
    &&& d.sunset@.len() == 7
    &&& d.precipitation_sum@.len() == 7
    &&& d.windspeed_10m_max@.len() == 7
}

/// Day `i` of the response is well formed: an ISO date, and sunrise and
/// sunset datetimes that hold a time of day.
pub open spec fn day_ok(d: APIDaily, i: int) -> bool {
    &&& is_iso_date(d.time@[i]@)
    &&& has_time_part(d.sunrise@[i]@)
    &&& has_time_part(d.sunset@[i]@)
}

/// A provider response a forecast can be constructed from.
pub open spec fn daily_ok(d: APIDaily) -> bool {
    &&& day_count_ok(d)
    &&& forall|i: int| 0 <= i < 7 ==> day_ok(d, i)
}

/// The first malformed day at or after `from`, or 7 if every day is well
/// formed.
pub open spec fn first_bad_day_from(d: APIDaily, from: int) -> int
    decreases 7 - from when 0 <= from <= 7
{
    if from >= 7 {
        7
    } else if !day_ok(d, from) {
        from
    } else {
        first_bad_day_from(d, from + 1)
    }
}

/// A scan that found days before `k` well formed and day `k` malformed (or
/// ran out of days) found the first malformed day.
proof fn lemma_first_bad_day_is(d: APIDaily, from: int, k: int)
    requires
        0 <= from <= k <= 7,
        forall|j: int| from <= j < k ==> day_ok(d, j),
        k == 7 || !day_ok(d, k),
    ensures
        first_bad_day_from(d, from) == k,
    decreases k - from,
{
    if from < k {
        lemma_first_bad_day_is(d, from + 1, k);
    }
}

/// Entry `i` of `days` carries day `i` of the response: the fields as they
/// arrived, except that sunrise and sunset keep only the time-of-day portion
/// after the `'T'`.
pub open spec fn days_match(days: Seq<DailyWeather>, d: APIDaily, i: int) -> bool {
    &&& days[i].date@ == d.time@[i]@
    &&& days[i].max_temp@ == d.temperature_2m_max@[i]@
    &&& days[i].min_temp@ == d.temperature_2m_min@[i]@
    &&& days[i].sunrise@ == time_part_of(d.sunrise@[i]@)
    &&& days[i].sunset@ == time_part_of(d.sunset@[i]@)
    &&& days[i].precipitation@ == d.precipitation_sum@[i]@
    &&& days[i].max_windspeed@ == d.windspeed_10m_max@[i]@
}

/// An ordered sequence of one week's daily forecasts: index 0 is today,
/// index 6 six days ahead.
#[derive(Clone, Debug)]
pub struct WeeklyForecast {
    pub days: Vec<DailyWeather>,
}

impl WeeklyForecast {
    /// The length is fixed at seven once construction succeeds, and every
    /// day carries a validated date.
    pub open spec fn wf(self) -> bool {
        &&& self.days@.len() == 7
        &&& forall|i: int| 0 <= i < 7 ==> (#[trigger] self.days@[i]).wf()
    }

    /// Day `i` of the forecast carries day `i` of the response: the fields
    /// as they arrived, except that sunrise and sunset keep only the
    /// time-of-day portion after the `'T'`.
    pub open spec fn day_matches(self, d: APIDaily, i: int) -> bool {
        days_match(self.days@, d, i)
    }

    /// Constructs the week's forecast from a decoded provider response.
    /// Succeeds exactly on well-formed seven-day responses; the days come
    /// out in the order they arrived, with no reordering. A short or
    /// malformed response fails the whole construction: there is no partial
    /// forecast.
    pub fn from_daily(daily: &APIDaily) -> (r: Result<WeeklyForecast, DecodeError>)
        ensures
            r is Ok <==> daily_ok(*daily),
            r matches Ok(w) ==> {
                &&& w.wf()
                &&& w.days@.len() == 7
                &&& forall|i: int| 0 <= i < 7 ==> w.day_matches(*daily, i)
            },
            !day_count_ok(*daily) ==> r == Result::<WeeklyForecast, DecodeError>::Err(
                DecodeError::LengthMismatch,
            ),
            day_count_ok(*daily) && !daily_ok(*daily) ==> {
                let b = first_bad_day_from(*daily, 0);
                if !is_iso_date(daily.time@[b]@) {
                    r == Result::<WeeklyForecast, DecodeError>::Err(DecodeError::MalformedDate)
                } else {
                    r == Result::<WeeklyForecast, DecodeError>::Err(DecodeError::MalformedTime)
                }
            },
    {
        if daily.time.len() != 7 || daily.temperature_2m_max.len() != 7
            || daily.temperature_2m_min.len() != 7 || daily.sunrise.len() != 7
            || daily.sunset.len() != 7 || daily.precipitation_sum.len() != 7
            || daily.windspeed_10m_max.len() != 7 {
            return Err(DecodeError::LengthMismatch);
        }
        let mut days: Vec<DailyWeather> = Vec::new();
        let mut i: usize = 0;
        while i < 7
            invariant
                day_count_ok(*daily),
                0 <= i <= 7,
                days@.len() == i,
                forall|j: int| 0 <= j < i ==> day_ok(*daily, j),
                forall|j: int| 0 <= j < i ==> (#[trigger] days@[j]).wf(),
                forall|j: int| 0 <= j < i ==> days_match(days@, *daily, j),
            decreases 7 - i,
        {
            if !check_iso_date(daily.time[i].as_str()) {
                proof {
                    lemma_first_bad_day_is(*daily, 0, i as int);
                }
                return Err(DecodeError::MalformedDate);
            }
            let sunrise: String = match extract_time(daily.sunrise[i].as_str()) {
                Some(t) => t,
                None => {
                    proof {
                        assert(!day_ok(*daily, i as int));
                        lemma_first_bad_day_is(*daily, 0, i as int);
                        assert(!daily_ok(*daily));
                    }
                    return Err(DecodeError::MalformedTime);
                },
            };
            let sunset: String = match extract_time(daily.sunset[i].as_str()) {
                Some(t) => t,
                None => {
                    proof {
                        assert(!day_ok(*daily, i as int));
                        lemma_first_bad_day_is(*daily, 0, i as int);
                        assert(!daily_ok(*daily));
                    }
                    return Err(DecodeError::MalformedTime);
                },
            };
            let day = DailyWeather {
                date: daily.time[i].clone(),
                max_temp: daily.temperature_2m_max[i].clone(),
                min_temp: daily.temperature_2m_min[i].clone(),
                sunrise,
                sunset,
                precipitation: daily.precipitation_sum[i].clone(),
                max_windspeed: daily.windspeed_10m_max[i].clone(),
            };
            let ghost prev = days@;
            days.push(day);
            proof {
                assert forall|j: int| 0 <= j <= i as int implies days_match(
                    days@,
                    *daily,
                    j,
                ) by {
                    if j < i as int {
                        assert(days@[j] == prev[j]);
                        assert(days_match(prev, *daily, j));
                    } else {
                        assert(days@[j] == day);
                    }
                }
            }
            i = i + 1;
        }
        Ok(WeeklyForecast { days })
    }

    /// Renders the week as text: each day's display text, one after the
    /// other, a line break after each.
    pub fn display_string(&self) -> (r: String)
        requires
            self.wf(),
        ensures
            r@ == weekly_display(self.days@, 7),
    {
        let mut r: String = String::new();
        let mut i: usize = 0;
        while i < 7
            invariant
                self.wf(),
                0 <= i <= 7,
                r@ == weekly_display(self.days@, i as int),
            decreases 7 - i,
        {
            let line: String = self.days[i].display_string();
            r.append(line.as_str());
            r.append("\n");
            i = i + 1;
        }
        r
    }
}

/// The text the first `i` days of the week render to: each day's display
/// text with a newline after it.
pub open spec fn weekly_display(days: Seq<DailyWeather>, i: int) -> Seq<char>
    decreases i,
{
    if i <= 0 {
        Seq::empty()
    } else {
        weekly_display(days, i - 1) + daily_display(days[i - 1]) + "\n"@
    }
}

} // verus!
