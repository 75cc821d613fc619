//! Plain rendering of forecast periods into report lines.
//!
//! Rendering is a pure function from the ordered period sequence to one
//! line per period; the periods keep the provider's order. Decoration
//! (color, separators, headers) is presentation and stays outside the
//! library.

use vstd::prelude::*;
use vstd::string::StringExecFns;

use crate::numfmt::{dec_int, i32_dec_string};
use crate::weatherdotgov::{HourlyPeriod, Period};

verus! {

/// The report line for a detailed period: its label, then its narrative.
pub open spec fn detailed_line_spec(p: Period) -> Seq<char> {
    p.name@ + ": "@ + p.detailed_forecast@
}

/// The report line for an hourly period: start time, temperature with
/// unit, short forecast, and wind.
pub open spec fn hourly_line_spec(p: HourlyPeriod) -> Seq<char> {
    p.start_time@ + ": "@ + dec_int(p.temperature as int) + "°"@ + p.temperature_unit@ + " | "@
        + p.short_forecast@ + " | Wind: "@ + p.wind_speed@ + " "@ + p.wind_direction@
}

/// Renders the detailed periods, one line per period, in order.
pub fn render_detailed(periods: &Vec<Period>) -> (lines: Vec<String>)
    ensures
        lines@.len() == periods@.len(),
        forall|i: int|
            0 <= i < periods@.len() ==> #[trigger] lines@[i]@ == detailed_line_spec(periods@[i]),
{
    let mut lines: Vec<String> = Vec::new();
    let mut i: usize = 0;
    while i < periods.len()
        invariant
            0 <= i <= periods@.len(),
            lines@.len() == i,
            forall|j: int|
                0 <= j < i ==> #[trigger] lines@[j]@ == detailed_line_spec(periods@[j]),
        decreases periods@.len() - i,
    {
        let p = &periods[i];
        let mut line = p.name.clone();
        line.append(": ");
        line.append(p.detailed_forecast.as_str());
        lines.push(line);
        i += 1;
    }
    lines
}

/// Renders the hourly periods, one line per period, in order.
pub fn render_hourly(periods: &Vec<HourlyPeriod>) -> (lines: Vec<String>)
    ensures
        lines@.len() == periods@.len(),
        forall|i: int|
            0 <= i < periods@.len() ==> #[trigger] lines@[i]@ == hourly_line_spec(periods@[i]),
{
    let mut lines: Vec<String> = Vec::new();
    let mut i: usize = 0;
    while i < periods.len()
        invariant
            0 <= i <= periods@.len(),
            lines@.len() == i,
            forall|j: int| 0 <= j < i ==> #[trigger] lines@[j]@ == hourly_line_spec(periods@[j]),
        decreases periods@.len() - i,
    {
        let p = &periods[i];
        let mut line = p.start_time.clone();
        line.append(": ");
        line.append(i32_dec_string(p.temperature).as_str());
        line.append("°");
        line.append(p.temperature_unit.as_str());
        line.append(" | ");
        line.append(p.short_forecast.as_str());
        line.append(" | Wind: ");
        line.append(p.wind_speed.as_str());
        line.append(" ");
        line.append(p.wind_direction.as_str());
        lines.push(line);
        i += 1;
    }
    lines
}

} // verus!
