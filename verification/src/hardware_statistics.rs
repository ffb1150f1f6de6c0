//! The hardware telemetry cache. A snapshot is kept for `REFRESH_INTERVAL`; a call that
//! finds it older asks for one query of the telemetry source and replaces the snapshot
//! as a whole with what came back, the error text included where the query failed.
//!
//! Time is a count of nanoseconds on a clock that never runs backwards.

use vstd::prelude::*;
use crate::text::line_block;
use crate::text::prefixed;
use crate::text::push_lines;
use crate::text::push_prefixed;

verus! {

/// How long a snapshot is served before it is stale: sixty seconds.
pub const REFRESH_INTERVAL: u64 = 60_000_000_000;

/// How many cooling recommendations go into the suggestions.
pub const COOLING_SUGGESTIONS: usize = 2;

/// What the telemetry source says of power management.
#[derive(Clone, Debug)]
pub struct PowerReading {
    /// The power state, as text.
    pub power_state: String,
    /// The total power draw in watts, as text with one decimal, where it is known.
    pub power_draw: Option<String>,
    /// The recommendations to save power.
    pub optimizations: Vec<String>,
}

/// What the telemetry source says of a machine with temperature sensors.
#[derive(Clone, Debug)]
pub struct ThermalReading {
    /// The highest temperature in degrees Celsius, as text with one decimal.
    pub max_temperature: String,
    /// The thermal status, as text.
    pub status: String,
    /// The severity of the throttling that is predicted, where any is.
    pub throttling: Option<String>,
    /// The recommendations to cool the machine, the most useful first.
    pub cooling: Vec<String>,
}

/// One answer of the telemetry source.
#[derive(Clone, Debug)]
pub struct HardwareReading {
    /// Absent where the machine has no power profile.
    pub power: Option<PowerReading>,
    /// Absent where the machine has no temperature sensor.
    pub thermal: Option<ThermalReading>,
}

/// A power reading as contracts see it.
pub struct PowerView {
    pub power_state: Seq<char>,
    pub power_draw: Option<Seq<char>>,
    pub optimizations: Seq<Seq<char>>,
}

/// A thermal reading as contracts see it.
pub struct ThermalView {
    pub max_temperature: Seq<char>,
    pub status: Seq<char>,
    pub throttling: Option<Seq<char>>,
    pub cooling: Seq<Seq<char>>,
}

/// An answer of the telemetry source as contracts see it.
pub struct ReadingView {
    pub power: Option<PowerView>,
    pub thermal: Option<ThermalView>,
}

impl View for PowerReading {
    type V = PowerView;

    open spec fn view(&self) -> PowerView {
        PowerView {
            power_state: self.power_state@,
            power_draw: match self.power_draw {
                Some(draw) => Some(draw@),
                None => None,
            },
            optimizations: self.optimizations.deep_view(),
        }
    }
}

impl View for ThermalReading {
    type V = ThermalView;

    open spec fn view(&self) -> ThermalView {
        ThermalView {
            max_temperature: self.max_temperature@,
            status: self.status@,
            throttling: match self.throttling {
                Some(severity) => Some(severity@),
                None => None,
            },
            cooling: self.cooling.deep_view(),
        }
    }
}

impl View for HardwareReading {
    type V = ReadingView;

    open spec fn view(&self) -> ReadingView {
        ReadingView {
            power: match self.power {
                Some(power) => Some(power@),
                None => None,
            },
            thermal: match self.thermal {
                Some(thermal) => Some(thermal@),
                None => None,
            },
        }
    }
}

/// The outcome of one query of the telemetry source, as contracts see it: a reading, or
/// the text of the error.
pub open spec fn outcome_view(outcome: Result<HardwareReading, String>) -> Result<
    ReadingView,
    Seq<char>,
> {
    match outcome {
        Ok(reading) => Ok(reading@),
        Err(error) => Err(error@),
    }
}

/// The cached snapshot.
#[derive(Clone, Debug)]
pub struct HardwareMonitorState {
    /// When the snapshot was taken; `None` before the first refresh.
    pub last_update: Option<u64>,
    pub power_info: Option<String>,
    pub thermal_info: Option<String>,
    pub optimization_suggestions: Vec<String>,
}

/// A snapshot as contracts see it.
pub struct HardwareSnapshot {
    pub last_refreshed: Option<u64>,
    pub power_summary: Option<Seq<char>>,
    pub thermal_summary: Option<Seq<char>>,
    pub suggestions: Seq<Seq<char>>,
}

impl View for HardwareMonitorState {
    type V = HardwareSnapshot;

    open spec fn view(&self) -> HardwareSnapshot {
        HardwareSnapshot {
            last_refreshed: self.last_update,
            power_summary: match self.power_info {
                Some(text) => Some(text@),
                None => None,
            },
            thermal_summary: match self.thermal_info {
                Some(text) => Some(text@),
                None => None,
            },
            suggestions: self.optimization_suggestions.deep_view(),
        }
    }
}

impl Default for HardwareMonitorState {
    /// A cache that holds nothing yet, so that the first call refreshes it.
    fn default() -> (state: HardwareMonitorState)
        ensures
            state@.last_refreshed is None,
            state@.power_summary is None,
            state@.thermal_summary is None,
            state@.suggestions == Seq::<Seq<char>>::empty(),
    {
        HardwareMonitorState {
            last_update: None,
            power_info: None,
            thermal_info: None,
            optimization_suggestions: Vec::new(),
        }
    }
}

/// Whether a snapshot last refreshed at `last` is stale at `now`: none was taken yet, or
/// more than `REFRESH_INTERVAL` has passed since.
pub open spec fn is_stale(last: Option<u64>, now: u64) -> bool {
    match last {
        None => true,
        Some(at) => now - at > REFRESH_INTERVAL,
    }
}

/// The power summary of a reading.
pub open spec fn power_summary(power: Option<PowerView>) -> Seq<char> {
    match power {
        Some(power) => "Power State: "@ + power.power_state + "\n"@ + match power.power_draw {
            Some(draw) => "Current Power Draw: "@ + draw + "W\n"@,
            None => Seq::empty(),
        },
        None => "Power information not available\n"@,
    }
}

/// The thermal summary of a reading.
pub open spec fn thermal_summary(thermal: Option<ThermalView>) -> Seq<char> {
    match thermal {
        Some(thermal) => "Max Temperature: "@ + thermal.max_temperature + "°C\n"@
            + "Thermal Status: "@ + thermal.status + "\n"@ + match thermal.throttling {
            Some(severity) => "⚠️ Thermal throttling predicted: "@ + severity + "\n"@,
            None => Seq::empty(),
        },
        None => "Thermal information not available\n"@,
    }
}

/// The suggestions of a reading: every power optimization, then the thermal alert where
/// throttling is predicted, then the first `COOLING_SUGGESTIONS` cooling recommendations.
pub open spec fn suggestions(reading: ReadingView) -> Seq<Seq<char>> {
    (match reading.power {
        Some(power) => prefixed("💡 "@, power.optimizations, power.optimizations.len()),
        None => Seq::empty(),
    }) + (match reading.thermal {
        Some(thermal) => (match thermal.throttling {
            Some(severity) => seq!["🚨 Thermal alert: "@ + severity],
            None => Seq::empty(),
        }) + prefixed("🌡️ "@, thermal.cooling, COOLING_SUGGESTIONS as nat),
        None => Seq::empty(),
    })
}

/// The snapshot that replaces the old one after a query at `now` came back with
/// `outcome`. A failed query leaves its error text as both summaries and no suggestion.
pub open spec fn refreshed(outcome: Result<ReadingView, Seq<char>>, now: u64)
    -> HardwareSnapshot {
    match outcome {
        Ok(reading) => HardwareSnapshot {
            last_refreshed: Some(now),
            power_summary: Some(power_summary(reading.power)),
            thermal_summary: Some(thermal_summary(reading.thermal)),
            suggestions: suggestions(reading),
        },
        Err(error) => HardwareSnapshot {
            last_refreshed: Some(now),
            power_summary: Some("Error querying hardware: "@ + error),
            thermal_summary: Some("Error querying hardware: "@ + error),
            suggestions: Seq::empty(),
        },
    }
}

/// The text of the hardware section of the status report.
pub open spec fn hardware_status(snapshot: HardwareSnapshot) -> Seq<char> {
    "\n=== Power Information ===\n"@ + (match snapshot.power_summary {
        Some(text) => text,
        None => "Power info not available\n"@,
    }) + "\n=== Thermal Information ===\n"@ + (match snapshot.thermal_summary {
        Some(text) => text,
        None => "Thermal info not available\n"@,
    }) + (if snapshot.suggestions.len() > 0 {
        "\n=== Optimization Suggestions ===\n"@ + line_block(Seq::empty(), snapshot.suggestions)
    } else {
        Seq::empty()
    })
}

/// Writes the power summary of a reading.
fn write_power_summary(power: &Option<PowerReading>) -> (text: String)
    ensures
        text@ == power_summary(
            match *power {
                Some(power) => Some(power@),
                None => None,
            },
        ),
{
    match power {
        Some(power) => {
            let mut text = String::from_str("Power State: ");
            text.append(power.power_state.as_str());
            text.append("\n");
            match &power.power_draw {
                Some(draw) => {
                    text.append("Current Power Draw: ");
                    text.append(draw.as_str());
                    text.append("W\n");
                    assert(text@ =~= "Power State: "@ + power.power_state@ + "\n"@ + (
                    "Current Power Draw: "@ + draw@ + "W\n"@));
                },
                None => {
                    assert(text@ =~= "Power State: "@ + power.power_state@ + "\n"@
                        + Seq::<char>::empty());
                },
            }
            text
        },
        None => String::from_str("Power information not available\n"),
    }
}

/// Writes the thermal summary of a reading.
fn write_thermal_summary(thermal: &Option<ThermalReading>) -> (text: String)
    ensures
        text@ == thermal_summary(
            match *thermal {
                Some(thermal) => Some(thermal@),
                None => None,
            },
        ),
{
    match thermal {
        Some(thermal) => {
            let mut text = String::from_str("Max Temperature: ");
            text.append(thermal.max_temperature.as_str());
            text.append("°C\n");
            text.append("Thermal Status: ");
            text.append(thermal.status.as_str());
            text.append("\n");
            let ghost head = "Max Temperature: "@ + thermal.max_temperature@ + "°C\n"@
                + "Thermal Status: "@ + thermal.status@ + "\n"@;
            assert(text@ =~= head);
            match &thermal.throttling {
                Some(severity) => {
                    text.append("⚠️ Thermal throttling predicted: ");
                    text.append(severity.as_str());
                    text.append("\n");
                    assert(text@ =~= head + ("⚠️ Thermal throttling predicted: "@ + severity@
                        + "\n"@));
                },
                None => {
                    assert(text@ =~= head + Seq::<char>::empty());
                },
            }
            text
        },
        None => String::from_str("Thermal information not available\n"),
    }
}

/// Collects the suggestions of a reading.
fn collect_suggestions(reading: &HardwareReading) -> (lines: Vec<String>)
    ensures
        lines.deep_view() == suggestions(reading@),
{
    let mut lines: Vec<String> = Vec::new();
    assert(lines.deep_view() =~= Seq::<Seq<char>>::empty());
    match &reading.power {
        Some(power) => {
            push_prefixed(&mut lines, "💡 ", &power.optimizations, power.optimizations.len());
        },
        None => {},
    }
    let ghost from_power = lines.deep_view();
    assert(from_power =~= match reading@.power {
        Some(power) => prefixed("💡 "@, power.optimizations, power.optimizations.len()),
        None => Seq::empty(),
    });
    match &reading.thermal {
        Some(thermal) => {
            match &thermal.throttling {
                Some(severity) => {
                    let mut alert = String::from_str("🚨 Thermal alert: ");
                    alert.append(severity.as_str());
                    lines.push(alert);
                    assert(lines.deep_view() =~= from_power + seq![
                        "🚨 Thermal alert: "@ + severity@,
                    ]);
                },
                None => {
                    assert(lines.deep_view() =~= from_power + Seq::<Seq<char>>::empty());
                },
            }
            let ghost with_alert = lines.deep_view();
            push_prefixed(&mut lines, "🌡️ ", &thermal.cooling, COOLING_SUGGESTIONS);
            assert(lines.deep_view() =~= from_power + ((match thermal@.throttling {
                Some(severity) => seq!["🚨 Thermal alert: "@ + severity],
                None => Seq::empty(),
            }) + prefixed("🌡️ "@, thermal@.cooling, COOLING_SUGGESTIONS as nat)));
        },
        None => {
            assert(lines.deep_view() =~= from_power + Seq::<Seq<char>>::empty());
        },
    }
    lines
}

impl HardwareMonitorState {
    /// Whether the snapshot is stale at `now`, so that the telemetry source is to be
    /// queried before the snapshot is served.
    pub fn needs_refresh(&self, now: u64) -> (stale: bool)
        ensures
            stale == is_stale(self@.last_refreshed, now),
    {
        match self.last_update {
            None => true,
            Some(at) => now > at && now - at > REFRESH_INTERVAL,
        }
    }

    /// The snapshot at `now`. Where the cached one is stale, `query` is called, once, and
    /// what it returns replaces the snapshot; else the cache is left as it is and `query`
    /// is not called.
    pub fn get_snapshot<F: FnOnce() -> Result<HardwareReading, String>>(
        &mut self,
        now: u64,
        query: F,
    ) -> (snapshot: &HardwareMonitorState)
        requires
            query.requires(()),
        ensures
            snapshot@ == final(self)@,
            !is_stale(old(self)@.last_refreshed, now) ==> final(self)@ == old(self)@,
            is_stale(old(self)@.last_refreshed, now) ==> exists|outcome: Result<
                HardwareReading,
                String,
            >| #[trigger]
                query.ensures((), outcome) && final(self)@ == refreshed(
                    outcome_view(outcome),
                    now,
                ),
    {
        if self.needs_refresh(now) {
            let outcome = query();
            update_hardware_info(self, outcome, now);
        }
        self
    }
}

/// Replaces the snapshot as a whole with what a query at `now` came back with.
pub fn update_hardware_info(
    hardware_state: &mut HardwareMonitorState,
    outcome: Result<HardwareReading, String>,
    now: u64,
)
    ensures
        final(hardware_state)@ == refreshed(outcome_view(outcome), now),
{
    match outcome {
        Ok(reading) => {
            let power_output = write_power_summary(&reading.power);
            let thermal_output = write_thermal_summary(&reading.thermal);
            let lines = collect_suggestions(&reading);
            *hardware_state = HardwareMonitorState {
                last_update: Some(now),
                power_info: Some(power_output),
                thermal_info: Some(thermal_output),
                optimization_suggestions: lines,
            };
        },
        Err(error) => {
            let mut error_msg = String::from_str("Error querying hardware: ");
            error_msg.append(error.as_str());
            *hardware_state = HardwareMonitorState {
                last_update: Some(now),
                power_info: Some(error_msg.clone()),
                thermal_info: Some(error_msg),
                optimization_suggestions: Vec::new(),
            };
            assert(hardware_state@.suggestions =~= Seq::<Seq<char>>::empty());
        },
    }
}

/// Writes the hardware section of the status report from the cached snapshot.
pub fn get_hardware_status(hardware_state: &HardwareMonitorState) -> (output: String)
    ensures
        output@ == hardware_status(hardware_state@),
{
    let mut output = String::new();
    output.append("\n=== Power Information ===\n");
    match &hardware_state.power_info {
        Some(power_info) => output.append(power_info.as_str()),
        None => output.append("Power info not available\n"),
    }
    output.append("\n=== Thermal Information ===\n");
    match &hardware_state.thermal_info {
        Some(thermal_info) => output.append(thermal_info.as_str()),
        None => output.append("Thermal info not available\n"),
    }
    let ghost head = output@;
    if hardware_state.optimization_suggestions.len() > 0 {
        output.append("\n=== Optimization Suggestions ===\n");
        push_lines(&mut output, "", &hardware_state.optimization_suggestions);
        proof {
            reveal_strlit("");
            assert(""@ =~= Seq::<char>::empty());
            assert(output@ =~= head + ("\n=== Optimization Suggestions ===\n"@ + line_block(
                Seq::empty(),
                hardware_state@.suggestions,
            )));
        }
    } else {
        assert(output@ =~= head + Seq::<char>::empty());
    }
    output
}

/// The number of queries that a run of `get_snapshot` issues when it is called at the
/// times `times`, one call after the other, on a cache last refreshed at `last`: a call
/// that finds the snapshot stale issues one query and stamps the snapshot with its time.
pub open spec fn queries_issued(last: Option<u64>, times: Seq<u64>) -> nat
    decreases times.len(),
{
    if times.len() == 0 {
        0
    } else if is_stale(last, times.first()) {
        1 + queries_issued(Some(times.first()), times.drop_first())
    } else {
        queries_issued(last, times.drop_first())
    }
}

/// Calls within one interval of the time `start` issue no query on a cache that was
/// refreshed at or after `start`.
pub proof fn lemma_fresh_cache_is_not_queried(refreshed_at: u64, times: Seq<u64>, start: u64)
    requires
        start <= refreshed_at,
        forall|i: int| 0 <= i < times.len() ==> #[trigger] times[i] <= start + REFRESH_INTERVAL,
    ensures
        queries_issued(Some(refreshed_at), times) == 0,
    decreases times.len(),
{
    if times.len() > 0 {
        assert(times.first() == times[0]);
        let rest = times.drop_first();
        assert forall|i: int| 0 <= i < rest.len() implies #[trigger] rest[i] <= start
            + REFRESH_INTERVAL by {
            assert(rest[i] == times[i + 1]);
        }
        lemma_fresh_cache_is_not_queried(refreshed_at, rest, start);
    }
}

/// However often and in whatever order the snapshot is asked for within one interval,
/// at most one query is issued.
pub proof fn lemma_one_query_per_interval(last: Option<u64>, times: Seq<u64>, start: u64)
    requires
        forall|i: int|
            0 <= i < times.len() ==> start <= #[trigger] times[i] <= start + REFRESH_INTERVAL,
    ensures
        queries_issued(last, times) <= 1,
    decreases times.len(),
{
    if times.len() > 0 {
        assert(times.first() == times[0]);
        let rest = times.drop_first();
        assert forall|i: int| 0 <= i < rest.len() implies start <= #[trigger] rest[i] <= start
            + REFRESH_INTERVAL by {
            assert(rest[i] == times[i + 1]);
        }
        if is_stale(last, times.first()) {
            lemma_fresh_cache_is_not_queried(times.first(), rest, start);
        } else {
            lemma_one_query_per_interval(last, rest, start);
        }
    }
}

/// Once more than an interval has passed since the last refresh, the next call issues a
/// query, and the calls within an interval of that call issue none: exactly one in all.
pub proof fn lemma_one_refresh_after_interval(refreshed_at: u64, times: Seq<u64>)
    requires
        times.len() > 0,
        times[0] - refreshed_at > REFRESH_INTERVAL,
        forall|i: int|
            0 <= i < times.len() ==> #[trigger] times[i] <= times[0] + REFRESH_INTERVAL,
    ensures
        queries_issued(Some(refreshed_at), times) == 1,
{
    assert(times.first() == times[0]);
    let rest = times.drop_first();
    assert forall|i: int| 0 <= i < rest.len() implies #[trigger] rest[i] <= times[0]
        + REFRESH_INTERVAL by {
        assert(rest[i] == times[i + 1]);
    }
    lemma_fresh_cache_is_not_queried(times[0], rest, times[0]);
}

} // verus!
