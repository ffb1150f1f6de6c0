//! The network sections of the status report: the totals of each interface, and the
//! traffic between two measurements.

use vstd::prelude::*;
use crate::text::decimal;
use crate::text::decimal_string;
use crate::text::same_text;

verus! {

/// The number of bytes in a megabyte, as the report counts them.
pub const BYTES_PER_MEGABYTE: u64 = 1_048_576;

/// The byte counters of one network interface.
#[derive(Clone, Debug)]
pub struct InterfaceTotals {
    pub name: String,
    pub received: u64,
    pub transmitted: u64,
}

/// The counters of an interface as contracts see them.
pub struct TotalsView {
    pub name: Seq<char>,
    pub received: u64,
    pub transmitted: u64,
}

impl View for InterfaceTotals {
    type V = TotalsView;

    open spec fn view(&self) -> TotalsView {
        TotalsView { name: self.name@, received: self.received, transmitted: self.transmitted }
    }
}

impl DeepView for InterfaceTotals {
    type V = TotalsView;

    open spec fn deep_view(&self) -> TotalsView {
        self@
    }
}

/// The line that reports the totals of one interface, in whole megabytes.
pub open spec fn totals_line(totals: TotalsView) -> Seq<char> {
    totals.name + ": "@ + decimal((totals.received / BYTES_PER_MEGABYTE) as nat)
        + " MB (down) / "@ + decimal((totals.transmitted / BYTES_PER_MEGABYTE) as nat)
        + " MB (Up)"@
}

/// Writes one line for each interface, in the order given.
pub fn network_info(interfaces: &Vec<InterfaceTotals>) -> (output: Vec<String>)
    ensures
        output.deep_view() == Seq::new(
            interfaces.len() as nat,
            |i: int| totals_line(interfaces[i]@),
        ),
{
    let mut output: Vec<String> = Vec::new();
    let mut i: usize = 0;
    while i < interfaces.len()
        invariant
            i <= interfaces.len(),
            output.len() == i,
            forall|j: int| 0 <= j < i ==> (#[trigger] output[j])@ == totals_line(interfaces[j]@),
        decreases interfaces.len() - i,
    {
        let totals = &interfaces[i];
        let mut line = String::from_str(totals.name.as_str());
        line.append(": ");
        line.append(decimal_string(totals.received / BYTES_PER_MEGABYTE).as_str());
        line.append(" MB (down) / ");
        line.append(decimal_string(totals.transmitted / BYTES_PER_MEGABYTE).as_str());
        line.append(" MB (Up)");
        output.push(line);
        i += 1;
    }
    assert(output.deep_view() =~= Seq::new(
        interfaces.len() as nat,
        |i: int| totals_line(interfaces[i]@),
    ));
    output
}

/// The first of `measured` with the name `name`.
pub open spec fn first_named(measured: Seq<TotalsView>, name: Seq<char>) -> Option<TotalsView>
    decreases measured.len(),
{
    if measured.len() == 0 {
        None
    } else if measured.first().name == name {
        Some(measured.first())
    } else {
        first_named(measured.drop_first(), name)
    }
}

/// What went through an interface between two measurements; a counter that fell back
/// counts as no traffic.
pub open spec fn traffic_between(earlier: TotalsView, later: TotalsView) -> TotalsView {
    TotalsView {
        name: later.name,
        received: if later.received >= earlier.received {
            (later.received - earlier.received) as u64
        } else {
            0
        },
        transmitted: if later.transmitted >= earlier.transmitted {
            (later.transmitted - earlier.transmitted) as u64
        } else {
            0
        },
    }
}

/// The traffic of each interface of `current` that `previous` has a measurement of, in
/// the order of `current`.
pub open spec fn traffic(previous: Seq<TotalsView>, current: Seq<TotalsView>) -> Seq<TotalsView>
    decreases current.len(),
{
    if current.len() == 0 {
        Seq::empty()
    } else {
        let before = traffic(previous, current.drop_last());
        match first_named(previous, current.last().name) {
            Some(earlier) => before.push(traffic_between(earlier, current.last())),
            None => before,
        }
    }
}

/// The position in `measured` of the first interface with the name `name`.
fn position_named(measured: &Vec<InterfaceTotals>, name: &str) -> (found: Option<usize>)
    ensures
        match found {
            Some(at) => at < measured.len() && first_named(measured.deep_view(), name@) == Some(
                measured[at as int]@,
            ),
            None => first_named(measured.deep_view(), name@) is None,
        },
{
    let ghost all = measured.deep_view();
    let mut found: Option<usize> = None;
    let mut at: usize = measured.len();
    while at > 0
        invariant
            at <= measured.len(),
            all == measured.deep_view(),
            match found {
                Some(best) => best < measured.len() && first_named(all.skip(at as int), name@)
                    == Some(measured[best as int]@),
                None => first_named(all.skip(at as int), name@) is None,
            },
        decreases at,
    {
        at -= 1;
        proof {
            assert(all.skip(at as int).drop_first() == all.skip(at + 1));
            assert(all.skip(at as int).first() == measured[at as int]@);
        }
        if same_text(measured[at].name.as_str(), name) {
            found = Some(at);
        }
    }
    proof {
        assert(all.skip(0) == all);
    }
    found
}

/// Measures the traffic between two readings of the interface counters.
pub fn network_traffic(previous: &Vec<InterfaceTotals>, current: &Vec<InterfaceTotals>)
    -> (results: Vec<InterfaceTotals>)
    ensures
        results.deep_view() == traffic(previous.deep_view(), current.deep_view()),
{
    let mut results: Vec<InterfaceTotals> = Vec::new();
    let ghost now = current.deep_view();
    let mut i: usize = 0;
    assert(now.take(0).len() == 0);
    assert(results.deep_view() =~= traffic(previous.deep_view(), now.take(0)));
    while i < current.len()
        invariant
            i <= current.len(),
            now == current.deep_view(),
            results.deep_view() == traffic(previous.deep_view(), now.take(i as int)),
        decreases current.len() - i,
    {
        let later = &current[i];
        proof {
            assert(now.take(i + 1).drop_last() == now.take(i as int));
            assert(now.take(i + 1).last() == later@);
        }
        match position_named(previous, later.name.as_str()) {
            Some(at) => {
                let earlier = &previous[at];
                let ghost before = results.deep_view();
                let delta = InterfaceTotals {
                    name: later.name.clone(),
                    received: later.received.saturating_sub(earlier.received),
                    transmitted: later.transmitted.saturating_sub(earlier.transmitted),
                };
                results.push(delta);
                assert(results.deep_view() =~= before.push(traffic_between(earlier@, later@)));
            },
            None => {},
        }
        i += 1;
    }
    proof {
        assert(now.take(i as int) == now);
    }
    results
}

} // verus!
