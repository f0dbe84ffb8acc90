//! Server-timing metrics and the elapsed time of a response.

use vstd::prelude::*;
use vstd::string::*;
use crate::text::{decimal_fixed, decimal_fixed_string, decimal_string, decimal_text};

verus! {

/// std's monotonic instant, held opaque.
#[verifier::external_type_specification]
#[verifier::external_body]
pub struct ExInstant(std::time::Instant);

/// Relies on std's `Instant::now`: the current reading of the monotonic clock.
pub assume_specification[ std::time::Instant::now ]() -> std::time::Instant;

/// Relies on std's `Instant::elapsed`: the time passed since the instant.
pub assume_specification[ std::time::Instant::elapsed ](i: &std::time::Instant) -> std::time::Duration;

/// Relies on std's `Duration::as_micros`: the whole microseconds in a duration.
pub assume_specification[ core::time::Duration::as_micros ](d: &core::time::Duration) -> u128;

/// The microseconds passed since `start`, saturated at `u64::MAX`.
pub fn elapsed_micros(start: &std::time::Instant) -> (r: u64) {
    let micros = start.elapsed().as_micros();
    if micros > u64::MAX as u128 {
        u64::MAX
    } else {
        micros as u64
    }
}

/// One server-timing entry.
pub struct TimingMetric {
    name: String,
    description: Option<String>,
    duration_micros: Option<u64>,
}

/// What a timing entry holds.
pub ghost struct MetricModel {
    pub name: Seq<char>,
    pub description: Option<Seq<char>>,
    pub duration_micros: Option<u64>,
}

/// The view of an optional string.
pub open spec fn opt_view(o: Option<String>) -> Option<Seq<char>> {
    match o {
        Some(s) => Some(s@),
        None => None,
    }
}

/// Microseconds as milliseconds with three decimals: `1234` is `1.234`.
pub open spec fn millis_text(micros: nat) -> Seq<char> {
    decimal_text(micros / 1000) + seq!['.'] + decimal_fixed(micros % 1000, 3)
}

/// `name;dur=ms;desc="description"`, each optional part left out when absent.
pub open spec fn metric_text(m: MetricModel) -> Seq<char> {
    m.name + match m.duration_micros {
        Some(us) => seq![';', 'd', 'u', 'r', '='] + millis_text(us as nat),
        None => seq![],
    } + match m.description {
        Some(d) => seq![';', 'd', 'e', 's', 'c', '=', '"'] + d + seq!['"'],
        None => seq![],
    }
}

/// The entries rendered in order and joined by `", "`.
pub open spec fn server_timing_text(ms: Seq<MetricModel>) -> Seq<char>
    decreases ms.len(),
{
    if ms.len() == 0 {
        seq![]
    } else if ms.len() == 1 {
        metric_text(ms[0])
    } else {
        server_timing_text(ms.drop_last()) + seq![',', ' '] + metric_text(ms.last())
    }
}

impl View for TimingMetric {
    type V = MetricModel;

    closed spec fn view(&self) -> MetricModel {
        MetricModel {
            name: self.name@,
            description: opt_view(self.description),
            duration_micros: self.duration_micros,
        }
    }
}

impl TimingMetric {
    /// An entry with the given name, description and duration in microseconds.
    pub fn new(name: String, description: Option<String>, duration_micros: Option<u64>) -> (r: Self)
        ensures
            r@ == (MetricModel { name: name@, description: opt_view(description), duration_micros }),
    {
        TimingMetric { name, description, duration_micros }
    }

    /// The entry in the `Server-Timing` grammar.
    pub fn render(&self) -> (r: String)
        ensures
            r@ == metric_text(self@),
    {
        proof {
            reveal_strlit(";dur=");
            reveal_strlit(".");
            reveal_strlit(";desc=\"");
            reveal_strlit("\"");
        }
        let mut s = self.name.clone();
        match self.duration_micros {
            Some(us) => {
                s.append(";dur=");
                s.append(decimal_string((us / 1000) as u128).as_str());
                s.append(".");
                s.append(decimal_fixed_string((us % 1000) as u128, 3).as_str());
            },
            None => {},
        }
        match &self.description {
            Some(d) => {
                s.append(";desc=\"");
                s.append(d.as_str());
                s.append("\"");
            },
            None => {},
        }
        assert(s@ =~= metric_text(self@));
        s
    }
}

/// An ordered list of timing entries.
pub struct ServerTiming {
    metrics: Vec<TimingMetric>,
}

impl View for ServerTiming {
    type V = Seq<MetricModel>;

    closed spec fn view(&self) -> Seq<MetricModel> {
        self.metrics@.map_values(|m: TimingMetric| m@)
    }
}

impl ServerTiming {
    /// An empty list.
    pub fn new() -> (r: Self)
        ensures
            r@ == Seq::<MetricModel>::empty(),
    {
        let r = ServerTiming { metrics: Vec::new() };
        assert(r@ =~= Seq::<MetricModel>::empty());
        r
    }

    /// Appends an entry.
    pub fn push(&mut self, metric: TimingMetric)
        ensures
            final(self)@ == old(self)@.push(metric@),
    {
        self.metrics.push(metric);
        assert(self@ =~= old(self)@.push(metric@));
    }

    /// The number of entries.
    pub fn len(&self) -> (r: usize)
        ensures
            r == self@.len(),
    {
        self.metrics.len()
    }

    /// The `Server-Timing` header value.
    pub fn render(&self) -> (r: String)
        ensures
            r@ == server_timing_text(self@),
    {
        let ghost all = self@;
        let mut s = String::new();
        let mut i: usize = 0;
        while i < self.metrics.len()
            invariant
                i <= self.metrics@.len(),
                all == self@,
                s@ == server_timing_text(all.take(i as int)),
            decreases self.metrics@.len() - i,
        {
            proof {
                reveal_strlit(", ");
            }
            if i > 0 {
                s.append(", ");
            }
            let entry = self.metrics[i].render();
            s.append(entry.as_str());
            assert(all.take(i + 1).drop_last() =~= all.take(i as int));
            assert(all.take(i + 1).last() == all[i as int]);
            if i == 0 {
                assert(all.take(1).len() == 1);
            }
            assert(s@ =~= server_timing_text(all.take(i + 1)));
            i += 1;
        }
        assert(all.take(i as int) =~= all);
        s
    }
}

} // verus!
