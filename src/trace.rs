//! Trace contexts in the two-header form `traceparent` / `tracestate`.

use vstd::prelude::*;
use vstd::string::*;
use crate::text::{hex_fixed, hex_fixed_string};

verus! {

/// The trace-flags bit that marks a trace as sampled.
pub const FLAG_SAMPLED: u8 = 1;

/// A distributed-tracing context: identifiers and vendor state.
pub struct TraceContext {
    trace_id: u128,
    span_id: u64,
    parent_id: Option<u64>,
    trace_flags: u8,
    trace_state: Vec<(String, String)>,
}

/// What a trace context holds.
pub ghost struct TraceModel {
    pub trace_id: u128,
    pub span_id: u64,
    pub parent_id: Option<u64>,
    pub trace_flags: u8,
    pub trace_state: Seq<(Seq<char>, Seq<char>)>,
}

/// The views of a list of string pairs.
pub open spec fn pairs_view(v: Seq<(String, String)>) -> Seq<(Seq<char>, Seq<char>)> {
    v.map_values(|p: (String, String)| (p.0@, p.1@))
}

/// `version-traceid-spanid-flags`, all in lowercase hexadecimal, version `00`.
pub open spec fn traceparent_text(t: TraceModel) -> Seq<char> {
    seq!['0', '0', '-'] + hex_fixed(t.trace_id as nat, 32) + seq!['-'] + hex_fixed(t.span_id as nat, 16)
        + seq!['-'] + hex_fixed(t.trace_flags as nat, 2)
}

/// One vendor entry: `key=value`.
pub open spec fn state_entry_text(e: (Seq<char>, Seq<char>)) -> Seq<char> {
    e.0 + seq!['='] + e.1
}

/// The vendor entries joined by commas, in order.
pub open spec fn tracestate_text(s: Seq<(Seq<char>, Seq<char>)>) -> Seq<char>
    decreases s.len(),
{
    if s.len() == 0 {
        seq![]
    } else if s.len() == 1 {
        state_entry_text(s[0])
    } else {
        tracestate_text(s.drop_last()) + seq![','] + state_entry_text(s.last())
    }
}

/// The bits that a version-4 UUID fixes: the version nibble and the two variant bits.
pub const UUID_V4_MASK: u128 = 0x0000_0000_0000_F000_C000_0000_0000_0000;

/// Their values: version 4, variant `10`.
pub const UUID_V4_BITS: u128 = 0x0000_0000_0000_4000_8000_0000_0000_0000;

/// Relies on uuid::Uuid::new_v4: 128 bits from the system's random source,
/// with the version and variant bits set.
#[verifier::external_body]
pub(crate) fn random_u128() -> (r: u128)
    ensures
        r & UUID_V4_MASK == UUID_V4_BITS,
{
    uuid::Uuid::new_v4().as_u128()
}

impl View for TraceContext {
    type V = TraceModel;

    closed spec fn view(&self) -> TraceModel {
        TraceModel {
            trace_id: self.trace_id,
            span_id: self.span_id,
            parent_id: self.parent_id,
            trace_flags: self.trace_flags,
            trace_state: pairs_view(self.trace_state@),
        }
    }
}

impl TraceContext {
    /// A context with the given identifiers, no parent, sampled, and no vendor state.
    pub fn from_ids(trace_id: u128, span_id: u64) -> (r: Self)
        ensures
            r@ == (TraceModel {
                trace_id,
                span_id,
                parent_id: None,
                trace_flags: FLAG_SAMPLED,
                trace_state: seq![],
            }),
    {
        let r = TraceContext {
            trace_id,
            span_id,
            parent_id: None,
            trace_flags: FLAG_SAMPLED,
            trace_state: Vec::new(),
        };
        assert(pairs_view(r.trace_state@) =~= seq![]);
        r
    }

    /// A context that continues the trace `trace_id` below the span `parent_id`,
    /// with a span of its own.
    pub fn with_parent(trace_id: u128, parent_id: u64, span_id: u64, trace_flags: u8) -> (r: Self)
        ensures
            r@ == (TraceModel {
                trace_id,
                span_id,
                parent_id: Some(parent_id),
                trace_flags,
                trace_state: seq![],
            }),
    {
        let r = TraceContext {
            trace_id,
            span_id,
            parent_id: Some(parent_id),
            trace_flags,
            trace_state: Vec::new(),
        };
        assert(pairs_view(r.trace_state@) =~= seq![]);
        r
    }

    /// A fresh context with random identifiers.
    pub fn new() -> (r: Self)
        ensures
            r@.trace_id != 0,
            r@.span_id != 0,
            r@.parent_id is None,
            r@.trace_flags == FLAG_SAMPLED,
            r@.trace_state == Seq::<(Seq<char>, Seq<char>)>::empty(),
    {
        let bits = random_u128();
        let more = random_u128();
        let span_id = more as u64;
        assert(bits & 0x0000_0000_0000_F000_C000_0000_0000_0000u128 == 0x0000_0000_0000_4000_8000_0000_0000_0000u128 ==> bits != 0) by (bit_vector);
        assert(more & 0x0000_0000_0000_F000_C000_0000_0000_0000u128 == 0x0000_0000_0000_4000_8000_0000_0000_0000u128 ==> more as u64 != 0) by (bit_vector);
        Self::from_ids(bits, span_id)
    }

    /// The trace id.
    pub fn trace_id(&self) -> (r: u128)
        ensures
            r == self@.trace_id,
    {
        self.trace_id
    }

    /// The span id.
    pub fn span_id(&self) -> (r: u64)
        ensures
            r == self@.span_id,
    {
        self.span_id
    }

    /// The parent span id, if any.
    pub fn parent_id(&self) -> (r: Option<u64>)
        ensures
            r == self@.parent_id,
    {
        self.parent_id
    }

    /// The trace flags.
    pub fn trace_flags(&self) -> (r: u8)
        ensures
            r == self@.trace_flags,
    {
        self.trace_flags
    }

    /// Appends a vendor entry to the trace state.
    pub fn push_state(&mut self, key: String, value: String)
        ensures
            final(self)@ == (TraceModel {
                trace_state: old(self)@.trace_state.push((key@, value@)),
                ..old(self)@
            }),
    {
        self.trace_state.push((key, value));
        assert(pairs_view(self.trace_state@) =~= pairs_view(old(self).trace_state@).push((key@, value@)));
    }

    /// The `traceparent` header value.
    pub fn traceparent(&self) -> (r: String)
        ensures
            r@ == traceparent_text(self@),
    {
        let mut s = String::from_str("00-");
        s.append(hex_fixed_string(self.trace_id, 32).as_str());
        s.append("-");
        s.append(hex_fixed_string(self.span_id as u128, 16).as_str());
        s.append("-");
        s.append(hex_fixed_string(self.trace_flags as u128, 2).as_str());
        proof {
            reveal_strlit("00-");
            reveal_strlit("-");
        }
        assert(s@ =~= traceparent_text(self@));
        s
    }

    /// The `tracestate` header value.
    pub fn tracestate(&self) -> (r: String)
        ensures
            r@ == tracestate_text(self@.trace_state),
    {
        let ghost all = self@.trace_state;
        let mut s = String::new();
        let mut i: usize = 0;
        while i < self.trace_state.len()
            invariant
                i <= self.trace_state@.len(),
                all == pairs_view(self.trace_state@),
                s@ == tracestate_text(all.take(i as int)),
            decreases self.trace_state@.len() - i,
        {
            proof {
                reveal_strlit("=");
                reveal_strlit(",");
            }
            if i > 0 {
                s.append(",");
            }
            s.append(self.trace_state[i].0.as_str());
            s.append("=");
            s.append(self.trace_state[i].1.as_str());
            assert(all.take(i + 1).drop_last() =~= all.take(i as int));
            assert(all[i as int] == (self.trace_state@[i as int].0@, self.trace_state@[i as int].1@));
            assert(all.take(i + 1).last() == all[i as int]);
            if i == 0 {
                assert(all.take(1).len() == 1);
            }
            assert(s@ =~= tracestate_text(all.take(i + 1)));
            i += 1;
        }
        assert(all.take(i as int) =~= all);
        s
    }
}

} // verus!
