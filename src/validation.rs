//! The outcome of validating request data: the fields that failed, with why.

use vstd::prelude::*;
use vstd::string::*;
use crate::json::{json_quoted, quote};
use crate::text::{join, join_strings, strings_view};
use crate::trace::pairs_view;

verus! {

/// The position of the first entry for `field` at or after `i`, or the length.
pub open spec fn field_index(s: Seq<(Seq<char>, Seq<char>)>, field: Seq<char>, i: int) -> int
    decreases s.len() - i,
{
    if i >= s.len() || (0 <= i && s[i].0 == field) {
        i
    } else {
        field_index(s, field, i + 1)
    }
}

/// `s` with `field` mapped to `message`: an existing entry for the field is
/// replaced in place, else the entry is appended.
pub open spec fn upsert(s: Seq<(Seq<char>, Seq<char>)>, field: Seq<char>, message: Seq<char>) -> Seq<
    (Seq<char>, Seq<char>),
> {
    let i = field_index(s, field, 0);
    if i < s.len() {
        s.update(i, (field, message))
    } else {
        s.push((field, message))
    }
}

/// Failed fields with their messages: one entry per field, in the order first recorded.
pub struct Validation {
    failed: Vec<(String, String)>,
}

/// One entry of the failure map as JSON: `"field":"message"`.
pub open spec fn failure_entry_text(e: (Seq<char>, Seq<char>)) -> Seq<char> {
    json_quoted(e.0) + seq![':'] + json_quoted(e.1)
}

/// The failure map as a compact JSON object, entries in order.
pub open spec fn failure_map_text(s: Seq<(Seq<char>, Seq<char>)>) -> Seq<char> {
    seq!['{'] + join(s.map_values(|e: (Seq<char>, Seq<char>)| failure_entry_text(e)), seq![',']) + seq!['}']
}

impl View for Validation {
    type V = Seq<(Seq<char>, Seq<char>)>;

    closed spec fn view(&self) -> Seq<(Seq<char>, Seq<char>)> {
        pairs_view(self.failed@)
    }
}

impl Validation {
    /// A validation with no failures.
    pub fn new() -> (r: Self)
        ensures
            r@ == Seq::<(Seq<char>, Seq<char>)>::empty(),
    {
        let r = Validation { failed: Vec::new() };
        assert(r@ =~= Seq::<(Seq<char>, Seq<char>)>::empty());
        r
    }

    /// Records that `field` failed, with `message`; a later failure of the same
    /// field replaces the earlier message.
    pub fn record_fail(&mut self, field: String, message: String)
        ensures
            final(self)@ == upsert(old(self)@, field@, message@),
    {
        let ghost all = self@;
        let mut i: usize = 0;
        while i < self.failed.len()
            invariant
                i <= self.failed@.len(),
                all == self@,
                all == old(self)@,
                field_index(all, field@, 0) == field_index(all, field@, i as int),
            decreases self.failed@.len() - i,
        {
            assert(all[i as int] == (self.failed@[i as int].0@, self.failed@[i as int].1@));
            if self.failed[i].0 == field {
                assert(field_index(all, field@, i as int) == i);
                self.failed.set(i, (field, message));
                assert(self@ =~= upsert(all, field@, message@));
                return;
            }
            i += 1;
        }
        self.failed.push((field, message));
        assert(self@ =~= upsert(all, field@, message@));
    }

    /// `true` when no field failed.
    pub fn is_success(&self) -> (r: bool)
        ensures
            r == (self@.len() == 0),
    {
        self.failed.len() == 0
    }

    /// The failures as a JSON object text mapping each field to its message.
    pub fn into_map_text(self) -> (r: String)
        ensures
            r@ == failure_map_text(self@),
    {
        let ghost all = self@;
        let mut entries: Vec<String> = Vec::new();
        let mut i: usize = 0;
        proof {
            reveal_strlit(":");
            reveal_strlit(",");
            reveal_strlit("{");
            reveal_strlit("}");
        }
        while i < self.failed.len()
            invariant
                i <= self.failed@.len(),
                all == pairs_view(self.failed@),
                entries@.len() == i,
                strings_view(entries@) =~= all.take(i as int).map_values(
                    |e: (Seq<char>, Seq<char>)| failure_entry_text(e),
                ),
                ":"@ == seq![':'],
            decreases self.failed@.len() - i,
        {
            let mut e = quote(self.failed[i].0.as_str());
            e.append(":");
            e.append(quote(self.failed[i].1.as_str()).as_str());
            let ghost before = entries@;
            entries.push(e);
            proof {
                assert(e@ == failure_entry_text(all[i as int]));
                assert forall|x: int| 0 <= x < i + 1 implies #[trigger] strings_view(entries@)[x]
                    == all.take(i + 1).map_values(|e: (Seq<char>, Seq<char>)| failure_entry_text(e))[x] by {
                    if x < i {
                        assert(strings_view(before)[x] == all.take(i as int).map_values(
                            |e: (Seq<char>, Seq<char>)| failure_entry_text(e),
                        )[x]);
                        assert(entries@[x] == before[x]);
                    } else {
                        assert(entries@[x] == e);
                    }
                }
            }
            i += 1;
        }
        assert(all.take(i as int) =~= all);
        proof {
            reveal_strlit(",");
            reveal_strlit("{");
            reveal_strlit("}");
            assert(","@ =~= seq![',']);
        }
        let mut s = String::from_str("{");
        s.append(join_strings(&entries, ",").as_str());
        s.append("}");
        assert(s@ =~= failure_map_text(all));
        s
    }
}

} // verus!
