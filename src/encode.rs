//! Body encoders over compact JSON text: JSON Lines, MessagePack, CSV,
//! form-urlencoded and plain text.

use vstd::prelude::*;
use vstd::string::*;
use vstd::utf8::encode_utf8;
use crate::error::Error;
use crate::json::{
    array_item_texts, decode_string, form_of_json, form_text, json_entries_of, json_items_of,
    json_string_of, msgpack_bytes, msgpack_of_json, object_entry_texts,
};
use crate::text::{has_prefix, starts_with, strings_view};

verus! {

/// The message for a value that has no record form.
pub const NOT_RECORDS: &'static str = "the JSON value should be an object or an array of objects";

/// The CSV line of one record, as the csv crate writes it with its default
/// settings (comma delimiter, quoting only where needed, `\n` ending).
pub uninterp spec fn csv_line_of(fields: Seq<Seq<char>>) -> Option<Seq<u8>>;

/// Relies on csv::Writer::write_record (with from_writer and into_inner around
/// it): the CSV line of one record, or the writer's message.
#[verifier::external_body]
fn csv_line(fields: &Vec<String>) -> (r: Result<Vec<u8>, String>)
    ensures
        match r {
            Ok(b) => csv_line_of(strings_view(fields@)) == Some(b@),
            Err(_) => csv_line_of(strings_view(fields@)) is None,
        },
{
    let mut w = csv::Writer::from_writer(Vec::new());
    w.write_record(fields).map_err(|e| e.to_string())?;
    w.into_inner().map_err(|e| e.to_string())
}

/// The text a body shows for a JSON text: the string itself for a JSON string,
/// else the JSON text unchanged.
pub open spec fn plain_text_of(t: Seq<char>) -> Seq<char> {
    match json_string_of(t) {
        Some(s) => s,
        None => t,
    }
}

/// The bytes of the plain-text form of a JSON text.
pub fn plain_text(t: &str) -> (r: Vec<u8>)
    ensures
        r@ == encode_utf8(plain_text_of(t@)),
{
    match decode_string(t) {
        Some(s) => s.as_str().as_bytes_vec(),
        None => t.as_bytes_vec(),
    }
}

/// Lines of text, each ended by `\n`.
pub open spec fn lines_text(lines: Seq<Seq<char>>) -> Seq<char>
    decreases lines.len(),
{
    if lines.len() == 0 {
        seq![]
    } else {
        lines_text(lines.drop_last()) + lines.last() + seq!['\n']
    }
}

/// What JSON Lines gives for a JSON text: a value that is not an array is one
/// line, its own text; an array gives one line per element, and text that
/// starts like an array but is none is refused.
pub open spec fn jsonlines_outcome(t: Seq<char>, r: Result<Vec<u8>, Error>) -> bool {
    if !starts_with(t, seq!['[']) {
        r is Ok && r->Ok_0@ == encode_utf8(t + seq!['\n'])
    } else {
        match json_items_of(t) {
            Some(items) => r is Ok && r->Ok_0@ == encode_utf8(lines_text(items)),
            None => r is Err,
        }
    }
}

/// What the MessagePack encoder gives: the encoding of the value, or an error
/// exactly when there is none.
pub open spec fn msgpack_outcome(t: Seq<char>, r: Result<Vec<u8>, Error>) -> bool {
    match r {
        Ok(b) => msgpack_of_json(t) == Some(b@),
        Err(_) => msgpack_of_json(t) is None,
    }
}

/// What the form encoder gives: the form text of the value, or an error
/// exactly when there is none.
pub open spec fn form_outcome(t: Seq<char>, r: Result<Vec<u8>, Error>) -> bool {
    match r {
        Ok(b) => exists|s: Seq<char>| form_of_json(t) == Some(s) && b@ == encode_utf8(s),
        Err(_) => form_of_json(t) is None,
    }
}

/// JSON Lines: one compact JSON value per line, each line ended by `\n`. An
/// array gives one line per element; any other value is one line.
pub fn to_jsonlines(t: &str) -> (r: Result<Vec<u8>, Error>)
    ensures
        jsonlines_outcome(t@, r),
{
    proof {
        reveal_strlit("[");
        reveal_strlit("\n");
        assert("["@ =~= seq!['[']);
        assert("\n"@ =~= seq!['\n']);
    }
    if !has_prefix(t, "[") {
        let mut s = String::from_str(t);
        s.append("\n");
        assert(lines_text(seq![t@]) =~= t@ + seq!['\n']) by {
            reveal_with_fuel(lines_text, 2);
            assert(seq![t@].drop_last() =~= Seq::<Seq<char>>::empty());
        }
        return Ok(s.as_str().as_bytes_vec());
    }
    let items = match array_item_texts(t) {
        Some(items) => items,
        None => return Err(Error::new(String::from_str(NOT_RECORDS))),
    };
    let ghost all = strings_view(items@);
    let mut s = String::new();
    let mut i: usize = 0;
    assert(all.take(0) =~= Seq::<Seq<char>>::empty());
    while i < items.len()
        invariant
            i <= items@.len(),
            all == strings_view(items@),
            s@ == lines_text(all.take(i as int)),
            "\n"@ == seq!['\n'],
        decreases items@.len() - i,
    {
        s.append(items[i].as_str());
        s.append("\n");
        assert(all.take(i + 1).drop_last() =~= all.take(i as int));
        assert(all.take(i + 1).last() == items@[i as int]@);
        i += 1;
    }
    assert(all.take(i as int) =~= all);
    Ok(s.as_str().as_bytes_vec())
}

/// MessagePack encoding of the value that a JSON text denotes.
pub fn to_msgpack(t: &str) -> (r: Result<Vec<u8>, Error>)
    ensures
        msgpack_outcome(t@, r),
{
    match msgpack_bytes(t) {
        Ok(b) => Ok(b),
        Err(e) => Err(Error::new(e)),
    }
}

/// Form-urlencoded text of the value that a JSON text denotes.
pub fn to_form(t: &str) -> (r: Result<Vec<u8>, Error>)
    ensures
        form_outcome(t@, r),
{
    match form_text(t) {
        Ok(s) => Ok(s.as_str().as_bytes_vec()),
        Err(e) => Err(Error::new(e)),
    }
}

/// The value of `key` in a record, or `None`.
pub open spec fn lookup(entries: Seq<(Seq<char>, Seq<char>)>, key: Seq<char>) -> Option<Seq<char>>
    decreases entries.len(),
{
    if entries.len() == 0 {
        None
    } else if entries[0].0 == key {
        Some(entries[0].1)
    } else {
        lookup(entries.drop_first(), key)
    }
}

/// The cell under `key` in a record: its value, or empty where it has none.
pub open spec fn cell_of(rec: Seq<(Seq<char>, Seq<char>)>, key: Seq<char>) -> Seq<char> {
    match lookup(rec, key) {
        Some(c) => c,
        None => Seq::<char>::empty(),
    }
}

/// The cells of a record under each of `keys`.
pub open spec fn cells_of(rec: Seq<(Seq<char>, Seq<char>)>, keys: Seq<Seq<char>>) -> Seq<Seq<char>> {
    keys.map_values(|k: Seq<char>| cell_of(rec, k))
}

/// The views of records held as lists of (key, cell text) pairs.
pub open spec fn records_view(v: Seq<Vec<(String, String)>>) -> Seq<Seq<(Seq<char>, Seq<char>)>> {
    v.map_values(|r: Vec<(String, String)>| crate::trace::pairs_view(r@))
}

/// The CSV table of records: a header row with the first record's keys, in its
/// order, then one row per record with, under each key, its cell in that
/// record or an empty cell.
pub open spec fn csv_table(records: Seq<Seq<(Seq<char>, Seq<char>)>>) -> Seq<Seq<Seq<char>>> {
    if records.len() == 0 {
        seq![]
    } else {
        let keys = records[0].map_values(|e: (Seq<char>, Seq<char>)| e.0);
        seq![keys] + records.map_values(|rec: Seq<(Seq<char>, Seq<char>)>| cells_of(rec, keys))
    }
}

/// The views of rows of cells.
pub open spec fn rows_view(v: Seq<Vec<String>>) -> Seq<Seq<Seq<char>>> {
    v.map_values(|r: Vec<String>| strings_view(r@))
}

fn find_cell(rec: &Vec<(String, String)>, key: &String) -> (r: String)
    ensures
        r@ == cell_of(crate::trace::pairs_view(rec@), key@),
{
    let ghost all = crate::trace::pairs_view(rec@);
    let mut i: usize = 0;
    assert(all.skip(0) =~= all);
    while i < rec.len()
        invariant
            i <= rec@.len(),
            all == crate::trace::pairs_view(rec@),
            lookup(all, key@) == lookup(all.skip(i as int), key@),
        decreases rec@.len() - i,
    {
        assert(all.skip(i as int).drop_first() =~= all.skip(i + 1));
        if rec[i].0 == *key {
            return rec[i].1.clone();
        }
        i += 1;
    }
    String::new()
}

/// Lays records out as a CSV table (see `csv_table`).
pub fn csv_rows(records: &Vec<Vec<(String, String)>>) -> (r: Vec<Vec<String>>)
    ensures
        rows_view(r@) == csv_table(records_view(records@)),
{
    let ghost recs = records_view(records@);
    let mut rows: Vec<Vec<String>> = Vec::new();
    if records.len() == 0 {
        assert(rows_view(rows@) =~= csv_table(recs));
        return rows;
    }
    let ghost keys = recs[0].map_values(|e: (Seq<char>, Seq<char>)| e.0);
    let mut header: Vec<String> = Vec::new();
    let mut k: usize = 0;
    while k < records[0].len()
        invariant
            recs == records_view(records@),
            records@.len() > 0,
            keys == recs[0].map_values(|e: (Seq<char>, Seq<char>)| e.0),
            k <= records@[0]@.len(),
            keys.len() == records@[0]@.len(),
            header@.len() == k,
            strings_view(header@) =~= keys.take(k as int),
        decreases records@[0]@.len() - k,
    {
        assert(recs[0] == crate::trace::pairs_view(records@[0]@));
        let key = records[0][k].0.clone();
        assert(key@ == recs[0][k as int].0);
        assert(keys[k as int] == key@);
        let ghost before = header@;
        header.push(key);
        proof {
            assert(header@ == before.push(key));
            assert forall|x: int| 0 <= x < k + 1 implies #[trigger] strings_view(header@)[x] == keys.take(k + 1)[x] by {
                assert(before.len() == k);
                if x < k {
                    assert(strings_view(before)[x] == keys.take(k as int)[x]);
                    assert(header@[x] == before[x]);
                } else {
                    assert(header@[x] == key);
                    assert(strings_view(header@)[x] == header@[x]@);
                    assert(keys.take(k + 1)[x] == keys[x]);
                }
            }
        }
        assert(strings_view(header@) =~= keys.take(k + 1));
        k += 1;
    }
    assert(keys.take(k as int) =~= keys);
    rows.push(header.clone());
    let mut i: usize = 0;
    while i < records.len()
        invariant
            recs == records_view(records@),
            records@.len() > 0,
            keys == recs[0].map_values(|e: (Seq<char>, Seq<char>)| e.0),
            strings_view(header@) == keys,
            i <= records@.len(),
            rows_view(rows@) =~= csv_table(recs).take(i + 1),
        decreases records@.len() - i,
    {
        let mut row: Vec<String> = Vec::new();
        let mut j: usize = 0;
        while j < header.len()
            invariant
                recs == records_view(records@),
                i < records@.len(),
                keys.len() == header@.len(),
                strings_view(header@) == keys,
                j <= header@.len(),
                row@.len() == j,
                strings_view(row@) =~= cells_of(recs[i as int], keys.take(j as int)),
            decreases header@.len() - j,
        {
            assert(recs[i as int] == crate::trace::pairs_view(records@[i as int]@));
            let cell = find_cell(&records[i], &header[j]);
            assert(header@[j as int]@ == keys[j as int]);
            let ghost before = row@;
            row.push(cell);
            proof {
                assert(row@ == before.push(cell));
                assert(cell@ == cell_of(recs[i as int], keys[j as int]));
                assert forall|x: int| 0 <= x < j + 1 implies #[trigger] strings_view(row@)[x] == cells_of(recs[i as int], keys.take(j + 1))[x] by {
                    if x < j {
                        assert(strings_view(before)[x] == cells_of(recs[i as int], keys.take(j as int))[x]);
                        assert(row@[x] == before[x]);
                    } else {
                        assert(row@[x] == cell);
                        assert(keys.take(j + 1)[x] == keys[x]);
                    }
                }
            }
            assert(keys.take(j + 1).drop_last() =~= keys.take(j as int));
            j += 1;
        }
        assert(keys.take(j as int) =~= keys);
        rows.push(row);
        assert(csv_table(recs).take(i + 2).drop_last() =~= csv_table(recs).take(i + 1));
        i += 1;
    }
    assert(csv_table(recs).take(i + 1) =~= csv_table(recs));
    rows
}

/// The CSV bytes of rows: their lines in order, or `None` where a row has no line.
pub open spec fn csv_text(rows: Seq<Seq<Seq<char>>>) -> Option<Seq<u8>>
    decreases rows.len(),
{
    if rows.len() == 0 {
        Some(seq![])
    } else {
        match (csv_text(rows.drop_last()), csv_line_of(rows.last())) {
            (Some(a), Some(b)) => Some(a + b),
            _ => None,
        }
    }
}

proof fn lemma_csv_text_none_stays(rows: Seq<Seq<Seq<char>>>, k: int, j: int)
    requires
        0 <= k <= j <= rows.len(),
        csv_text(rows.take(k)) is None,
    ensures
        csv_text(rows.take(j)) is None,
    decreases j - k,
{
    if j > k {
        lemma_csv_text_none_stays(rows, k, j - 1);
        assert(rows.take(j).drop_last() =~= rows.take(j - 1));
    }
}

/// Writes rows as CSV: the bytes of `csv_text`, or an error exactly where it has none.
pub fn csv_bytes(rows: &Vec<Vec<String>>) -> (r: Result<Vec<u8>, Error>)
    ensures
        match r {
            Ok(b) => csv_text(rows_view(rows@)) == Some(b@),
            Err(_) => csv_text(rows_view(rows@)) is None,
        },
{
    let ghost all = rows_view(rows@);
    let mut out: Vec<u8> = Vec::new();
    let mut i: usize = 0;
    assert(all.take(0) =~= Seq::<Seq<Seq<char>>>::empty());
    while i < rows.len()
        invariant
            i <= rows@.len(),
            all == rows_view(rows@),
            csv_text(all.take(i as int)) == Some(out@),
        decreases rows@.len() - i,
    {
        assert(all.take(i + 1).drop_last() =~= all.take(i as int));
        assert(all.take(i + 1).last() == strings_view(rows@[i as int]@));
        let mut line = match csv_line(&rows[i]) {
            Ok(b) => b,
            Err(e) => {
                proof {
                    lemma_csv_text_none_stays(all, i + 1, all.len() as int);
                    assert(all.take(all.len() as int) =~= all);
                }
                return Err(Error::new(e));
            },
        };
        let ghost before = out@;
        out.append(&mut line);
        assert(out@ =~= before + csv_line_of(all[i as int])->0);
        i += 1;
    }
    assert(all.take(i as int) =~= all);
    Ok(out)
}

/// CSV of records laid out as a table (see `csv_table`).
pub fn csv_of_records(records: &Vec<Vec<(String, String)>>) -> (r: Result<Vec<u8>, Error>)
    ensures
        match r {
            Ok(b) => csv_text(csv_table(records_view(records@))) == Some(b@),
            Err(_) => csv_text(csv_table(records_view(records@))) is None,
        },
{
    let rows = csv_rows(records);
    csv_bytes(&rows)
}

/// What the CSV encoder gives for a JSON text: the CSV of the table of its
/// records, refused where it has no records or the table no CSV.
pub open spec fn csv_outcome(t: Seq<char>, r: Result<Vec<u8>, Error>) -> bool {
    match csv_records_of(t) {
        Some(records) => match csv_text(csv_table(records)) {
            Some(b) => r is Ok && r->Ok_0@ == b,
            None => r is Err,
        },
        None => r is Err,
    }
}

/// The CSV cell for a JSON value's text: a string as itself, `null` as an
/// empty cell, anything else as its JSON text.
pub open spec fn cell_of_json(v: Seq<char>) -> Seq<char> {
    match json_string_of(v) {
        Some(s) => s,
        None => if v == "null"@ {
            seq![]
        } else {
            v
        },
    }
}

/// A record from an object's entries: each value turned into its cell.
pub open spec fn record_of_entries(es: Seq<(Seq<char>, Seq<char>)>) -> Seq<(Seq<char>, Seq<char>)> {
    es.map_values(|e: (Seq<char>, Seq<char>)| (e.0, cell_of_json(e.1)))
}

/// The texts of the records in a JSON text: an array's elements, or an object alone.
pub open spec fn record_texts(t: Seq<char>) -> Option<Seq<Seq<char>>> {
    if starts_with(t, seq!['[']) {
        json_items_of(t)
    } else if starts_with(t, seq!['{']) {
        Some(seq![t])
    } else {
        None
    }
}

/// The records of a JSON text, when every one of them is an object.
pub open spec fn csv_records_of(t: Seq<char>) -> Option<Seq<Seq<(Seq<char>, Seq<char>)>>> {
    match record_texts(t) {
        Some(items) => if forall|i: int| 0 <= i < items.len() ==> (#[trigger] json_entries_of(items[i])) is Some {
            Some(items.map_values(|it: Seq<char>| record_of_entries(json_entries_of(it)->0)))
        } else {
            None
        },
        None => None,
    }
}

fn cell_text(v: &str) -> (r: String)
    ensures
        r@ == cell_of_json(v@),
{
    match decode_string(v) {
        Some(s) => s,
        None => {
            if String::from_str(v) == String::from_str("null") {
                String::new()
            } else {
                String::from_str(v)
            }
        },
    }
}

/// CSV encoding of an object or an array of objects (see `csv_outcome`); a
/// value of another shape is refused.
pub fn to_csv(t: &str) -> (r: Result<Vec<u8>, Error>)
    ensures
        csv_outcome(t@, r),
{
    proof {
        reveal_strlit("{");
        reveal_strlit("[");
        assert("{"@ =~= seq!['{']);
        assert("["@ =~= seq!['[']);
    }
    if !has_prefix(t, "{") && !has_prefix(t, "[") {
        return Err(Error::new(String::from_str(NOT_RECORDS)));
    }
    let items: Vec<String> = if has_prefix(t, "[") {
        match array_item_texts(t) {
            Some(items) => items,
            None => return Err(Error::new(String::from_str(NOT_RECORDS))),
        }
    } else {
        let mut one = Vec::new();
        one.push(String::from_str(t));
        assert(strings_view(one@) =~= seq![t@]);
        one
    };
    let ghost texts = strings_view(items@);
    assert(record_texts(t@) == Some(texts));
    let mut records: Vec<Vec<(String, String)>> = Vec::new();
    let mut i: usize = 0;
    while i < items.len()
        invariant
            i <= items@.len(),
            texts == strings_view(items@),
            record_texts(t@) == Some(texts),
            forall|k: int| 0 <= k < i ==> (#[trigger] json_entries_of(texts[k])) is Some,
            records@.len() == i,
            records_view(records@) =~= texts.take(i as int).map_values(
                |it: Seq<char>| record_of_entries(json_entries_of(it)->0),
            ),
        decreases items@.len() - i,
    {
        let entries = match object_entry_texts(items[i].as_str()) {
            Some(e) => e,
            None => {
                assert(json_entries_of(texts[i as int]) is None);
                return Err(Error::new(String::from_str(NOT_RECORDS)));
            },
        };
        let ghost es = crate::trace::pairs_view(entries@);
        let mut record: Vec<(String, String)> = Vec::new();
        let mut j: usize = 0;
        while j < entries.len()
            invariant
                j <= entries@.len(),
                es == crate::trace::pairs_view(entries@),
                record@.len() == j,
                crate::trace::pairs_view(record@) =~= record_of_entries(es.take(j as int)),
            decreases entries@.len() - j,
        {
            let cell = cell_text(entries[j].1.as_str());
            let ghost before = record@;
            record.push((entries[j].0.clone(), cell));
            proof {
                assert(record@ == before.push((entries@[j as int].0, cell)));
                assert forall|x: int| 0 <= x < j + 1 implies #[trigger] crate::trace::pairs_view(record@)[x]
                    == record_of_entries(es.take(j + 1))[x] by {
                    if x < j {
                        assert(crate::trace::pairs_view(before)[x] == record_of_entries(es.take(j as int))[x]);
                        assert(record@[x] == before[x]);
                    } else {
                        assert(record@[x] == (entries@[j as int].0, cell));
                        assert(es.take(j + 1)[x] == es[j as int]);
                    }
                }
            }
            j += 1;
        }
        assert(es.take(j as int) =~= es);
        let ghost before_records = records@;
        records.push(record);
        proof {
            assert(records@ == before_records.push(record));
            assert forall|x: int| 0 <= x < i + 1 implies #[trigger] records_view(records@)[x]
                == texts.take(i + 1).map_values(|it: Seq<char>| record_of_entries(json_entries_of(it)->0))[x] by {
                if x < i {
                    assert(records_view(before_records)[x] == texts.take(i as int).map_values(
                        |it: Seq<char>| record_of_entries(json_entries_of(it)->0),
                    )[x]);
                    assert(records@[x] == before_records[x]);
                } else {
                    assert(records@[x] == record);
                    assert(texts.take(i + 1)[x] == texts[i as int]);
                }
            }
        }
        i += 1;
    }
    assert(texts.take(i as int) =~= texts);
    assert(csv_records_of(t@) == Some(records_view(records@)));
    csv_of_records(&records)
}

} // verus!
