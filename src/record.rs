//! The `record` model: a named, described entry with audit fields.

use vstd::prelude::*;
use vstd::string::*;
use crate::timing::opt_view;
use crate::validation::Validation;

verus! {

/// serde_json's object map, held opaque.
#[verifier::external_type_specification]
#[verifier::external_body]
#[verifier::reject_recursive_types(K)]
#[verifier::reject_recursive_types(V)]
pub struct ExJsonMap<K, V>(serde_json::Map<K, V>);

/// The identifier that a text denotes, if it is a well-formed UUID.
pub uninterp spec fn uuid_parse_of(s: Seq<char>) -> Option<u128>;

/// Relies on uuid::Uuid::parse_str: the 128-bit value of a UUID in any of its
/// text forms, or the parser's message.
#[verifier::external_body]
fn parse_uuid(s: &str) -> (r: Result<u128, String>)
    ensures
        match r {
            Ok(v) => uuid_parse_of(s@) == Some(v),
            Err(_) => uuid_parse_of(s@) is None,
        },
{
    uuid::Uuid::parse_str(s).map(|u| u.as_u128()).map_err(|e| e.to_string())
}

/// Relies on serde_json::Map::get: the value under `key` when it is a JSON string.
#[verifier::external_body]
fn string_field(map: &serde_json::Map<String, serde_json::Value>, key: &str) -> (r: Option<String>) {
    match map.get(key) {
        Some(serde_json::Value::String(s)) => Some(s.clone()),
        _ => None,
    }
}

/// A record. Times are microseconds since the Unix epoch; `content` and
/// `extra` hold JSON object text.
pub struct Record {
    id: u128,
    name: String,
    status: String,
    description: String,
    integrity: String,
    signature: String,
    recorded_at: i64,
    content: String,
    extra: String,
    created_at: i64,
    updated_at: i64,
    version: u64,
}

/// What a record holds.
pub ghost struct RecordModel {
    pub id: u128,
    pub name: Seq<char>,
    pub status: Seq<char>,
    pub description: Seq<char>,
    pub integrity: Seq<char>,
    pub signature: Seq<char>,
    pub recorded_at: i64,
    pub content: Seq<char>,
    pub extra: Seq<char>,
    pub created_at: i64,
    pub updated_at: i64,
    pub version: u64,
}

/// A record with the given id and every other field empty or zero.
pub open spec fn empty_record(id: u128) -> RecordModel {
    RecordModel {
        id,
        name: seq![],
        status: seq![],
        description: seq![],
        integrity: seq![],
        signature: seq![],
        recorded_at: 0,
        content: "{}"@,
        extra: "{}"@,
        created_at: 0,
        updated_at: 0,
        version: 0,
    }
}

/// `m` after applying the fields read from request data: an id that is a
/// UUID replaces the current one, a name or description replaces the current one.
pub open spec fn applied_fields(
    m: RecordModel,
    id: Option<Seq<char>>,
    name: Option<Seq<char>>,
    description: Option<Seq<char>>,
) -> RecordModel {
    RecordModel {
        id: match id {
            Some(s) => match uuid_parse_of(s) {
                Some(v) => v,
                None => m.id,
            },
            None => m.id,
        },
        name: match name {
            Some(n) => n,
            None => m.name,
        },
        description: match description {
            Some(d) => d,
            None => m.description,
        },
        ..m
    }
}

/// Whether a given id fails to parse.
pub open spec fn bad_id(id: Option<Seq<char>>) -> bool {
    id is Some && uuid_parse_of(id->Some_0) is None
}

impl View for Record {
    type V = RecordModel;

    closed spec fn view(&self) -> RecordModel {
        RecordModel {
            id: self.id,
            name: self.name@,
            status: self.status@,
            description: self.description@,
            integrity: self.integrity@,
            signature: self.signature@,
            recorded_at: self.recorded_at,
            content: self.content@,
            extra: self.extra@,
            created_at: self.created_at,
            updated_at: self.updated_at,
            version: self.version,
        }
    }
}

impl Record {
    /// A record with the given id and every other field empty.
    pub fn with_id(id: u128) -> (r: Self)
        ensures
            r@ == empty_record(id),
    {
        let r = Record {
            id,
            name: String::new(),
            status: String::new(),
            description: String::new(),
            integrity: String::new(),
            signature: String::new(),
            recorded_at: 0,
            content: String::from_str("{}"),
            extra: String::from_str("{}"),
            created_at: 0,
            updated_at: 0,
            version: 0,
        };
        assert(r@ =~= empty_record(id));
        r
    }

    /// A record with a random, non-nil id and every other field empty.
    pub fn new() -> (r: Self)
        ensures
            r@ == empty_record(r@.id),
            r@.id != 0,
    {
        let id = crate::trace::random_u128();
        assert(id & 0x0000_0000_0000_F000_C000_0000_0000_0000u128 == 0x0000_0000_0000_4000_8000_0000_0000_0000u128 ==> id != 0) by (bit_vector);
        Self::with_id(id)
    }

    /// Applies the fields read from request data: a given `id` must be a UUID
    /// (else it fails validation and the id stays); a given name or
    /// description replaces the current one.
    pub fn apply_fields(
        &mut self,
        id: Option<String>,
        name: Option<String>,
        description: Option<String>,
    ) -> (r: Validation)
        ensures
            final(self)@ == applied_fields(old(self)@, opt_view(id), opt_view(name), opt_view(description)),
            r@.len() == (if bad_id(opt_view(id)) { 1int } else { 0int }),
            r@.len() == 1 ==> r@[0].0 == "id"@,
    {
        let mut validation = Validation::new();
        match id {
            Some(s) => match parse_uuid(s.as_str()) {
                Ok(v) => self.id = v,
                Err(e) => validation.record_fail(String::from_str("id"), e),
            },
            None => {},
        }
        match name {
            Some(n) => self.name = n,
            None => {},
        }
        match description {
            Some(d) => self.description = d,
            None => {},
        }
        validation
    }

    /// Reads `id`, `name` and `description` from request data (see `apply_fields`).
    pub fn read_map(&mut self, data: &serde_json::Map<String, serde_json::Value>) -> (r: Validation)
        ensures
            exists|id: Option<Seq<char>>, name: Option<Seq<char>>, description: Option<Seq<char>>|
                {
                    &&& final(self)@ == #[trigger] applied_fields(old(self)@, id, name, description)
                    &&& r@.len() == (if bad_id(id) { 1int } else { 0int })
                },
    {
        let id = string_field(data, "id");
        let name = string_field(data, "name");
        let description = string_field(data, "description");
        self.apply_fields(id, name, description)
    }

    /// The id.
    pub fn id(&self) -> (r: u128)
        ensures
            r == self@.id,
    {
        self.id
    }

    /// The name.
    pub fn name(&self) -> (r: &str)
        ensures
            r@ == self@.name,
    {
        self.name.as_str()
    }

    /// The description.
    pub fn description(&self) -> (r: &str)
        ensures
            r@ == self@.description,
    {
        self.description.as_str()
    }

    /// The status.
    pub fn status(&self) -> (r: &str)
        ensures
            r@ == self@.status,
    {
        self.status.as_str()
    }

    /// The version.
    pub fn version(&self) -> (r: u64)
        ensures
            r == self@.version,
    {
        self.version
    }
}

} // verus!
