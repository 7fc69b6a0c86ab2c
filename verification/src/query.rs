//! Typed query payloads and their builders.
//!
//! Every query serializes as an object with a single `query` field holding
//! the payload array; the element shape differs per query family. Builders
//! are append-only and preserve insertion order; duplicates are kept, since
//! the API tolerates them and simply omits unmatched identifiers. An empty
//! query is valid and yields an empty result set.

use vstd::prelude::*;
use vstd::string::StringExecFns;

use crate::errors::BuildError;
use crate::json::JsonValue;
use crate::uuids::{spec_hyphenated, Uuid};

verus! {

/// A lookup key that is either a display name or an identifier.
#[derive(Debug, Clone)]
pub enum StrOrUuid {
    Str(String),
    Uid(Uuid),
}

/// The text a lookup key serializes to: the name itself, or the hyphenated
/// identifier.
pub open spec fn spec_str_or_uuid_text(s: StrOrUuid) -> Seq<char> {
    match s {
        StrOrUuid::Str(n) => n@,
        StrOrUuid::Uid(u) => spec_hyphenated(u.bytes@),
    }
}

impl From<Uuid> for StrOrUuid {
    fn from(u: Uuid) -> (r: StrOrUuid) {
        StrOrUuid::Uid(u)
    }
}

impl vstd::std_specs::convert::FromSpecImpl<Uuid> for StrOrUuid {
    open spec fn obeys_from_spec() -> bool {
        true
    }

    open spec fn from_spec(u: Uuid) -> StrOrUuid {
        StrOrUuid::Uid(u)
    }
}

impl StrOrUuid {
    /// A key looking up by display name.
    pub fn from_name(name: &str) -> (r: StrOrUuid)
        ensures
            r matches StrOrUuid::Str(n) && n@ == name@,
    {
        StrOrUuid::Str(name.to_owned())
    }

    /// A key looking up by identifier.
    pub fn from_uuid(uuid: Uuid) -> (r: StrOrUuid)
        ensures
            r == StrOrUuid::Uid(uuid),
    {
        StrOrUuid::Uid(uuid)
    }
}

/// Wraps a payload in the object shape every query body takes:
/// `{"query": payload}`.
fn wrap_query(payload: JsonValue) -> (r: JsonValue)
    ensures
        is_query_wrapper(r, payload),
{
    let mut fields: Vec<(String, JsonValue)> = Vec::new();
    fields.push((String::from_str("query"), payload));
    JsonValue::Object(fields)
}

/// Whether `v` is `{"query": payload}`.
pub open spec fn is_query_wrapper(v: JsonValue, payload: JsonValue) -> bool {
    &&& v matches JsonValue::Object(fields)
    &&& fields@.len() == 1
    &&& fields@[0].0@ == "query"@
    &&& fields@[0].1 == payload
}

/// A query that looks records up by names or identifiers.
#[derive(Debug, Clone)]
pub struct SimpleQuery {
    pub values: Vec<StrOrUuid>,
}

/// Whether `v` is the body a simple query serializes to: the wrapper around
/// one text element per key, in insertion order.
pub open spec fn is_simple_query_body(v: JsonValue, values: Seq<StrOrUuid>) -> bool {
    &&& v matches JsonValue::Object(fields)
    &&& fields@.len() == 1
    &&& fields@[0].0@ == "query"@
    &&& fields@[0].1 matches JsonValue::Array(items)
    &&& items@.len() == values.len()
    &&& forall|i: int|
        0 <= i < values.len() ==> ((#[trigger] items@[i]) matches JsonValue::Str(t) && t@
            == spec_str_or_uuid_text(values[i]))
}

impl SimpleQuery {
    /// Encodes this query as its request body.
    pub fn encode_body(&self) -> (r: JsonValue)
        ensures
            is_simple_query_body(r, self.values@),
    {
        let mut items: Vec<JsonValue> = Vec::new();
        let mut i: usize = 0;
        let len = self.values.len();
        while i < len
            invariant
                i <= len,
                len == self.values@.len(),
                items@.len() == i,
                forall|j: int|
                    0 <= j < i ==> ((#[trigger] items@[j]) matches JsonValue::Str(t) && t@
                        == spec_str_or_uuid_text(self.values@[j])),
            decreases len - i,
        {
            let text = match &self.values[i] {
                StrOrUuid::Str(n) => n.clone(),
                StrOrUuid::Uid(u) => u.to_hyphenated(),
            };
            items.push(JsonValue::Str(text));
            i += 1;
        }
        wrap_query(JsonValue::Array(items))
    }
}

/// Builds a `SimpleQuery` key by key.
#[derive(Debug, Clone)]
pub struct SimpleQueryBuilder {
    pub values: Vec<StrOrUuid>,
}

impl Default for SimpleQueryBuilder {
    fn default() -> (r: Self)
        ensures
            r.values@.len() == 0,
    {
        SimpleQueryBuilder { values: Vec::new() }
    }
}

impl SimpleQueryBuilder {
    /// Appends one lookup key; order is kept and duplicates are allowed.
    pub fn add(self, single: StrOrUuid) -> (r: Self)
        ensures
            r.values@ == self.values@.push(single),
    {
        let mut values = self.values;
        values.push(single);
        SimpleQueryBuilder { values }
    }

    /// Finalizes the builder. A simple query has no required fields, so
    /// building always succeeds, keeping the keys in insertion order; an
    /// empty query is valid.
    pub fn build(self) -> (r: Result<SimpleQuery, BuildError>)
        ensures
            r matches Ok(q) && q.values@ == self.values@,
    {
        Ok(SimpleQuery { values: self.values })
    }
}

/// A query that looks records up by identifiers only.
#[derive(Debug, Clone)]
pub struct UuidQuery {
    pub values: Vec<Uuid>,
}

/// Whether `v` is the body a UUID query serializes to.
pub open spec fn is_uuid_query_body(v: JsonValue, values: Seq<Uuid>) -> bool {
    &&& v matches JsonValue::Object(fields)
    &&& fields@.len() == 1
    &&& fields@[0].0@ == "query"@
    &&& fields@[0].1 matches JsonValue::Array(items)
    &&& items@.len() == values.len()
    &&& forall|i: int|
        0 <= i < values.len() ==> ((#[trigger] items@[i]) matches JsonValue::Str(t) && t@
            == spec_hyphenated(values[i].bytes@))
}

impl UuidQuery {
    /// Encodes this query as its request body.
    pub fn encode_body(&self) -> (r: JsonValue)
        ensures
            is_uuid_query_body(r, self.values@),
    {
        let mut items: Vec<JsonValue> = Vec::new();
        let mut i: usize = 0;
        let len = self.values.len();
        while i < len
            invariant
                i <= len,
                len == self.values@.len(),
                items@.len() == i,
                forall|j: int|
                    0 <= j < i ==> ((#[trigger] items@[j]) matches JsonValue::Str(t) && t@
                        == spec_hyphenated(self.values@[j].bytes@)),
            decreases len - i,
        {
            items.push(JsonValue::Str(self.values[i].to_hyphenated()));
            i += 1;
        }
        wrap_query(JsonValue::Array(items))
    }
}

/// Builds a `UuidQuery` identifier by identifier.
#[derive(Debug, Clone)]
pub struct UuidQueryBuilder {
    pub values: Vec<Uuid>,
}

impl Default for UuidQueryBuilder {
    fn default() -> (r: Self)
        ensures
            r.values@.len() == 0,
    {
        UuidQueryBuilder { values: Vec::new() }
    }
}

impl UuidQueryBuilder {
    /// Appends one identifier; order is kept and duplicates are allowed.
    pub fn insert(self, single: Uuid) -> (r: Self)
        ensures
            r.values@ == self.values@.push(single),
    {
        let mut values = self.values;
        values.push(single);
        UuidQueryBuilder { values }
    }

    /// Finalizes the builder; always succeeds, an empty query is valid.
    pub fn build(self) -> (r: Result<UuidQuery, BuildError>)
        ensures
            r matches Ok(q) && q.values@ == self.values@,
    {
        Ok(UuidQuery { values: self.values })
    }
}

/// A query that looks up what stands at given block coordinates.
#[derive(Debug, Clone)]
pub struct LocationQuery {
    pub values: Vec<[i32; 2]>,
}

/// Whether `v` is the body a location query serializes to: one two-element
/// coordinate array per lookup.
pub open spec fn is_location_query_body(v: JsonValue, values: Seq<[i32; 2]>) -> bool {
    &&& v matches JsonValue::Object(fields)
    &&& fields@.len() == 1
    &&& fields@[0].0@ == "query"@
    &&& fields@[0].1 matches JsonValue::Array(items)
    &&& items@.len() == values.len()
    &&& forall|i: int|
        0 <= i < values.len() ==> ((#[trigger] items@[i]) matches JsonValue::Array(pair) && pair@
            == seq![
            JsonValue::Int(values[i]@[0] as i64),
            JsonValue::Int(values[i]@[1] as i64),
        ])
}

impl LocationQuery {
    /// Encodes this query as its request body.
    pub fn encode_body(&self) -> (r: JsonValue)
        ensures
            is_location_query_body(r, self.values@),
    {
        let mut items: Vec<JsonValue> = Vec::new();
        let mut i: usize = 0;
        let len = self.values.len();
        while i < len
            invariant
                i <= len,
                len == self.values@.len(),
                items@.len() == i,
                forall|j: int|
                    0 <= j < i ==> ((#[trigger] items@[j]) matches JsonValue::Array(pair) && pair@
                        == seq![
                        JsonValue::Int(self.values@[j]@[0] as i64),
                        JsonValue::Int(self.values@[j]@[1] as i64),
                    ]),
            decreases len - i,
        {
            let xz = &self.values[i];
            let mut pair: Vec<JsonValue> = Vec::new();
            pair.push(JsonValue::Int(xz[0] as i64));
            pair.push(JsonValue::Int(xz[1] as i64));
            proof {
                assert(pair@ =~= seq![
                    JsonValue::Int(self.values@[i as int]@[0] as i64),
                    JsonValue::Int(self.values@[i as int]@[1] as i64),
                ]);
            }
            items.push(JsonValue::Array(pair));
            i += 1;
        }
        wrap_query(JsonValue::Array(items))
    }
}

/// Builds a `LocationQuery` coordinate pair by coordinate pair.
#[derive(Debug, Clone)]
pub struct LocationQueryBuilder {
    pub values: Vec<[i32; 2]>,
}

impl Default for LocationQueryBuilder {
    fn default() -> (r: Self)
        ensures
            r.values@.len() == 0,
    {
        LocationQueryBuilder { values: Vec::new() }
    }
}

impl LocationQueryBuilder {
    /// Appends one `[x, z]` coordinate pair; order is kept.
    pub fn insert(self, single: [i32; 2]) -> (r: Self)
        ensures
            r.values@ == self.values@.push(single),
    {
        let mut values = self.values;
        values.push(single);
        LocationQueryBuilder { values }
    }

    /// Finalizes the builder; always succeeds, an empty query is valid.
    pub fn build(self) -> (r: Result<LocationQuery, BuildError>)
        ensures
            r matches Ok(q) && q.values@ == self.values@,
    {
        Ok(LocationQuery { values: self.values })
    }
}

/// One lookup of a linked chat account: by game identifier or by chat
/// service snowflake.
#[derive(Debug, Clone)]
pub enum DiscordQueryItem {
    Minecraft { target: Uuid },
    Discord { target: String },
}

/// The lookup direction a discord query item names on the wire.
pub open spec fn spec_discord_item_kind(item: DiscordQueryItem) -> Seq<char> {
    match item {
        DiscordQueryItem::Minecraft { .. } => "MINECRAFT"@,
        DiscordQueryItem::Discord { .. } => "DISCORD"@,
    }
}

/// The target text a discord query item carries on the wire.
pub open spec fn spec_discord_item_target(item: DiscordQueryItem) -> Seq<char> {
    match item {
        DiscordQueryItem::Minecraft { target } => spec_hyphenated(target.bytes@),
        DiscordQueryItem::Discord { target } => target@,
    }
}

/// Whether `v` is the wire object of one discord lookup: its direction under
/// `type`, its key under `target`.
pub open spec fn is_discord_item_encoding(v: JsonValue, item: DiscordQueryItem) -> bool {
    &&& v matches JsonValue::Object(fields)
    &&& fields@.len() == 2
    &&& fields@[0].0@ == "type"@
    &&& fields@[0].1 matches JsonValue::Str(k) && k@ == spec_discord_item_kind(item)
    &&& fields@[1].0@ == "target"@
    &&& fields@[1].1 matches JsonValue::Str(t) && t@ == spec_discord_item_target(item)
}

/// A query for links between game accounts and chat accounts.
#[derive(Debug, Clone)]
pub struct DiscordQuery {
    pub values: Vec<DiscordQueryItem>,
}

/// Whether `v` is the body a discord query serializes to.
pub open spec fn is_discord_query_body(v: JsonValue, values: Seq<DiscordQueryItem>) -> bool {
    &&& v matches JsonValue::Object(fields)
    &&& fields@.len() == 1
    &&& fields@[0].0@ == "query"@
    &&& fields@[0].1 matches JsonValue::Array(items)
    &&& items@.len() == values.len()
    &&& forall|i: int|
        0 <= i < values.len() ==> is_discord_item_encoding(#[trigger] items@[i], values[i])
}

impl DiscordQuery {
    /// Encodes this query as its request body.
    pub fn encode_body(&self) -> (r: JsonValue)
        ensures
            is_discord_query_body(r, self.values@),
    {
        let mut items: Vec<JsonValue> = Vec::new();
        let mut i: usize = 0;
        let len = self.values.len();
        while i < len
            invariant
                i <= len,
                len == self.values@.len(),
                items@.len() == i,
                forall|j: int|
                    0 <= j < i ==> is_discord_item_encoding(#[trigger] items@[j], self.values@[j]),
            decreases len - i,
        {
            let (kind, target) = match &self.values[i] {
                DiscordQueryItem::Minecraft { target } => (
                    String::from_str("MINECRAFT"),
                    target.to_hyphenated(),
                ),
                DiscordQueryItem::Discord { target } => (
                    String::from_str("DISCORD"),
                    target.clone(),
                ),
            };
            let mut fields: Vec<(String, JsonValue)> = Vec::new();
            fields.push((String::from_str("type"), JsonValue::Str(kind)));
            fields.push((String::from_str("target"), JsonValue::Str(target)));
            items.push(JsonValue::Object(fields));
            i += 1;
        }
        wrap_query(JsonValue::Array(items))
    }
}

/// Builds a `DiscordQuery` lookup by lookup.
#[derive(Debug, Clone)]
pub struct DiscordQueryBuilder {
    pub values: Vec<DiscordQueryItem>,
}

impl Default for DiscordQueryBuilder {
    fn default() -> (r: Self)
        ensures
            r.values@.len() == 0,
    {
        DiscordQueryBuilder { values: Vec::new() }
    }
}

impl DiscordQueryBuilder {
    /// Appends one lookup; order is kept and duplicates are allowed.
    pub fn insert(self, single: DiscordQueryItem) -> (r: Self)
        ensures
            r.values@ == self.values@.push(single),
    {
        let mut values = self.values;
        values.push(single);
        DiscordQueryBuilder { values }
    }

    /// Finalizes the builder; always succeeds, an empty query is valid.
    pub fn build(self) -> (r: Result<DiscordQuery, BuildError>)
        ensures
            r matches Ok(q) && q.values@ == self.values@,
    {
        Ok(DiscordQuery { values: self.values })
    }
}

/// What a nearby search is anchored at.
#[derive(Debug, Clone, Copy, PartialEq, Eq, Structural)]
pub enum NearbyTargetType {
    Town,
    Coordinate,
}

/// What a nearby search looks for.
#[derive(Debug, Clone, Copy, PartialEq, Eq, Structural)]
pub enum NearbySearchType {
    Town,
}

/// The anchor itself: a town by name, or a coordinate pair.
#[derive(Debug, Clone)]
pub enum NearbyTarget {
    Town(String),
    Coordinates([i32; 2]),
}

/// One radius-bounded proximity search.
#[derive(Debug, Clone)]
pub struct NearbyQueryItem {
    pub target_type: NearbyTargetType,
    pub target: NearbyTarget,
    pub search_type: NearbySearchType,
    pub radius: i32,
}

/// The wire name of a target type.
pub open spec fn spec_target_type_text(t: NearbyTargetType) -> Seq<char> {
    match t {
        NearbyTargetType::Town => "TOWN"@,
        NearbyTargetType::Coordinate => "COORDINATE"@,
    }
}

/// The wire name of a search type.
pub open spec fn spec_search_type_text(t: NearbySearchType) -> Seq<char> {
    match t {
        NearbySearchType::Town => "TOWN"@,
    }
}

/// Whether `v` is the wire form of an anchor: bare name text for a town, a
/// two-element array for coordinates.
pub open spec fn is_nearby_target_encoding(v: JsonValue, t: NearbyTarget) -> bool {
    match t {
        NearbyTarget::Town(name) => v matches JsonValue::Str(s) && s@ == name@,
        NearbyTarget::Coordinates(xz) => v matches JsonValue::Array(pair) && pair@ == seq![
            JsonValue::Int(xz@[0] as i64),
            JsonValue::Int(xz@[1] as i64),
        ],
    }
}

/// Whether `v` is the wire object of one search item, with its four fields
/// in canonical order.
pub open spec fn is_nearby_item_encoding(v: JsonValue, item: NearbyQueryItem) -> bool {
    &&& v matches JsonValue::Object(fields)
    &&& fields@.len() == 4
    &&& fields@[0].0@ == "target_type"@
    &&& fields@[0].1 matches JsonValue::Str(tt) && tt@ == spec_target_type_text(item.target_type)
    &&& fields@[1].0@ == "target"@
    &&& is_nearby_target_encoding(fields@[1].1, item.target)
    &&& fields@[2].0@ == "search_type"@
    &&& fields@[2].1 matches JsonValue::Str(st) && st@ == spec_search_type_text(item.search_type)
    &&& fields@[3].0@ == "radius"@
    &&& fields@[3].1 == JsonValue::Int(item.radius as i64)
}

/// A proximity query: an ordered list of search items; the server answers
/// with one result list per item, index-aligned.
#[derive(Debug, Clone)]
pub struct NearbyQuery {
    pub values: Vec<NearbyQueryItem>,
}

/// Whether `v` is the body a nearby query serializes to: the wrapper around
/// one search-item object per item, in insertion order. The payload length
/// equals the item count, which is what aligns the server's answer lists
/// with the request.
pub open spec fn is_nearby_query_body(v: JsonValue, values: Seq<NearbyQueryItem>) -> bool {
    &&& v matches JsonValue::Object(fields)
    &&& fields@.len() == 1
    &&& fields@[0].0@ == "query"@
    &&& fields@[0].1 matches JsonValue::Array(items)
    &&& items@.len() == values.len()
    &&& forall|i: int|
        0 <= i < values.len() ==> is_nearby_item_encoding(#[trigger] items@[i], values[i])
}

fn encode_nearby_item(item: &NearbyQueryItem) -> (r: JsonValue)
    ensures
        is_nearby_item_encoding(r, *item),
{
    let target_type = match item.target_type {
        NearbyTargetType::Town => String::from_str("TOWN"),
        NearbyTargetType::Coordinate => String::from_str("COORDINATE"),
    };
    let target = match &item.target {
        NearbyTarget::Town(name) => JsonValue::Str(name.clone()),
        NearbyTarget::Coordinates(xz) => {
            let mut pair: Vec<JsonValue> = Vec::new();
            pair.push(JsonValue::Int(xz[0] as i64));
            pair.push(JsonValue::Int(xz[1] as i64));
            proof {
                assert(pair@ =~= seq![
                    JsonValue::Int(xz@[0] as i64),
                    JsonValue::Int(xz@[1] as i64),
                ]);
            }
            JsonValue::Array(pair)
        },
    };
    let search_type = match item.search_type {
        NearbySearchType::Town => String::from_str("TOWN"),
    };
    let mut fields: Vec<(String, JsonValue)> = Vec::new();
    fields.push((String::from_str("target_type"), JsonValue::Str(target_type)));
    fields.push((String::from_str("target"), target));
    fields.push((String::from_str("search_type"), JsonValue::Str(search_type)));
    fields.push((String::from_str("radius"), JsonValue::Int(item.radius as i64)));
    JsonValue::Object(fields)
}

impl NearbyQuery {
    /// Encodes this query as its request body.
    pub fn encode_body(&self) -> (r: JsonValue)
        ensures
            is_nearby_query_body(r, self.values@),
    {
        let mut items: Vec<JsonValue> = Vec::new();
        let mut i: usize = 0;
        let len = self.values.len();
        while i < len
            invariant
                i <= len,
                len == self.values@.len(),
                items@.len() == i,
                forall|j: int|
                    0 <= j < i ==> is_nearby_item_encoding(#[trigger] items@[j], self.values@[j]),
            decreases len - i,
        {
            items.push(encode_nearby_item(&self.values[i]));
            i += 1;
        }
        wrap_query(JsonValue::Array(items))
    }
}

/// Builds a `NearbyQuery` search item by search item.
#[derive(Debug, Clone)]
pub struct NearbyQueryBuilder {
    pub values: Vec<NearbyQueryItem>,
}

impl Default for NearbyQueryBuilder {
    fn default() -> (r: Self)
        ensures
            r.values@.len() == 0,
    {
        NearbyQueryBuilder { values: Vec::new() }
    }
}

impl NearbyQueryBuilder {
    /// Appends one search item; order is kept, which the index-aligned
    /// answer depends on.
    pub fn add(self, single: NearbyQueryItem) -> (r: Self)
        ensures
            r.values@ == self.values@.push(single),
    {
        let mut values = self.values;
        values.push(single);
        NearbyQueryBuilder { values }
    }

    /// Finalizes the builder; always succeeds, an empty query is valid.
    pub fn build(self) -> (r: Result<NearbyQuery, BuildError>)
        ensures
            r matches Ok(q) && q.values@ == self.values@,
    {
        Ok(NearbyQuery { values: self.values })
    }
}

/// Builds one search item; every field is structurally required.
#[derive(Debug, Clone)]
pub struct NearbyQueryItemBuilder {
    pub target_type: Option<NearbyTargetType>,
    pub target: Option<NearbyTarget>,
    pub search_type: Option<NearbySearchType>,
    pub radius: Option<i32>,
}

impl Default for NearbyQueryItemBuilder {
    fn default() -> (r: Self)
        ensures
            r.target_type is None,
            r.target is None,
            r.search_type is None,
            r.radius is None,
    {
        NearbyQueryItemBuilder { target_type: None, target: None, search_type: None, radius: None }
    }
}

impl NearbyQueryItemBuilder {
    /// Sets what the search is anchored at.
    pub fn target_type(self, target_type: NearbyTargetType) -> (r: Self)
        ensures
            r.target_type == Some(target_type),
            r.target == self.target,
            r.search_type == self.search_type,
            r.radius == self.radius,
    {
        NearbyQueryItemBuilder { target_type: Some(target_type), ..self }
    }

    /// Sets the anchor itself.
    pub fn target(self, target: NearbyTarget) -> (r: Self)
        ensures
            r.target_type == self.target_type,
            r.target matches Some(t) && t == target,
            r.search_type == self.search_type,
            r.radius == self.radius,
    {
        NearbyQueryItemBuilder { target: Some(target), ..self }
    }

    /// Sets what the search looks for.
    pub fn search_type(self, search_type: NearbySearchType) -> (r: Self)
        ensures
            r.target_type == self.target_type,
            r.target == self.target,
            r.search_type == Some(search_type),
            r.radius == self.radius,
    {
        NearbyQueryItemBuilder { search_type: Some(search_type), ..self }
    }

    /// Sets the search radius.
    pub fn radius(self, radius: i32) -> (r: Self)
        ensures
            r.target_type == self.target_type,
            r.target == self.target,
            r.search_type == self.search_type,
            r.radius == Some(radius),
    {
        NearbyQueryItemBuilder { radius: Some(radius), ..self }
    }

    /// Finalizes the item. Building fails exactly when a field was never
    /// set, naming the first missing one in declaration order; it never
    /// fails for any other reason.
    pub fn build(self) -> (r: Result<NearbyQueryItem, BuildError>)
        ensures
            r is Ok <==> self.target_type is Some && self.target is Some && self.search_type
                is Some && self.radius is Some,
            (r matches Ok(item) ==> {
                &&& Some(item.target_type) == self.target_type
                &&& Some(item.target) == self.target
                &&& Some(item.search_type) == self.search_type
                &&& Some(item.radius) == self.radius
            }),
            (r matches Err(e) ==> e == BuildError::UninitializedField(
                if self.target_type is None {
                    "target_type"
                } else if self.target is None {
                    "target"
                } else if self.search_type is None {
                    "search_type"
                } else {
                    "radius"
                },
            )),
    {
        let target_type = match self.target_type {
            Some(t) => t,
            None => {
                return Err(BuildError::UninitializedField("target_type"));
            },
        };
        let target = match self.target {
            Some(t) => t,
            None => {
                return Err(BuildError::UninitializedField("target"));
            },
        };
        let search_type = match self.search_type {
            Some(t) => t,
            None => {
                return Err(BuildError::UninitializedField("search_type"));
            },
        };
        let radius = match self.radius {
            Some(t) => t,
            None => {
                return Err(BuildError::UninitializedField("radius"));
            },
        };
        Ok(NearbyQueryItem { target_type, target, search_type, radius })
    }
}

} // verus!
