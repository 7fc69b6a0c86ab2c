use earthmc::errors::BuildError;
use earthmc::json::JsonValue;
use earthmc::query::{
    DiscordQueryBuilder, DiscordQueryItem, LocationQueryBuilder, NearbyQueryBuilder,
    NearbyQueryItemBuilder, NearbySearchType, NearbyTarget, NearbyTargetType, SimpleQueryBuilder,
    StrOrUuid, UuidQueryBuilder,
};
use earthmc::uuids::Uuid;

fn unwrap_payload(body: &JsonValue) -> &Vec<JsonValue> {
    match body {
        JsonValue::Object(fields) => {
            assert_eq!(fields.len(), 1);
            assert_eq!(fields[0].0, "query");
            match &fields[0].1 {
                JsonValue::Array(items) => items,
                _ => panic!("the query payload must be an array"),
            }
        }
        _ => panic!("a query body must be an object"),
    }
}

#[test]
fn simple_query_keeps_order_and_duplicates() {
    let query = SimpleQueryBuilder::default()
        .add(StrOrUuid::from_name("London"))
        .add(StrOrUuid::from_name("Berlin"))
        .add(StrOrUuid::from_name("London"))
        .build()
        .unwrap();
    let body = query.encode_body();
    let items = unwrap_payload(&body);
    assert_eq!(items.len(), 3);
    let texts: Vec<&str> = items
        .iter()
        .map(|v| match v {
            JsonValue::Str(s) => s.as_str(),
            _ => panic!("simple query elements are text"),
        })
        .collect();
    assert_eq!(texts, ["London", "Berlin", "London"]);
}

#[test]
fn empty_simple_query_is_valid() {
    let query = SimpleQueryBuilder::default().build().unwrap();
    let items_len = unwrap_payload(&query.encode_body()).len();
    assert_eq!(items_len, 0);
}

#[test]
fn simple_query_serializes_uuids_hyphenated() {
    let uuid = Uuid { bytes: [0xf1, 0x7d, 0x77, 0xab, 0xae, 0xd4, 0x44, 0xe7, 0x96, 0xef, 0xec,
        0x9c, 0xd4, 0x73, 0xed, 0xa3] };
    let query = SimpleQueryBuilder::default().add(StrOrUuid::from_uuid(uuid)).build().unwrap();
    let body = query.encode_body();
    let items = unwrap_payload(&body);
    match &items[0] {
        JsonValue::Str(s) => assert_eq!(s, "f17d77ab-aed4-44e7-96ef-ec9cd473eda3"),
        _ => panic!("expected text"),
    }
}

#[test]
fn uuid_query_round_trip() {
    let uuid = Uuid { bytes: [0x97, 0x1c, 0x53, 0x15, 0x12, 0xc2, 0x4c, 0x15, 0xa8, 0xc3, 0xd6,
        0x51, 0x21, 0xfa, 0x4e, 0x07] };
    let query = UuidQueryBuilder::default().insert(uuid).build().unwrap();
    let body = query.encode_body();
    let items = unwrap_payload(&body);
    assert_eq!(items.len(), 1);
    match &items[0] {
        JsonValue::Str(s) => assert_eq!(s, "971c5315-12c2-4c15-a8c3-d65121fa4e07"),
        _ => panic!("expected text"),
    }
}

#[test]
fn location_query_encodes_coordinate_pairs() {
    let query = LocationQueryBuilder::default()
        .insert([0, 0])
        .insert([100, -100])
        .build()
        .unwrap();
    let body = query.encode_body();
    let items = unwrap_payload(&body);
    assert_eq!(items.len(), 2);
    match &items[1] {
        JsonValue::Array(pair) => {
            assert!(matches!(pair[0], JsonValue::Int(100)));
            assert!(matches!(pair[1], JsonValue::Int(-100)));
        }
        _ => panic!("expected a coordinate pair"),
    }
}

#[test]
fn discord_query_encodes_both_directions() {
    let uuid = Uuid { bytes: [0; 16] };
    let query = DiscordQueryBuilder::default()
        .insert(DiscordQueryItem::Minecraft { target: uuid })
        .insert(DiscordQueryItem::Discord { target: "160374716928884736".to_string() })
        .build()
        .unwrap();
    let body = query.encode_body();
    let items = unwrap_payload(&body);
    assert_eq!(items.len(), 2);
    match &items[0] {
        JsonValue::Object(fields) => {
            assert_eq!(fields[0].0, "type");
            assert!(matches!(&fields[0].1, JsonValue::Str(s) if s == "MINECRAFT"));
            assert_eq!(fields[1].0, "target");
            assert!(
                matches!(&fields[1].1, JsonValue::Str(s) if s == "00000000-0000-0000-0000-000000000000")
            );
        }
        _ => panic!("expected an object"),
    }
    match &items[1] {
        JsonValue::Object(fields) => {
            assert!(matches!(&fields[0].1, JsonValue::Str(s) if s == "DISCORD"));
            assert!(matches!(&fields[1].1, JsonValue::Str(s) if s == "160374716928884736"));
        }
        _ => panic!("expected an object"),
    }
}

#[test]
fn nearby_query_with_two_items_encodes_two_payload_elements() {
    let query = NearbyQueryBuilder::default()
        .add(
            NearbyQueryItemBuilder::default()
                .target_type(NearbyTargetType::Town)
                .target(NearbyTarget::Town("Berlin".to_string()))
                .search_type(NearbySearchType::Town)
                .radius(500)
                .build()
                .unwrap(),
        )
        .add(
            NearbyQueryItemBuilder::default()
                .target_type(NearbyTargetType::Coordinate)
                .target(NearbyTarget::Coordinates([0, 0]))
                .search_type(NearbySearchType::Town)
                .radius(1500)
                .build()
                .unwrap(),
        )
        .build()
        .unwrap();
    let body = query.encode_body();
    let items = unwrap_payload(&body);
    assert_eq!(items.len(), 2);
    match &items[0] {
        JsonValue::Object(fields) => {
            assert_eq!(fields.len(), 4);
            assert_eq!(fields[0].0, "target_type");
            assert!(matches!(&fields[0].1, JsonValue::Str(s) if s == "TOWN"));
            assert_eq!(fields[1].0, "target");
            assert!(matches!(&fields[1].1, JsonValue::Str(s) if s == "Berlin"));
            assert_eq!(fields[2].0, "search_type");
            assert!(matches!(&fields[2].1, JsonValue::Str(s) if s == "TOWN"));
            assert_eq!(fields[3].0, "radius");
            assert!(matches!(fields[3].1, JsonValue::Int(500)));
        }
        _ => panic!("expected an object"),
    }
    match &items[1] {
        JsonValue::Object(fields) => {
            assert!(matches!(&fields[0].1, JsonValue::Str(s) if s == "COORDINATE"));
            assert!(matches!(&fields[1].1, JsonValue::Array(pair) if pair.len() == 2));
            assert!(matches!(fields[3].1, JsonValue::Int(1500)));
        }
        _ => panic!("expected an object"),
    }
}

#[test]
fn nearby_item_builder_names_the_missing_field() {
    let err = NearbyQueryItemBuilder::default()
        .target_type(NearbyTargetType::Town)
        .target(NearbyTarget::Town("Berlin".to_string()))
        .search_type(NearbySearchType::Town)
        .build()
        .unwrap_err();
    assert_eq!(err, BuildError::UninitializedField("radius"));

    let err = NearbyQueryItemBuilder::default().build().unwrap_err();
    assert_eq!(err, BuildError::UninitializedField("target_type"));
}
