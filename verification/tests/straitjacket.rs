use straitjacket::builder::StraitJacketBuilder;
use straitjacket::generate::straitjacket;
use straitjacket::parser::{get_attributes_and_values, get_key_value, AttributeEntry, AttributeLiteral};
use straitjacket::wire::{
    collection_read, collection_write, envelope_read_fields, envelope_write_fields, tag_read,
    tag_write,
};
use straitjacket::wrapper::{
    collection_from_items, envelopes_from_collection, items_from_collection, Collection, Envelope,
    Tag,
};

use inflector::cases::snakecase::to_snake_case;
use inflector::string::pluralize::to_plural;

#[derive(Debug, PartialEq, Clone)]
pub struct Link {
    rel: String,
    href: String,
}

#[derive(Debug, PartialEq, Clone)]
struct MyMetadata {
    created_at: String,
    updated_at: String,
    links: Vec<Link>,
}

#[derive(Debug, PartialEq, Clone, Default)]
pub struct MappingRule {
    id: u64,
    metric_id: u64,
    pattern: String,
    http_method: String,
    delta: u64,
    position: u64,
    last: bool,
}

fn mapping_rules_fixture() -> Vec<MappingRule> {
    vec![
        MappingRule {
            id: 375841,
            metric_id: 2555418191879,
            pattern: "/".into(),
            http_method: "GET".into(),
            delta: 1,
            position: 1,
            last: false,
        },
        MappingRule {
            id: 375842,
            metric_id: 2555418191880,
            pattern: "/".into(),
            http_method: "POST".into(),
            delta: 1,
            position: 2,
            last: false,
        },
    ]
}

#[test]
// This is just a compile test, as we should generate the below types
fn t() {
    let mr = MappingRule { ..Default::default() };
    let _ = Collection::<MappingRule, MyMetadata> { entries: vec![] };
    let _ = Tag::Tag(Envelope { item: mr, metadata: None::<MyMetadata> });
    assert!(true);
}

#[test]
fn it_serializes() {
    let names = StraitJacketBuilder::new("MappingRule".to_string()).build();
    let mapping_rules = collection_from_items::<MappingRule, MyMetadata>(mapping_rules_fixture());
    let envelopes = envelopes_from_collection(mapping_rules);
    let mut tag_objects = Vec::new();
    for envelope in envelopes {
        assert!(envelope.metadata.is_none());
        tag_objects.push(tag_write(names.name_snake(), envelope.item));
    }
    let wire = collection_write(names.plural_snake(), tag_objects);
    println!("{:?}", wire);
}

#[derive(Debug, PartialEq, Clone)]
enum Val {
    U(u64),
    B(bool),
    S(String),
    Links(Vec<Link>),
}

fn wire_rule(
    id: u64,
    metric_id: u64,
    http_method: &str,
    position: u64,
    created_at: &str,
    links: Vec<Link>,
) -> Vec<(String, Val)> {
    vec![
        ("id".to_string(), Val::U(id)),
        ("metric_id".to_string(), Val::U(metric_id)),
        ("pattern".to_string(), Val::S("/".to_string())),
        ("http_method".to_string(), Val::S(http_method.to_string())),
        ("delta".to_string(), Val::U(1)),
        ("position".to_string(), Val::U(position)),
        ("last".to_string(), Val::B(false)),
        ("created_at".to_string(), Val::S(created_at.to_string())),
        ("updated_at".to_string(), Val::S("2019-03-19T09:04:39Z".to_string())),
        ("links".to_string(), Val::Links(links)),
    ]
}

fn item_keys() -> Vec<String> {
    ["id", "metric_id", "pattern", "http_method", "delta", "position", "last"]
        .iter()
        .map(|k| k.to_string())
        .collect()
}

fn metadata_keys() -> Vec<String> {
    ["created_at", "updated_at", "links"].iter().map(|k| k.to_string()).collect()
}

fn links_fixture(rule: u64) -> Vec<Link> {
    vec![
        Link {
            rel: "self".to_string(),
            href: format!("/admin/api/services/2555417777820/proxy/mapping_rules/{}", rule),
        },
        Link {
            rel: "service".to_string(),
            href: "/admin/api/services/2555417777820".to_string(),
        },
        Link {
            rel: "proxy".to_string(),
            href: "/admin/api/services/2555417777820/proxy".to_string(),
        },
    ]
}

#[test]
fn it_parses() {
    let names = StraitJacketBuilder::new("MappingRule".to_string()).build();
    let body = collection_write(
        names.plural_snake(),
        vec![
            tag_write(
                names.name_snake(),
                wire_rule(
                    375841,
                    2555418191879,
                    "GET",
                    1,
                    "2019-03-19T09:04:35Z",
                    links_fixture(375841),
                ),
            ),
            tag_write(
                names.name_snake(),
                wire_rule(
                    375842,
                    2555418191880,
                    "POST",
                    2,
                    "2019-03-19T09:04:36Z",
                    links_fixture(375842),
                ),
            ),
        ],
    );

    let mapping_rules = collection_read(body, names.plural_snake());
    assert!(mapping_rules.is_some());
    let mapping_rules = mapping_rules.unwrap();
    assert_eq!(mapping_rules.len(), 2);

    let mut parsed = Vec::new();
    for tag_object in mapping_rules {
        let envelope_fields = tag_read(tag_object, names.name_snake()).unwrap();
        let (item_fields, metadata_fields) =
            envelope_read_fields(envelope_fields, &item_keys(), &metadata_keys());
        assert_eq!(item_fields.len(), 7);
        let metadata_fields = metadata_fields.unwrap();
        assert_eq!(metadata_fields.len(), 3);
        parsed.push((item_fields, metadata_fields));
    }
    assert_eq!(parsed[0].0[0], ("id".to_string(), Val::U(375841)));
    assert_eq!(parsed[1].0[0], ("id".to_string(), Val::U(375842)));
    assert_eq!(
        parsed[0].1[0],
        ("created_at".to_string(), Val::S("2019-03-19T09:04:35Z".to_string()))
    );
    println!("PARSED:\n{:?}", parsed);
}

#[test]
fn derives_defaults_deterministically() {
    let first = StraitJacketBuilder::new("MappingRule".to_string()).build();
    let second = StraitJacketBuilder::new("MappingRule".to_string()).build();
    assert_eq!(first.name(), "MappingRule");
    assert_eq!(first.name_snake(), "mapping_rule");
    assert_eq!(first.name_and_metadata(), "MappingRuleAndMetadata");
    assert_eq!(first.name_tag(), "MappingRuleTag");
    assert_eq!(first.plural(), "MappingRules");
    assert_eq!(first.plural_snake(), "mapping_rules");
    assert_eq!(first.metadata(), "Metadata");
    assert_eq!(first.name(), second.name());
    assert_eq!(first.name_snake(), second.name_snake());
    assert_eq!(first.name_and_metadata(), second.name_and_metadata());
    assert_eq!(first.name_tag(), second.name_tag());
    assert_eq!(first.plural(), second.plural());
    assert_eq!(first.plural_snake(), second.plural_snake());
    assert_eq!(first.metadata(), second.metadata());
}

#[test]
fn plural_override_drives_plural_snake() {
    let names = StraitJacketBuilder::new("Plan".to_string()).set("plural", "Plans2").build();
    assert_eq!(names.plural(), "Plans2");
    assert_eq!(names.plural_snake(), &to_snake_case("Plans2"));
    assert_ne!(names.plural_snake(), &to_snake_case(&to_plural("Plan")));
}

#[test]
fn pluralizes_consonant_y_and_trailing_s() {
    let names = StraitJacketBuilder::new("Policy".to_string()).build();
    assert_eq!(names.plural(), "Policies");
    assert_eq!(names.plural_snake(), "policies");
    let names = StraitJacketBuilder::new("Bus".to_string()).build();
    assert_eq!(names.plural(), "Buses");
    assert_eq!(names.plural_snake(), "buses");
}

#[test]
fn ignores_unknown_keys_and_keeps_last_write() {
    let names = StraitJacketBuilder::new("Plan".to_string())
        .set("unknown_attribute", "Ignored")
        .set("metadata", "First")
        .set("metadata", "PlanMetadata")
        .build();
    assert_eq!(names.name(), "Plan");
    assert_eq!(names.name_snake(), "plan");
    assert_eq!(names.plural(), "Plans");
    assert_eq!(names.metadata(), "PlanMetadata");
}

fn name_value(path: &[&str], value: AttributeLiteral) -> AttributeEntry {
    AttributeEntry::NameValue {
        path: path.iter().map(|s| s.to_string()).collect(),
        value,
    }
}

#[test]
fn extracts_only_simple_string_pairs() {
    assert_eq!(
        get_key_value(&name_value(&["plural"], AttributeLiteral::Str("Plans2".to_string()))),
        Some(("plural".to_string(), "Plans2".to_string()))
    );
    assert_eq!(
        get_key_value(&name_value(&["serde", "rename"], AttributeLiteral::Str("x".to_string()))),
        None
    );
    assert_eq!(get_key_value(&name_value(&["delta"], AttributeLiteral::Other)), None);
    assert_eq!(get_key_value(&AttributeEntry::Other), None);
}

#[test]
fn keeps_order_and_duplicates() {
    let entries = vec![
        name_value(&["metadata"], AttributeLiteral::Str("First".to_string())),
        AttributeEntry::Other,
        name_value(&["plural"], AttributeLiteral::Str("Plans2".to_string())),
        name_value(&["a", "b"], AttributeLiteral::Str("dropped".to_string())),
        name_value(&["metadata"], AttributeLiteral::Str("Second".to_string())),
    ];
    let pairs = get_attributes_and_values(&entries);
    assert_eq!(
        pairs,
        vec![
            ("metadata".to_string(), "First".to_string()),
            ("plural".to_string(), "Plans2".to_string()),
            ("metadata".to_string(), "Second".to_string()),
        ]
    );
}

#[test]
fn generates_the_wrapper_family() {
    let attributes = vec![
        name_value(&["metadata"], AttributeLiteral::Str("MyMetadata".to_string())),
        AttributeEntry::Other,
    ];
    let item_definition = "struct MappingRule { id: u64 }";
    let generated = straitjacket("MappingRule", item_definition, &attributes);
    assert_eq!(generated.item, item_definition);
    assert_eq!(generated.names.metadata(), "MyMetadata");
    assert_eq!(generated.envelope.name, "MappingRuleAndMetadata");
    assert_eq!(generated.envelope.item_type, "MappingRule");
    assert_eq!(generated.envelope.metadata_type, "MyMetadata");
    assert_eq!(generated.tag.name, "MappingRuleTag");
    assert_eq!(generated.tag.key, "mapping_rule");
    assert_eq!(generated.tag.envelope_type, "MappingRuleAndMetadata");
    assert_eq!(generated.collection.name, "MappingRules");
    assert_eq!(generated.collection.key, "mapping_rules");
    assert_eq!(generated.collection.tag_type, "MappingRuleTag");
}

#[test]
fn round_trip_preserves_items() {
    let items = mapping_rules_fixture();
    let collection = collection_from_items::<MappingRule, MyMetadata>(items.clone());
    assert_eq!(collection.entries.len(), 2);
    for entry in &collection.entries {
        assert!(matches!(entry, Tag::Tag(Envelope { metadata: None, .. })));
    }
    let back = items_from_collection(collection);
    assert_eq!(back, items);
}

#[test]
fn empty_list_round_trips() {
    let collection = collection_from_items::<MappingRule, MyMetadata>(vec![]);
    assert_eq!(collection.entries.len(), 0);
    let back = items_from_collection(collection);
    assert!(back.is_empty());
}

#[test]
fn suppresses_metadata_on_write() {
    let item_fields = vec![("id".to_string(), Val::U(375841))];
    let metadata_fields =
        Some(vec![("created_at".to_string(), Val::S("2019-03-19T09:04:35Z".to_string()))]);
    let written = envelope_write_fields(item_fields.clone(), metadata_fields);
    assert_eq!(written, item_fields);

    let (read_items, read_metadata) = envelope_read_fields(written, &item_keys(), &metadata_keys());
    assert_eq!(read_items, item_fields);
    assert!(read_metadata.is_none());
}

#[test]
fn rejects_wrong_wire_keys() {
    let names = StraitJacketBuilder::new("MappingRule".to_string()).build();
    let tag_object = tag_write(names.name_snake(), Val::U(1));
    assert_eq!(tag_read(tag_object, names.name_snake()), Some(Val::U(1)));

    let tag_object = tag_write(&"metric".to_string(), Val::U(1));
    assert_eq!(tag_read(tag_object, names.name_snake()), None);

    let mut two_fields = tag_write(names.name_snake(), Val::U(1));
    two_fields.push(("extra".to_string(), Val::U(2)));
    assert_eq!(tag_read(two_fields, names.name_snake()), None);

    let empty: Vec<(String, Vec<Val>)> = vec![];
    assert_eq!(collection_read(empty, names.plural_snake()), None);
}
