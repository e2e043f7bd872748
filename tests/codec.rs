use sim_model::codec::{
    decode_repr, encode, known_tags, CodecError, DecodeError, Field, Kind,
};
use sim_model::model::{AsModel, FromConfig, Model, ModelClone};
use sim_model::node::{key_is, Node};

fn text(s: &str) -> Node {
    Node::Str(s.to_string())
}

fn num(s: &str) -> Node {
    Node::Number(s.to_string())
}

fn mapping(entries: Vec<(Node, Node)>) -> Node {
    Node::Mapping(entries)
}

#[derive(Clone, Debug, PartialEq)]
struct Fake {
    tag: &'static str,
    fields: Vec<(String, String)>,
    remaining: f64,
    log: Vec<String>,
}

impl Fake {
    fn new(tag: &'static str, fields: &[(&str, &str)]) -> Fake {
        Fake {
            tag,
            fields: fields.iter().map(|(k, v)| (k.to_string(), v.to_string())).collect(),
            remaining: 10.0,
            log: Vec::new(),
        }
    }
}

impl ModelClone for Fake {
    fn clone_box(&self) -> Fake {
        self.clone()
    }
}

impl AsModel for Fake {
    type Message = String;
    type Rng = u64;
    type Error = String;
    type Time = f64;

    fn get_type(&self) -> &'static str {
        self.tag
    }

    fn serialize(&self) -> Node {
        if self.fields.is_empty() {
            return Node::Null;
        }
        mapping(self.fields.iter().map(|(k, v)| (text(k), num(v))).collect())
    }

    fn status(&self) -> String {
        format!("remaining {}", self.remaining)
    }

    fn events_ext(&mut self, rng: &mut u64, msg: String) -> Result<Vec<String>, String> {
        self.log.push(format!("ext {} {}", rng, msg));
        *rng += 1;
        if msg == "fail" {
            return Err("rejected".to_string());
        }
        Ok(vec![format!("echo {}", msg)])
    }

    fn events_int(&mut self, rng: &mut u64) -> Result<Vec<String>, String> {
        self.log.push(format!("int {}", rng));
        *rng += 2;
        Ok(vec!["tick".to_string(), "tock".to_string()])
    }

    fn time_advance(&mut self, delta: f64) {
        self.log.push(format!("advance {}", delta));
        self.remaining -= delta;
    }

    fn until_next_event(&self) -> f64 {
        self.remaining
    }
}

impl FromConfig for Fake {
    fn from_config(kind: Kind, extra: Vec<(Node, Node)>) -> Result<Fake, String> {
        let mut fields = Vec::new();
        for (k, v) in extra {
            match (k, v) {
                (Node::Str(k), Node::Number(v)) => fields.push((k, v)),
                _ => return Err("expected a numeric field".to_string()),
            }
        }
        Ok(Fake { tag: kind.tag(), fields, remaining: 10.0, log: Vec::new() })
    }
}

#[test]
fn round_trip_every_known_variant() {
    for tag in ["Generator", "ExclusiveGateway", "Processor", "Storage"] {
        let m = Model::new("m7".to_string(), Fake::new(tag, &[("rate", "3"), ("capacity", "12")]));
        let back = Model::<Fake>::decode(m.encode()).unwrap();
        assert_eq!(back.id(), "m7");
        assert_eq!(back.get_type(), tag);
        assert_eq!(back.serialize(), m.serialize());
    }
}

#[test]
fn round_trip_without_extra_fields() {
    let m = Model::new("g".to_string(), Fake::new("Generator", &[]));
    let n = m.encode();
    assert_eq!(n, mapping(vec![(text("id"), text("g")), (text("type"), text("Generator"))]));
    let back = Model::<Fake>::decode(n).unwrap();
    assert_eq!(back.id(), "g");
    assert_eq!(back.serialize(), Node::Null);
}

#[test]
fn unknown_tag_names_it_and_lists_known_tags() {
    let n = mapping(vec![(text("id"), text("x")), (text("type"), text("Bogus"))]);
    match Model::<Fake>::decode(n) {
        Err(CodecError::UnknownVariant { tag, known }) => {
            assert_eq!(tag, "Bogus");
            assert_eq!(known, vec!["Generator", "ExclusiveGateway", "Processor", "Storage"]);
        },
        other => panic!("unexpected outcome: {:?}", other.err()),
    }
}

#[test]
fn clone_is_independent() {
    let m = Model::new("p".to_string(), Fake::new("Processor", &[]));
    let mut c = m.clone();
    c.time_advance(5.0);
    assert_eq!(m.until_next_event(), 10.0);
    assert_eq!(c.until_next_event(), 5.0);
    assert_eq!(c.id(), "p");
    let mut b = c.clone_box();
    b.time_advance(1.5);
    assert_eq!(c.until_next_event(), 5.0);
    assert_eq!(b.until_next_event(), 3.5);
}

#[test]
fn calls_reach_the_inner_value_unchanged() {
    let mut m = Model::new("s".to_string(), Fake::new("Storage", &[]));
    let mut rng: u64 = 40;
    assert_eq!(m.events_ext(&mut rng, "job".to_string()), Ok(vec!["echo job".to_string()]));
    assert_eq!(rng, 41);
    assert_eq!(m.events_ext(&mut rng, "fail".to_string()), Err("rejected".to_string()));
    assert_eq!(m.events_int(&mut rng), Ok(vec!["tick".to_string(), "tock".to_string()]));
    assert_eq!(rng, 44);
    m.time_advance(2.5);
    assert_eq!(m.until_next_event(), 7.5);
    assert_eq!(m.status(), "remaining 7.5");
    let n = m.encode();
    let inner = Model::<Fake>::decode(n).unwrap();
    assert_eq!(inner.id(), "s");
    let mut probe = Fake::new("Storage", &[]);
    let mut rng2: u64 = 40;
    let _ = probe.events_ext(&mut rng2, "job".to_string());
    let _ = probe.events_ext(&mut rng2, "fail".to_string());
    let _ = probe.events_int(&mut rng2);
    probe.time_advance(2.5);
    assert_eq!(probe.log, vec!["ext 40 job", "ext 41 fail", "int 42", "advance 2.5"]);
}

#[test]
fn time_bookkeeping_never_fails() {
    let mut m = Model::new("t".to_string(), Fake::new("Generator", &[]));
    m.time_advance(0.0);
    assert_eq!(m.until_next_event(), 10.0);
    m.time_advance(10.0);
    assert_eq!(m.until_next_event(), 0.0);
    let idle = Model::new("idle".to_string(), Fake { remaining: f64::INFINITY, ..Fake::new("Storage", &[]) });
    assert!(idle.until_next_event().is_infinite());
}

#[test]
fn flatten_and_unflatten_are_symmetric() {
    let extra = mapping(vec![(text("a"), num("1")), (text("b"), num("2"))]);
    let n = encode("m1".to_string(), "Processor", extra);
    let expected = mapping(vec![
        (text("id"), text("m1")),
        (text("type"), text("Processor")),
        (text("a"), num("1")),
        (text("b"), num("2")),
    ]);
    assert_eq!(n, expected);
    let repr = decode_repr(n).unwrap();
    assert_eq!(repr.id, "m1");
    assert_eq!(repr.model_type, "Processor");
    assert_eq!(repr.extra, vec![(text("a"), num("1")), (text("b"), num("2"))]);
}

#[test]
fn reserved_fields_may_come_anywhere() {
    let n = mapping(vec![
        (text("a"), num("1")),
        (text("type"), text("Storage")),
        (text("b"), Node::Bool(true)),
        (text("id"), text("z")),
    ]);
    let repr = decode_repr(n).unwrap();
    assert_eq!(repr.id, "z");
    assert_eq!(repr.model_type, "Storage");
    assert_eq!(repr.extra, vec![(text("a"), num("1")), (text("b"), Node::Bool(true))]);
}

#[test]
fn not_a_mapping_is_rejected() {
    assert_eq!(decode_repr(Node::Null).err(), Some(DecodeError::NotAMapping));
    assert_eq!(decode_repr(text("id")).err(), Some(DecodeError::NotAMapping));
}

#[test]
fn missing_fields_are_rejected() {
    let no_id = mapping(vec![(text("type"), text("Storage"))]);
    assert_eq!(decode_repr(no_id).err(), Some(DecodeError::Missing(Field::Id)));
    let no_type = mapping(vec![(text("id"), text("q"))]);
    assert_eq!(decode_repr(no_type).err(), Some(DecodeError::Missing(Field::Type)));
    assert_eq!(decode_repr(mapping(vec![])).err(), Some(DecodeError::Missing(Field::Id)));
}

#[test]
fn duplicate_fields_are_rejected() {
    let n = mapping(vec![
        (text("id"), text("q")),
        (text("type"), text("Storage")),
        (text("type"), text("Processor")),
    ]);
    assert_eq!(decode_repr(n).err(), Some(DecodeError::Duplicate(Field::Type)));
}

#[test]
fn non_string_fields_are_rejected() {
    let n = mapping(vec![(text("id"), num("5")), (text("type"), text("Storage"))]);
    assert_eq!(decode_repr(n).err(), Some(DecodeError::NotAString(Field::Id)));
    let n = mapping(vec![(text("id"), text("q")), (text("type"), Node::Null)]);
    assert_eq!(decode_repr(n).err(), Some(DecodeError::NotAString(Field::Type)));
}

#[test]
fn malformed_form_is_a_decode_error() {
    let n = mapping(vec![(text("type"), text("Storage"))]);
    match Model::<Fake>::decode(n) {
        Err(CodecError::Decode(e)) => assert_eq!(e, DecodeError::Missing(Field::Id)),
        _ => panic!("expected a decode error"),
    }
}

#[test]
fn variant_decoder_rejection_is_a_decode_error() {
    let n = mapping(vec![
        (text("id"), text("q")),
        (text("type"), text("Processor")),
        (text("a"), text("not a number")),
    ]);
    match Model::<Fake>::decode(n) {
        Err(CodecError::Decode(DecodeError::Invalid(msg))) => {
            assert_eq!(msg, "expected a numeric field")
        },
        _ => panic!("expected the variant's rejection"),
    }
}

#[test]
fn tags_map_to_kinds_in_declared_order() {
    let kinds = Kind::all();
    assert_eq!(
        kinds,
        vec![Kind::Generator, Kind::ExclusiveGateway, Kind::Processor, Kind::Storage]
    );
    for k in kinds {
        assert_eq!(Kind::from_tag(k.tag()), Some(k));
    }
    assert_eq!(Kind::from_tag("processor"), None);
    assert_eq!(Kind::from_tag(""), None);
    assert_eq!(known_tags(), vec!["Generator", "ExclusiveGateway", "Processor", "Storage"]);
}

#[test]
fn key_test_matches_string_keys_only() {
    let id = "id".to_string();
    assert!(key_is(&text("id"), &id));
    assert!(!key_is(&text("ids"), &id));
    assert!(!key_is(&num("1"), &id));
}

#[test]
fn nested_values_pass_through() {
    let inner = Node::List(vec![Node::Null, Node::Tagged("!x".to_string(), Box::new(num("1.5")))]);
    let n = encode("n".to_string(), "Storage", mapping(vec![(text("items"), inner)]));
    let repr = decode_repr(n).unwrap();
    let expected = Node::List(vec![Node::Null, Node::Tagged("!x".to_string(), Box::new(num("1.5")))]);
    assert_eq!(repr.extra, vec![(text("items"), expected)]);
}

#[test]
fn extra_field_named_like_a_reserved_one_is_reported() {
    let extra = mapping(vec![(text("id"), text("shadow")), (text("rate"), num("4"))]);
    let n = encode("m2".to_string(), "Generator", extra);
    assert_eq!(decode_repr(n).err(), Some(DecodeError::Duplicate(Field::Id)));
}
