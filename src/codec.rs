//! The flat tagged form of a model: `id`, then `type`, then the variant's own
//! fields at the same level.
use vstd::prelude::*;
use crate::node::{Node, entries_of, is_key, key_is};

verus! {

/// The reserved field that holds a model's identifier.
pub open spec fn id_key() -> Seq<char> {
    "id"@
}

/// The reserved field that holds a model's variant tag.
pub open spec fn type_key() -> Seq<char> {
    "type"@
}

/// A key that the flat form reserves for itself.
pub open spec fn is_reserved(k: Node) -> bool {
    is_key(k, id_key()) || is_key(k, type_key())
}

/// The entries of `s` whose key is not reserved, in order.
pub open spec fn extra_entries(s: Seq<(Node, Node)>) -> Seq<(Node, Node)>
    decreases s.len(),
{
    if s.len() == 0 {
        Seq::empty()
    } else if is_reserved(s[0].0) {
        extra_entries(s.drop_first())
    } else {
        seq![s[0]] + extra_entries(s.drop_first())
    }
}

/// The values stored under the key `name` in `s`, in order.
pub open spec fn values_of(s: Seq<(Node, Node)>, name: Seq<char>) -> Seq<Node>
    decreases s.len(),
{
    if s.len() == 0 {
        Seq::empty()
    } else if is_key(s[0].0, name) {
        seq![s[0].1] + values_of(s.drop_first(), name)
    } else {
        values_of(s.drop_first(), name)
    }
}

/// No entry of `s` has a reserved key.
pub open spec fn no_reserved(s: Seq<(Node, Node)>) -> bool {
    forall|i: int| 0 <= i < s.len() ==> !is_reserved(#[trigger] s[i].0)
}

/// One of the two reserved fields.
#[derive(Clone, Copy, Debug, PartialEq, Eq)]
pub enum Field {
    Id,
    Type,
}

pub open spec fn field_key(f: Field) -> Seq<char> {
    match f {
        Field::Id => id_key(),
        Field::Type => type_key(),
    }
}

/// Why a flat form could not be read.
#[derive(Debug, PartialEq)]
pub enum DecodeError {
    /// The value is not a mapping.
    NotAMapping,
    /// A reserved field is absent.
    Missing(Field),
    /// A reserved field occurs more than once.
    Duplicate(Field),
    /// A reserved field does not hold a string.
    NotAString(Field),
    /// The variant's decoder rejected the remaining fields.
    Invalid(String),
}

/// What is wrong with the values found under a reserved field, if anything.
pub open spec fn field_error(vals: Seq<Node>, f: Field) -> Option<DecodeError> {
    if vals.len() == 0 {
        Some(DecodeError::Missing(f))
    } else if vals.len() > 1 {
        Some(DecodeError::Duplicate(f))
    } else if !(vals[0] is Str) {
        Some(DecodeError::NotAString(f))
    } else {
        None
    }
}

/// What is wrong with `n` as a flat form, if anything: it must be a mapping
/// with exactly one string `id` and exactly one string `type`.
pub open spec fn repr_error(n: Node) -> Option<DecodeError> {
    if !(n is Mapping) {
        Some(DecodeError::NotAMapping)
    } else if field_error(values_of(entries_of(n), id_key()), Field::Id) is Some {
        field_error(values_of(entries_of(n), id_key()), Field::Id)
    } else {
        field_error(values_of(entries_of(n), type_key()), Field::Type)
    }
}

/// The string under the reserved field `f` of a well-formed flat form.
pub open spec fn field_of(n: Node, f: Field) -> Seq<char> {
    values_of(entries_of(n), field_key(f))[0]->Str_0@
}

/// Why a model could not be read from its flat form.
#[derive(Debug, PartialEq)]
pub enum CodecError {
    /// The flat form is malformed, or the variant's decoder rejected it.
    Decode(DecodeError),
    /// The tag names no known variant; `known` lists every known tag in
    /// declared order.
    UnknownVariant { tag: String, known: Vec<String> },
}

/// The tagged form of a model, split into its parts.
pub struct ModelRepr {
    pub id: String,
    pub model_type: String,
    pub extra: Vec<(Node, Node)>,
}

/// `r` is the flat form of a model with identifier `id`, tag `tag` and own
/// configuration `extra`: `id` first, `type` second, then the entries of
/// `extra` if it is a mapping.
pub open spec fn is_flat_form(r: Node, id: Seq<char>, tag: Seq<char>, extra: Node) -> bool {
    let es = entries_of(r);
    &&& r is Mapping
    &&& es.len() == 2 + entries_of(extra).len()
    &&& is_key(es[0].0, id_key())
    &&& es[0].1 is Str
    &&& es[0].1->Str_0@ == id
    &&& is_key(es[1].0, type_key())
    &&& es[1].1 is Str
    &&& es[1].1->Str_0@ == tag
    &&& es.subrange(2, es.len() as int) == entries_of(extra)
}

/// Builds the flat form of a model from its identifier, its tag and its own
/// configuration. A configuration that is not a mapping adds no entries.
///
/// Entries of the configuration are written as they are, including any under
/// `id` or `type`: reading such a form back reports a duplicate field rather
/// than silently picking one.
pub fn encode(id: String, tag: &str, extra: Node) -> (r: Node)
    ensures
        is_flat_form(r, id@, tag@, extra),
{
    let mut es: Vec<(Node, Node)> = Vec::new();
    es.push((Node::Str("id".to_owned()), Node::Str(id)));
    es.push((Node::Str("type".to_owned()), Node::Str(tag.to_owned())));
    let ghost head = es@;
    match extra {
        Node::Mapping(mut rest) => {
            let ghost all = rest@;
            es.append(&mut rest);
            assert(es@.subrange(2, es@.len() as int) =~= all);
        },
        _ => {
            assert(es@.subrange(2, es@.len() as int) =~= Seq::<(Node, Node)>::empty());
        },
    }
    Node::Mapping(es)
}

/// Reads the single string stored under a reserved field.
fn take_field(vals: Vec<Node>, f: Field) -> (r: Result<String, DecodeError>)
    ensures
        r is Ok <==> field_error(vals@, f) is None,
        r is Ok ==> vals@[0] == Node::Str(r->Ok_0),
        r is Err ==> field_error(vals@, f) == Some(r->Err_0),
{
    if vals.len() == 0 {
        return Err(DecodeError::Missing(f));
    }
    if vals.len() > 1 {
        return Err(DecodeError::Duplicate(f));
    }
    let mut vals = vals;
    let v = vals.remove(0);
    match v {
        Node::Str(s) => Ok(s),
        _ => Err(DecodeError::NotAString(f)),
    }
}

proof fn lemma_extra_step(s: Seq<(Node, Node)>)
    requires
        s.len() > 0,
    ensures
        extra_entries(s) == (if is_reserved(s[0].0) { Seq::empty() } else { seq![s[0]] })
            + extra_entries(s.drop_first()),
        forall|name: Seq<char>|
            #![trigger values_of(s, name)]
            values_of(s, name) == (if is_key(s[0].0, name) { seq![s[0].1] } else { Seq::empty() })
                + values_of(s.drop_first(), name),
{
    assert(Seq::<(Node, Node)>::empty() + extra_entries(s.drop_first()) =~= extra_entries(
        s.drop_first(),
    ));
    assert forall|name: Seq<char>| #![trigger values_of(s, name)]
        values_of(s, name) == (if is_key(s[0].0, name) { seq![s[0].1] } else { Seq::empty() })
            + values_of(s.drop_first(), name) by {
        assert(Seq::<Node>::empty() + values_of(s.drop_first(), name) =~= values_of(
            s.drop_first(),
            name,
        ));
    }
}

/// Splits a flat form into its identifier, its tag and the remaining entries,
/// which keep their order.
pub fn decode_repr(n: Node) -> (r: Result<ModelRepr, DecodeError>)
    ensures
        r is Ok <==> repr_error(n) is None,
        r is Err ==> repr_error(n) == Some(r->Err_0),
        r is Ok ==> r->Ok_0.id@ == field_of(n, Field::Id),
        r is Ok ==> r->Ok_0.model_type@ == field_of(n, Field::Type),
        r is Ok ==> r->Ok_0.extra@ == extra_entries(entries_of(n)),
{
    let ghost all = entries_of(n);
    let mut rest = match n {
        Node::Mapping(es) => es,
        _ => {
            return Err(DecodeError::NotAMapping);
        },
    };
    let id_name = "id".to_owned();
    let tag_name = "type".to_owned();
    let mut ids: Vec<Node> = Vec::new();
    let mut types: Vec<Node> = Vec::new();
    let mut extra: Vec<(Node, Node)> = Vec::new();
    while rest.len() > 0
        invariant
            id_name@ == id_key(),
            tag_name@ == type_key(),
            values_of(all, id_key()) == ids@ + values_of(rest@, id_key()),
            values_of(all, type_key()) == types@ + values_of(rest@, type_key()),
            extra_entries(all) == extra@ + extra_entries(rest@),
        decreases rest.len(),
    {
        let ghost before = rest@;
        proof {
            lemma_extra_step(before);
        }
        let (k, v) = rest.remove(0);
        assert(rest@ =~= before.drop_first());
        let is_id = key_is(&k, &id_name);
        let is_type = key_is(&k, &tag_name);
        proof {
            reveal_strlit("id");
            reveal_strlit("type");
            assert(id_key().len() != type_key().len());
        }
        if is_id {
            assert(!is_key(k, type_key()));
            ids.push(v);
        } else if is_type {
            types.push(v);
        } else {
            extra.push((k, v));
        }
        assert(values_of(all, id_key()) =~= ids@ + values_of(rest@, id_key()));
        assert(values_of(all, type_key()) =~= types@ + values_of(rest@, type_key()));
        assert(extra_entries(all) =~= extra@ + extra_entries(rest@));
    }
    assert(ids@ =~= values_of(all, id_key()));
    assert(types@ =~= values_of(all, type_key()));
    assert(extra@ =~= extra_entries(all));
    let id = match take_field(ids, Field::Id) {
        Ok(s) => s,
        Err(e) => {
            return Err(e);
        },
    };
    let model_type = match take_field(types, Field::Type) {
        Ok(s) => s,
        Err(e) => {
            return Err(e);
        },
    };
    Ok(ModelRepr { id, model_type, extra })
}

/// The model variants that the flat form can name, in their declared order.
#[derive(Clone, Copy, Debug, PartialEq, Eq)]
pub enum Kind {
    Generator,
    ExclusiveGateway,
    Processor,
    Storage,
}

/// The tag that names a variant in the flat form.
pub open spec fn kind_tag(k: Kind) -> Seq<char> {
    match k {
        Kind::Generator => "Generator"@,
        Kind::ExclusiveGateway => "ExclusiveGateway"@,
        Kind::Processor => "Processor"@,
        Kind::Storage => "Storage"@,
    }
}

/// Every variant, in declared order: the table that tags are looked up in.
pub open spec fn all_kinds() -> Seq<Kind> {
    seq![Kind::Generator, Kind::ExclusiveGateway, Kind::Processor, Kind::Storage]
}

/// The known tags, in declared order.
pub open spec fn known_tags_spec() -> Seq<Seq<char>> {
    all_kinds().map_values(|k: Kind| kind_tag(k))
}

/// The variant that `tag` names, if any.
pub open spec fn kind_of_tag(tag: Seq<char>) -> Option<Kind> {
    if tag == kind_tag(Kind::Generator) {
        Some(Kind::Generator)
    } else if tag == kind_tag(Kind::ExclusiveGateway) {
        Some(Kind::ExclusiveGateway)
    } else if tag == kind_tag(Kind::Processor) {
        Some(Kind::Processor)
    } else if tag == kind_tag(Kind::Storage) {
        Some(Kind::Storage)
    } else {
        None
    }
}

impl Kind {
    /// Every variant, in declared order.
    pub fn all() -> (r: Vec<Kind>)
        ensures
            r@ == all_kinds(),
    {
        let r = vec![Kind::Generator, Kind::ExclusiveGateway, Kind::Processor, Kind::Storage];
        assert(r@ =~= all_kinds());
        r
    }

    /// The tag that names this variant.
    pub fn tag(&self) -> (r: &'static str)
        ensures
            r@ == kind_tag(*self),
    {
        match self {
            Kind::Generator => "Generator",
            Kind::ExclusiveGateway => "ExclusiveGateway",
            Kind::Processor => "Processor",
            Kind::Storage => "Storage",
        }
    }

    /// Looks a tag up in the table of variants.
    pub fn from_tag(tag: &str) -> (r: Option<Kind>)
        ensures
            r == kind_of_tag(tag@),
    {
        let kinds = Kind::all();
        let mut i: usize = 0;
        while i < kinds.len()
            invariant
                kinds@ == all_kinds(),
                0 <= i <= kinds.len(),
                forall|j: int| 0 <= j < i ==> kind_tag(#[trigger] kinds@[j]) != tag@,
            decreases kinds.len() - i,
        {
            let k = kinds[i];
            let name = k.tag().to_owned();
            let t = tag.to_owned();
            if name == t {
                return Some(k);
            }
            i = i + 1;
        }
        None
    }
}

/// The strings of `v`, as character sequences.
pub open spec fn tag_views(v: Seq<String>) -> Seq<Seq<char>> {
    v.map_values(|s: String| s@)
}

/// The known tags, in declared order, derived from the table of variants.
pub fn known_tags() -> (r: Vec<String>)
    ensures
        tag_views(r@) == known_tags_spec(),
        r@.len() == all_kinds().len(),
        forall|i: int| 0 <= i < r@.len() ==> (#[trigger] r@[i])@ == kind_tag(all_kinds()[i]),
{
    let kinds = Kind::all();
    let mut r: Vec<String> = Vec::new();
    let mut i: usize = 0;
    while i < kinds.len()
        invariant
            kinds@ == all_kinds(),
            0 <= i <= kinds.len(),
            r@.len() == i,
            forall|j: int| 0 <= j < i ==> (#[trigger] r@[j])@ == kind_tag(all_kinds()[j]),
        decreases kinds.len() - i,
    {
        r.push(kinds[i].tag().to_owned());
        i = i + 1;
    }
    assert(tag_views(r@) =~= known_tags_spec());
    r
}

proof fn lemma_unreserved(s: Seq<(Node, Node)>)
    requires
        no_reserved(s),
    ensures
        extra_entries(s) == s,
        values_of(s, id_key()) == Seq::<Node>::empty(),
        values_of(s, type_key()) == Seq::<Node>::empty(),
    decreases s.len(),
{
    if s.len() > 0 {
        assert(!is_reserved(s[0].0));
        let t = s.drop_first();
        assert forall|i: int| 0 <= i < t.len() implies !is_reserved(#[trigger] t[i].0) by {
            assert(t[i] == s[i + 1]);
        }
        lemma_unreserved(t);
        assert(seq![s[0]] + t =~= s);
    }
}

/// Reading back the flat form of a model gives its identifier, its tag and
/// its own entries, unchanged and in order, provided that none of those
/// entries uses a reserved key.
pub proof fn lemma_round_trip(r: Node, id: Seq<char>, tag: Seq<char>, extra: Node)
    requires
        is_flat_form(r, id, tag, extra),
        no_reserved(entries_of(extra)),
    ensures
        repr_error(r) is None,
        field_of(r, Field::Id) == id,
        field_of(r, Field::Type) == tag,
        extra_entries(entries_of(r)) == entries_of(extra),
{
    reveal_strlit("id");
    reveal_strlit("type");
    assert(id_key().len() != type_key().len());
    let es = entries_of(r);
    let rest = entries_of(extra);
    let t1 = es.drop_first();
    let t2 = t1.drop_first();
    assert(t2 =~= es.subrange(2, es.len() as int));
    lemma_unreserved(rest);
    lemma_extra_step(es);
    lemma_extra_step(t1);
    assert(values_of(t1, id_key()) =~= values_of(t2, id_key()));
    assert(values_of(es, id_key()) =~= seq![es[0].1]);
    assert(values_of(t1, type_key()) =~= seq![es[1].1]);
    assert(values_of(es, type_key()) =~= seq![es[1].1]);
    assert(extra_entries(t1) =~= extra_entries(t2));
    assert(extra_entries(es) =~= rest);
}

} // verus!
