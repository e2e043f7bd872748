//! The capability every atomic model provides, and `Model`, which pairs an
//! identifier with one such value and forwards every behavioural call to it.
use vstd::prelude::*;
use crate::node::{Node, entries_of};
use crate::codec::{
    CodecError, DecodeError, Field, Kind, decode_repr, encode, extra_entries, field_of, is_flat_form, kind_of_tag, known_tags, known_tags_spec,
    lemma_round_trip, no_reserved, repr_error, tag_views,
};

verus! {

/// Produces an owned copy of a model value.
pub trait ModelClone: Sized {
    /// An independent copy, equal to `self`.
    fn clone_box(&self) -> (r: Self)
        ensures
            r == *self,
    ;
}

/// What an atomic model of a discrete-event simulation does: its two
/// transitions, its time bookkeeping, and the data it persists.
///
/// The message, random source, failure and time types are chosen by the
/// implementation. Each method is described by a spec function; a verified
/// implementation overrides it, so that callers can state what a call did,
/// and the default leaves it unknown.
pub trait AsModel: ModelClone {
    type Message;
    type Rng;
    type Error;
    type Time;

    /// The tag that names this variant when persisted.
    closed spec fn type_tag(&self) -> Seq<char> {
        arbitrary()
    }

    /// The variant's own configuration as a structured value.
    closed spec fn extra(&self) -> Node {
        arbitrary()
    }

    /// A human-readable snapshot.
    closed spec fn status_text(&self) -> Seq<char> {
        arbitrary()
    }

    /// `next` is a state that the external transition on `msg` can lead to
    /// from `self`, drawing the random source from `rng` to `next_rng` and
    /// producing `out`.
    closed spec fn ext_step(
        &self,
        rng: Self::Rng,
        msg: Self::Message,
        next: Self,
        next_rng: Self::Rng,
        out: Result<Vec<Self::Message>, Self::Error>,
    ) -> bool {
        arbitrary()
    }

    /// `next` is a state that the internal transition can lead to from
    /// `self`, drawing the random source from `rng` to `next_rng` and
    /// producing `out`.
    closed spec fn int_step(
        &self,
        rng: Self::Rng,
        next: Self,
        next_rng: Self::Rng,
        out: Result<Vec<Self::Message>, Self::Error>,
    ) -> bool {
        arbitrary()
    }

    /// `next` is the state after `delta` of simulated time has elapsed.
    closed spec fn advanced(&self, delta: Self::Time, next: Self) -> bool {
        arbitrary()
    }

    /// The time left until the next internal transition.
    closed spec fn horizon(&self) -> Self::Time {
        arbitrary()
    }

    /// The persisted tag of this variant.
    fn get_type(&self) -> (r: &'static str)
        ensures
            r@ == self.type_tag(),
    ;

    /// The variant's own configuration; `Node::Null` when it has none.
    fn serialize(&self) -> (r: Node)
        ensures
            r == self.extra(),
    ;

    /// A free-form description of the current state, for reports.
    fn status(&self) -> (r: String)
        ensures
            r@ == self.status_text(),
    ;

    /// The external transition: reacts to an incoming message.
    fn events_ext(&mut self, rng: &mut Self::Rng, msg: Self::Message) -> (r: Result<
        Vec<Self::Message>,
        Self::Error,
    >)
        ensures
            old(self).ext_step(*old(rng), msg, *final(self), *final(rng), r),
    ;

    /// The internal transition, taken when the horizon is reached.
    fn events_int(&mut self, rng: &mut Self::Rng) -> (r: Result<Vec<Self::Message>, Self::Error>)
        ensures
            old(self).int_step(*old(rng), *final(self), *final(rng), r),
    ;

    /// Accounts for `delta` of elapsed simulated time; it cannot fail.
    fn time_advance(&mut self, delta: Self::Time)
        ensures
            old(self).advanced(delta, *final(self)),
    ;

    /// The time left until the internal transition; it cannot fail.
    fn until_next_event(&self) -> (r: Self::Time)
        ensures
            r == self.horizon(),
    ;
}

/// Builds a model value of a known variant from the entries of its flat form
/// other than `id` and `type`; an `Err` carries the reason for a rejection.
pub trait FromConfig: Sized {
    /// `r` is an outcome of decoding `extra` as a value of the variant
    /// `kind`; a verified implementation overrides it.
    closed spec fn decodes(kind: Kind, extra: Seq<(Node, Node)>, r: Result<Self, String>) -> bool {
        arbitrary()
    }

    fn from_config(kind: Kind, extra: Vec<(Node, Node)>) -> (r: Result<Self, String>)
        ensures
            Self::decodes(kind, extra@, r),
    ;
}

/// `r` is what reading the flat form `n` gives: the form's own error if it
/// is malformed; `UnknownVariant`, with the tag and every known tag in
/// declared order, if its tag names no variant; otherwise the outcome of the
/// variant's decoder on the entries other than `id` and `type`, with the
/// form's identifier attached.
pub open spec fn decode_outcome<M: FromConfig>(n: Node, r: Result<Model<M>, CodecError>) -> bool {
    if repr_error(n) is Some {
        r == Err::<Model<M>, CodecError>(CodecError::Decode(repr_error(n)->Some_0))
    } else if kind_of_tag(field_of(n, Field::Type)) is None {
        match r {
            Err(CodecError::UnknownVariant { tag, known }) => tag@ == field_of(n, Field::Type)
                && tag_views(known@) == known_tags_spec(),
            _ => false,
        }
    } else {
        let kind = kind_of_tag(field_of(n, Field::Type))->Some_0;
        let extra = extra_entries(entries_of(n));
        match r {
            Ok(m) => m.id_view() == field_of(n, Field::Id) && M::decodes(
                kind,
                extra,
                Ok(m.inner_view()),
            ),
            Err(CodecError::Decode(DecodeError::Invalid(msg))) => M::decodes(kind, extra, Err(msg)),
            _ => false,
        }
    }
}

/// A model of the simulation: a stable identifier and the value that does
/// the work.
pub struct Model<M> {
    id: String,
    inner: M,
}

impl<M> Model<M> {
    /// The identifier.
    pub closed spec fn id_view(&self) -> Seq<char> {
        self.id@
    }

    /// The value that calls are forwarded to.
    pub closed spec fn inner_view(&self) -> M {
        self.inner
    }

    /// Ties `id` to `inner`; nothing is checked.
    pub fn new(id: String, inner: M) -> (r: Self)
        ensures
            r.id_view() == id@,
            r.inner_view() == inner,
    {
        Model { id, inner }
    }

    /// The identifier given at construction.
    pub fn id(&self) -> (r: &str)
        ensures
            r@ == self.id_view(),
    {
        self.id.as_str()
    }
}

impl<M: AsModel> Model<M> {
    /// The flat form of this model: `id`, then `type`, then the entries of
    /// the inner value's configuration if that is a mapping.
    pub fn encode(&self) -> (r: Node)
        ensures
            is_flat_form(r, self.id_view(), self.type_tag(), self.extra()),
    {
        let extra = self.inner.serialize();
        encode(self.id.clone(), self.inner.get_type(), extra)
    }
}

impl<M: AsModel + FromConfig> Model<M> {
    /// Reads a model from its flat form. A malformed form gives its
    /// `DecodeError`; an unknown tag gives `UnknownVariant` with every known
    /// tag; a known tag hands the remaining entries to that variant's decoder.
    pub fn decode(n: Node) -> (r: Result<Self, CodecError>)
        ensures
            decode_outcome(n, r),
    {
        let repr = match decode_repr(n) {
            Ok(repr) => repr,
            Err(e) => {
                return Err(CodecError::Decode(e));
            },
        };
        match Kind::from_tag(repr.model_type.as_str()) {
            Some(kind) => match M::from_config(kind, repr.extra) {
                Ok(inner) => Ok(Model::new(repr.id, inner)),
                Err(msg) => Err(CodecError::Decode(DecodeError::Invalid(msg))),
            },
            None => Err(CodecError::UnknownVariant { tag: repr.model_type, known: known_tags() }),
        }
    }
}

impl<M: AsModel> ModelClone for Model<M> {
    fn clone_box(&self) -> (r: Self) {
        Model { id: self.id.clone(), inner: self.inner.clone_box() }
    }
}

impl<M: AsModel> Clone for Model<M> {
    /// Forwards to `clone_box`.
    fn clone(&self) -> (r: Self)
        ensures
            r == *self,
    {
        self.clone_box()
    }
}

impl<M: AsModel> AsModel for Model<M> {
    type Message = M::Message;
    type Rng = M::Rng;
    type Error = M::Error;
    type Time = M::Time;

    open spec fn type_tag(&self) -> Seq<char> {
        self.inner_view().type_tag()
    }

    open spec fn extra(&self) -> Node {
        self.inner_view().extra()
    }

    open spec fn status_text(&self) -> Seq<char> {
        self.inner_view().status_text()
    }

    open spec fn ext_step(
        &self,
        rng: Self::Rng,
        msg: Self::Message,
        next: Self,
        next_rng: Self::Rng,
        out: Result<Vec<Self::Message>, Self::Error>,
    ) -> bool {
        &&& next.id_view() == self.id_view()
        &&& self.inner_view().ext_step(rng, msg, next.inner_view(), next_rng, out)
    }

    open spec fn int_step(
        &self,
        rng: Self::Rng,
        next: Self,
        next_rng: Self::Rng,
        out: Result<Vec<Self::Message>, Self::Error>,
    ) -> bool {
        &&& next.id_view() == self.id_view()
        &&& self.inner_view().int_step(rng, next.inner_view(), next_rng, out)
    }

    open spec fn advanced(&self, delta: Self::Time, next: Self) -> bool {
        &&& next.id_view() == self.id_view()
        &&& self.inner_view().advanced(delta, next.inner_view())
    }

    open spec fn horizon(&self) -> Self::Time {
        self.inner_view().horizon()
    }

    fn get_type(&self) -> (r: &'static str) {
        self.inner.get_type()
    }

    fn serialize(&self) -> (r: Node) {
        self.inner.serialize()
    }

    fn status(&self) -> (r: String) {
        self.inner.status()
    }

    fn events_ext(&mut self, rng: &mut Self::Rng, msg: Self::Message) -> (r: Result<
        Vec<Self::Message>,
        Self::Error,
    >) {
        self.inner.events_ext(rng, msg)
    }

    fn events_int(&mut self, rng: &mut Self::Rng) -> (r: Result<Vec<Self::Message>, Self::Error>) {
        self.inner.events_int(rng)
    }

    fn time_advance(&mut self, delta: Self::Time) {
        self.inner.time_advance(delta)
    }

    fn until_next_event(&self) -> (r: Self::Time) {
        self.inner.until_next_event()
    }
}

/// A copy made by `clone` or `clone_box` is a value of its own: advancing the copy
/// reaches a state that advancing the original could have reached, with the
/// same identifier, while the original keeps its own horizon.
pub proof fn lemma_clone_independence<M: AsModel>(
    m: Model<M>,
    c: Model<M>,
    delta: M::Time,
    next: Model<M>,
)
    requires
        c == m,
        c.advanced(delta, next),
    ensures
        m.advanced(delta, next),
        next.id_view() == m.id_view(),
        m.horizon() == c.horizon(),
{
}

/// Reading back the flat form that `encode` wrote for `m` gives `m`'s
/// identifier and hands the variant's decoder `m`'s own configuration
/// entries, unchanged and in order, provided that the tag is a known one and
/// that no configuration entry uses a reserved key.
pub proof fn lemma_model_round_trip<M: AsModel + FromConfig>(
    m: Model<M>,
    n: Node,
    r: Result<Model<M>, CodecError>,
)
    requires
        is_flat_form(n, m.id_view(), m.type_tag(), m.extra()),
        no_reserved(entries_of(m.extra())),
        kind_of_tag(m.type_tag()) is Some,
        decode_outcome(n, r),
    ensures
        r is Ok ==> r->Ok_0.id_view() == m.id_view() && M::decodes(
            kind_of_tag(m.type_tag())->Some_0,
            entries_of(m.extra()),
            Ok(r->Ok_0.inner_view()),
        ),
        r is Err ==> (match r->Err_0 {
            CodecError::Decode(DecodeError::Invalid(msg)) => M::decodes(
                kind_of_tag(m.type_tag())->Some_0,
                entries_of(m.extra()),
                Err(msg),
            ),
            _ => false,
        }),
{
    lemma_round_trip(n, m.id_view(), m.type_tag(), m.extra());
}

} // verus!
