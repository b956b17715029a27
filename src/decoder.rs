use std::collections::HashMap;
use vstd::prelude::*;
use crate::error::SRCError;
use crate::registry::{FetchOutcome, response_result, schema_from_response, schema_url, schema_url_result};
use crate::wire::{WireFormat, classify, is_encoded, payload_of, schema_id_of};

verus! {

#[verifier::external_type_specification]
#[verifier::external_body]
pub struct ExAvroDatum(avro_rs::types::Value);

/// How `avro_rs::from_avro_datum` ends on the payload against the schema,
/// with no reader schema: `None` where it panics (an enum index equal to
/// the number of symbols passes its range check, and the symbol lookup
/// then fails), `Some(true)` where it decodes a value, `Some(false)` where
/// it returns an error. Which value it decodes is left unnamed: a decoded
/// map is a `HashMap` whose walking order changes from one call to another.
pub uninterp spec fn codec_outcome(schema: avro_rs::Schema, payload: Seq<u8>) -> Option<bool>;

/// Relies on `avro_rs::from_avro_datum`: decodes the payload against the
/// writer's schema, with no reader schema.
#[verifier::external_body]
fn decode_datum(schema: &avro_rs::Schema, payload: &[u8]) -> (r: Result<
    avro_rs::types::Value,
    String,
>)
    requires
        codec_outcome(*schema, payload@) is Some,
    ensures
        r is Ok <==> codec_outcome(*schema, payload@) == Some(true),
{
    let mut reader: &[u8] = payload;
    avro_rs::from_avro_datum(schema, &mut reader, None).map_err(|e| e.to_string())
}

pub const MSG_BAD_PAYLOAD: &'static str = "Could not transform bytes using schema";

/// A decoded key or value.
#[derive(Debug)]
pub enum Datum {
    /// The key or value was absent.
    Null,
    /// Bytes without the registry framing, passed on verbatim.
    Bytes(Vec<u8>),
    /// A registry-framed payload decoded against its schema.
    Value(avro_rs::types::Value),
}

/// What one decoding attempt came to.
#[derive(Debug)]
pub enum DecodeStep {
    /// Decoding is over, with a value or an error.
    Done(Result<Datum, SRCError>),
    /// The schema with this id is not in the cache: fetch it, hand the
    /// outcome to the decoder, and decode again.
    Fetch(u32),
}

/// The error as the cache keeps it.
pub open spec fn as_cached(e: SRCError) -> SRCError {
    SRCError { error: e.error, side: e.side, retriable: e.retriable, cached: true }
}

/// The outcome of decoding a payload against a schema that was found.
pub open spec fn payload_outcome(r: Result<Datum, SRCError>) -> bool {
    ||| r matches Ok(Datum::Value(_))
    ||| r matches Err(e) && e.error@ == MSG_BAD_PAYLOAD@ && !e.retriable && !e.cached
}

/// What a cache entry becomes when failures are purged.
pub open spec fn purged(entry: Option<Result<avro_rs::Schema, SRCError>>) -> Option<
    Result<avro_rs::Schema, SRCError>,
> {
    match entry {
        Some(Ok(s)) => Some(Ok(s)),
        _ => None,
    }
}

/// Turns the outcome of decoding a payload into the decoder's result: the
/// value, or a permanent error that carries the codec's message as cause.
pub fn datum_from_payload(r: Result<avro_rs::types::Value, String>) -> (out: Result<Datum, SRCError>)
    ensures
        r is Ok ==> out == Ok::<Datum, SRCError>(Datum::Value(r->Ok_0)),
        r is Err ==> (out matches Err(e) && e.error@ == MSG_BAD_PAYLOAD@ && !e.retriable && !e.cached
            && crate::error::opt_string_view(e.side) == Some(r->Err_0@)),
{
    match r {
        Ok(v) => Ok(Datum::Value(v)),
        Err(e) => Err(SRCError::new(MSG_BAD_PAYLOAD, Some(e.as_str()), false)),
    }
}

/// The optional bytes as an optional sequence.
pub open spec fn bytes_view(b: Option<&[u8]>) -> Option<Seq<u8>> {
    match b {
        Some(s) => Some(s@),
        None => None,
    }
}

/// What the cache keeps of a fetch result: a schema as it is, a failure
/// marked as cached.
pub open spec fn stored(fetched: Result<avro_rs::Schema, SRCError>) -> Result<
    avro_rs::Schema,
    SRCError,
> {
    match fetched {
        Ok(s) => Ok(s),
        Err(e) => Err(as_cached(e)),
    }
}

/// `after` is `before` once the fetch result for `id` was handed over: the
/// result is kept only where nothing was cached under `id` yet.
pub open spec fn resolves(
    before: &Decoder,
    after: &Decoder,
    id: u32,
    fetched: Result<avro_rs::Schema, SRCError>,
) -> bool {
    &&& after.registry() == before.registry()
    &&& forall|k: u32|
        #[trigger] after.lookup(k) == if k == id && before.lookup(id) is None {
            Some(stored(fetched))
        } else {
            before.lookup(k)
        }
}

/// `after` is `before` with every cached failure forgotten.
pub open spec fn purges(before: &Decoder, after: &Decoder) -> bool {
    &&& after.registry() == before.registry()
    &&& forall|k: u32| #[trigger] after.lookup(k) == purged(before.lookup(k))
}

/// Decoding `b` with `d` asks for a schema fetch: the bytes are framed and
/// nothing is cached under their id.
pub open spec fn decode_fetches(d: &Decoder, b: Option<Seq<u8>>) -> bool {
    &&& b is Some
    &&& is_encoded(b->Some_0)
    &&& d.lookup(schema_id_of(b->Some_0) as u32) is None
}

/// The failure cached under the id of the framed bytes `b`, if any.
pub open spec fn cached_failure(d: &Decoder, b: Option<Seq<u8>>) -> Option<SRCError> {
    if b is Some && is_encoded(b->Some_0) {
        match d.lookup(schema_id_of(b->Some_0) as u32) {
            Some(Err(e)) => Some(e),
            _ => None,
        }
    } else {
        None
    }
}

/// A schema is cached under the id of the framed bytes `b`.
pub open spec fn has_cached_schema(d: &Decoder, b: Option<Seq<u8>>) -> bool {
    &&& b is Some
    &&& is_encoded(b->Some_0)
    &&& d.lookup(schema_id_of(b->Some_0) as u32) matches Some(Ok(_))
}

/// The schema cached under the id of the framed bytes `b`; meaningful
/// where `has_cached_schema(d, b)`.
pub open spec fn cached_schema_for(d: &Decoder, b: Seq<u8>) -> avro_rs::Schema {
    d.lookup(schema_id_of(b) as u32)->Some_0->Ok_0
}

/// Decoding `b` with `d` would hand the codec a payload it panics on.
pub open spec fn codec_panics(d: &Decoder, b: Option<Seq<u8>>) -> bool {
    has_cached_schema(d, b) && codec_outcome(cached_schema_for(d, b->Some_0), payload_of(b->Some_0))
        is None
}

/// Decodes registry-framed keys or values, caching each schema lookup.
///
/// A schema that was found stays cached for the decoder's lifetime; a lookup
/// that failed stays cached as an error until the failures are purged.
pub struct Decoder {
    schema_registry_url: String,
    schemas: HashMap<u32, avro_rs::Schema>,
    failures: HashMap<u32, SRCError>,
}

impl Decoder {
    /// What the cache holds for `id`: a schema, a failure, or nothing.
    pub closed spec fn lookup(&self, id: u32) -> Option<Result<avro_rs::Schema, SRCError>> {
        if self.schemas@.contains_key(id) {
            Some(Ok(self.schemas@[id]))
        } else if self.failures@.contains_key(id) {
            Some(Err(self.failures@[id]))
        } else {
            None
        }
    }

    /// The registry base address.
    pub closed spec fn registry(&self) -> Seq<char> {
        self.schema_registry_url@
    }

    /// A decoder for the registry at `schema_registry_url`, with an empty cache.
    pub fn new(schema_registry_url: String) -> (r: Decoder)
        ensures
            r.registry() == schema_registry_url@,
            forall|id: u32| #[trigger] r.lookup(id) is None,
    {
        Decoder { schema_registry_url, schemas: HashMap::new(), failures: HashMap::new() }
    }

    /// Forgets every cached failure; cached schemas stay.
    pub fn remove_errors_from_cache(&mut self)
        ensures
            final(self).registry() == old(self).registry(),
            forall|id: u32|
                #[trigger] final(self).lookup(id) == purged(old(self).lookup(id)),
    {
        self.failures.clear();
    }

    /// Decodes an optional key or value.
    ///
    /// Absent bytes give `Null`; bytes without the registry framing are
    /// passed on verbatim; framed bytes are decoded against the schema
    /// cached under their id, give the cached failure again, or, when
    /// nothing is cached, ask for a fetch.
    pub fn decode(&self, bytes: Option<&[u8]>) -> (r: DecodeStep)
        requires
            !codec_panics(self, bytes_view(bytes)),
        ensures
            bytes is None ==> r matches DecodeStep::Done(Ok(Datum::Null)),
            bytes is Some && !is_encoded(bytes->Some_0@) ==> (r matches DecodeStep::Done(
                Ok(Datum::Bytes(v)),
            ) && v@ == bytes->Some_0@),
            r is Fetch <==> decode_fetches(self, bytes_view(bytes)),
            r is Fetch ==> r->Fetch_0 == schema_id_of(bytes->Some_0@),
            cached_failure(self, bytes_view(bytes)) is Some ==> (r matches DecodeStep::Done(Err(e))
                && e.same_as(&cached_failure(self, bytes_view(bytes))->Some_0)),
            has_cached_schema(self, bytes_view(bytes)) ==> (r matches DecodeStep::Done(x) && {
                &&& x is Ok <==> codec_outcome(
                    cached_schema_for(self, bytes->Some_0@),
                    payload_of(bytes->Some_0@),
                ) == Some(true)
                &&& payload_outcome(x)
            }),
    {
        match classify(bytes) {
            WireFormat::Absent => DecodeStep::Done(Ok(Datum::Null)),
            WireFormat::Opaque(v) => DecodeStep::Done(Ok(Datum::Bytes(v))),
            WireFormat::Encoded { id, payload } => {
                match self.cached_schema(id) {
                    Some(schema) => {
                        DecodeStep::Done(datum_from_payload(decode_datum(schema, payload.as_slice())))
                    },
                    None => match self.cached_error(id) {
                        Some(e) => DecodeStep::Done(Err(e.clone())),
                        None => DecodeStep::Fetch(id),
                    },
                }
            },
        }
    }

    /// The address to fetch the schema with id `id` from.
    pub fn schema_request(&self, id: u32) -> (r: Result<String, SRCError>)
        ensures
            schema_url_result(self.registry(), id, r),
    {
        schema_url(id, self.schema_registry_url.as_str())
    }

    /// Keeps the fetch result for `id`, unless something is cached under
    /// `id` already: a schema as it is, a failure marked as cached.
    pub fn resolve(&mut self, id: u32, fetched: Result<avro_rs::Schema, SRCError>)
        ensures
            resolves(old(self), final(self), id, fetched),
    {
        let known = self.cached_schema(id).is_some() || self.cached_error(id).is_some();
        if !known {
            match fetched {
                Ok(s) => {
                    self.schemas.insert(id, s);
                },
                Err(e) => {
                    self.failures.insert(id, e.into_cache());
                },
            }
        }
    }

    /// Reads the schema out of a registry answer for `id` and keeps it as
    /// `resolve` does.
    pub fn complete_fetch(&mut self, id: u32, outcome: FetchOutcome)
        ensures
            exists|fetched: Result<avro_rs::Schema, SRCError>|
                response_result(outcome, fetched) && resolves(old(self), final(self), id, fetched),
    {
        let fetched = schema_from_response(outcome);
        self.resolve(id, fetched);
    }

    /// Looks up the schema cached under `id`.
    fn cached_schema(&self, id: u32) -> (r: Option<&avro_rs::Schema>)
        ensures
            r is Some <==> self.schemas@.contains_key(id),
            r is Some ==> *r->Some_0 == self.schemas@[id],
    {
        self.schemas.get(&id)
    }

    /// Looks up the failure cached under `id`.
    fn cached_error(&self, id: u32) -> (r: Option<&SRCError>)
        ensures
            r is Some <==> self.failures@.contains_key(id),
            r is Some ==> *r->Some_0 == self.failures@[id],
    {
        self.failures.get(&id)
    }
}

/// A schema id fetched successfully is never fetched again: right after
/// the result is handed over, decoding bytes framed with that id asks for
/// no fetch.
pub proof fn lemma_fetched_schema_is_not_refetched(
    d0: &Decoder,
    d1: &Decoder,
    id: u32,
    schema: avro_rs::Schema,
    b: Seq<u8>,
)
    requires
        d0.lookup(id) is None,
        resolves(d0, d1, id, Ok(schema)),
        is_encoded(b),
        schema_id_of(b) == id,
    ensures
        d1.lookup(id) == Some(Ok::<avro_rs::Schema, SRCError>(schema)),
        !decode_fetches(d1, Some(b)),
        has_cached_schema(d1, Some(b)),
{
    assert(d1.lookup(id) == Some(stored(Ok(schema))));
}

/// A cached schema stays cached, unchanged, through any later fetch result
/// and through a purge of failures.
pub proof fn lemma_cached_schema_persists(
    d1: &Decoder,
    d2: &Decoder,
    id: u32,
    other: u32,
    fetched: Result<avro_rs::Schema, SRCError>,
)
    requires
        d1.lookup(id) matches Some(Ok(_)),
        resolves(d1, d2, other, fetched) || purges(d1, d2),
    ensures
        d2.lookup(id) == d1.lookup(id),
{
    assert(d2.lookup(id) == d1.lookup(id));
}

/// A schema id whose fetch failed gives the same error (message, cause and
/// retriable flag) on every later decode, with no fetch, until failures
/// are purged; after a purge it is fetched again.
pub proof fn lemma_failed_fetch_is_replayed(
    d0: &Decoder,
    d1: &Decoder,
    id: u32,
    e: SRCError,
    b: Seq<u8>,
)
    requires
        d0.lookup(id) is None,
        resolves(d0, d1, id, Err(e)),
        is_encoded(b),
        schema_id_of(b) == id,
    ensures
        !decode_fetches(d1, Some(b)),
        cached_failure(d1, Some(b)) == Some(as_cached(e)),
        as_cached(e).error == e.error,
        as_cached(e).side == e.side,
        as_cached(e).retriable == e.retriable,
        forall|d2: &Decoder, other: u32, f: Result<avro_rs::Schema, SRCError>|
            #[trigger] resolves(d1, d2, other, f) ==> cached_failure(d2, Some(b)) == Some(
                as_cached(e),
            ),
        forall|d2: &Decoder| #[trigger] purges(d1, d2) ==> decode_fetches(d2, Some(b)),
{
    assert(d1.lookup(id) == Some(stored(Err::<avro_rs::Schema, SRCError>(e))));
    assert forall|d2: &Decoder, other: u32, f: Result<avro_rs::Schema, SRCError>|
        #[trigger] resolves(d1, d2, other, f) implies cached_failure(d2, Some(b)) == Some(
            as_cached(e),
        ) by {
        assert(d2.lookup(id) == d1.lookup(id));
    }
    assert forall|d2: &Decoder| #[trigger] purges(d1, d2) implies decode_fetches(d2, Some(b)) by {
        assert(d2.lookup(id) == purged(d1.lookup(id)));
    }
}

} // verus!
