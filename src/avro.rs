use vstd::prelude::*;

verus! {

/// A decoded Avro datum, one variant per value kind.
///
/// Floating-point values are held as their IEEE-754 bit patterns; map
/// entries and record fields are held as ordered name/value pairs.
#[derive(Debug, PartialEq)]
pub enum AvroValue {
    Null,
    Boolean(bool),
    Int(i32),
    Long(i64),
    /// The bits of a single-precision float.
    Float(u32),
    /// The bits of a double-precision float.
    Double(u64),
    Bytes(Vec<u8>),
    String(String),
    Fixed(usize, Vec<u8>),
    /// The position of the symbol in its schema, and the symbol.
    Enum(i32, String),
    Union(Box<AvroValue>),
    Array(Vec<AvroValue>),
    /// An Avro map: string keys, in the order the decoder gave them.
    StrMap(Vec<(String, AvroValue)>),
    Record(Vec<(String, AvroValue)>),
    /// A logical value (date, time, timestamp, decimal, duration, uuid).
    Logical,
}

/// A JSON value. Numbers keep the width they were decoded with; floats are
/// held as their IEEE-754 bit patterns.
#[derive(Debug, PartialEq)]
pub enum Json {
    Null,
    Bool(bool),
    Int(i64),
    /// The bits of a single-precision float.
    Float(u32),
    /// The bits of a double-precision float.
    Double(u64),
    String(String),
    Array(Vec<Json>),
    Object(Vec<(String, Json)>),
}

/// The value kinds the structural mapping accepts, at every depth.
pub open spec fn supported(a: AvroValue) -> bool
    decreases a,
{
    match a {
        AvroValue::Null => true,
        AvroValue::Boolean(_) => true,
        AvroValue::Int(_) => true,
        AvroValue::Long(_) => true,
        AvroValue::Float(_) => true,
        AvroValue::Double(_) => true,
        AvroValue::String(_) => true,
        AvroValue::Enum(_, _) => true,
        AvroValue::Union(b) => supported(*b),
        AvroValue::Array(vs) => forall|i: int| 0 <= i < vs.len() ==> supported(#[trigger] vs@[i]),
        AvroValue::StrMap(kvs) => forall|i: int|
            0 <= i < kvs.len() ==> supported(#[trigger] kvs[i].1),
        AvroValue::Record(fs) => forall|i: int|
            0 <= i < fs.len() ==> supported(#[trigger] fs[i].1),
        _ => false,
    }
}

/// `j` is the JSON form of the entries `kvs`: same names in the same order,
/// each value mapped.
pub open spec fn entries_map_to(kvs: Seq<(String, AvroValue)>, j: Json) -> bool
    decreases kvs, 0int,
{
    j matches Json::Object(ws) && ws.len() == kvs.len() && forall|i: int|
        #![trigger kvs[i]]
        0 <= i < kvs.len() ==> ws@[i].0@ == kvs[i].0@ && maps_to(kvs[i].1, ws@[i].1)
}

/// `j` is the JSON form of the Avro value `a`.
pub open spec fn maps_to(a: AvroValue, j: Json) -> bool
    decreases a, 1int,
{
    match a {
        AvroValue::Null => j is Null,
        AvroValue::Boolean(b) => j == Json::Bool(b),
        AvroValue::Int(n) => j == Json::Int(n as i64),
        AvroValue::Long(n) => j == Json::Int(n),
        AvroValue::Float(x) => j == Json::Float(x),
        AvroValue::Double(x) => j == Json::Double(x),
        AvroValue::String(s) => j matches Json::String(t) && t@ == s@,
        AvroValue::Enum(_, s) => j matches Json::String(t) && t@ == s@,
        AvroValue::Union(b) => maps_to(*b, j),
        AvroValue::Array(vs) => j matches Json::Array(ws) && ws.len() == vs.len() && forall|i: int|
            0 <= i < vs.len() ==> maps_to(#[trigger] vs@[i], ws@[i]),
        AvroValue::StrMap(kvs) => entries_map_to(kvs@, j),
        AvroValue::Record(fs) => entries_map_to(fs@, j),
        _ => false,
    }
}

/// The message of a mapping that meets a kind it does not accept.
pub const UNSUPPORTED_KIND: &'static str = "Don't know what to do with: value";

/// Maps name/value entries to a JSON object, keeping names and order.
fn map_entries(kvs: &Vec<(String, AvroValue)>) -> (r: Result<Json, String>)
    ensures
        r is Ok <==> forall|i: int| 0 <= i < kvs@.len() ==> supported(#[trigger] kvs@[i].1),
        r is Ok ==> entries_map_to(kvs@, r->Ok_0),
        r is Err ==> r->Err_0@ == UNSUPPORTED_KIND@,
    decreases kvs, 0int,
{
    let mut out: Vec<(String, Json)> = Vec::new();
    let mut i: usize = 0;
    while i < kvs.len()
        invariant
            i <= kvs@.len(),
            out@.len() == i,
            forall|k: int| 0 <= k < i ==> supported(#[trigger] kvs@[k].1),
            forall|k: int| 0 <= k < i ==> (#[trigger] out@[k]).0@ == kvs@[k].0@,
            forall|k: int| 0 <= k < i ==> maps_to(#[trigger] kvs@[k].1, out@[k].1),
        decreases kvs@.len() - i,
    {
        let entry = &kvs[i];
        proof {
            assert(decreases_to!(*kvs => kvs@[i as int]));
        }
        match map_value(&entry.1) {
            Ok(j) => {
                let ghost prev = out@;
                out.push((entry.0.clone(), j));
                assert(forall|k: int| 0 <= k < i ==> out@[k] == prev[k]);
                assert(maps_to(kvs@[i as int].1, out@[i as int].1));
            },
            Err(e) => {
                return Err(e);
            },
        }
        i = i + 1;
    }
    Ok(Json::Object(out))
}

/// Maps array elements to a JSON array, keeping their order.
fn map_elements(vs: &Vec<AvroValue>) -> (r: Result<Json, String>)
    ensures
        r is Ok <==> forall|i: int| 0 <= i < vs@.len() ==> supported(#[trigger] vs@[i]),
        r is Ok ==> (r->Ok_0 matches Json::Array(ws) && ws@.len() == vs@.len() && forall|i: int|
            0 <= i < vs@.len() ==> maps_to(#[trigger] vs@[i], ws@[i])),
        r is Err ==> r->Err_0@ == UNSUPPORTED_KIND@,
    decreases vs, 0int,
{
    let mut out: Vec<Json> = Vec::new();
    let mut i: usize = 0;
    while i < vs.len()
        invariant
            i <= vs@.len(),
            out@.len() == i,
            forall|k: int| 0 <= k < i ==> supported(#[trigger] vs@[k]),
            forall|k: int| 0 <= k < i ==> maps_to(#[trigger] vs@[k], out@[k]),
        decreases vs@.len() - i,
    {
        proof {
            assert(decreases_to!(*vs => vs@[i as int]));
        }
        match map_value(&vs[i]) {
            Ok(j) => {
                out.push(j);
            },
            Err(e) => {
                return Err(e);
            },
        }
        i = i + 1;
    }
    Ok(Json::Array(out))
}

/// Maps one Avro value to its JSON form, or fails on an unsupported kind.
fn map_value(a: &AvroValue) -> (r: Result<Json, String>)
    ensures
        r is Ok <==> supported(*a),
        r is Ok ==> maps_to(*a, r->Ok_0),
        r is Err ==> r->Err_0@ == UNSUPPORTED_KIND@,
    decreases *a, 1int,
{
    match a {
        AvroValue::Null => Ok(Json::Null),
        AvroValue::Boolean(b) => Ok(Json::Bool(*b)),
        AvroValue::Int(n) => Ok(Json::Int(*n as i64)),
        AvroValue::Long(n) => Ok(Json::Int(*n)),
        AvroValue::Float(x) => Ok(Json::Float(*x)),
        AvroValue::Double(x) => Ok(Json::Double(*x)),
        AvroValue::String(s) => Ok(Json::String(s.clone())),
        AvroValue::Enum(_, s) => Ok(Json::String(s.clone())),
        AvroValue::Union(b) => map_value(b),
        AvroValue::Array(vs) => map_elements(vs),
        AvroValue::StrMap(kvs) => map_entries(kvs),
        AvroValue::Record(fs) => map_entries(fs),
        _ => Err(UNSUPPORTED_KIND.to_owned()),
    }
}

/// Maps a decoded Avro value to JSON: scalars to the matching JSON scalar,
/// enums to their symbol, unions to their inner value, arrays element by
/// element, maps and records to objects that keep names and order. Fails,
/// as a whole, exactly when some kind at some depth is not accepted.
pub fn json_from_avro(value: AvroValue) -> (r: Result<Json, String>)
    ensures
        r is Ok <==> supported(value),
        r is Ok ==> maps_to(value, r->Ok_0),
        r is Err ==> r->Err_0@ == UNSUPPORTED_KIND@,
{
    map_value(&value)
}

/// `a` is the Avro reading of the JSON value `j`: null, boolean, long,
/// float, double and string as themselves, arrays element by element, and
/// objects as maps with the same keys in the same order.
pub open spec fn json_as_avro(j: Json, a: AvroValue) -> bool
    decreases j,
{
    match j {
        Json::Null => a is Null,
        Json::Bool(b) => a == AvroValue::Boolean(b),
        Json::Int(n) => a == AvroValue::Long(n),
        Json::Float(x) => a == AvroValue::Float(x),
        Json::Double(x) => a == AvroValue::Double(x),
        Json::String(s) => a matches AvroValue::String(t) && t@ == s@,
        Json::Array(ws) => a matches AvroValue::Array(vs) && vs@.len() == ws@.len() && forall|i: int|
            0 <= i < ws@.len() ==> json_as_avro(#[trigger] ws@[i], vs@[i]),
        Json::Object(ws) => a matches AvroValue::StrMap(fs) && fs@.len() == ws@.len() && forall|
            i: int,
        |
            0 <= i < ws@.len() ==> fs@[i].0@ == ws@[i].0@ && json_as_avro(
                #[trigger] ws@[i].1,
                fs@[i].1,
            ),
    }
}

/// Two JSON values are the same: same kind, same scalars, same string
/// texts, and the same elements or members in the same order.
pub open spec fn json_same(x: Json, y: Json) -> bool
    decreases x,
{
    match x {
        Json::String(s) => y matches Json::String(t) && s@ == t@,
        Json::Array(xs) => y matches Json::Array(ys) && xs@.len() == ys@.len() && forall|i: int|
            #![trigger xs@[i]]
            0 <= i < xs@.len() ==> json_same(xs@[i], ys@[i]),
        Json::Object(xs) => y matches Json::Object(ys) && xs@.len() == ys@.len() && forall|i: int|
            #![trigger xs@[i]]
            0 <= i < xs@.len() ==> xs@[i].0@ == ys@[i].0@ && json_same(xs@[i].1, ys@[i].1),
        _ => x == y,
    }
}

/// The mapping gives one JSON value per Avro value.
pub proof fn lemma_mapping_deterministic(a: AvroValue, j1: Json, j2: Json)
    requires
        maps_to(a, j1),
        maps_to(a, j2),
    ensures
        json_same(j1, j2),
    decreases a,
{
    match a {
        AvroValue::Union(b) => {
            lemma_mapping_deterministic(*b, j1, j2);
        },
        AvroValue::Array(vs) => {
            let ws1 = j1->Array_0;
            let ws2 = j2->Array_0;
            assert forall|i: int| #![trigger ws1@[i]] 0 <= i < ws1@.len() implies json_same(
                ws1@[i],
                ws2@[i],
            ) by {
                assert(decreases_to!(a => vs));
                assert(decreases_to!(vs => vs@[i]));
                assert(maps_to(vs@[i], ws1@[i]));
                assert(maps_to(vs@[i], ws2@[i]));
                lemma_mapping_deterministic(vs@[i], ws1@[i], ws2@[i]);
            }
        },
        AvroValue::StrMap(kvs) => {
            lemma_entries_deterministic(a, kvs, j1, j2);
        },
        AvroValue::Record(kvs) => {
            lemma_entries_deterministic(a, kvs, j1, j2);
        },
        _ => {},
    }
}

proof fn lemma_entries_deterministic(a: AvroValue, kvs: Vec<(String, AvroValue)>, j1: Json, j2: Json)
    requires
        decreases_to!(a => kvs),
        entries_map_to(kvs@, j1),
        entries_map_to(kvs@, j2),
    ensures
        json_same(j1, j2),
    decreases a, 0int,
{
    let ws1 = j1->Object_0;
    let ws2 = j2->Object_0;
    assert forall|i: int| #![trigger ws1@[i]] 0 <= i < ws1@.len() implies ws1@[i].0@ == ws2@[i].0@
        && json_same(ws1@[i].1, ws2@[i].1) by {
        assert(kvs@[i] == kvs@[i]);
        assert(decreases_to!(kvs => kvs@[i]));
        lemma_mapping_deterministic(kvs@[i].1, ws1@[i].1, ws2@[i].1);
    }
}

/// The structural mapping is idempotent: a JSON result, read back as an
/// Avro value, is accepted by the mapping, and whatever the mapping gives
/// for it is that same JSON result.
pub proof fn lemma_mapping_idempotent(v: AvroValue, j: Json, a: AvroValue)
    requires
        maps_to(v, j),
        json_as_avro(j, a),
    ensures
        supported(a),
        maps_to(a, j),
        forall|j2: Json| #[trigger] maps_to(a, j2) ==> json_same(j2, j),
{
    lemma_json_reads_back(j, a);
    assert forall|j2: Json| #[trigger] maps_to(a, j2) implies json_same(j2, j) by {
        lemma_mapping_deterministic(a, j2, j);
    }
}

/// Reading a JSON value back as Avro and mapping it gives that JSON value.
proof fn lemma_json_reads_back(j: Json, a: AvroValue)
    requires
        json_as_avro(j, a),
    ensures
        supported(a),
        maps_to(a, j),
    decreases j,
{
    if j is Array {
        let ws = j->Array_0;
        let vs = a->Array_0;
        assert forall|i: int| 0 <= i < vs@.len() implies supported(#[trigger] vs@[i]) && maps_to(
            vs@[i],
            ws@[i],
        ) by {
            assert(decreases_to!(j => ws));
            assert(decreases_to!(ws => ws@[i]));
            lemma_json_reads_back(ws@[i], vs@[i]);
        }
    } else if j is Object {
        let ws = j->Object_0;
        let fs = a->StrMap_0;
        assert forall|i: int| #![trigger fs@[i]] 0 <= i < fs@.len() implies supported(fs@[i].1) && maps_to(
            fs@[i].1,
            ws@[i].1,
        ) && ws@[i].0@ == fs@[i].0@ by {
            assert(decreases_to!(j => ws));
            assert(decreases_to!(ws => ws@[i]));
            lemma_json_reads_back(ws@[i].1, fs@[i].1);
        }
        assert(entries_map_to(fs@, j));
    }
}

} // verus!
