//! The partition-key codec.
//!
//! A partition key is a tagged scalar: a string, an integer, or a
//! floating-point number (carried as its IEEE-754 bit pattern) — never
//! a compound key.  The codec encodes a loosely-typed document scalar
//! into a key, decodes a key back into a scalar, and derives a key
//! from a document body: an explicit override wins, then the declared
//! partition-key path, then a fixed, ordered list of common field
//! names.  The probing order is deliberate and documented: `pk`,
//! `partitionKey`, `category`, `type`, `tenantId`, `id`.

use vstd::prelude::*;

use crate::errors::{CosmosError, ErrorKind};
use crate::json::{spec_fields_of, spec_lookup, DocValue};

verus! {

/// The mathematical model of a partition key.
pub ghost enum KeyModel {
    Text(Seq<char>),
    Int(int),
    Float(u64),
}

/// A partition-key scalar.  Exactly one representation is active.
#[derive(Debug, Clone, PartialEq)]
pub enum PartitionKey {
    Text(String),
    Int(i64),
    /// The bit pattern of a 64-bit IEEE-754 floating-point key.
    Float(u64),
}

impl View for PartitionKey {
    type V = KeyModel;

    open spec fn view(&self) -> KeyModel {
        match self {
            PartitionKey::Text(s) => KeyModel::Text(s@),
            PartitionKey::Int(i) => KeyModel::Int(*i as int),
            PartitionKey::Float(b) => KeyModel::Float(*b),
        }
    }
}

/// The key a scalar encodes to: strings, integers and floating-point
/// numbers are supported; any other shape is refused.
pub open spec fn spec_scalar_key(v: DocValue) -> Option<KeyModel> {
    match v {
        DocValue::Text(s) => Some(KeyModel::Text(s@)),
        DocValue::Int(i) => Some(KeyModel::Int(i as int)),
        DocValue::Float(b) => Some(KeyModel::Float(b)),
        _ => None,
    }
}

/// Two document values that are both supported scalars and encode to
/// the same key.
pub open spec fn scalar_equiv(a: DocValue, b: DocValue) -> bool {
    spec_scalar_key(a) is Some && spec_scalar_key(a) == spec_scalar_key(b)
}

impl PartitionKey {
    /// Encode a loosely-typed scalar as a partition key.  Strings,
    /// integers and floating-point numbers are accepted; any other
    /// shape fails with a type error.
    pub fn from_scalar(v: &DocValue) -> (r: Result<PartitionKey, CosmosError>)
        ensures
            match spec_scalar_key(*v) {
                Some(m) => r matches Ok(k) && k@ == m,
                None => r matches Err(e) && e.kind == ErrorKind::TypeError && e.message@
                    == "Partition key must be string, int, or float"@,
            },
    {
        match v {
            DocValue::Text(s) => Ok(PartitionKey::Text(s.clone())),
            DocValue::Int(i) => Ok(PartitionKey::Int(*i)),
            DocValue::Float(b) => Ok(PartitionKey::Float(*b)),
            _ => Err(
                CosmosError::new(
                    ErrorKind::TypeError,
                    "Partition key must be string, int, or float".to_owned(),
                ),
            ),
        }
    }

    /// Decide equality of two keys: same representation, same value.
    pub fn key_eq(&self, other: &PartitionKey) -> (r: bool)
        ensures
            r == (self@ == other@),
    {
        match (self, other) {
            (PartitionKey::Text(a), PartitionKey::Text(b)) => a.eq(b),
            (PartitionKey::Int(a), PartitionKey::Int(b)) => *a == *b,
            (PartitionKey::Float(a), PartitionKey::Float(b)) => *a == *b,
            _ => false,
        }
    }

    /// Decode the key back into the scalar it carries.
    pub fn to_scalar(&self) -> (r: DocValue)
        ensures
            spec_scalar_key(r) == Some(self@),
    {
        match self {
            PartitionKey::Text(s) => DocValue::Text(s.clone()),
            PartitionKey::Int(i) => DocValue::Int(*i),
            PartitionKey::Float(b) => DocValue::Float(*b),
        }
    }
}

/// Law: partition-key encoding round-trips.  If `k` is the key a
/// supported scalar `v` encodes to, and `w` is any scalar that decoding
/// `k` yields, then `w` is a supported scalar equivalent to `v` — same
/// text, same integer, or same floating-point bit pattern.
pub proof fn lemma_partition_key_round_trip(v: DocValue, k: PartitionKey, w: DocValue)
    requires
        spec_scalar_key(v) == Some(k@),
        spec_scalar_key(w) == Some(k@),
    ensures
        scalar_equiv(v, w),
{
}

/// The fixed, ordered list of field names probed when no path is
/// declared and no override is given.
pub open spec fn spec_candidates() -> Seq<Seq<char>> {
    seq!["pk"@, "partitionKey"@, "category"@, "type"@, "tenantId"@, "id"@]
}

/// The value of the first candidate field, from position `j` on, that
/// is present in `fields`.
pub open spec fn spec_probe(fields: Seq<(String, DocValue)>, j: int) -> Option<DocValue>
    decreases spec_candidates().len() - j,
    when 0 <= j <= spec_candidates().len()
{
    if j >= spec_candidates().len() {
        None
    } else {
        match spec_lookup(fields, spec_candidates()[j]) {
            Some(v) => Some(v),
            None => spec_probe(fields, j + 1),
        }
    }
}

/// A path with its leading separators removed.
pub open spec fn spec_strip_slashes(s: Seq<char>) -> Seq<char>
    decreases s.len(),
{
    if s.len() > 0 && s[0] == '/' {
        spec_strip_slashes(s.drop_first())
    } else {
        s
    }
}

/// Strip the leading separator from a declared partition-key path:
/// `/pk` names the field `pk`.
pub fn strip_leading_slashes(path: &str) -> (r: &str)
    ensures
        r@ == spec_strip_slashes(path@),
{
    let len: usize = path.unicode_len();
    let mut i: usize = 0;
    proof {
        assert(path@.skip(0) =~= path@);
    }
    while i < len && path.get_char(i) == '/'
        invariant
            i <= len,
            len == path@.len(),
            spec_strip_slashes(path@) == spec_strip_slashes(path@.skip(i as int)),
        decreases len - i,
    {
        proof {
            assert(path@.skip(i as int)[0] == path@[i as int]);
            assert(path@.skip(i as int).drop_first() =~= path@.skip(i + 1));
        }
        i = i + 1;
    }
    proof {
        if i < len {
            assert(path@.skip(i as int)[0] == path@[i as int]);
        }
        assert(spec_strip_slashes(path@.skip(i as int)) == path@.skip(i as int));
        assert(path@.subrange(i as int, len as int) =~= path@.skip(i as int));
    }
    path.substring_char(i, len)
}

/// The view of an optional path.
pub open spec fn spec_opt_str(o: Option<&str>) -> Option<Seq<char>> {
    match o {
        Some(s) => Some(s@),
        None => None,
    }
}

/// The view of an optional partition key.
pub open spec fn spec_opt_key(o: Option<PartitionKey>) -> Option<KeyModel> {
    match o {
        Some(k) => Some(k@),
        None => None,
    }
}

/// The key derived from a document body: an explicit override wins;
/// else the field named by the declared path (leading separator
/// stripped), when present; else the first present candidate field.
/// A hit of unsupported shape is a type error; no hit at all is a
/// value error.
pub open spec fn spec_derive_key(
    body: DocValue,
    declared: Option<Seq<char>>,
    explicit: Option<KeyModel>,
) -> Result<KeyModel, ErrorKind> {
    match explicit {
        Some(m) => Ok(m),
        None => {
            let fields = spec_fields_of(body);
            let picked = match declared {
                Some(path) => match spec_lookup(fields, spec_strip_slashes(path)) {
                    Some(v) => Some(v),
                    None => spec_probe(fields, 0),
                },
                None => spec_probe(fields, 0),
            };
            match picked {
                Some(v) => match spec_scalar_key(v) {
                    Some(m) => Ok(m),
                    None => Err(ErrorKind::TypeError),
                },
                None => Err(ErrorKind::ValueError),
            }
        },
    }
}

/// Probe the candidate field names in their fixed order and hand back
/// the first hit.
fn probe_candidates<'a>(body: &'a DocValue) -> (r: Option<&'a DocValue>)
    ensures
        match r {
            Some(v) => spec_probe(spec_fields_of(*body), 0) == Some(*v),
            None => spec_probe(spec_fields_of(*body), 0) is None,
        },
{
    proof {
        assert(spec_candidates()[0] == "pk"@);
        assert(spec_candidates()[1] == "partitionKey"@);
        assert(spec_candidates()[2] == "category"@);
        assert(spec_candidates()[3] == "type"@);
        assert(spec_candidates()[4] == "tenantId"@);
        assert(spec_candidates()[5] == "id"@);
    }
    let ghost fields = spec_fields_of(*body);
    let r = body.get_field("pk");
    if r.is_some() {
        return r;
    }
    proof {
        assert(spec_probe(fields, 0) == spec_probe(fields, 1));
    }
    let r = body.get_field("partitionKey");
    if r.is_some() {
        return r;
    }
    proof {
        assert(spec_probe(fields, 1) == spec_probe(fields, 2));
    }
    let r = body.get_field("category");
    if r.is_some() {
        return r;
    }
    proof {
        assert(spec_probe(fields, 2) == spec_probe(fields, 3));
    }
    let r = body.get_field("type");
    if r.is_some() {
        return r;
    }
    proof {
        assert(spec_probe(fields, 3) == spec_probe(fields, 4));
    }
    let r = body.get_field("tenantId");
    if r.is_some() {
        return r;
    }
    proof {
        assert(spec_probe(fields, 4) == spec_probe(fields, 5));
    }
    let r = body.get_field("id");
    if r.is_some() {
        return r;
    }
    proof {
        assert(spec_probe(fields, 5) == spec_probe(fields, 6));
    }
    None
}

/// Derive a partition key from a document body, a declared
/// partition-key path, and an optional explicit override.
pub fn derive_partition_key(
    body: &DocValue,
    declared_path: Option<&str>,
    explicit: Option<PartitionKey>,
) -> (r: Result<PartitionKey, CosmosError>)
    ensures
        match r {
            Ok(k) => spec_derive_key(*body, spec_opt_str(declared_path), spec_opt_key(explicit))
                == Ok::<KeyModel, ErrorKind>(k@),
            Err(e) => spec_derive_key(*body, spec_opt_str(declared_path), spec_opt_key(explicit))
                == Err::<KeyModel, ErrorKind>(e.kind) && (e.kind == ErrorKind::ValueError
                ==> e.message@ == "Partition key not found in body or kwargs"@) && (e.kind
                == ErrorKind::TypeError ==> e.message@
                == "Partition key must be string, int, or float"@),
        },
{
    if let Some(k) = explicit {
        return Ok(k);
    }
    let mut picked: Option<&DocValue> = None;
    if let Some(path) = declared_path {
        let field_name = strip_leading_slashes(path);
        picked = body.get_field(field_name);
    }
    if picked.is_none() {
        picked = probe_candidates(body);
    }
    match picked {
        Some(v) => PartitionKey::from_scalar(v),
        None => Err(
            CosmosError::new(
                ErrorKind::ValueError,
                "Partition key not found in body or kwargs".to_owned(),
            ),
        ),
    }
}

/// Law: a declared partition-key path wins over every fallback
/// candidate.  When the body has a scalar field at the declared path
/// (leading separator stripped), the derived key is that field's key,
/// whatever other candidate fields the body contains.
pub proof fn lemma_declared_path_wins(body: DocValue, path: Seq<char>, v: DocValue, m: KeyModel)
    requires
        spec_lookup(spec_fields_of(body), spec_strip_slashes(path)) == Some(v),
        spec_scalar_key(v) == Some(m),
    ensures
        spec_derive_key(body, Some(path), None::<KeyModel>) == Ok::<KeyModel, ErrorKind>(m),
{
}

/// Law: a document with no declared path and none of the candidate
/// fields yields no key: derivation fails with a value error.
pub proof fn lemma_no_candidate_no_key(body: DocValue)
    requires
        forall|j: int|
            0 <= j < spec_candidates().len() ==> spec_lookup(
                spec_fields_of(body),
                #[trigger] spec_candidates()[j],
            ) is None,
    ensures
        spec_derive_key(body, None::<Seq<char>>, None::<KeyModel>) == Err::<KeyModel, ErrorKind>(
            ErrorKind::ValueError,
        ),
{
    let fields = spec_fields_of(body);
    assert(spec_lookup(fields, spec_candidates()[5]) is None);
    assert(spec_probe(fields, 6) is None);
    assert(spec_probe(fields, 5) is None);
    assert(spec_lookup(fields, spec_candidates()[4]) is None);
    assert(spec_probe(fields, 4) is None);
    assert(spec_lookup(fields, spec_candidates()[3]) is None);
    assert(spec_probe(fields, 3) is None);
    assert(spec_lookup(fields, spec_candidates()[2]) is None);
    assert(spec_probe(fields, 2) is None);
    assert(spec_lookup(fields, spec_candidates()[1]) is None);
    assert(spec_probe(fields, 1) is None);
    assert(spec_lookup(fields, spec_candidates()[0]) is None);
    assert(spec_probe(fields, 0) is None);
}

/// Law: the fallback order is fixed and deterministic.  With a scalar
/// `pk` field present and no declared path, derivation picks `pk` on
/// every invocation — in particular a body holding both `pk` and `id`
/// always yields the `pk` field's key.
pub proof fn lemma_fallback_prefers_pk(body: DocValue, v: DocValue, m: KeyModel)
    requires
        spec_lookup(spec_fields_of(body), "pk"@) == Some(v),
        spec_scalar_key(v) == Some(m),
    ensures
        spec_derive_key(body, None::<Seq<char>>, None::<KeyModel>) == Ok::<KeyModel, ErrorKind>(m),
{
    assert(spec_candidates()[0] == "pk"@);
}

/// The explicit-override requirement for opaque bodies: when a body is
/// handed over in already-serialized form, no field can be probed, so
/// the key must come from the caller.
pub fn require_explicit_key(explicit: Option<PartitionKey>) -> (r: Result<
    PartitionKey,
    CosmosError,
>)
    ensures
        match r {
            Ok(k) => explicit matches Some(e) && k == e,
            Err(e) => explicit is None && e.kind == ErrorKind::ValueError && e.message@
                == "Partition key must be provided in kwargs when body is a JSON string"@,
        },
{
    match explicit {
        Some(k) => Ok(k),
        None => Err(
            CosmosError::new(
                ErrorKind::ValueError,
                "Partition key must be provided in kwargs when body is a JSON string".to_owned(),
            ),
        ),
    }
}

} // verus!

