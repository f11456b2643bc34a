//! A self-describing tree of plain JSON values, and the trusted bridge from
//! raw text to that tree.
//!
//! Wire frames arrive as JSON text.  Decoding happens in two phases: the text
//! is first parsed into a generic [`Json`] tree, and only then is the tree
//! interpreted against a discriminator-specific shape.  Everything past the
//! text parse is verified; the text parse itself is the trusted boundary.

use vstd::prelude::*;

verus! {

/// Mathematical model of a JSON document.
///
/// Integers are modelled as unbounded `int`s; a number with a fractional part
/// is kept only as the marker `Frac`, since no field this protocol reads is
/// fractional.
#[verifier::ext_equal]
pub enum JsonV {
    Null,
    Bool(bool),
    Int(int),
    Frac,
    Text(Seq<char>),
    Arr(Seq<JsonV>),
    Obj(Seq<(Seq<char>, JsonV)>),
}

/// A structured JSON value.
///
/// Object members carry pairwise distinct keys when the value comes from the
/// parser, which resolves a duplicated key before this tree is built; their
/// order is the parser's and carries no meaning.
#[derive(Debug)]
pub enum Json {
    Null,
    Bool(bool),
    UInt(u64),
    Int(i64),
    Frac,
    Text(String),
    Arr(Vec<Json>),
    Obj(Vec<(String, Json)>),
}

pub open spec fn json_view(j: Json) -> JsonV
    decreases j,
{
    match j {
        Json::Null => JsonV::Null,
        Json::Bool(b) => JsonV::Bool(b),
        Json::UInt(n) => JsonV::Int(n as int),
        Json::Int(n) => JsonV::Int(n as int),
        Json::Frac => JsonV::Frac,
        Json::Text(s) => JsonV::Text(s@),
        Json::Arr(a) => {
            proof {
                assert(decreases_to!(j => j->Arr_0));
                assert(decreases_to!(a => a@));
            }
            JsonV::Arr(json_view_seq(a@))
        }
        Json::Obj(o) => {
            proof {
                assert(decreases_to!(j => j->Obj_0));
                assert(decreases_to!(o => o@));
            }
            JsonV::Obj(json_view_members(o@))
        }
    }
}

pub open spec fn json_view_seq(s: Seq<Json>) -> Seq<JsonV>
    decreases s,
{
    if s.len() == 0 {
        Seq::empty()
    } else {
        proof {
            assert(decreases_to!(s => s[0]));
            assert(s.drop_first() == s.subrange(1, s.len() as int));
            assert(decreases_to!(s => s.subrange(1, s.len() as int)));
        }
        seq![json_view(s[0])] + json_view_seq(s.drop_first())
    }
}

pub open spec fn json_view_members(s: Seq<(String, Json)>) -> Seq<(Seq<char>, JsonV)>
    decreases s,
{
    if s.len() == 0 {
        Seq::empty()
    } else {
        proof {
            assert(decreases_to!(s => s[0]));
            assert(s.drop_first() == s.subrange(1, s.len() as int));
            assert(decreases_to!(s => s.subrange(1, s.len() as int)));
        }
        seq![(s[0].0@, json_view(s[0].1))] + json_view_members(s.drop_first())
    }
}

pub proof fn lemma_json_view_seq(s: Seq<Json>)
    ensures
        json_view_seq(s).len() == s.len(),
        forall|i: int| 0 <= i < s.len() ==> json_view_seq(s)[i] == json_view(s[i]),
    decreases s.len(),
{
    if s.len() > 0 {
        lemma_json_view_seq(s.drop_first());
    }
}

pub proof fn lemma_json_view_members(s: Seq<(String, Json)>)
    ensures
        json_view_members(s).len() == s.len(),
        forall|i: int| 0 <= i < s.len() ==> json_view_members(s)[i]
            == (s[i].0@, json_view(s[i].1)),
    decreases s.len(),
{
    if s.len() > 0 {
        lemma_json_view_members(s.drop_first());
    }
}

impl View for Json {
    type V = JsonV;

    open spec fn view(&self) -> JsonV {
        json_view(*self)
    }
}

/// The value of `key` among object members `fields`, at its first occurrence.
pub open spec fn member_lookup(fields: Seq<(Seq<char>, JsonV)>, key: Seq<char>) -> Option<JsonV>
    decreases fields.len(),
{
    if fields.len() == 0 {
        None
    } else if fields[0].0 == key {
        Some(fields[0].1)
    } else {
        member_lookup(fields.drop_first(), key)
    }
}

/// The value of `key` in `j`, when `j` is an object that has that member.
pub open spec fn field_of(j: JsonV, key: Seq<char>) -> Option<JsonV> {
    match j {
        JsonV::Obj(fields) => member_lookup(fields, key),
        _ => None,
    }
}

/// Equality of two string slices, decided by their character sequences.
pub fn str_eq(a: &str, b: &str) -> (r: bool)
    ensures
        r == (a@ == b@),
{
    let ao: String = a.to_owned();
    let bo: String = b.to_owned();
    ao == bo
}

impl Json {
    /// A deep copy; the copy denotes the same document.
    #[verifier::loop_isolation(false)]
    pub fn duplicate(&self) -> (r: Json)
        ensures
            r@ == self@,
        decreases self,
    {
        match self {
            Json::Null => Json::Null,
            Json::Bool(b) => Json::Bool(*b),
            Json::UInt(n) => Json::UInt(*n),
            Json::Int(n) => Json::Int(*n),
            Json::Frac => Json::Frac,
            Json::Text(s) => Json::Text(s.clone()),
            Json::Arr(a) => {
                let mut out: Vec<Json> = Vec::new();
                let mut i: usize = 0;
                while i < a.len()
                    invariant
                        i <= a.len(),
                        out@.len() == i as int,
                        forall|k: int| 0 <= k < i ==> out@[k]@ == json_view(a@[k]),
                    decreases a.len() - i,
                {
                    proof {
                        let ghost jj: Json = *self;
                        assert(jj->Arr_0 == *a);
                        assert(decreases_to!(jj => jj->Arr_0));
                        assert(decreases_to!(a@ => a@[i as int]));
                    }
                    out.push(a[i].duplicate());
                    i += 1;
                }
                let r = Json::Arr(out);
                proof {
                    lemma_json_view_seq(a@);
                    lemma_json_view_seq(out@);
                    assert(json_view_seq(out@) =~= json_view_seq(a@));
                }
                r
            }
            Json::Obj(o) => {
                let mut out: Vec<(String, Json)> = Vec::new();
                let mut i: usize = 0;
                while i < o.len()
                    invariant
                        i <= o.len(),
                        out@.len() == i as int,
                        forall|k: int| 0 <= k < i ==> out@[k].0@ == o@[k].0@
                            && out@[k].1@ == json_view(o@[k].1),
                    decreases o.len() - i,
                {
                    proof {
                        let ghost jj: Json = *self;
                        assert(jj->Obj_0 == *o);
                        assert(decreases_to!(jj => jj->Obj_0));
                        assert(decreases_to!(o@ => o@[i as int]));
                        assert(decreases_to!(o@[i as int] => o@[i as int].1));
                    }
                    out.push((o[i].0.clone(), o[i].1.duplicate()));
                    i += 1;
                }
                let r = Json::Obj(out);
                proof {
                    lemma_json_view_members(o@);
                    lemma_json_view_members(out@);
                    assert(json_view_members(out@) =~= json_view_members(o@));
                }
                r
            }
        }
    }

    /// The member named `key`, when this value is an object carrying one.
    #[verifier::loop_isolation(false)]
    pub fn get_field<'a>(&'a self, key: &str) -> (r: Option<&'a Json>)
        ensures
            match r {
                Some(v) => field_of(self@, key@) == Some(v@),
                None => field_of(self@, key@) is None,
            },
    {
        match self {
            Json::Obj(fields) => {
                let ghost all: Seq<(Seq<char>, JsonV)> = json_view_members(fields@);
                proof {
                    lemma_json_view_members(fields@);
                    assert(self@ == JsonV::Obj(all));
                    assert(all.skip(0) =~= all);
                }
                let mut i: usize = 0;
                while i < fields.len()
                    invariant
                        i <= fields.len(),
                        self@ == JsonV::Obj(all),
                        all == json_view_members(fields@),
                        all.len() == fields@.len(),
                        forall|k: int| 0 <= k < all.len() ==> all[k]
                            == (fields@[k].0@, json_view(fields@[k].1)),
                        member_lookup(all, key@) == member_lookup(all.skip(i as int), key@),
                    decreases fields.len() - i,
                {
                    proof {
                        assert(all.skip(i as int)[0] == all[i as int]);
                        assert(all.skip(i as int).drop_first() =~= all.skip(i as int + 1));
                    }
                    if str_eq(fields[i].0.as_str(), key) {
                        return Some(&fields[i].1);
                    }
                    i += 1;
                }
                proof {
                    assert(all.skip(all.len() as int).len() == 0);
                }
                None
            }
            _ => None,
        }
    }
}


/// The member named `key`, as text.
pub open spec fn text_field(j: JsonV, key: Seq<char>) -> Option<Seq<char>> {
    match field_of(j, key) {
        Some(JsonV::Text(s)) => Some(s),
        _ => None,
    }
}

/// The member named `key`, as text that may also be absent or null.
///
/// `None` means the member is present but ill-typed; `Some(None)` that it is
/// absent or null.
pub open spec fn opt_text_field(j: JsonV, key: Seq<char>) -> Option<Option<Seq<char>>> {
    match field_of(j, key) {
        None => Some(None),
        Some(JsonV::Null) => Some(None),
        Some(JsonV::Text(s)) => Some(Some(s)),
        Some(_) => None,
    }
}

/// The member named `key`, as an integer that fits in a `u32`.
pub open spec fn u32_field(j: JsonV, key: Seq<char>) -> Option<u32> {
    match field_of(j, key) {
        Some(JsonV::Int(n)) => if 0 <= n <= u32::MAX { Some(n as u32) } else { None },
        _ => None,
    }
}

/// The member named `key`, as a `u32` that may also be absent or null.
pub open spec fn opt_u32_field(j: JsonV, key: Seq<char>) -> Option<Option<u32>> {
    match field_of(j, key) {
        None => Some(None),
        Some(JsonV::Null) => Some(None),
        Some(JsonV::Int(n)) => if 0 <= n <= u32::MAX { Some(Some(n as u32)) } else { None },
        Some(_) => None,
    }
}

/// The member named `key`, as a boolean that may also be absent or null.
pub open spec fn opt_bool_field(j: JsonV, key: Seq<char>) -> Option<Option<bool>> {
    match field_of(j, key) {
        None => Some(None),
        Some(JsonV::Null) => Some(None),
        Some(JsonV::Bool(b)) => Some(Some(b)),
        Some(_) => None,
    }
}

/// The member named `key`, as an array.
pub open spec fn arr_field(j: JsonV, key: Seq<char>) -> Option<Seq<JsonV>> {
    match field_of(j, key) {
        Some(JsonV::Arr(a)) => Some(a),
        _ => None,
    }
}


/// The element-wise view of a sequence of viewable values.
pub open spec fn views_of<T: View>(s: Seq<T>) -> Seq<T::V> {
    Seq::new(s.len(), |i: int| s[i]@)
}

/// The view of an optional owned string.
pub open spec fn opt_text_view(o: Option<String>) -> Option<Seq<char>> {
    match o {
        Some(s) => Some(s@),
        None => None,
    }
}

impl Json {
    /// The text member named `key`.
    pub fn get_text<'a>(&'a self, key: &str) -> (r: Option<&'a String>)
        ensures
            match r {
                Some(s) => text_field(self@, key@) == Some(s@),
                None => text_field(self@, key@) is None,
            },
    {
        match self.get_field(key) {
            Some(Json::Text(s)) => Some(s),
            _ => None,
        }
    }

    /// The text member named `key`, allowing it to be absent or null.
    pub fn get_opt_text(&self, key: &str) -> (r: Option<Option<String>>)
        ensures
            match r {
                Some(o) => opt_text_field(self@, key@) == Some(opt_text_view(o)),
                None => opt_text_field(self@, key@) is None,
            },
    {
        match self.get_field(key) {
            None => Some(None),
            Some(Json::Null) => Some(None),
            Some(Json::Text(s)) => Some(Some(s.clone())),
            Some(_) => None,
        }
    }

    /// The integer member named `key`, required to fit in a `u32`.
    pub fn get_u32(&self, key: &str) -> (r: Option<u32>)
        ensures
            r == u32_field(self@, key@),
    {
        match self.get_field(key) {
            Some(Json::UInt(n)) => if *n <= 0xFFFF_FFFFu64 {
                Some(*n as u32)
            } else {
                None
            },
            Some(Json::Int(n)) => if 0 <= *n && *n <= 0xFFFF_FFFFi64 {
                Some(*n as u32)
            } else {
                None
            },
            _ => None,
        }
    }

    /// The `u32` member named `key`, allowing it to be absent or null.
    pub fn get_opt_u32(&self, key: &str) -> (r: Option<Option<u32>>)
        ensures
            r == opt_u32_field(self@, key@),
    {
        match self.get_field(key) {
            None => Some(None),
            Some(Json::Null) => Some(None),
            Some(Json::UInt(n)) => if *n <= 0xFFFF_FFFFu64 {
                Some(Some(*n as u32))
            } else {
                None
            },
            Some(Json::Int(n)) => if 0 <= *n && *n <= 0xFFFF_FFFFi64 {
                Some(Some(*n as u32))
            } else {
                None
            },
            _ => None,
        }
    }

    /// The boolean member named `key`, allowing it to be absent or null.
    pub fn get_opt_bool(&self, key: &str) -> (r: Option<Option<bool>>)
        ensures
            r == opt_bool_field(self@, key@),
    {
        match self.get_field(key) {
            None => Some(None),
            Some(Json::Null) => Some(None),
            Some(Json::Bool(b)) => Some(Some(*b)),
            Some(_) => None,
        }
    }

    /// The array member named `key`.
    pub fn get_arr<'a>(&'a self, key: &str) -> (r: Option<&'a Vec<Json>>)
        ensures
            match r {
                Some(a) => arr_field(self@, key@) == Some(json_view_seq(a@)),
                None => arr_field(self@, key@) is None,
            },
    {
        match self.get_field(key) {
            Some(Json::Arr(a)) => Some(a),
            _ => None,
        }
    }
}

#[verifier::external_type_specification]
#[verifier::external_body]
pub struct ExSerdeJsonValue(serde_json::Value);

/// The document that a piece of text parses to, if it is well-formed JSON.
pub uninterp spec fn json_text(s: Seq<char>) -> Option<JsonV>;

/// Relies on the variant accessors of serde_json::Value: each variant is
/// carried over to the library's own tree one for one, an integer through
/// as_u64 or as_i64 and any other number as the fractional marker.
#[verifier::external_body]
fn json_of_value(v: serde_json::Value) -> Json {
    match v {
        serde_json::Value::Null => Json::Null,
        serde_json::Value::Bool(b) => Json::Bool(b),
        serde_json::Value::Number(n) => n
            .as_u64()
            .map(Json::UInt)
            .or_else(|| n.as_i64().map(Json::Int))
            .unwrap_or(Json::Frac),
        serde_json::Value::String(s) => Json::Text(s),
        serde_json::Value::Array(a) => Json::Arr(a.into_iter().map(json_of_value).collect()),
        serde_json::Value::Object(m) => Json::Obj(
            m.into_iter().map(|(k, x)| (k, json_of_value(x))).collect(),
        ),
    }
}

/// Relies on serde_json::from_str: whether text parses, and to which
/// document, is a function of the text alone.
#[verifier::external_body]
pub(crate) fn parse_json(s: &str) -> (r: Option<Json>)
    ensures
        r is Some <==> json_text(s@) is Some,
        r matches Some(j) ==> json_text(s@) == Some(j@),
{
    serde_json::from_str::<serde_json::Value>(s).ok().map(json_of_value)
}

} // verus!
