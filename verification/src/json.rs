//! JSON values as the library holds them.
//!
//! A [`Json`] tree is modelled by a [`JsonV`] tree whose strings are character
//! sequences. Objects keep their entries in the order in which they were
//! written; a key is looked up by its first entry.
use vstd::prelude::*;

use crate::text::str_eq;

verus! {

/// A JSON number: a non-negative integer, a negative integer, or the text of
/// any other number.
#[derive(Debug, PartialEq, Eq)]
pub enum JsonNumber {
    Unsigned(u64),
    Negative(i64),
    Float(String),
}

/// A JSON value.
#[derive(Debug, PartialEq, Eq)]
pub enum Json {
    Null,
    Bool(bool),
    Number(JsonNumber),
    Str(String),
    Array(Vec<Json>),
    Object(Vec<(String, Json)>),
}

/// Model of [`JsonNumber`].
pub enum NumberV {
    Unsigned(u64),
    Negative(i64),
    Float(Seq<char>),
}

/// Model of [`Json`].
pub enum JsonV {
    Null,
    Bool(bool),
    Number(NumberV),
    Str(Seq<char>),
    Array(Seq<JsonV>),
    Object(Seq<(Seq<char>, JsonV)>),
}

impl View for JsonNumber {
    type V = NumberV;

    open spec fn view(&self) -> NumberV {
        match self {
            JsonNumber::Unsigned(n) => NumberV::Unsigned(*n),
            JsonNumber::Negative(n) => NumberV::Negative(*n),
            JsonNumber::Float(s) => NumberV::Float(s@),
        }
    }
}

/// The model of a tree.
pub open spec fn tree(j: Json) -> JsonV
    decreases j,
{
    match j {
        Json::Null => JsonV::Null,
        Json::Bool(b) => JsonV::Bool(b),
        Json::Number(n) => JsonV::Number(n@),
        Json::Str(s) => JsonV::Str(s@),
        Json::Array(a) => JsonV::Array(
            Seq::new(
                a@.len(),
                |i: int|
                    if 0 <= i < a@.len() {
                        tree(a@[i])
                    } else {
                        JsonV::Null
                    },
            ),
        ),
        Json::Object(o) => JsonV::Object(
            Seq::new(
                o@.len(),
                |i: int|
                    if 0 <= i < o@.len() {
                        (o@[i].0@, tree(o@[i].1))
                    } else {
                        (Seq::empty(), JsonV::Null)
                    },
            ),
        ),
    }
}

impl View for Json {
    type V = JsonV;

    open spec fn view(&self) -> JsonV {
        tree(*self)
    }
}

impl DeepView for Json {
    type V = JsonV;

    open spec fn deep_view(&self) -> JsonV {
        tree(*self)
    }
}

/// The models of a list of trees.
pub open spec fn trees(a: Seq<Json>) -> Seq<JsonV> {
    Seq::new(a.len(), |i: int| tree(a[i]))
}

/// The models of the entries of an object.
pub open spec fn entries(o: Seq<(String, Json)>) -> Seq<(Seq<char>, JsonV)> {
    Seq::new(o.len(), |i: int| (o[i].0@, tree(o[i].1)))
}

/// An array's model lists the models of its elements.
pub proof fn lemma_array_view(a: Vec<Json>)
    ensures
        Json::Array(a)@ == JsonV::Array(trees(a@)),
{
    assert(Json::Array(a)@->Array_0 =~= trees(a@));
}

/// An object's model lists the models of its entries.
pub proof fn lemma_object_view(o: Vec<(String, Json)>)
    ensures
        Json::Object(o)@ == JsonV::Object(entries(o@)),
{
    assert(Json::Object(o)@->Object_0 =~= entries(o@));
}

/// The value under the first entry named `key`.
pub open spec fn lookup(o: Seq<(Seq<char>, JsonV)>, key: Seq<char>) -> Option<JsonV>
    decreases o.len(),
{
    if o.len() == 0 {
        None
    } else if o[0].0 == key {
        Some(o[0].1)
    } else {
        lookup(o.drop_first(), key)
    }
}

/// What a longer list of entries holds under a name.
pub proof fn lemma_lookup_push(
    o: Seq<(Seq<char>, JsonV)>,
    e: (Seq<char>, JsonV),
    key: Seq<char>,
)
    ensures
        lookup(o.push(e), key) == match lookup(o, key) {
            Some(v) => Some(v),
            None => if e.0 == key {
                Some(e.1)
            } else {
                None
            },
        },
    decreases o.len(),
{
    if o.len() == 0 {
        assert(o.push(e).drop_first() =~= Seq::<(Seq<char>, JsonV)>::empty());
    } else {
        assert(o.push(e).drop_first() =~= o.drop_first().push(e));
        lemma_lookup_push(o.drop_first(), e, key);
    }
}

impl JsonV {
    /// The value under `key`, where this is an object that has it.
    pub open spec fn field(self, key: Seq<char>) -> Option<JsonV> {
        match self {
            JsonV::Object(o) => lookup(o, key),
            _ => None,
        }
    }

    /// The text, where this is a string.
    pub open spec fn text(self) -> Option<Seq<char>> {
        match self {
            JsonV::Str(s) => Some(s),
            _ => None,
        }
    }

    /// The elements, where this is an array.
    pub open spec fn items(self) -> Option<Seq<JsonV>> {
        match self {
            JsonV::Array(a) => Some(a),
            _ => None,
        }
    }

    /// The entries, where this is an object.
    pub open spec fn members(self) -> Option<Seq<(Seq<char>, JsonV)>> {
        match self {
            JsonV::Object(o) => Some(o),
            _ => None,
        }
    }

    /// The truth value, where this is one.
    pub open spec fn truth(self) -> Option<bool> {
        match self {
            JsonV::Bool(b) => Some(b),
            _ => None,
        }
    }

    /// The number, where this is a non-negative integer.
    pub open spec fn unsigned(self) -> Option<u64> {
        match self {
            JsonV::Number(NumberV::Unsigned(n)) => Some(n),
            _ => None,
        }
    }

    /// The number, where this is an integer in the range of `i64`.
    pub open spec fn signed(self) -> Option<i64> {
        match self {
            JsonV::Number(NumberV::Unsigned(n)) => if n <= i64::MAX {
                Some(n as i64)
            } else {
                None
            },
            JsonV::Number(NumberV::Negative(n)) => Some(n),
            _ => None,
        }
    }

    /// The text under `key`, where there is one.
    pub open spec fn field_text(self, key: Seq<char>) -> Option<Seq<char>> {
        match self.field(key) {
            Some(v) => v.text(),
            None => None,
        }
    }

    /// The elements under `key`, where there is an array.
    pub open spec fn field_items(self, key: Seq<char>) -> Option<Seq<JsonV>> {
        match self.field(key) {
            Some(v) => v.items(),
            None => None,
        }
    }
}

/// The model of an optional borrowed tree.
pub open spec fn opt_tree(j: Option<&Json>) -> Option<JsonV> {
    match j {
        Some(v) => Some(v@),
        None => None,
    }
}

/// The model of an optional borrowed string.
pub open spec fn opt_str(s: Option<&str>) -> Option<Seq<char>> {
    match s {
        Some(t) => Some(t@),
        None => None,
    }
}

proof fn lemma_lookup_skip(o: Seq<(Seq<char>, JsonV)>, key: Seq<char>, i: int)
    requires
        0 <= i <= o.len(),
        forall|k: int| 0 <= k < i ==> (#[trigger] o[k]).0 != key,
    ensures
        lookup(o, key) == lookup(o.skip(i), key),
    decreases i,
{
    if i == 0 {
        assert(o.skip(0) =~= o);
    } else {
        lemma_lookup_skip(o, key, i - 1);
        assert(o.skip(i - 1).drop_first() =~= o.skip(i));
        assert(o.skip(i - 1)[0] == o[i - 1]);
    }
}

impl Json {
    /// The value under `key`, where this is an object that has it.
    pub fn get(&self, key: &str) -> (r: Option<&Json>)
        ensures
            opt_tree(r) == self@.field(key@),
    {
        match self {
            Json::Object(o) => {
                let ghost ov = entries(o@);
                proof {
                    lemma_object_view(*o);
                }
                let mut i: usize = 0;
                while i < o.len()
                    invariant
                        i <= o.len(),
                        ov == entries(o@),
                        self@ == JsonV::Object(ov),
                        forall|k: int| 0 <= k < i ==> (#[trigger] ov[k]).0 != key@,
                    decreases o.len() - i,
                {
                    if str_eq(o[i].0.as_str(), key) {
                        proof {
                            lemma_lookup_skip(ov, key@, i as int);
                            assert(ov.skip(i as int)[0] == ov[i as int]);
                        }
                        return Some(&o[i].1);
                    }
                    i += 1;
                }
                proof {
                    lemma_lookup_skip(ov, key@, i as int);
                }
                None
            },
            _ => None,
        }
    }

    /// The text, where this is a string.
    pub fn as_str(&self) -> (r: Option<&str>)
        ensures
            opt_str(r) == self@.text(),
    {
        match self {
            Json::Str(s) => Some(s.as_str()),
            _ => None,
        }
    }

    /// The elements, where this is an array.
    pub fn as_array(&self) -> (r: Option<&Vec<Json>>)
        ensures
            match r {
                Some(a) => self@.items() == Some(trees(a@)),
                None => self@.items() is None,
            },
    {
        match self {
            Json::Array(a) => {
                proof {
                    lemma_array_view(*a);
                }
                Some(a)
            },
            _ => None,
        }
    }

    /// The entries, where this is an object.
    pub fn as_object(&self) -> (r: Option<&Vec<(String, Json)>>)
        ensures
            match r {
                Some(o) => self@.members() == Some(entries(o@)),
                None => self@.members() is None,
            },
    {
        match self {
            Json::Object(o) => {
                proof {
                    lemma_object_view(*o);
                }
                Some(o)
            },
            _ => None,
        }
    }

    /// The truth value, where this is one.
    pub fn as_bool(&self) -> (r: Option<bool>)
        ensures
            r == self@.truth(),
    {
        match self {
            Json::Bool(b) => Some(*b),
            _ => None,
        }
    }

    /// The number, where this is a non-negative integer.
    pub fn as_u64(&self) -> (r: Option<u64>)
        ensures
            r == self@.unsigned(),
    {
        match self {
            Json::Number(JsonNumber::Unsigned(n)) => Some(*n),
            _ => None,
        }
    }

    /// The number, where this is an integer in the range of `i64`.
    pub fn as_i64(&self) -> (r: Option<i64>)
        ensures
            r == self@.signed(),
    {
        match self {
            Json::Number(JsonNumber::Unsigned(n)) => if *n <= 0x7fff_ffff_ffff_ffffu64 {
                Some(*n as i64)
            } else {
                None
            },
            Json::Number(JsonNumber::Negative(n)) => Some(*n),
            _ => None,
        }
    }

    /// The text under `key`, where there is one.
    pub fn get_str(&self, key: &str) -> (r: Option<&str>)
        ensures
            opt_str(r) == self@.field_text(key@),
    {
        match self.get(key) {
            Some(v) => v.as_str(),
            None => None,
        }
    }

    /// The elements under `key`, where there is an array.
    pub fn get_array(&self, key: &str) -> (r: Option<&Vec<Json>>)
        ensures
            match r {
                Some(a) => self@.field_items(key@) == Some(trees(a@)),
                None => self@.field_items(key@) is None,
            },
    {
        match self.get(key) {
            Some(v) => v.as_array(),
            None => None,
        }
    }

    /// An equal tree.
    pub fn copy(&self) -> (r: Json)
        ensures
            r@ == self@,
        decreases self,
    {
        match self {
            Json::Null => Json::Null,
            Json::Bool(b) => Json::Bool(*b),
            Json::Number(n) => Json::Number(
                match n {
                    JsonNumber::Unsigned(n) => JsonNumber::Unsigned(*n),
                    JsonNumber::Negative(n) => JsonNumber::Negative(*n),
                    JsonNumber::Float(s) => JsonNumber::Float(s.clone()),
                },
            ),
            Json::Str(s) => Json::Str(s.clone()),
            Json::Array(a) => {
                let mut out: Vec<Json> = Vec::new();
                let mut i: usize = 0;
                while i < a.len()
                    invariant
                        i <= a.len(),
                        out.len() == i,
                        forall|k: int| 0 <= k < i ==> (#[trigger] out@[k])@ == a@[k]@,
                        *self == Json::Array(*a),
                    decreases a.len() - i,
                {
                    proof {
                        assert(decreases_to!(*self => self->Array_0));
                        assert(decreases_to!(*a => a@));
                        assert(decreases_to!(a@ => a@[i as int]));
                    }
                    let x = a[i].copy();
                    out.push(x);
                    i += 1;
                }
                proof {
                    lemma_array_view(*a);
                    lemma_array_view(out);
                    assert(trees(out@) =~= trees(a@));
                }
                Json::Array(out)
            },
            Json::Object(o) => {
                let mut out: Vec<(String, Json)> = Vec::new();
                let mut i: usize = 0;
                while i < o.len()
                    invariant
                        i <= o.len(),
                        out.len() == i,
                        forall|k: int|
                            0 <= k < i ==> (#[trigger] out@[k]).0@ == o@[k].0@ && out@[k].1@ == o@[k].1@,
                        *self == Json::Object(*o),
                    decreases o.len() - i,
                {
                    proof {
                        assert(decreases_to!(*self => self->Object_0));
                        assert(decreases_to!(*o => o@));
                        assert(decreases_to!(o@ => o@[i as int]));
                        assert(decreases_to!(o@[i as int] => o@[i as int].1));
                    }
                    let x = o[i].1.copy();
                    out.push((o[i].0.clone(), x));
                    i += 1;
                }
                proof {
                    lemma_object_view(*o);
                    lemma_object_view(out);
                    assert(entries(out@) =~= entries(o@));
                }
                Json::Object(out)
            },
        }
    }

    /// A JSON string.
    pub fn string(s: &str) -> (r: Json)
        ensures
            r@ == JsonV::Str(s@),
    {
        Json::Str(s.to_owned())
    }

    /// A non-negative JSON integer.
    pub fn number(n: u64) -> (r: Json)
        ensures
            r@ == JsonV::Number(NumberV::Unsigned(n)),
    {
        Json::Number(JsonNumber::Unsigned(n))
    }

    /// A JSON integer.
    pub fn integer(n: i64) -> (r: Json)
        ensures
            r@ == integer_v(n as int),
    {
        if n >= 0 {
            Json::Number(JsonNumber::Unsigned(n as u64))
        } else {
            Json::Number(JsonNumber::Negative(n))
        }
    }

    /// A JSON array of strings.
    pub fn strings(v: &Vec<String>) -> (r: Json)
        ensures
            r@ == strings_v(v.deep_view()),
    {
        let mut out: Vec<Json> = Vec::new();
        let mut i: usize = 0;
        while i < v.len()
            invariant
                i <= v.len(),
                out.len() == i,
                forall|k: int| 0 <= k < i ==> (#[trigger] out@[k])@ == JsonV::Str(v@[k]@),
            decreases v.len() - i,
        {
            out.push(Json::Str(v[i].clone()));
            i += 1;
        }
        proof {
            lemma_array_view(out);
            assert(trees(out@) =~= strings_v(v.deep_view())->Array_0);
        }
        Json::Array(out)
    }

    /// A JSON array.
    pub fn array(v: Vec<Json>) -> (r: Json)
        ensures
            r@ == JsonV::Array(trees(v@)),
    {
        proof {
            lemma_array_view(v);
        }
        Json::Array(v)
    }
}

/// The model of a JSON integer.
pub open spec fn integer_v(n: int) -> JsonV {
    if n >= 0 {
        JsonV::Number(NumberV::Unsigned(n as u64))
    } else {
        JsonV::Number(NumberV::Negative(n as i64))
    }
}

/// The model of a JSON array of strings.
pub open spec fn strings_v(v: Seq<Seq<char>>) -> JsonV {
    JsonV::Array(Seq::new(v.len(), |i: int| JsonV::Str(v[i])))
}

/// A JSON object under construction.
pub struct Obj {
    pub members: Vec<(String, Json)>,
}

impl View for Obj {
    type V = Seq<(Seq<char>, JsonV)>;

    open spec fn view(&self) -> Seq<(Seq<char>, JsonV)> {
        entries(self.members@)
    }
}

/// The entries of an object that has none.
pub open spec fn fields() -> Seq<(Seq<char>, JsonV)> {
    Seq::empty()
}

impl Obj {
    /// An object without entries.
    pub fn new() -> (r: Obj)
        ensures
            r@ == Seq::<(Seq<char>, JsonV)>::empty(),
    {
        let r = Obj { members: Vec::new() };
        assert(r@ =~= Seq::empty());
        r
    }

    /// Appends an entry.
    pub fn put(self, key: &str, value: Json) -> (r: Obj)
        ensures
            r@ == self@.push((key@, value@)),
    {
        let ghost before = self@;
        let mut members = self.members;
        members.push((key.to_owned(), value));
        let r = Obj { members };
        assert(r@ =~= before.push((key@, value@)));
        r
    }

    /// Appends an entry that holds a string.
    pub fn put_str(self, key: &str, value: &str) -> (r: Obj)
        ensures
            r@ == self@.push((key@, JsonV::Str(value@))),
    {
        self.put(key, Json::string(value))
    }

    /// Appends an entry that holds a truth value.
    pub fn put_bool(self, key: &str, value: bool) -> (r: Obj)
        ensures
            r@ == self@.push((key@, JsonV::Bool(value))),
    {
        self.put(key, Json::Bool(value))
    }

    /// Appends an entry that holds a string, where there is one.
    pub fn put_opt(self, key: &str, value: &Option<String>) -> (r: Obj)
        ensures
            r@ == put_opt_v(self@, key@, value.deep_view()),
    {
        match value {
            Some(s) => self.put_str(key, s.as_str()),
            None => self,
        }
    }

    /// The object.
    pub fn build(self) -> (r: Json)
        ensures
            r@ == JsonV::Object(self@),
    {
        proof {
            lemma_object_view(self.members);
        }
        Json::Object(self.members)
    }
}

/// The entries with one more string entry, where there is a string.
pub open spec fn put_opt_v(
    o: Seq<(Seq<char>, JsonV)>,
    key: Seq<char>,
    value: Option<Seq<char>>,
) -> Seq<(Seq<char>, JsonV)> {
    match value {
        Some(s) => o.push((key, JsonV::Str(s))),
        None => o,
    }
}

/// What `serde_json::from_str` makes of a text: the tree, or the words of its error.
pub uninterp spec fn parse_result(text: Seq<char>) -> Result<JsonV, Seq<char>>;

/// The tree that a text stands for, where it is JSON.
pub open spec fn parsed_text(text: Seq<char>) -> Option<JsonV> {
    match parse_result(text) {
        Ok(v) => Some(v),
        Err(_) => None,
    }
}

/// What `serde_json` writes for a tree.
pub uninterp spec fn json_text(j: JsonV) -> Seq<char>;

/// How deep a tree may be nested so that its text is certain to be read again.
pub open spec fn read_depth() -> nat {
    100
}

/// Whether no two entries have the same name.
pub open spec fn named_once(o: Seq<(Seq<char>, JsonV)>) -> bool {
    forall|i: int, j: int| 0 <= i < j < o.len() ==> (#[trigger] o[i]).0 != (#[trigger] o[j]).0
}

/// The name by which `serde_json` marks an object that stands for raw JSON. Where an
/// object begins with it, the reader takes its value for a text to read.
pub open spec fn reserved_name() -> Seq<char> {
    "$serde_json::private::RawValue"@
}

/// Whether a tree is plain: its numbers are integers, its objects name each entry once
/// and none by the reserved name, and it is nested at most `depth` deep.
pub open spec fn plain(j: JsonV, depth: nat) -> bool
    decreases depth,
{
    match j {
        JsonV::Number(NumberV::Negative(n)) => n < 0,
        JsonV::Number(NumberV::Float(_)) => false,
        JsonV::Array(a) => depth > 0 && forall|i: int|
            0 <= i < a.len() ==> plain(#[trigger] a[i], (depth - 1) as nat),
        JsonV::Object(o) => depth > 0 && named_once(o) && forall|i: int|
            0 <= i < o.len() ==> (#[trigger] o[i]).0 != reserved_name() && plain(
                o[i].1,
                (depth - 1) as nat,
            ),
        _ => true,
    }
}

/// Whether two trees, nested at most `depth` deep, are the same but for the order of the
/// entries of their objects.
pub open spec fn same_tree(a: JsonV, b: JsonV, depth: nat) -> bool
    decreases depth,
{
    match (a, b) {
        (JsonV::Array(x), JsonV::Array(y)) => depth > 0 && x.len() == y.len() && forall|i: int|
            0 <= i < x.len() ==> same_tree(#[trigger] x[i], y[i], (depth - 1) as nat),
        (JsonV::Object(x), JsonV::Object(y)) => depth > 0 && forall|k: Seq<char>|
            match (#[trigger] lookup(x, k), lookup(y, k)) {
                (Some(u), Some(v)) => same_tree(u, v, (depth - 1) as nat),
                (None, None) => true,
                _ => false,
            },
        _ => a == b,
    }
}

/// A list of texts is plain, and nothing but itself is the same.
pub proof fn lemma_strings_are_plain(v: Seq<Seq<char>>, other: JsonV)
    ensures
        plain(strings_v(v), read_depth()),
        same_tree(other, strings_v(v), read_depth()) ==> other == strings_v(v),
{
    let a = strings_v(v)->Array_0;
    assert forall|i: int| 0 <= i < a.len() implies plain(
        #[trigger] a[i],
        (read_depth() - 1) as nat,
    ) by {}
    if same_tree(other, strings_v(v), read_depth()) {
        let b = other->Array_0;
        assert forall|i: int| 0 <= i < b.len() implies b[i] == a[i] by {
            assert(same_tree(b[i], a[i], (read_depth() - 1) as nat));
        }
        assert(b =~= a);
    }
}

/// A parsed `serde_json` value, carried between the calls below and never looked
/// into.
#[verifier::external_type_specification]
#[verifier::external_body]
pub struct ExValue(serde_json::Value);

/// Carries a `serde_json::Value` over into a [`Json`], variant by variant: an
/// integer stays an integer, any other number keeps the text that
/// `serde_json::Number` displays, and an object keeps the order in which
/// `serde_json::Map` yields its entries.
#[verifier::external_body]
fn json_of_value(value: serde_json::Value) -> Json {
    match value {
        serde_json::Value::Null => Json::Null,
        serde_json::Value::Bool(b) => Json::Bool(b),
        serde_json::Value::Number(n) => Json::Number(match (n.as_u64(), n.as_i64()) {
            (Some(u), _) => JsonNumber::Unsigned(u),
            (None, Some(i)) => JsonNumber::Negative(i),
            (None, None) => JsonNumber::Float(n.to_string()),
        }),
        serde_json::Value::String(s) => Json::Str(s),
        serde_json::Value::Array(a) => Json::Array(a.into_iter().map(json_of_value).collect()),
        serde_json::Value::Object(o) => Json::Object(o.into_iter().map(|(k, v)| (k, json_of_value(v))).collect()),
    }
}

/// Carries a [`Json`] over into a `serde_json::Value`, variant by variant. A
/// number kept as text that `serde_json` cannot read becomes `null`.
#[verifier::external_body]
fn value_of_json(json: &Json) -> serde_json::Value {
    match json {
        Json::Null => serde_json::Value::Null,
        Json::Bool(b) => serde_json::Value::from(*b),
        Json::Number(JsonNumber::Unsigned(n)) => serde_json::Value::from(*n),
        Json::Number(JsonNumber::Negative(n)) => serde_json::Value::from(*n),
        Json::Number(JsonNumber::Float(t)) => serde_json::from_str(t).unwrap_or(serde_json::Value::Null),
        Json::Str(s) => serde_json::Value::from(s.as_str()),
        Json::Array(a) => a.iter().map(value_of_json).collect(),
        Json::Object(o) => o.iter().map(|(k, v)| (k.as_str(), value_of_json(v))).collect(),
    }
}

/// Reads a text with `serde_json::from_str`, an error as the words in which it
/// displays itself. What a text stands for is left to `serde_json`.
#[verifier::external_body]
fn read_text(text: &str) -> (r: Result<Json, String>)
    ensures
        match r {
            Ok(v) => parse_result(text@) == Ok::<JsonV, Seq<char>>(v@),
            Err(e) => parse_result(text@) == Err::<JsonV, Seq<char>>(e@),
        },
{
    match serde_json::from_str::<serde_json::Value>(text) {
        Ok(v) => Ok(json_of_value(v)),
        Err(e) => Err(e.to_string()),
    }
}

/// Writes a tree as `serde_json::Value` displays it. How the text is spelled is
/// left to `serde_json`; `serde_json::from_str` reads the tree back from it, where its
/// numbers are integers, no name comes twice in an object, none is the name that the
/// reader keeps for raw JSON, and it is not nested too deep.
#[verifier::external_body]
fn write_text(json: &Json) -> (r: String)
    ensures
        r@ == json_text(json@),
        plain(json@, read_depth()) ==> parse_result(r@) is Ok && same_tree(
            parse_result(r@)->Ok_0,
            json@,
            read_depth(),
        ),
{
    value_of_json(json).to_string()
}

impl Json {
    /// Reads a JSON text; `None` where it is none.
    pub fn from_text(text: &str) -> (r: Option<Json>)
        ensures
            r.deep_view() == parsed_text(text@),
    {
        match read_text(text) {
            Ok(v) => Some(v),
            Err(_) => None,
        }
    }

    /// Reads a JSON text, or says why it is none.
    pub fn parse(text: &str) -> (r: Result<Json, String>)
        ensures
            match r {
                Ok(v) => parse_result(text@) == Ok::<JsonV, Seq<char>>(v@),
                Err(e) => parse_result(text@) == Err::<JsonV, Seq<char>>(e@),
            },
    {
        read_text(text)
    }

    /// The tree as a JSON text. A plain tree is read back from it.
    pub fn to_text(&self) -> (r: String)
        ensures
            r@ == json_text(self@),
            plain(self@, read_depth()) ==> parse_result(r@) is Ok && same_tree(
                parse_result(r@)->Ok_0,
                self@,
                read_depth(),
            ),
    {
        write_text(self)
    }
}

/// The entries with a value under a name: in place of the one that was there, else at
/// the end.
pub open spec fn with_field_v(
    o: Seq<(Seq<char>, JsonV)>,
    key: Seq<char>,
    value: JsonV,
) -> Seq<(Seq<char>, JsonV)>
    decreases o.len(),
{
    if o.len() == 0 {
        seq![(key, value)]
    } else if o[0].0 == key {
        seq![(key, value)] + o.drop_first()
    } else {
        seq![o[0]] + with_field_v(o.drop_first(), key, value)
    }
}

/// A value that is set reads back, and no other value changes.
pub proof fn field_reads_back(
    o: Seq<(Seq<char>, JsonV)>,
    key: Seq<char>,
    value: JsonV,
    other: Seq<char>,
)
    ensures
        lookup(with_field_v(o, key, value), key) == Some(value),
        other != key ==> lookup(with_field_v(o, key, value), other) == lookup(o, other),
    decreases o.len(),
{
    let n = with_field_v(o, key, value);
    reveal_with_fuel(lookup, 2);
    if o.len() == 0 {
        assert(n.drop_first() =~= Seq::<(Seq<char>, JsonV)>::empty());
    } else if o[0].0 == key {
        assert(n.drop_first() =~= o.drop_first());
    } else {
        assert(n.drop_first() =~= with_field_v(o.drop_first(), key, value));
        field_reads_back(o.drop_first(), key, value, other);
    }
}

/// The names and the values after a value has been set: those that were there, and it.
proof fn lemma_set_names(o: Seq<(Seq<char>, JsonV)>, key: Seq<char>, value: JsonV, i: int)
    requires
        0 <= i < with_field_v(o, key, value).len(),
    ensures
        ({
            let e = with_field_v(o, key, value)[i];
            &&& e == (key, value) || (i < o.len() && e == o[i])
            &&& i < o.len() ==> e.0 == o[i].0
            &&& i >= o.len() ==> i == o.len() && e.0 == key
        }),
    decreases o.len(),
{
    let n = with_field_v(o, key, value);
    if o.len() == 0 {
    } else if o[0].0 == key {
        if i > 0 {
            assert(n[i] == o.drop_first()[i - 1]);
        }
    } else {
        if i > 0 {
            lemma_set_names(o.drop_first(), key, value, i - 1);
            assert(n[i] == with_field_v(o.drop_first(), key, value)[i - 1]);
        }
    }
}

/// Where a value is set under a name that was not there, the name is the last.
proof fn lemma_set_length(o: Seq<(Seq<char>, JsonV)>, key: Seq<char>, value: JsonV)
    ensures
        with_field_v(o, key, value).len() == o.len() || (with_field_v(o, key, value).len()
            == o.len() + 1 && forall|j: int| 0 <= j < o.len() ==> (#[trigger] o[j]).0 != key),
    decreases o.len(),
{
    if o.len() > 0 && o[0].0 != key {
        lemma_set_length(o.drop_first(), key, value);
        assert forall|j: int|
            with_field_v(o, key, value).len() == o.len() + 1 && 0 <= j < o.len() implies (
        #[trigger] o[j]).0 != key by {
            if j > 0 {
                assert(o.drop_first()[j - 1] == o[j]);
            }
        }
    }
}

/// A plain object stays plain where a plain value is set.
pub proof fn lemma_plain_with_field(
    o: Seq<(Seq<char>, JsonV)>,
    key: Seq<char>,
    value: JsonV,
    depth: nat,
)
    requires
        depth > 0,
        plain(JsonV::Object(o), depth),
        plain(value, (depth - 1) as nat),
        key != reserved_name(),
    ensures
        plain(JsonV::Object(with_field_v(o, key, value)), depth),
{
    let n = with_field_v(o, key, value);
    lemma_set_length(o, key, value);
    assert forall|i: int, j: int| 0 <= i < j < n.len() implies (#[trigger] n[i]).0 != (
    #[trigger] n[j]).0 by {
        lemma_set_names(o, key, value, i);
        lemma_set_names(o, key, value, j);
    }
    assert forall|i: int| 0 <= i < n.len() implies (#[trigger] n[i]).0 != reserved_name() && plain(
        n[i].1,
        (depth - 1) as nat,
    ) by {
        lemma_set_names(o, key, value, i);
    }
}

impl Json {
    /// The object with a value under a name. `null` counts as an object without
    /// entries.
    pub fn with_field(&self, key: &str, value: Json) -> (r: Json)
        requires
            self@ is Object || self@ is Null,
        ensures
            r@ == JsonV::Object(
                with_field_v(
                    match self@ {
                        JsonV::Object(o) => o,
                        _ => Seq::empty(),
                    },
                    key@,
                    value@,
                ),
            ),
    {
        let mut out = Obj::new();
        match self.as_object() {
            Some(o) => {
                let ghost ov = self@->Object_0;
                let mut i: usize = 0;
                proof {
                    assert(ov.skip(0) =~= ov);
                    assert(out@ + with_field_v(ov, key@, value@) =~= with_field_v(
                        ov,
                        key@,
                        value@,
                    ));
                }
                while i < o.len()
                    invariant
                        i <= o.len(),
                        ov == entries(o@),
                        self@ == JsonV::Object(ov),
                        with_field_v(ov, key@, value@) == out@ + with_field_v(
                            ov.skip(i as int),
                            key@,
                            value@,
                        ),
                    decreases o.len() - i,
                {
                    let ghost rest = ov.skip(i as int);
                    assert(rest[0] == ov[i as int]);
                    assert(ov[i as int].0 == o@[i as int].0@);
                    if str_eq(o[i].0.as_str(), key) {
                        out = out.put(key, value);
                        i += 1;
                        assert(rest.drop_first() =~= ov.skip(i as int));
                        assert(with_field_v(ov, key@, value@) =~= out@ + ov.skip(i as int));
                        while i < o.len()
                            invariant
                                i <= o.len(),
                                ov == entries(o@),
                        self@ == JsonV::Object(ov),
                                with_field_v(ov, key@, value@) == out@ + ov.skip(i as int),
                            decreases o.len() - i,
                        {
                            out = out.put(o[i].0.as_str(), o[i].1.copy());
                            assert(ov[i as int] == (o@[i as int].0@, o@[i as int].1@));
                            i += 1;
                            assert(with_field_v(ov, key@, value@) =~= out@ + ov.skip(i as int));
                        }
                        assert(out@ + ov.skip(i as int) =~= out@);
                        return out.build();
                    }
                    out = out.put(o[i].0.as_str(), o[i].1.copy());
                    assert(ov[i as int] == (o@[i as int].0@, o@[i as int].1@));
                    i += 1;
                    assert(rest.drop_first() =~= ov.skip(i as int));
                    assert(with_field_v(ov, key@, value@) =~= out@ + with_field_v(
                        ov.skip(i as int),
                        key@,
                        value@,
                    ));
                }
                assert(ov.skip(i as int) =~= Seq::<(Seq<char>, JsonV)>::empty());
                out = out.put(key, value);
                assert(with_field_v(ov, key@, value@) =~= out@);
                out.build()
            },
            None => {
                out = out.put(key, value);
                assert(out@ =~= seq![(key@, value@)]);
                out.build()
            },
        }
    }
}

} // verus!
