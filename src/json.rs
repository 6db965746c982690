use serde_json::Value;
use vstd::prelude::*;

verus! {

/// A JSON number as the parser found it: a non-negative integer, a negative
/// integer, or any other number, kept as its shortest decimal text. Records
/// hold their measured quantities (coverage, sizes, percentages) in this form,
/// exactly as the document gave them.
pub enum JsonNumber {
    PosInt(u64),
    NegInt(i64),
    Float(String),
}

/// The mathematical value of a `JsonNumber`.
pub enum JsonNumberView {
    PosInt(u64),
    NegInt(i64),
    Float(Seq<char>),
}

impl View for JsonNumber {
    type V = JsonNumberView;

    open spec fn view(&self) -> JsonNumberView {
        match self {
            JsonNumber::PosInt(u) => JsonNumberView::PosInt(*u),
            JsonNumber::NegInt(i) => JsonNumberView::NegInt(*i),
            JsonNumber::Float(s) => JsonNumberView::Float(s@),
        }
    }
}

impl JsonNumber {
    pub fn copy(&self) -> (r: JsonNumber)
        ensures
            r@ == self@,
    {
        match self {
            JsonNumber::PosInt(u) => JsonNumber::PosInt(*u),
            JsonNumber::NegInt(i) => JsonNumber::NegInt(*i),
            JsonNumber::Float(s) => JsonNumber::Float(s.clone()),
        }
    }
}

/// A structured document: null, boolean, number, string, array or object.
/// An object is the list of its members in document order.
pub enum Json {
    Null,
    Bool(bool),
    Number(JsonNumber),
    Str(String),
    Array(Vec<Json>),
    Object(Vec<(String, Json)>),
}

/// The mathematical value of a `Json` document.
pub enum JsonView {
    Null,
    Bool(bool),
    Number(JsonNumberView),
    Str(Seq<char>),
    Array(Seq<JsonView>),
    Object(Seq<(Seq<char>, JsonView)>),
}

impl View for Json {
    type V = JsonView;

    open spec fn view(&self) -> JsonView
        decreases self,
    {
        match self {
            Json::Null => JsonView::Null,
            Json::Bool(b) => JsonView::Bool(*b),
            Json::Number(n) => JsonView::Number(n@),
            Json::Str(s) => JsonView::Str(s@),
            Json::Array(a) => JsonView::Array(
                Seq::new(
                    a@.len(),
                    |i: int|
                        if 0 <= i < a@.len() {
                            a@[i].view()
                        } else {
                            JsonView::Null
                        },
                ),
            ),
            Json::Object(p) => JsonView::Object(
                Seq::new(
                    p@.len(),
                    |i: int|
                        if 0 <= i < p@.len() {
                            (p@[i].0@, p@[i].1.view())
                        } else {
                            (Seq::empty(), JsonView::Null)
                        },
                ),
            ),
        }
    }
}

/// A copy of the document, member for member.
#[verifier::loop_isolation(false)]
pub fn copy_json(this: &Json) -> (r: Json)
    ensures
        r@ == this@,
    decreases this,
{
    match this {
        Json::Null => Json::Null,
        Json::Bool(b) => Json::Bool(*b),
        Json::Number(n) => Json::Number(n.copy()),
        Json::Str(s) => Json::Str(s.clone()),
        Json::Array(a) => {
            let mut out: Vec<Json> = Vec::new();
            let mut i: usize = 0;
            while i < a.len()
                invariant
                    i <= a.len(),
                    out@.len() == i,
                    forall|j: int| 0 <= j < i ==> #[trigger] out@[j]@ == a@[j]@,
                decreases a.len() - i,
            {
                proof {
                    vstd::std_specs::vec::axiom_vec_index_decreases(*a, i as int);
                    assert(decreases_to!(*this => a[i as int]));
                }
                let e = copy_json(&a[i]);
                out.push(e);
                i = i + 1;
            }
            let r = Json::Array(out);
            proof {
                lemma_array_view(out);
                lemma_array_view(*a);
                assert(out@.map_values(|x: Json| x@) =~= a@.map_values(|x: Json| x@));
            }
            r
        },
        Json::Object(p) => {
            let mut out: Vec<(String, Json)> = Vec::new();
            let mut i: usize = 0;
            while i < p.len()
                invariant
                    i <= p.len(),
                    out@.len() == i,
                    forall|j: int|
                        0 <= j < i ==> (#[trigger] out@[j]).0@ == p@[j].0@ && out@[j].1@
                            == p@[j].1@,
                decreases p.len() - i,
            {
                proof {
                    vstd::std_specs::vec::axiom_vec_index_decreases(*p, i as int);
                    assert(decreases_to!(*this => p[i as int]));
                }
                let e = (p[i].0.clone(), copy_json(&p[i].1));
                out.push(e);
                i = i + 1;
            }
            let r = Json::Object(out);
            proof {
                lemma_object_view(out);
                lemma_object_view(*p);
                assert(out@.map_values(|x: (String, Json)| (x.0@, x.1@)) =~= p@.map_values(
                    |x: (String, Json)| (x.0@, x.1@),
                ));
            }
            r
        },
    }
}



/// The elements of an array, as values.
pub open spec fn elems(a: Seq<Json>) -> Seq<JsonView> {
    a.map_values(|x: Json| x@)
}

/// The members of an object, as values.
pub open spec fn members(p: Seq<(String, Json)>) -> Seq<(Seq<char>, JsonView)> {
    p.map_values(|x: (String, Json)| (x.0@, x.1@))
}

/// The value of the first member named `k`, if there is one.
pub open spec fn field(p: Seq<(Seq<char>, JsonView)>, k: Seq<char>) -> Option<JsonView>
    decreases p.len(),
{
    if p.len() == 0 {
        None
    } else if p[0].0 == k {
        Some(p[0].1)
    } else {
        field(p.drop_first(), k)
    }
}

/// A one-member object body when the value is present, else no member.
pub open spec fn opt_member(k: Seq<char>, v: Option<JsonView>) -> Seq<(Seq<char>, JsonView)> {
    match v {
        Some(x) => seq![(k, x)],
        None => Seq::empty(),
    }
}

pub open spec fn str_of(o: Option<JsonView>) -> Option<Seq<char>> {
    match o {
        Some(JsonView::Str(s)) => Some(s),
        _ => None,
    }
}

/// An optional string: absent or null gives `None`.
pub open spec fn opt_str_of(o: Option<JsonView>) -> Option<Option<Seq<char>>> {
    match o {
        None => Some(None),
        Some(JsonView::Null) => Some(None),
        Some(JsonView::Str(s)) => Some(Some(s)),
        _ => None,
    }
}

pub open spec fn bool_of(o: Option<JsonView>) -> Option<bool> {
    match o {
        Some(JsonView::Bool(b)) => Some(b),
        _ => None,
    }
}

pub open spec fn number_of(o: Option<JsonView>) -> Option<JsonNumberView> {
    match o {
        Some(JsonView::Number(n)) => Some(n),
        _ => None,
    }
}

/// An optional signed 64-bit integer: absent or null gives `None`; a number
/// that is not an integer in range is refused.
pub open spec fn opt_i64_of(o: Option<JsonView>) -> Option<Option<i64>> {
    match o {
        None => Some(None),
        Some(JsonView::Null) => Some(None),
        Some(JsonView::Number(JsonNumberView::PosInt(u))) => if u <= i64::MAX as u64 {
            Some(Some(u as i64))
        } else {
            None
        },
        Some(JsonView::Number(JsonNumberView::NegInt(i))) => Some(Some(i)),
        _ => None,
    }
}

/// The number that encodes an integer.
pub open spec fn i64_json(i: i64) -> JsonView {
    if i >= 0 {
        JsonView::Number(JsonNumberView::PosInt(i as u64))
    } else {
        JsonView::Number(JsonNumberView::NegInt(i))
    }
}

/// Looking up a member in two joined member lists: the first list decides
/// where it names the member.
pub proof fn lemma_field_concat(
    a: Seq<(Seq<char>, JsonView)>,
    b: Seq<(Seq<char>, JsonView)>,
    k: Seq<char>,
)
    ensures
        field(a + b, k) == match field(a, k) {
            Some(v) => Some(v),
            None => field(b, k),
        },
    decreases a.len(),
{
    if a.len() > 0 {
        assert((a + b).drop_first() =~= a.drop_first() + b);
        lemma_field_concat(a.drop_first(), b, k);
    } else {
        assert(a + b =~= b);
    }
}

proof fn lemma_field_skip(p: Seq<(Seq<char>, JsonView)>, i: int, k: Seq<char>)
    requires
        0 <= i <= p.len(),
        forall|j: int| 0 <= j < i ==> p[j].0 != k,
    ensures
        field(p, k) == field(p.subrange(i, p.len() as int), k),
    decreases i,
{
    if i > 0 {
        assert(p.drop_first().subrange(i - 1, p.drop_first().len() as int) =~= p.subrange(
            i,
            p.len() as int,
        ));
        lemma_field_skip(p.drop_first(), i - 1, k);
    } else {
        assert(p.subrange(0, p.len() as int) =~= p);
    }
}

/// Whether two strings hold the same characters.
pub fn str_eq(a: &str, b: &str) -> (r: bool)
    ensures
        r == (a@ == b@),
{
    let x = a.to_owned();
    let y = b.to_owned();
    x == y
}

/// The position of the first member named `k`.
pub fn find_member(p: &Vec<(String, Json)>, k: &str) -> (r: Option<usize>)
    ensures
        match r {
            Some(i) => i < p@.len() && p@[i as int].0@ == k@ && field(members(p@), k@) == Some(
                p@[i as int].1@,
            ),
            None => field(members(p@), k@) is None,
        },
{
    let mut i: usize = 0;
    while i < p.len()
        invariant
            i <= p@.len(),
            forall|j: int| 0 <= j < i ==> (#[trigger] p@[j]).0@ != k@,
        decreases p@.len() - i,
    {
        if str_eq(p[i].0.as_str(), k) {
            proof {
                let m = members(p@);
                lemma_field_skip(m, i as int, k@);
                assert(m.subrange(i as int, m.len() as int)[0] == m[i as int]);
            }
            return Some(i);
        }
        i = i + 1;
    }
    proof {
        let m = members(p@);
        lemma_field_skip(m, i as int, k@);
        assert(m.subrange(i as int, m.len() as int).len() == 0);
    }
    None
}

/// A copy of an object's members, member for member.
pub fn copy_members(q: &Vec<(String, Json)>) -> (r: Vec<(String, Json)>)
    ensures
        members(r@) == members(q@),
{
    let mut out: Vec<(String, Json)> = Vec::new();
    let mut i: usize = 0;
    while i < q.len()
        invariant
            i <= q@.len(),
            out@.len() == i,
            forall|j: int|
                0 <= j < i ==> (#[trigger] out@[j]).0@ == q@[j].0@ && out@[j].1@ == q@[j].1@,
        decreases q@.len() - i,
    {
        let e = (q[i].0.clone(), copy_json(&q[i].1));
        out.push(e);
        i = i + 1;
    }
    assert(members(out@) =~= members(q@));
    out
}

pub proof fn lemma_array_view(a: Vec<Json>)
    ensures
        Json::Array(a)@ == JsonView::Array(elems(a@)),
{
    reveal_with_fuel(<Json as View>::view, 2);
    assert(Json::Array(a)@->Array_0 =~= a@.map_values(|x: Json| x@));
}

pub proof fn lemma_object_view(p: Vec<(String, Json)>)
    ensures
        Json::Object(p)@ == JsonView::Object(p@.map_values(|x: (String, Json)| (x.0@, x.1@))),
{
    reveal_with_fuel(<Json as View>::view, 2);
    assert(Json::Object(p)@->Object_0 =~= p@.map_values(|x: (String, Json)| (x.0@, x.1@)));
}

/// serde_json's document type, carried through the conversions below.
#[verifier::external_type_specification]
#[verifier::external_body]
pub struct ExValue(Value);

/// serde_json's number type, carried through the conversions below.
#[verifier::external_type_specification]
#[verifier::external_body]
pub struct ExNumber(serde_json::Number);

/// The document that serde_json reads from a text; `None` where the text
/// holds no well-formed document.
pub uninterp spec fn parsed_json(text: Seq<char>) -> Option<JsonView>;

/// The compact text that serde_json writes for a document.
pub uninterp spec fn rendered_json(j: JsonView) -> Seq<char>;

/// Relies on serde_json::from_str, read into a serde_json::Value: the document
/// that a text holds, or the parser's message where it holds none.
#[verifier::external_body]
pub fn parse_json(text: &str) -> (r: Result<Json, String>)
    ensures
        match r {
            Ok(j) => parsed_json(text@) == Some(j@),
            Err(_) => parsed_json(text@) is None,
        },
{
    match serde_json::from_str::<Value>(text) {
        Ok(v) => Ok(json_from_value(v)),
        Err(e) => Err(e.to_string()),
    }
}

/// Relies on serde_json's Display for serde_json::Value: the compact text of a
/// document, which depends on the document alone.
#[verifier::external_body]
pub fn render_json(j: &Json) -> (r: String)
    ensures
        r@ == rendered_json(j@),
{
    json_to_value(j).to_string()
}

/// Moves a serde_json::Value into a `Json`, node for node.
#[verifier::external_body]
fn json_from_value(v: Value) -> Json {
    match v {
        Value::Null => Json::Null,
        Value::Bool(b) => Json::Bool(b),
        Value::Number(n) => Json::Number(number_from(n)),
        Value::String(s) => Json::Str(s),
        Value::Array(a) => Json::Array(a.into_iter().map(json_from_value).collect()),
        Value::Object(m) => Json::Object(m.into_iter().map(|(k, x)| (k, json_from_value(x))).collect()),
    }
}

/// Moves a serde_json::Number into a `JsonNumber`; its kind is told apart by
/// serde_json's `as_u64` and `as_i64`.
#[verifier::external_body]
fn number_from(n: serde_json::Number) -> JsonNumber {
    match (n.as_u64(), n.as_i64()) {
        (Some(u), _) => JsonNumber::PosInt(u),
        (None, Some(i)) => JsonNumber::NegInt(i),
        (None, None) => JsonNumber::Float(n.to_string()),
    }
}

/// Builds the serde_json::Value of a `Json`, node for node.
#[verifier::external_body]
fn json_to_value(j: &Json) -> Value {
    match j {
        Json::Null => Value::Null,
        Json::Bool(b) => Value::Bool(*b),
        Json::Number(n) => number_to_value(n),
        Json::Str(s) => Value::String(s.clone()),
        Json::Array(a) => Value::Array(a.iter().map(json_to_value).collect()),
        Json::Object(p) => Value::Object(p.iter().map(|(k, x)| (k.clone(), json_to_value(x))).collect()),
    }
}

/// Builds the serde_json::Value of a `JsonNumber`; decimal text that serde_json's
/// `FromStr` for its number refuses becomes null.
#[verifier::external_body]
fn number_to_value(n: &JsonNumber) -> Value {
    match n {
        JsonNumber::PosInt(u) => Value::from(*u),
        JsonNumber::NegInt(i) => Value::from(*i),
        JsonNumber::Float(s) => s.parse::<serde_json::Number>().map_or(Value::Null, Value::Number),
    }
}

} // verus!
