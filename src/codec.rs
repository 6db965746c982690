use vstd::prelude::*;

use crate::json::{
    copy_members, elems, field, find_member, lemma_object_view, i64_json, lemma_array_view, members, opt_i64_of, str_of, bool_of, number_of,
    opt_str_of, Json, JsonView, JsonNumber,
};
use crate::SerdeError;
use vstd::string::StringExecFns;

verus! {

/// A closed set of values, each with one fixed spelling in a document.
pub trait WireName: Sized {
    /// The spelling of a value.
    spec fn wire(self) -> Seq<char>;

    /// The value spelled `s`, if any.
    spec fn parse_wire(s: Seq<char>) -> Option<Self>;

    fn to_wire(&self) -> (r: &'static str)
        ensures
            r@ == self.wire(),
    ;

    fn from_wire(s: &str) -> (r: Option<Self>)
        ensures
            r == Self::parse_wire(s@),
    ;

    /// Each value is read back from its own spelling.
    proof fn lemma_wire(self)
        ensures
            Self::parse_wire(self.wire()) == Some(self),
    ;

    /// A spelling is read only as the value it spells.
    proof fn lemma_parse(s: Seq<char>)
        ensures
            Self::parse_wire(s) matches Some(e) ==> e.wire() == s,
    ;
}

/// A closed set of member names.
pub trait MemberNames {
    /// Whether `k` names a member.
    spec fn known_key(k: Seq<char>) -> bool;

    fn is_known_key(k: &str) -> (r: bool)
        ensures
            r == Self::known_key(k@),
    ;
}

/// A record with a closed set of member names.
pub trait Record: Sized + MemberNames {

    /// Whether `k` names a member that a document must hold.
    spec fn required_key(k: Seq<char>) -> bool;

    /// Whether the document `j` reads as the record `m`.
    spec fn decodes(j: JsonView, m: Self) -> bool;

    /// The document that the record is written as.
    spec fn json_of(self) -> JsonView;

    fn from_json(j: &Json) -> (r: Result<Self, SerdeError>)
        ensures
            match r {
                Ok(m) => Self::decodes(j@, m),
                Err(_) => forall|m: Self| !Self::decodes(j@, m),
            },
    ;

    fn to_json(&self) -> (r: Json)
        ensures
            r@ == self.json_of(),
    ;

    /// A document that reads as a record is an object whose members are all
    /// named by the record and hold every required member.
    proof fn lemma_shape(j: JsonView, m: Self)
        requires
            Self::decodes(j, m),
        ensures
            j is Object,
            keys_known::<Self>(j->Object_0),
            forall|k: Seq<char>| Self::required_key(k) ==> (#[trigger] field(j->Object_0, k)) is Some,
    ;

    /// The document that a record is written as reads back as that record,
    /// member for member.
    proof fn lemma_round_trip(self)
        ensures
            Self::decodes(self.json_of(), self),
    ;
}

pub open spec fn keys_known<R: MemberNames>(p: Seq<(Seq<char>, JsonView)>) -> bool {
    forall|i: int| 0 <= i < p.len() ==> R::known_key(#[trigger] p[i].0)
}

pub open spec fn enum_of<E: WireName>(o: Option<JsonView>) -> Option<E> {
    match o {
        Some(JsonView::Str(s)) => E::parse_wire(s),
        _ => None,
    }
}

/// An optional enumeration value: absent or null gives `None`.
pub open spec fn opt_enum_of<E: WireName>(o: Option<JsonView>) -> Option<Option<E>> {
    match o {
        None => Some(None),
        Some(JsonView::Null) => Some(None),
        Some(JsonView::Str(s)) => match E::parse_wire(s) {
            Some(e) => Some(Some(e)),
            None => None,
        },
        _ => None,
    }
}

pub open spec fn record_of<R: Record>(o: Option<JsonView>, m: R) -> bool {
    match o {
        Some(j) => R::decodes(j, m),
        None => false,
    }
}

/// An optional record: absent or null gives `None`.
pub open spec fn opt_record_of<R: Record>(o: Option<JsonView>, m: Option<R>) -> bool {
    match o {
        None => m is None,
        Some(JsonView::Null) => m is None,
        Some(j) => match m {
            Some(x) => R::decodes(j, x),
            None => false,
        },
    }
}

pub open spec fn records_of<R: Record>(o: Option<JsonView>, v: Seq<R>) -> bool {
    match o {
        Some(JsonView::Array(a)) => a.len() == v.len() && forall|i: int|
            0 <= i < a.len() ==> R::decodes(#[trigger] a[i], v[i]),
        _ => false,
    }
}

/// An optional array of records: absent or null gives `None`.
pub open spec fn opt_records_of<R: Record>(o: Option<JsonView>, v: Option<Seq<R>>) -> bool {
    match o {
        None => v is None,
        Some(JsonView::Null) => v is None,
        Some(j) => match v {
            Some(s) => records_of::<R>(Some(j), s),
            None => false,
        },
    }
}

pub open spec fn records_json<R: Record>(v: Seq<R>) -> JsonView {
    JsonView::Array(v.map_values(|x: R| x.json_of()))
}

pub open spec fn opt_str_json(o: Option<String>) -> Option<JsonView> {
    match o {
        Some(s) => Some(JsonView::Str(s@)),
        None => None,
    }
}

pub open spec fn opt_enum_json<E: WireName>(o: Option<E>) -> Option<JsonView> {
    match o {
        Some(e) => Some(JsonView::Str(e.wire())),
        None => None,
    }
}

pub open spec fn opt_record_json<R: Record>(o: Option<R>) -> Option<JsonView> {
    match o {
        Some(x) => Some(x.json_of()),
        None => None,
    }
}

pub open spec fn opt_records_json<R: Record>(o: Option<Vec<R>>) -> Option<JsonView> {
    match o {
        Some(v) => Some(records_json(v@)),
        None => None,
    }
}

pub open spec fn opt_i64_json(o: Option<i64>) -> Option<JsonView> {
    match o {
        Some(i) => Some(i64_json(i)),
        None => None,
    }
}

pub open spec fn opt_view(o: Option<String>) -> Option<Seq<char>> {
    match o {
        Some(s) => Some(s@),
        None => None,
    }
}

pub open spec fn opt_seq<R>(o: Option<Vec<R>>) -> Option<Seq<R>> {
    match o {
        Some(v) => Some(v@),
        None => None,
    }
}

pub open spec fn opt_members(o: Option<Vec<(String, Json)>>) -> Option<
    Seq<(Seq<char>, JsonView)>,
> {
    match o {
        Some(v) => Some(members(v@)),
        None => None,
    }
}

/// An optional object taken as it stands: absent or null gives `None`.
pub open spec fn opt_object_of(o: Option<JsonView>) -> Option<Option<Seq<(Seq<char>, JsonView)>>> {
    match o {
        None => Some(None),
        Some(JsonView::Null) => Some(None),
        Some(JsonView::Object(q)) => Some(Some(q)),
        _ => None,
    }
}

pub open spec fn opt_object_json(o: Option<Vec<(String, Json)>>) -> Option<JsonView> {
    match o {
        Some(v) => Some(JsonView::Object(members(v@))),
        None => None,
    }
}

/// Reads the optional object member `k`, keeping its members as they stand.
pub fn get_opt_object(p: &Vec<(String, Json)>, k: &str) -> (r: Result<
    Option<Vec<(String, Json)>>,
    SerdeError,
>)
    ensures
        match r {
            Ok(o) => opt_object_of(field(members(p@), k@)) == Some(opt_members(o)),
            Err(_) => opt_object_of(field(members(p@), k@)) is None,
        },
{
    match find_member(p, k) {
        Some(i) => match &p[i].1 {
            Json::Null => Ok(None),
            Json::Object(q) => {
                proof {
                    lemma_object_view(*q);
                }
                Ok(Some(copy_members(q)))
            },
            _ => Err(violation("expected an object at ", k)),
        },
        None => Ok(None),
    }
}

/// A violation: its kind, then the member or record it concerns.
pub fn violation(what: &str, k: &str) -> (r: SerdeError) {
    let mut s = what.to_owned();
    s.append(k);
    SerdeError(s)
}

/// Refuses an object with a member that the record does not name.
pub fn check_keys<R: MemberNames>(p: &Vec<(String, Json)>) -> (r: Result<(), SerdeError>)
    ensures
        r is Ok <==> keys_known::<R>(members(p@)),
{
    let mut i: usize = 0;
    while i < p.len()
        invariant
            i <= p@.len(),
            forall|j: int| 0 <= j < i ==> R::known_key((#[trigger] p@[j]).0@),
        decreases p@.len() - i,
    {
        if !R::is_known_key(p[i].0.as_str()) {
            proof {
                assert(members(p@)[i as int].0 == p@[i as int].0@);
            }
            return Err(violation("unknown field ", p[i].0.as_str()));
        }
        i = i + 1;
    }
    proof {
        assert forall|j: int| 0 <= j < members(p@).len() implies R::known_key(
            #[trigger] members(p@)[j].0,
        ) by {
            assert(R::known_key(p@[j].0@));
        }
    }
    Ok(())
}

/// Reads the required string member `k`.
pub fn get_str(p: &Vec<(String, Json)>, k: &str) -> (r: Result<String, SerdeError>)
    ensures
        match r {
            Ok(s) => str_of(field(members(p@), k@)) == Some(s@),
            Err(_) => str_of(field(members(p@), k@)) is None,
        },
{
    match find_member(p, k) {
        Some(i) => match &p[i].1 {
            Json::Str(s) => Ok(s.clone()),
            _ => Err(violation("expected a string at ", k)),
        },
        None => Err(violation("missing field ", k)),
    }
}

/// Reads the optional string member `k`.
pub fn get_opt_str(p: &Vec<(String, Json)>, k: &str) -> (r: Result<Option<String>, SerdeError>)
    ensures
        match r {
            Ok(o) => opt_str_of(field(members(p@), k@)) == Some(
                match o {
                    Some(s) => Some(s@),
                    None => None,
                },
            ),
            Err(_) => opt_str_of(field(members(p@), k@)) is None,
        },
{
    match find_member(p, k) {
        Some(i) => match &p[i].1 {
            Json::Null => Ok(None),
            Json::Str(s) => Ok(Some(s.clone())),
            _ => Err(violation("expected a string at ", k)),
        },
        None => Ok(None),
    }
}

/// Reads the required boolean member `k`.
pub fn get_bool(p: &Vec<(String, Json)>, k: &str) -> (r: Result<bool, SerdeError>)
    ensures
        match r {
            Ok(b) => bool_of(field(members(p@), k@)) == Some(b),
            Err(_) => bool_of(field(members(p@), k@)) is None,
        },
{
    match find_member(p, k) {
        Some(i) => match &p[i].1 {
            Json::Bool(b) => Ok(*b),
            _ => Err(violation("expected a boolean at ", k)),
        },
        None => Err(violation("missing field ", k)),
    }
}

/// Reads the required number member `k`.
pub fn get_number(p: &Vec<(String, Json)>, k: &str) -> (r: Result<JsonNumber, SerdeError>)
    ensures
        match r {
            Ok(n) => number_of(field(members(p@), k@)) == Some(n@),
            Err(_) => number_of(field(members(p@), k@)) is None,
        },
{
    match find_member(p, k) {
        Some(i) => match &p[i].1 {
            Json::Number(n) => Ok(n.copy()),
            _ => Err(violation("expected a number at ", k)),
        },
        None => Err(violation("missing field ", k)),
    }
}

/// Reads the optional integer member `k`.
pub fn get_opt_i64(p: &Vec<(String, Json)>, k: &str) -> (r: Result<Option<i64>, SerdeError>)
    ensures
        match r {
            Ok(o) => opt_i64_of(field(members(p@), k@)) == Some(o),
            Err(_) => opt_i64_of(field(members(p@), k@)) is None,
        },
{
    match find_member(p, k) {
        Some(i) => match &p[i].1 {
            Json::Null => Ok(None),
            Json::Number(JsonNumber::PosInt(u)) => if *u <= i64::MAX as u64 {
                Ok(Some(*u as i64))
            } else {
                Err(violation("integer out of range at ", k))
            },
            Json::Number(JsonNumber::NegInt(n)) => Ok(Some(*n)),
            _ => Err(violation("expected an integer at ", k)),
        },
        None => Ok(None),
    }
}

/// Reads the required enumeration member `k` by its spelling.
pub fn get_enum<E: WireName>(p: &Vec<(String, Json)>, k: &str) -> (r: Result<E, SerdeError>)
    ensures
        match r {
            Ok(e) => enum_of::<E>(field(members(p@), k@)) == Some(e),
            Err(_) => enum_of::<E>(field(members(p@), k@)) is None,
        },
{
    match find_member(p, k) {
        Some(i) => match &p[i].1 {
            Json::Str(s) => match E::from_wire(s.as_str()) {
                Some(e) => Ok(e),
                None => Err(violation("unknown variant at ", k)),
            },
            _ => Err(violation("expected a string at ", k)),
        },
        None => Err(violation("missing field ", k)),
    }
}

/// Reads the optional enumeration member `k` by its spelling.
pub fn get_opt_enum<E: WireName>(p: &Vec<(String, Json)>, k: &str) -> (r: Result<
    Option<E>,
    SerdeError,
>)
    ensures
        match r {
            Ok(o) => opt_enum_of::<E>(field(members(p@), k@)) == Some(o),
            Err(_) => opt_enum_of::<E>(field(members(p@), k@)) is None,
        },
{
    match find_member(p, k) {
        Some(i) => match &p[i].1 {
            Json::Null => Ok(None),
            Json::Str(s) => match E::from_wire(s.as_str()) {
                Some(e) => Ok(Some(e)),
                None => Err(violation("unknown variant at ", k)),
            },
            _ => Err(violation("expected a string at ", k)),
        },
        None => Ok(None),
    }
}

/// Reads the required record member `k`.
pub fn get_record<R: Record>(p: &Vec<(String, Json)>, k: &str) -> (r: Result<R, SerdeError>)
    ensures
        match r {
            Ok(m) => record_of::<R>(field(members(p@), k@), m),
            Err(_) => forall|m: R| !record_of::<R>(field(members(p@), k@), m),
        },
{
    match find_member(p, k) {
        Some(i) => R::from_json(&p[i].1),
        None => Err(violation("missing field ", k)),
    }
}

/// Reads the optional record member `k`.
pub fn get_opt_record<R: Record>(p: &Vec<(String, Json)>, k: &str) -> (r: Result<
    Option<R>,
    SerdeError,
>)
    ensures
        match r {
            Ok(m) => opt_record_of::<R>(field(members(p@), k@), m),
            Err(_) => forall|m: Option<R>| !opt_record_of::<R>(field(members(p@), k@), m),
        },
{
    match find_member(p, k) {
        Some(i) => match &p[i].1 {
            Json::Null => Ok(None),
            j => match R::from_json(j) {
                Ok(m) => Ok(Some(m)),
                Err(e) => Err(e),
            },
        },
        None => Ok(None),
    }
}

/// Reads each element of an array as a record.
pub fn records_from_json<R: Record>(a: &Vec<Json>) -> (r: Result<Vec<R>, SerdeError>)
    ensures
        match r {
            Ok(v) => records_of::<R>(Some(JsonView::Array(elems(a@))), v@),
            Err(_) => forall|v: Seq<R>|
                !#[trigger] records_of::<R>(Some(JsonView::Array(elems(a@))), v),
        },
{
    let mut out: Vec<R> = Vec::new();
    let mut i: usize = 0;
    while i < a.len()
        invariant
            i <= a@.len(),
            out@.len() == i,
            forall|j: int| 0 <= j < i ==> R::decodes(a@[j]@, #[trigger] out@[j]),
        decreases a@.len() - i,
    {
        match R::from_json(&a[i]) {
            Ok(m) => out.push(m),
            Err(e) => {
                proof {
                    let av = elems(a@);
                    assert(av[i as int] == a@[i as int]@);
                }
                return Err(e);
            },
        }
        i = i + 1;
    }
    proof {
        let av = elems(a@);
        assert forall|j: int| 0 <= j < av.len() implies R::decodes(#[trigger] av[j], out@[j]) by {
            assert(av[j] == a@[j]@);
        }
    }
    Ok(out)
}

/// Reads the required array-of-records member `k`.
pub fn get_records<R: Record>(p: &Vec<(String, Json)>, k: &str) -> (r: Result<
    Vec<R>,
    SerdeError,
>)
    ensures
        match r {
            Ok(v) => records_of::<R>(field(members(p@), k@), v@),
            Err(_) => forall|v: Seq<R>| !records_of::<R>(field(members(p@), k@), v),
        },
{
    match find_member(p, k) {
        Some(i) => match &p[i].1 {
            Json::Array(a) => {
                proof {
                    lemma_array_view(*a);
                }
                records_from_json(a)
            },
            _ => Err(violation("expected an array at ", k)),
        },
        None => Err(violation("missing field ", k)),
    }
}

/// Reads the optional array-of-records member `k`.
pub fn get_opt_records<R: Record>(p: &Vec<(String, Json)>, k: &str) -> (r: Result<
    Option<Vec<R>>,
    SerdeError,
>)
    ensures
        match r {
            Ok(o) => opt_records_of::<R>(
                field(members(p@), k@),
                match o {
                    Some(v) => Some(v@),
                    None => None,
                },
            ),
            Err(_) => forall|v: Option<Seq<R>>| !opt_records_of::<R>(field(members(p@), k@), v),
        },
{
    match find_member(p, k) {
        Some(i) => match &p[i].1 {
            Json::Null => Ok(None),
            Json::Array(a) => {
                proof {
                    lemma_array_view(*a);
                }
                match records_from_json(a) {
                    Ok(v) => Ok(Some(v)),
                    Err(e) => Err(e),
                }
            },
            _ => Err(violation("expected an array at ", k)),
        },
        None => Ok(None),
    }
}

/// Writes records as an array of documents.
pub fn records_to_json<R: Record>(v: &Vec<R>) -> (r: Json)
    ensures
        r@ == records_json(v@),
{
    let mut out: Vec<Json> = Vec::new();
    let mut i: usize = 0;
    while i < v.len()
        invariant
            i <= v@.len(),
            out@.len() == i,
            forall|j: int| 0 <= j < i ==> (#[trigger] out@[j])@ == v@[j].json_of(),
        decreases v@.len() - i,
    {
        out.push(v[i].to_json());
        i = i + 1;
    }
    proof {
        lemma_array_view(out);
        assert(out@.map_values(|x: Json| x@) =~= v@.map_values(|x: R| x.json_of()));
    }
    Json::Array(out)
}

/// Writes an integer as a number.
pub fn i64_to_json(i: i64) -> (r: Json)
    ensures
        r@ == i64_json(i),
{
    if i >= 0 {
        Json::Number(JsonNumber::PosInt(i as u64))
    } else {
        Json::Number(JsonNumber::NegInt(i))
    }
}

} // verus!
