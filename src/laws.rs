use vstd::prelude::*;

use crate::codec::{enum_of, Record, WireName};
use crate::json::{field, JsonView};
use crate::metadata::Metadata;

verus! {

/// Writing a record and reading the document back gives the record again,
/// member for member: `from_json(to_json(m))` reads as `m`, and so does the
/// text that `to_json_string` writes wherever serde_json reads it back as the
/// same document.
pub proof fn lemma_round_trip<R: Record>(m: R)
    ensures
        R::decodes(m.json_of(), m),
{
    m.lemma_round_trip();
}

/// The root record in particular reads back from what it is written as.
pub proof fn lemma_metadata_round_trip(m: Metadata)
    ensures
        Metadata::decodes(m.json_of(), m),
{
    m.lemma_round_trip();
}

/// An object with a member that the record does not name reads as no record
/// at all. Since every nested object is itself read as a record, this holds at
/// every level of a document.
pub proof fn lemma_unknown_member_refused<R: Record>(
    p: Seq<(Seq<char>, JsonView)>,
    i: int,
    m: R,
)
    requires
        0 <= i < p.len(),
        !R::known_key(p[i].0),
    ensures
        !R::decodes(JsonView::Object(p), m),
{
    if R::decodes(JsonView::Object(p), m) {
        R::lemma_shape(JsonView::Object(p), m);
        assert(R::known_key(p[i].0));
    }
}

/// An object without a member that the record requires reads as no record.
pub proof fn lemma_missing_member_refused<R: Record>(
    p: Seq<(Seq<char>, JsonView)>,
    k: Seq<char>,
    m: R,
)
    requires
        R::required_key(k),
        field(p, k) is None,
    ensures
        !R::decodes(JsonView::Object(p), m),
{
    if R::decodes(JsonView::Object(p), m) {
        R::lemma_shape(JsonView::Object(p), m);
        assert(field(p, k) is Some);
    }
}

/// A string that spells no value of an enumeration is read as none of them.
pub proof fn lemma_unknown_spelling_refused<E: WireName>(s: Seq<char>)
    requires
        forall|e: E| e.wire() != s,
    ensures
        enum_of::<E>(Some(JsonView::Str(s))) is None,
{
    E::lemma_parse(s);
    if let Some(e) = E::parse_wire(s) {
        assert(e.wire() == s);
    }
}

} // verus!
