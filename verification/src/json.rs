//! The merge-patch engine over JSON values, and the trusted boundary to the
//! JSON parser and printer.
//!
//! A JSON value is modelled one level deep: an object is a sequence of
//! (key, value text) entries, where each value text is the canonical printed
//! form of the member's value; a non-object, non-null value is carried as its
//! canonical text. Merging two objects is a shallow, right-biased union of
//! their entries; a null on the right clears the result entirely; any other
//! combination is a full replacement by the right-hand value.

use vstd::prelude::*;

verus! {

/// Whether `s` is text that the JSON parser accepts.
pub uninterp spec fn json_wf(s: Seq<char>) -> bool;

/// The value that well-formed JSON text `s` parses to, one level deep.
pub uninterp spec fn json_parsed(s: Seq<char>) -> JsonView;

/// The canonical text of the JSON object with the given (key, value text)
/// entries, with every value parsed back from its text.
pub uninterp spec fn obj_text(entries: Seq<(Seq<char>, Seq<char>)>) -> Seq<char>;

/// A JSON value, one level deep, as the contracts see it.
pub enum JsonView {
    /// The JSON null.
    Null,
    /// An object: its members as (key, value text) entries.
    Object(Seq<(Seq<char>, Seq<char>)>),
    /// Any other value, as its canonical text.
    Other(Seq<char>),
}

/// A JSON value, one level deep: the executable counterpart of [`JsonView`].
#[derive(Debug, PartialEq, Eq)]
pub enum JsonValue {
    /// The JSON null.
    Null,
    /// An object: its members as (key, value text) entries.
    Object(Vec<(String, String)>),
    /// Any other value, as its canonical text.
    Other(String),
}

impl View for JsonValue {
    type V = JsonView;

    open spec fn view(&self) -> JsonView {
        match self {
            JsonValue::Null => JsonView::Null,
            JsonValue::Object(es) => JsonView::Object(es.deep_view()),
            JsonValue::Other(t) => JsonView::Other(t@),
        }
    }
}

/// Every value text among the entries is itself well-formed JSON.
pub open spec fn wf_entries(es: Seq<(Seq<char>, Seq<char>)>) -> bool {
    forall|i: int| 0 <= i < es.len() ==> json_wf(#[trigger] es[i].1)
}

/// The value texts a JSON value carries are themselves well-formed JSON.
pub open spec fn wf_json(v: JsonView) -> bool {
    match v {
        JsonView::Object(es) => wf_entries(es),
        _ => true,
    }
}

/// Whether some entry carries the key `k`.
pub open spec fn has_key(es: Seq<(Seq<char>, Seq<char>)>, k: Seq<char>) -> bool {
    exists|i: int| 0 <= i < es.len() && (#[trigger] es[i]).0 == k
}

/// The entries of `a` whose key does not occur in `b`, in order.
pub open spec fn surviving_entries(
    a: Seq<(Seq<char>, Seq<char>)>,
    b: Seq<(Seq<char>, Seq<char>)>,
) -> Seq<(Seq<char>, Seq<char>)>
    decreases a.len(),
{
    if a.len() == 0 {
        Seq::empty()
    } else {
        let rest = surviving_entries(a.drop_last(), b);
        if has_key(b, a.last().0) {
            rest
        } else {
            rest.push(a.last())
        }
    }
}

/// What merging `a` with incoming `b` yields: a shallow, right-biased union
/// when both are objects; no value at all when `b` is null; `b` itself in
/// every other combination.
pub open spec fn merge_view(a: JsonView, b: JsonView) -> Option<JsonView> {
    match (a, b) {
        (JsonView::Object(ae), JsonView::Object(be)) => Some(
            JsonView::Object(surviving_entries(ae, be) + be),
        ),
        (_, JsonView::Null) => None,
        (_, _) => Some(b),
    }
}

/// The view of an optional JSON value.
pub open spec fn opt_view(r: Option<JsonValue>) -> Option<JsonView> {
    match r {
        Some(v) => Some(v@),
        None => None,
    }
}

/// Whether some entry of `es` carries the key `k`.
fn contains_key(es: &Vec<(String, String)>, k: &String) -> (r: bool)
    ensures
        r == has_key(es.deep_view(), k@),
{
    let mut i: usize = 0;
    while i < es.len()
        invariant
            i <= es.len(),
            forall|j: int| 0 <= j < i ==> (#[trigger] es.deep_view()[j]).0 != k@,
        decreases es.len() - i,
    {
        proof {
            assert(es.deep_view()[i as int] == es@[i as int].deep_view());
        }
        if es[i].0 == *k {
            assert(es.deep_view()[i as int].0 == k@);
            return true;
        }
        i = i + 1;
    }
    false
}

/// Combine `a` with incoming `b` under the merge-patch rules: a shallow,
/// right-biased union of entries when both are objects; no value when `b` is
/// null; full replacement by `b` otherwise.
pub fn merge(a: JsonValue, b: JsonValue) -> (r: Option<JsonValue>)
    ensures
        opt_view(r) == merge_view(a@, b@),
        wf_json(a@) && wf_json(b@) && r is Some ==> wf_json(r.unwrap()@),
{
    match (a, b) {
        (JsonValue::Object(ae), JsonValue::Object(be)) => {
            let ghost av = ae.deep_view();
            let ghost bv = be.deep_view();
            let mut out: Vec<(String, String)> = Vec::new();
            let mut i: usize = 0;
            while i < ae.len()
                invariant
                    i <= ae.len(),
                    av == ae.deep_view(),
                    bv == be.deep_view(),
                    out.deep_view() == surviving_entries(av.take(i as int), bv),
                decreases ae.len() - i,
            {
                let ghost prev = out.deep_view();
                if !contains_key(&be, &ae[i].0) {
                    let entry = (ae[i].0.clone(), ae[i].1.clone());
                    assert(entry.deep_view() == av[i as int]);
                    out.push(entry);
                    assert(out.deep_view() =~= prev.push(av[i as int]));
                }
                proof {
                    let t = av.take(i + 1 as int);
                    assert(t.drop_last() =~= av.take(i as int));
                    assert(t.last() == av[i as int]);
                }
                i = i + 1;
            }
            proof {
                assert(av.take(ae.len() as int) =~= av);
            }
            let mut j: usize = 0;
            while j < be.len()
                invariant
                    j <= be.len(),
                    bv == be.deep_view(),
                    out.deep_view() == surviving_entries(av, bv) + bv.take(j as int),
                decreases be.len() - j,
            {
                let ghost prev = out.deep_view();
                let entry = (be[j].0.clone(), be[j].1.clone());
                assert(entry.deep_view() == bv[j as int]);
                out.push(entry);
                proof {
                    assert(out.deep_view() =~= prev.push(bv[j as int]));
                    assert(surviving_entries(av, bv) + bv.take(j + 1 as int) =~= prev.push(
                        bv[j as int],
                    ));
                }
                j = j + 1;
            }
            proof {
                assert(bv.take(be.len() as int) =~= bv);
                if wf_entries(av) && wf_entries(bv) {
                    lemma_surviving_entries_wf(av, bv);
                    assert(wf_entries(surviving_entries(av, bv) + bv));
                }
            }
            Some(JsonValue::Object(out))
        }
        (_, JsonValue::Null) => None,
        (_, b) => Some(b),
    }
}

/// The value text stored under key `k`, if any; with a duplicated key the
/// later entry wins.
pub open spec fn lookup(es: Seq<(Seq<char>, Seq<char>)>, k: Seq<char>) -> Option<Seq<char>>
    decreases es.len(),
{
    if es.len() == 0 {
        None
    } else if es.last().0 == k {
        Some(es.last().1)
    } else {
        lookup(es.drop_last(), k)
    }
}

/// A key looks up to nothing exactly when no entry carries it.
pub proof fn lemma_lookup_none(es: Seq<(Seq<char>, Seq<char>)>, k: Seq<char>)
    ensures
        lookup(es, k) is None <==> !has_key(es, k),
    decreases es.len(),
{
    if es.len() == 0 {
        assert(!has_key(es, k));
    } else if es.last().0 == k {
        assert(has_key(es, k));
    } else {
        let t = es.drop_last();
        lemma_lookup_none(t, k);
        if has_key(es, k) {
            let w = choose|i: int| 0 <= i < es.len() && es[i].0 == k;
            assert(w < es.len() - 1);
            assert(t[w].0 == k);
            assert(has_key(t, k));
        }
        if has_key(t, k) {
            let w = choose|i: int| 0 <= i < t.len() && t[i].0 == k;
            assert(es[w].0 == k);
            assert(has_key(es, k));
        }
    }
}

/// Looking a key up in a concatenation reads the right-hand part first.
proof fn lemma_lookup_concat(
    xs: Seq<(Seq<char>, Seq<char>)>,
    ys: Seq<(Seq<char>, Seq<char>)>,
    k: Seq<char>,
)
    ensures
        lookup(xs + ys, k) == if has_key(ys, k) {
            lookup(ys, k)
        } else {
            lookup(xs, k)
        },
    decreases ys.len(),
{
    lemma_lookup_none(ys, k);
    if ys.len() == 0 {
        assert(xs + ys =~= xs);
    } else {
        let t = ys.drop_last();
        assert((xs + ys).last() == ys.last());
        assert((xs + ys).drop_last() =~= xs + t);
        lemma_lookup_concat(xs, t, k);
        lemma_lookup_none(t, k);
        if ys.last().0 == k {
            assert(has_key(ys, k));
        } else {
            if has_key(ys, k) {
                let w = choose|i: int| 0 <= i < ys.len() && ys[i].0 == k;
                assert(w < ys.len() - 1);
                assert(t[w].0 == k);
                assert(has_key(t, k));
            }
            if has_key(t, k) {
                let w = choose|i: int| 0 <= i < t.len() && t[i].0 == k;
                assert(ys[w].0 == k);
                assert(has_key(ys, k));
            }
        }
    }
}

/// In the surviving entries a key looks up to nothing when `b` carries it,
/// and to its value in `a` otherwise.
proof fn lemma_lookup_surviving(
    a: Seq<(Seq<char>, Seq<char>)>,
    b: Seq<(Seq<char>, Seq<char>)>,
    k: Seq<char>,
)
    ensures
        lookup(surviving_entries(a, b), k) == if has_key(b, k) {
            None
        } else {
            lookup(a, k)
        },
    decreases a.len(),
{
    if a.len() == 0 {
    } else {
        let t = a.drop_last();
        lemma_lookup_surviving(t, b, k);
        if has_key(b, a.last().0) {
            if a.last().0 == k {
                assert(has_key(b, k));
            }
        } else {
            let s = surviving_entries(t, b).push(a.last());
            assert(s.last() == a.last());
            assert(s.drop_last() =~= surviving_entries(t, b));
        }
    }
}

/// Merging two objects is a shallow, right-biased union: under every key the
/// merged object holds the incoming object's value when it carries the key,
/// and the existing object's value otherwise. A key is present in the merge
/// exactly when either side carries it.
pub proof fn lemma_merge_objects_right_biased(
    a: Seq<(Seq<char>, Seq<char>)>,
    b: Seq<(Seq<char>, Seq<char>)>,
    k: Seq<char>,
)
    ensures
        ({
            let merged = surviving_entries(a, b) + b;
            &&& merge_view(JsonView::Object(a), JsonView::Object(b)) == Some(
                JsonView::Object(merged),
            )
            &&& lookup(merged, k) == if has_key(b, k) {
                lookup(b, k)
            } else {
                lookup(a, k)
            }
            &&& has_key(merged, k) <==> has_key(a, k) || has_key(b, k)
        }),
{
    let merged = surviving_entries(a, b) + b;
    lemma_lookup_concat(surviving_entries(a, b), b, k);
    lemma_lookup_surviving(a, b, k);
    lemma_lookup_none(merged, k);
    lemma_lookup_none(a, k);
    lemma_lookup_none(b, k);
}

/// Merging anything with an incoming null yields no value at all: the field
/// is cleared, whatever stood there.
pub proof fn lemma_merge_null_clears(a: JsonView)
    ensures
        merge_view(a, JsonView::Null) is None,
{
}

/// When the incoming value is not an object (and not null), or the existing
/// one is not an object, the merge is a full replacement by the incoming
/// value.
pub proof fn lemma_merge_replaces(a: JsonView, b: JsonView)
    requires
        !(a is Object && b is Object),
        !(b is Null),
    ensures
        merge_view(a, b) == Some(b),
{
}

/// The surviving entries of a well-formed entry sequence are well-formed.
proof fn lemma_surviving_entries_wf(
    a: Seq<(Seq<char>, Seq<char>)>,
    b: Seq<(Seq<char>, Seq<char>)>,
)
    requires
        wf_entries(a),
    ensures
        wf_entries(surviving_entries(a, b)),
    decreases a.len(),
{
    if a.len() > 0 {
        assert(forall|i: int| 0 <= i < a.len() - 1 ==> a.drop_last()[i] == a[i]);
        lemma_surviving_entries_wf(a.drop_last(), b);
    }
}

/// The canonical text of a JSON value: `"null"` for null, the object printed
/// from its entries for an object, the carried text otherwise.
pub open spec fn json_text(v: JsonView) -> Seq<char> {
    match v {
        JsonView::Null => "null"@,
        JsonView::Object(es) => obj_text(es),
        JsonView::Other(t) => t,
    }
}

/// Relies on serde_json: `from_str` decides whether the text is valid JSON
/// and what it parses to, and `Value`'s `to_string` prints the canonical text
/// of each member (and of a non-object, non-null value). Both depend on the
/// input text alone. Printed member texts are themselves valid JSON, since
/// serde_json prints values it can parse back.
#[verifier::external_body]
pub(crate) fn parse_json(s: &str) -> (r: Result<JsonValue, String>)
    ensures
        r is Ok <==> json_wf(s@),
        r matches Ok(v) ==> v@ == json_parsed(s@) && wf_json(v@),
{
    match serde_json::from_str::<serde_json::Value>(s) {
        Ok(serde_json::Value::Null) => Ok(JsonValue::Null),
        Ok(serde_json::Value::Object(m)) => Ok(
            JsonValue::Object(m.into_iter().map(|(k, v)| (k, v.to_string())).collect()),
        ),
        Ok(v) => Ok(JsonValue::Other(v.to_string())),
        Err(e) => Err(e.to_string()),
    }
}

/// Relies on serde_json: each entry's value text is parsed back with
/// `from_str` (which the precondition guarantees to succeed), the members are
/// collected into a `Map`, and `Value`'s `to_string` prints the object. The
/// result depends on the entries alone.
#[verifier::external_body]
fn obj_to_string(entries: &Vec<(String, String)>) -> (r: String)
    requires
        wf_entries(entries.deep_view()),
    ensures
        r@ == obj_text(entries.deep_view()),
{
    let mut m = serde_json::Map::new();
    for (k, v) in entries.iter() {
        let value: serde_json::Value = serde_json::from_str(v).unwrap();
        m.insert(k.clone(), value);
    }
    serde_json::Value::Object(m).to_string()
}

/// Print a JSON value back to its canonical text.
pub(crate) fn to_text(v: &JsonValue) -> (r: String)
    requires
        wf_json(v@),
    ensures
        r@ == json_text(v@),
{
    match v {
        JsonValue::Null => String::from_str("null"),
        JsonValue::Object(es) => obj_to_string(es),
        JsonValue::Other(t) => t.clone(),
    }
}

} // verus!
