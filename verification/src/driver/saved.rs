//! A saved table as text: what a snapshot writes to a file and a rollback reads
//! back from one. The text is a JSON object of words by field name.

use super::restore::{
    law_saved_fields_can_be_put_back, saved_fields, snapshot_fields, FieldValue, Restore,
    RestorePhase,
};
use crate::regs::Named;
use vstd::prelude::*;

verus! {

/// The fields in a text, by name: what `serde_json::from_str` makes of it as a
/// `BTreeMap<String, u16>`, in the map's order. Nothing where it makes none.
pub uninterp spec fn saved_table(text: Seq<char>) -> Option<Seq<(Seq<char>, u16)>>;

/// The text of a list of fields: what `serde_json::to_string_pretty` makes of
/// them as a `BTreeMap<&str, u16>`, where the last word of a name counts.
pub uninterp spec fn table_text(fields: Seq<(Seq<char>, u16)>) -> Seq<char>;

/// Fields as names and words.
pub open spec fn pairs(fields: Seq<FieldValue>) -> Seq<(Seq<char>, u16)> {
    fields.map_values(|f: FieldValue| (f.name@, f.raw))
}

/// Name order: by the first character in which the two differ, a name before
/// every longer one that it begins.
pub open spec fn precedes(a: Seq<char>, b: Seq<char>) -> bool
    decreases a.len(),
{
    if b.len() == 0 {
        false
    } else if a.len() == 0 {
        true
    } else if a[0] == b[0] {
        precedes(a.skip(1), b.skip(1))
    } else {
        a[0] < b[0]
    }
}

/// In name order, no name twice.
pub open spec fn ascending(t: Seq<(Seq<char>, u16)>) -> bool {
    forall|i: int, j: int| 0 <= i < j < t.len() ==> precedes((#[trigger] t[i]).0, (#[trigger] t[j]).0)
}

/// The word of each name; of a name listed twice the last one counts.
pub open spec fn contents(t: Seq<(Seq<char>, u16)>) -> Map<Seq<char>, u16>
    decreases t.len(),
{
    if t.len() == 0 {
        Map::empty()
    } else {
        contents(t.drop_last()).insert(t.last().0, t.last().1)
    }
}

/// `serde_json::from_str` into a `BTreeMap<String, u16>`, its entries moved into
/// a list. Claimed: what comes back is a function of the text alone, nothing
/// exactly where the call reports an error, and the entries come in the order
/// of the map, which is that of its keys.
#[verifier::external_body]
fn read_table(text: &str) -> (r: Option<Vec<FieldValue>>)
    ensures
        match r {
            Some(v) => saved_table(text@) == Some(pairs(v@)) && ascending(pairs(v@)),
            None => saved_table(text@) is None,
        },
{
    match serde_json::from_str::<std::collections::BTreeMap<String, u16>>(text) {
        Ok(map) => Some(map.into_iter().map(|(name, raw)| FieldValue { name, raw }).collect()),
        Err(_) => None,
    }
}

/// `serde_json::to_string_pretty` of a `BTreeMap<&str, u16>` made of the fields.
/// Claimed: it does not fail, as the keys are strings and neither they nor the
/// words refuse to be written; the text is a function of the fields alone; and
/// reading it gives the same map back. What the text looks like is left unsaid.
#[verifier::external_body]
fn write_table(fields: &Vec<FieldValue>) -> (r: Option<String>)
    ensures
        r is Some,
        r->0@ == table_text(pairs(fields@)),
        saved_table(r->0@) is Some,
        ascending(saved_table(r->0@)->0),
        contents(saved_table(r->0@)->0) == contents(pairs(fields@)),
{
    let map: std::collections::BTreeMap<&str, u16> =
        fields.iter().map(|f| (f.name.as_str(), f.raw)).collect();
    serde_json::to_string_pretty(&map).ok()
}

/// Begin to put a saved table back: every field of the text, in name order, each
/// written and read back before the next. Nothing where the text is no table.
pub fn rollback(text: &str) -> (r: Option<Restore>)
    ensures
        r is Some <==> saved_table(text@) is Some,
        r matches Some(x) ==> {
            &&& x.wf()
            &&& x.at == 0
            &&& x.phase == RestorePhase::Write
            &&& saved_table(text@) == Some(pairs(x.fields@))
            &&& ascending(pairs(x.fields@))
        },
{
    match read_table(text) {
        Some(fields) => Some(Restore::new(fields)),
        None => None,
    }
}

/// What a snapshot holds: each saved field with the word that was read there.
pub open spec fn taken(values: Seq<u16>) -> Seq<(Seq<char>, u16)> {
    Seq::new(saved_fields().len(), |i: int| (saved_fields()[i].0, values[i]))
}

/// The text of a snapshot, from the words of the saved fields in their order.
/// Read back, it holds every saved field with its word, and nothing else.
pub fn snapshot_text(values: &Vec<u16>) -> (r: Option<String>)
    ensures
        r is Some <==> values@.len() == saved_fields().len(),
        r matches Some(text) ==> {
            &&& text@ == table_text(taken(values@))
            &&& saved_table(text@) matches Some(t) && restores(t, values@)
        },
{
    let named: Vec<Named> = snapshot_fields();
    if values.len() != named.len() {
        return None;
    }
    let mut fields: Vec<FieldValue> = Vec::new();
    let mut i: usize = 0;
    while i < named.len()
        invariant
            named@.len() == saved_fields().len(),
            values@.len() == named@.len(),
            i <= named@.len(),
            fields@.len() == i,
            forall|k: int|
                0 <= k < named@.len() ==> (named@[k].name@, (#[trigger] named@[k]).reg)
                    == saved_fields()[k],
            forall|k: int|
                0 <= k < i ==> (#[trigger] fields@[k]).name@ == saved_fields()[k].0 && fields@[k].raw
                    == values@[k],
        decreases named@.len() - i,
    {
        assert((named@[i as int].name@, named@[i as int].reg) == saved_fields()[i as int]);
        fields.push(FieldValue { name: named[i].name.to_owned(), raw: values[i] });
        i = i + 1;
    }
    assert(pairs(fields@) =~= taken(values@));
    let text: Option<String> = write_table(&fields);
    proof {
        law_snapshot_restores(values@, saved_table(text->0@)->0);
    }
    text
}

/// A table puts back what a snapshot saved: it has one entry per saved field,
/// each saved field is in it with its word, and nothing else is.
pub open spec fn restores(t: Seq<(Seq<char>, u16)>, values: Seq<u16>) -> bool {
    &&& t.len() == saved_fields().len()
    &&& ascending(t)
    &&& forall|i: int|
        0 <= i < saved_fields().len() ==> t.contains((#[trigger] saved_fields()[i].0, values[i]))
    &&& forall|k: int| 0 <= k < t.len() ==> is_taken(#[trigger] t[k], values)
}

/// An entry is one of a snapshot's.
pub open spec fn is_taken(e: (Seq<char>, u16), values: Seq<u16>) -> bool {
    exists|i: int| 0 <= i < saved_fields().len() && e == (#[trigger] saved_fields()[i].0, values[i])
}

/// No name twice.
spec fn distinct(t: Seq<(Seq<char>, u16)>) -> bool {
    forall|i: int, j: int| 0 <= i < j < t.len() ==> (#[trigger] t[i]).0 != (#[trigger] t[j]).0
}

proof fn lemma_precedes_irreflexive(a: Seq<char>)
    ensures
        !precedes(a, a),
    decreases a.len(),
{
    if a.len() > 0 {
        lemma_precedes_irreflexive(a.skip(1));
    }
}

proof fn lemma_ascending_distinct(t: Seq<(Seq<char>, u16)>)
    requires
        ascending(t),
    ensures
        distinct(t),
{
    assert forall|i: int, j: int| 0 <= i < j < t.len() implies (#[trigger] t[i]).0 != (
    #[trigger] t[j]).0 by {
        lemma_precedes_irreflexive(t[i].0);
    }
}

/// The contents of a list without doubles are its entries.
proof fn lemma_contents(t: Seq<(Seq<char>, u16)>)
    requires
        distinct(t),
    ensures
        contents(t).dom().finite(),
        contents(t).dom().len() == t.len(),
        forall|n: Seq<char>|
            #[trigger] contents(t).dom().contains(n) ==> t.contains((n, contents(t)[n])),
        forall|k: int|
            0 <= k < t.len() ==> contents(t).dom().contains((#[trigger] t[k]).0) && contents(t)[t[k].0]
                == t[k].1,
    decreases t.len(),
{
    if t.len() > 0 {
        let b = t.drop_last();
        assert forall|i: int, j: int| 0 <= i < j < b.len() implies (#[trigger] b[i]).0 != (
        #[trigger] b[j]).0 by {
            assert(t[i].0 != t[j].0);
        }
        lemma_contents(b);
        let last = t.last();
        if contents(b).dom().contains(last.0) {
            let k = choose|k: int| 0 <= k < b.len() && b[k] == (last.0, contents(b)[last.0]);
            assert(t[k].0 != t[t.len() - 1].0);
        }
        assert(contents(t).dom() =~= contents(b).dom().insert(last.0));
        assert forall|n: Seq<char>| #[trigger] contents(t).dom().contains(n) implies t.contains(
            (n, contents(t)[n]),
        ) by {
            if n == last.0 {
                assert(t[t.len() - 1] == last);
            } else {
                let k = choose|k: int| 0 <= k < b.len() && b[k] == (n, contents(b)[n]);
                assert(t[k] == b[k]);
            }
        }
        assert forall|k: int| 0 <= k < t.len() implies contents(t).dom().contains(
            (#[trigger] t[k]).0,
        ) && contents(t)[t[k].0] == t[k].1 by {
            if k < b.len() {
                assert(t[k] == b[k]);
                assert(t[k].0 != t[t.len() - 1].0);
            }
        }
    } else {
        assert(contents(t).dom() =~= Set::empty());
    }
}

/// The saved fields go by different names.
proof fn lemma_saved_names_differ(i: int, j: int)
    requires
        0 <= i < j < saved_fields().len(),
    ensures
        saved_fields()[i].0 != saved_fields()[j].0,
{
    law_saved_fields_can_be_put_back(i);
    law_saved_fields_can_be_put_back(j);
    assert(saved_fields()[i].1 != saved_fields()[j].1);
}

/// A table with the contents of a snapshot holds every saved field with its word,
/// and nothing else.
pub proof fn law_snapshot_restores(values: Seq<u16>, t: Seq<(Seq<char>, u16)>)
    requires
        ascending(t),
        contents(t) == contents(taken(values)),
    ensures
        restores(t, values),
{
    let s = taken(values);
    assert forall|i: int, j: int| 0 <= i < j < s.len() implies (#[trigger] s[i]).0 != (
    #[trigger] s[j]).0 by {
        lemma_saved_names_differ(i, j);
    }
    lemma_ascending_distinct(t);
    lemma_contents(t);
    lemma_contents(s);
    assert forall|i: int| 0 <= i < saved_fields().len() implies t.contains(
        (#[trigger] saved_fields()[i].0, values[i]),
    ) by {
        assert(s[i] == (saved_fields()[i].0, values[i]));
        assert(contents(t).dom().contains(s[i].0));
    }
    assert forall|k: int| 0 <= k < t.len() implies is_taken(#[trigger] t[k], values) by {
        assert(contents(s).dom().contains(t[k].0));
        let i = choose|i: int| 0 <= i < s.len() && s[i] == (t[k].0, contents(s)[t[k].0]);
        assert(t[k] == (saved_fields()[i].0, values[i]));
    }
}

/// Rolling a snapshot back writes to each field the word that was saved of it, in
/// the register it was read from: no field of it is unknown.
pub proof fn law_rollback_puts_back(r: Restore, values: Seq<u16>)
    requires
        restores(pairs(r.fields@), values),
        r.at < r.fields@.len(),
    ensures
        exists|i: int|
            0 <= i < saved_fields().len() && r.target() == Some((#[trigger] saved_fields()[i]).1)
                && r.raw() == values[i],
{
    let t = pairs(r.fields@);
    let k = r.at as int;
    assert(t[k] == (r.fields@[k].name@, r.fields@[k].raw));
    assert(is_taken(t[k], values));
    let i = choose|i: int|
        0 <= i < saved_fields().len() && t[k] == (#[trigger] saved_fields()[i].0, values[i]);
    law_saved_fields_can_be_put_back(i);
    assert(r.target() == Some(saved_fields()[i].1) && r.raw() == values[i]);
}

} // verus!
