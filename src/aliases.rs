use vstd::prelude::*;
use crate::error::{Error, ErrorModel};
use crate::index::Index;
use crate::json::{field, find_member, Json};
use crate::naming::{root_doctype_dataset, root_name};
use crate::text::{
    compare_text, has_prefix, lemma_text_less_irreflexive, lemma_text_less_transitive, same_text, text_less,
};

verus! {

/// The characters of each string.
pub open spec fn names(v: Seq<String>) -> Seq<Seq<char>> {
    v.map_values(|s: String| s@)
}

/// The alias names of one index in an alias listing: the member names of its
/// `aliases` object.
pub open spec fn alias_names(value: Json) -> Option<Seq<Seq<char>>> {
    match field(value, "aliases"@) {
        Some(Json::Object(members)) => Some(members@.map_values(|m: (String, Json)| m.0@)),
        _ => None,
    }
}

/// The alias names that the value of `o` gives, if any.
pub open spec fn alias_names_of(o: Option<Json>) -> Option<Seq<Seq<char>>> {
    match o {
        Some(value) => alias_names(value),
        None => None,
    }
}

/// The value of the last member named `key`: the one that a map keeps.
pub open spec fn last_with(entries: Seq<(String, Json)>, key: Seq<char>) -> Option<Json>
    decreases entries.len(),
{
    if entries.len() == 0 {
        None
    } else if entries.last().0@ == key {
        Some(entries.last().1)
    } else {
        last_with(entries.drop_last(), key)
    }
}

/// Whether the names of a listing come in strictly ascending order, so each
/// comes once.
pub open spec fn keys_ascending(v: Seq<(String, Vec<String>)>) -> bool {
    forall|p: int, q: int| 0 <= p < q < v.len() ==> text_less(#[trigger] v[p].0@, #[trigger] v[q].0@)
}

/// Whether `key` is one of the names of a listing.
pub open spec fn has_key(v: Seq<(String, Vec<String>)>, key: Seq<char>) -> bool {
    exists|p: int| 0 <= p < v.len() && #[trigger] v[p].0@ == key
}

/// Whether `result` maps each index of an alias listing to its alias names,
/// as a map keyed by index name would: each index once, in ascending order,
/// with the aliases of its last member.
pub open spec fn lists_aliases(
    entries: Seq<(String, Json)>,
    result: Seq<(String, Vec<String>)>,
) -> bool {
    &&& keys_ascending(result)
    &&& forall|p: int|
        0 <= p < result.len() ==> alias_names_of(last_with(entries, (#[trigger] result[p]).0@)) == Some(
            names(result[p].1@),
        )
    &&& forall|j: int| 0 <= j < entries.len() ==> has_key(result, (#[trigger] entries[j]).0@)
}

/// The outcome of reading an alias listing: the alias names of every index
/// when each has an `aliases` object, else which expectation failed.
pub open spec fn reads_aliases(json: Json, r: Result<Vec<(String, Vec<String>)>, Error>) -> bool {
    match json {
        Json::Object(entries) => match r {
            Ok(v) => lists_aliases(entries@, v@),
            Err(e) => {
                &&& exists|i: int| 0 <= i < entries@.len() && (#[trigger] alias_names(entries@[i].1)) is None
                &&& e@ == ErrorModel::JsonDeserializationInvalid { details: "expected aliases object"@ }
            },
        },
        _ => match r {
            Ok(_) => false,
            Err(e) => e@ == ErrorModel::JsonDeserializationInvalid { details: "expected JSON object"@ },
        },
    }
}

/// Where `key` stands in an ascending listing: the position of the first
/// name that does not come before it, and whether that name is `key`.
fn slot(out: &Vec<(String, Vec<String>)>, key: &str) -> (r: (usize, bool))
    ensures
        r.0 <= out@.len(),
        forall|q: int| 0 <= q < r.0 ==> text_less(#[trigger] out@[q].0@, key@),
        r.1 ==> r.0 < out@.len() && out@[r.0 as int].0@ == key@,
        !r.1 && r.0 < out@.len() ==> text_less(key@, out@[r.0 as int].0@),
{
    let mut p: usize = 0;
    while p < out.len()
        invariant
            p <= out@.len(),
            forall|q: int| 0 <= q < p ==> text_less(#[trigger] out@[q].0@, key@),
        decreases out.len() - p,
    {
        let c = compare_text(out[p].0.as_str(), key);
        if c == 0 {
            return (p, true);
        }
        if c > 0 {
            return (p, false);
        }
        p = p + 1;
    }
    (p, false)
}

/// The member names of an object's members.
fn member_names(members: &Vec<(String, Json)>) -> (r: Vec<String>)
    ensures
        names(r@) == members@.map_values(|m: (String, Json)| m.0@),
{
    let mut out: Vec<String> = Vec::new();
    let mut i: usize = 0;
    while i < members.len()
        invariant
            i <= members@.len(),
            names(out@) =~= members@.take(i as int).map_values(|m: (String, Json)| m.0@),
        decreases members.len() - i,
    {
        let ghost before = out@;
        out.push(members[i].0.clone());
        assert(names(out@) =~= names(before).push(members@[i as int].0@));
        assert(members@.take(i + 1).map_values(|m: (String, Json)| m.0@) =~= members@.take(
            i as int,
        ).map_values(|m: (String, Json)| m.0@).push(members@[i as int].0@));
        i = i + 1;
    }
    assert(members@.take(i as int) =~= members@);
    out
}

/// Reads an alias listing `{index: {"aliases": {alias: {}, ...}}, ...}` into
/// the alias names of each index, in the listing's order.
pub fn aliases_from_json(json: &Json) -> (r: Result<Vec<(String, Vec<String>)>, Error>)
    ensures
        reads_aliases(*json, r),
{
    let entries = match json {
        Json::Object(entries) => entries,
        _ => {
            return Err(Error::JsonDeserializationInvalid { details: String::from_str("expected JSON object") });
        },
    };
    let mut out: Vec<(String, Vec<String>)> = Vec::new();
    let mut i: usize = 0;
    while i < entries.len()
        invariant
            *json == Json::Object(*entries),
            i <= entries@.len(),
            lists_aliases(entries@.take(i as int), out@),
            forall|k: int| 0 <= k < i ==> (#[trigger] alias_names(entries@[k].1)) is Some,
        decreases entries.len() - i,
    {
        let (key, value) = (&entries[i].0, &entries[i].1);
        let members = match value {
            Json::Object(fields) => match find_member(fields, "aliases") {
                Some(Json::Object(members)) => members,
                _ => {
                    assert(alias_names(entries@[i as int].1) is None);
                    return Err(Error::JsonDeserializationInvalid { details: String::from_str("expected aliases object") });
                },
            },
            _ => {
                assert(alias_names(entries@[i as int].1) is None);
                return Err(Error::JsonDeserializationInvalid { details: String::from_str("expected aliases object") });
            },
        };
        let aliases = member_names(members);
        let ghost before = out@;
        let ghost seen = entries@.take(i as int);
        let ghost now = entries@.take(i + 1);
        let ghost k = key@;
        assert(now.drop_last() =~= seen);
        assert(now.last() == entries@[i as int]);
        assert(alias_names_of(last_with(now, k)) == Some(names(aliases@)));
        let (p, found) = slot(&out, key.as_str());
        proof {
            // no name of the listing so far is `key`, but the one at `p` when found
            assert forall|q: int| 0 <= q < before.len() && q != p implies before[q].0@ != k by {
                if q < p {
                    lemma_text_less_irreflexive(k);
                } else if p < before.len() {
                    if found {
                        if before[q].0@ == k {
                            assert(text_less(before[p as int].0@, before[q].0@));
                            lemma_text_less_irreflexive(k);
                        }
                    } else if before[q].0@ == k {
                        lemma_text_less_transitive(k, before[p as int].0@, k);
                        lemma_text_less_irreflexive(k);
                    }
                }
            }
            if !found && p < before.len() {
                assert(before[p as int].0@ != k) by {
                    lemma_text_less_irreflexive(k);
                }
            }
        }
        if found {
            out.set(p, (key.clone(), aliases));
            proof {
                assert forall|a: int, b: int| 0 <= a < b < out@.len() implies text_less(
                    #[trigger] out@[a].0@,
                    #[trigger] out@[b].0@,
                ) by {
                    assert(out@[a].0@ == before[a].0@);
                    assert(out@[b].0@ == before[b].0@);
                }
                assert forall|q: int| 0 <= q < out@.len() implies alias_names_of(
                    last_with(now, (#[trigger] out@[q]).0@),
                ) == Some(names(out@[q].1@)) by {
                    if q != p {
                        assert(out@[q] == before[q]);
                    }
                }
                assert forall|j: int| 0 <= j < now.len() implies has_key(out@, (#[trigger] now[j]).0@) by {
                    if j < i {
                        assert(now[j] == seen[j]);
                        assert(has_key(before, seen[j].0@));
                        let w = choose|w: int| 0 <= w < before.len() && #[trigger] before[w].0@ == seen[j].0@;
                        assert(out@[w].0@ == before[w].0@);
                    } else {
                        assert(out@[p as int].0@ == now[j].0@);
                    }
                }
            }
        } else {
            out.insert(p, (key.clone(), aliases));
            proof {
                assert forall|a: int, b: int| 0 <= a < b < out@.len() implies text_less(
                    #[trigger] out@[a].0@,
                    #[trigger] out@[b].0@,
                ) by {
                    if b < p {
                        assert(out@[a] == before[a] && out@[b] == before[b]);
                    } else if b == p {
                        assert(out@[a] == before[a]);
                    } else if a < p {
                        assert(out@[a] == before[a] && out@[b] == before[b - 1]);
                        lemma_text_less_transitive(before[a].0@, k, before[p as int].0@);
                        if b - 1 > p {
                            lemma_text_less_transitive(before[a].0@, before[p as int].0@, before[b - 1].0@);
                        }
                    } else if a == p {
                        assert(out@[b] == before[b - 1]);
                        if b - 1 > p {
                            lemma_text_less_transitive(k, before[p as int].0@, before[b - 1].0@);
                        }
                    } else {
                        assert(out@[a] == before[a - 1] && out@[b] == before[b - 1]);
                    }
                }
                assert forall|q: int| 0 <= q < out@.len() implies alias_names_of(
                    last_with(now, (#[trigger] out@[q]).0@),
                ) == Some(names(out@[q].1@)) by {
                    if q < p {
                        assert(out@[q] == before[q]);
                    } else if q > p {
                        assert(out@[q] == before[q - 1]);
                    }
                }
                assert forall|j: int| 0 <= j < now.len() implies has_key(out@, (#[trigger] now[j]).0@) by {
                    if j < i {
                        assert(now[j] == seen[j]);
                        assert(has_key(before, seen[j].0@));
                        let w = choose|w: int| 0 <= w < before.len() && #[trigger] before[w].0@ == seen[j].0@;
                        if w < p {
                            assert(out@[w] == before[w]);
                        } else {
                            assert(out@[w + 1] == before[w]);
                        }
                    } else {
                        assert(out@[p as int].0@ == now[j].0@);
                    }
                }
            }
        }
        i = i + 1;
    }
    assert(entries@.take(i as int) =~= entries@);
    Ok(out)
}

/// Whether `key` names an older version of the index `name`: another index
/// whose name begins with `prefix`.
pub open spec fn is_stale(key: Seq<char>, name: Seq<char>, prefix: Seq<char>) -> bool {
    key != name && prefix.len() <= key.len() && key.take(prefix.len() as int) == prefix
}

/// The indices of an alias listing that are older versions of `name`.
pub open spec fn stale(
    entries: Seq<(String, Vec<String>)>,
    name: Seq<char>,
    prefix: Seq<char>,
) -> Seq<Seq<char>>
    decreases entries.len(),
{
    if entries.len() == 0 {
        Seq::empty()
    } else {
        let rest = stale(entries.drop_last(), name, prefix);
        if is_stale(entries.last().0@, name, prefix) {
            rest.push(entries.last().0@)
        } else {
            rest
        }
    }
}

/// The prefix `{doc_type}_{dataset}_` shared by every version of an index.
pub open spec fn versions_prefix(index: Index) -> Seq<char> {
    root_name(index.doc_type@, index.dataset@) + "_"@
}

/// Whether names come in strictly ascending order, so each comes once.
pub open spec fn ascending(v: Seq<Seq<char>>) -> bool {
    forall|p: int, q: int| 0 <= p < q < v.len() ==> text_less(#[trigger] v[p], #[trigger] v[q])
}

/// The other versions of `index` among the indices of an alias listing, in
/// the listing's order: ascending, each once, when the listing's are.
pub fn previous_indices(aliases: &Vec<(String, Vec<String>)>, index: &Index) -> (r: Vec<String>)
    ensures
        names(r@) == stale(aliases@, index.name@, versions_prefix(*index)),
        keys_ascending(aliases@) ==> ascending(names(r@)),
{
    let mut prefix = root_doctype_dataset(index.doc_type.as_str(), index.dataset.as_str());
    prefix.append("_");
    let ghost p = versions_prefix(*index);
    let mut out: Vec<String> = Vec::new();
    let ghost mut from: Seq<int> = Seq::empty();
    let mut i: usize = 0;
    while i < aliases.len()
        invariant
            prefix@ == p,
            p == versions_prefix(*index),
            i <= aliases@.len(),
            names(out@) == stale(aliases@.take(i as int), index.name@, p),
            from.len() == out@.len(),
            forall|q: int| 0 <= q < from.len() ==> 0 <= #[trigger] from[q] < i && out@[q]@ == aliases@[from[q]].0@,
            keys_ascending(aliases@) ==> ascending(names(out@)),
        decreases aliases.len() - i,
    {
        let key = &aliases[i].0;
        assert(aliases@.take(i + 1).drop_last() =~= aliases@.take(i as int));
        if !same_text(key.as_str(), index.name.as_str()) && has_prefix(key.as_str(), prefix.as_str()) {
            let ghost before = out@;
            out.push(key.clone());
            proof {
                from = from.push(i as int);
                assert(names(out@) =~= names(before).push(key@));
                if keys_ascending(aliases@) {
                    assert forall|a: int, b: int| 0 <= a < b < names(out@).len() implies text_less(
                        #[trigger] names(out@)[a],
                        #[trigger] names(out@)[b],
                    ) by {
                        if b == before.len() {
                            assert(text_less(aliases@[from[a]].0@, aliases@[i as int].0@));
                        } else {
                            assert(names(before)[a] == names(out@)[a]);
                            assert(names(before)[b] == names(out@)[b]);
                        }
                    }
                }
            }
        }
        i = i + 1;
    }
    assert(aliases@.take(i as int) =~= aliases@);
    out
}

/// The older versions of an index never include the index itself, and only
/// include indices of the same document type and dataset: the name of each
/// begins with `{doc_type}_{dataset}_`, so that the dataset `fr` never
/// reaches an index of the dataset `fr-ne`.
pub proof fn lemma_previous_indices_scope(aliases: Seq<(String, Vec<String>)>, index: Index)
    ensures
        forall|k: int|
            0 <= k < stale(aliases, index.name@, versions_prefix(index)).len() ==> {
                let key = #[trigger] stale(aliases, index.name@, versions_prefix(index))[k];
                &&& key != index.name@
                &&& versions_prefix(index).len() <= key.len()
                &&& key.take(versions_prefix(index).len() as int) == versions_prefix(index)
            },
    decreases aliases.len(),
{
    if aliases.len() > 0 {
        lemma_previous_indices_scope(aliases.drop_last(), index);
        let rest = stale(aliases.drop_last(), index.name@, versions_prefix(index));
        let all = stale(aliases, index.name@, versions_prefix(index));
        assert forall|k: int| 0 <= k < all.len() implies {
            let key = #[trigger] all[k];
            &&& key != index.name@
            &&& versions_prefix(index).len() <= key.len()
            &&& key.take(versions_prefix(index).len() as int) == versions_prefix(index)
        } by {
            if k < rest.len() {
                assert(all[k] == rest[k]);
            }
        }
    }
}

} // verus!
