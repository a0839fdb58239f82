use vstd::prelude::*;

verus! {

/// Position of the first `_` in `s`, or its length when it holds none.
pub open spec fn first_sep(s: Seq<char>) -> nat
    decreases s.len(),
{
    if s.len() == 0 {
        0
    } else if s[0] == '_' {
        0
    } else {
        1 + first_sep(s.drop_first())
    }
}

/// Whether `s` is a nonempty name part without `_`.
pub open spec fn is_part(s: Seq<char>) -> bool {
    s.len() > 0 && forall|k: int| 0 <= k < s.len() ==> s[k] != '_'
}

/// The document type and dataset that an index name
/// `{doc_type}_{dataset}_{timestamp}` holds: the parts before the first and
/// the second `_`, both nonempty.
pub open spec fn split_name(name: Seq<char>) -> Option<(Seq<char>, Seq<char>)> {
    let i = first_sep(name) as int;
    let rest = name.skip(i + 1);
    let j = first_sep(rest) as int;
    if 0 < i < name.len() && 0 < j < rest.len() {
        Some((name.take(i), rest.take(j)))
    } else {
        None
    }
}

/// The root name of a dataset's indices: `{doc_type}_{dataset}`.
pub open spec fn root_name(doc_type: Seq<char>, dataset: Seq<char>) -> Seq<char> {
    doc_type + "_"@ + dataset
}

/// The name of one version of a dataset's index: `{doc_type}_{dataset}_{timestamp}`.
pub open spec fn versioned_name(doc_type: Seq<char>, dataset: Seq<char>, timestamp: Seq<char>) -> Seq<char> {
    root_name(doc_type, dataset) + "_"@ + timestamp
}

proof fn lemma_first_sep(s: Seq<char>, i: int)
    requires
        0 <= i <= s.len(),
        forall|k: int| 0 <= k < i ==> s[k] != '_',
        i == s.len() || s[i] == '_',
    ensures
        first_sep(s) == i,
    decreases s.len(),
{
    if s.len() > 0 && i > 0 {
        lemma_first_sep(s.drop_first(), i - 1);
    }
}

/// Composing a name from a document type, a dataset and a timestamp, then
/// splitting it, gives back the document type and the dataset.
pub proof fn lemma_name_round_trip(doc_type: Seq<char>, dataset: Seq<char>, timestamp: Seq<char>)
    requires
        is_part(doc_type),
        is_part(dataset),
    ensures
        split_name(versioned_name(doc_type, dataset, timestamp)) == Some((doc_type, dataset)),
{
    reveal_strlit("_");
    let name = versioned_name(doc_type, dataset, timestamp);
    let i = doc_type.len() as int;
    assert(name[i] == '_');
    assert forall|k: int| 0 <= k < i implies name[k] != '_' by {
        assert(name[k] == doc_type[k]);
    }
    lemma_first_sep(name, i);
    let rest = name.skip(i + 1);
    let j = dataset.len() as int;
    assert(rest =~= dataset + "_"@ + timestamp);
    assert(rest[j] == '_');
    assert forall|k: int| 0 <= k < j implies rest[k] != '_' by {
        assert(rest[k] == dataset[k]);
    }
    lemma_first_sep(rest, j);
    assert(name.take(i) =~= doc_type);
    assert(rest.take(j) =~= dataset);
}

/// Position of the first `_` in `s` at or after `from`, or its length.
fn find_sep(s: &str, from: usize) -> (r: usize)
    requires
        from <= s@.len(),
    ensures
        from <= r <= s@.len(),
        forall|k: int| from <= k < r ==> s@[k] != '_',
        r < s@.len() ==> s@[r as int] == '_',
{
    let n = s.unicode_len();
    let mut i = from;
    while i < n
        invariant
            n == s@.len(),
            from <= i <= n,
            forall|k: int| from <= k < i ==> s@[k] != '_',
        decreases n - i,
    {
        if s.get_char(i) == '_' {
            return i;
        }
        i = i + 1;
    }
    i
}

/// Splits an index name into its document type and dataset.
pub fn split_index_name(name: &str) -> (r: Option<(String, String)>)
    ensures
        r matches Some(p) ==> split_name(name@) == Some((p.0@, p.1@)),
        r is None ==> split_name(name@) is None,
{
    let ghost s = name@;
    let n = name.unicode_len();
    let i = find_sep(name, 0);
    proof {
        lemma_first_sep(s, i as int);
    }
    if i == 0 || i >= n {
        return None;
    }
    let j = find_sep(name, i + 1);
    let ghost rest = s.skip(i + 1);
    proof {
        assert forall|k: int| 0 <= k < j - (i + 1) implies rest[k] != '_' by {
            assert(rest[k] == s[k + i + 1]);
        }
        if j < n {
            assert(rest[j - (i + 1)] == s[j as int]);
        }
        lemma_first_sep(rest, j - (i + 1));
    }
    if j == i + 1 || j >= n {
        return None;
    }
    let doc_type = name.substring_char(0, i);
    let dataset = name.substring_char(i + 1, j);
    proof {
        assert(rest.take(j - (i + 1)) =~= s.subrange(i + 1, j as int));
    }
    Some((String::from_str(doc_type), String::from_str(dataset)))
}

/// The root name `{doc_type}_{dataset}` of a dataset's indices.
pub fn root_doctype_dataset(doc_type: &str, dataset: &str) -> (r: String)
    ensures
        r@ == root_name(doc_type@, dataset@),
{
    let mut r = String::from_str(doc_type);
    r.append("_");
    r.append(dataset);
    r
}

/// The name `{doc_type}_{dataset}_{timestamp}` of one version of a dataset's index.
pub fn index_name(doc_type: &str, dataset: &str, timestamp: &str) -> (r: String)
    ensures
        r@ == versioned_name(doc_type@, dataset@, timestamp@),
{
    let mut r = root_doctype_dataset(doc_type, dataset);
    r.append("_");
    r.append(timestamp);
    r
}

/// The pattern `{root}_*` that matches every version of the indices under
/// `root`, and no index whose root merely begins with `root`.
pub fn versions_pattern(root: &str) -> (r: String)
    ensures
        r@ == root@ + "_*"@,
{
    let mut r = String::from_str(root);
    r.append("_*");
    r
}

} // verus!
