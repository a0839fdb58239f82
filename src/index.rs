use vstd::prelude::*;
use crate::error::{Error, ErrorModel};
use crate::naming::{split_index_name, split_name};

verus! {

/// Availability of an index.
#[derive(Debug, Clone, Copy, PartialEq, Eq, Structural)]
pub enum IndexStatus {
    Available,
}

/// A concrete, versioned index of the backend.
#[derive(Debug, Clone, PartialEq, Eq)]
pub struct Index {
    pub name: String,
    pub doc_type: String,
    pub dataset: String,
    pub docs_count: u32,
    pub status: IndexStatus,
}

/// One row of the backend's index listing.
#[derive(Debug, Clone, PartialEq)]
pub struct ElasticsearchIndex {
    pub health: String,
    pub status: String,
    pub name: String,
    pub docs_count: Option<String>,
    pub docs_deleted: Option<String>,
    pub pri: String,
    pub pri_store_size: Option<String>,
    pub rep: String,
    pub store_size: Option<String>,
    pub uuid: String,
}

/// Whether `c` is an ASCII decimal digit.
pub open spec fn is_digit(c: char) -> bool {
    '0' <= c && c <= '9'
}

/// Whether `s` is a nonempty run of decimal digits.
pub open spec fn is_decimal(s: Seq<char>) -> bool {
    s.len() > 0 && forall|k: int| 0 <= k < s.len() ==> is_digit(#[trigger] s[k])
}

/// The number that a run of decimal digits writes.
pub open spec fn decimal_value(s: Seq<char>) -> nat
    decreases s.len(),
{
    if s.len() == 0 {
        0
    } else {
        decimal_value(s.drop_last()) * 10 + (s.last() as nat - '0' as nat) as nat
    }
}

/// The digits of a number written with an optional leading `+`.
pub open spec fn unsigned_digits(s: Seq<char>) -> Seq<char> {
    if s.len() > 0 && s[0] == '+' {
        s.drop_first()
    } else {
        s
    }
}

/// The number that `s` writes in decimal, after an optional `+`, if it is
/// one that fits in a `u32`.
pub open spec fn decimal_u32(s: Seq<char>) -> Option<u32> {
    let d = unsigned_digits(s);
    if is_decimal(d) && decimal_value(d) <= u32::MAX {
        Some(decimal_value(d) as u32)
    } else {
        None
    }
}

proof fn lemma_decimal_grows(s: Seq<char>, i: int, j: int)
    requires
        0 <= i <= j <= s.len(),
        forall|k: int| 0 <= k < s.len() ==> is_digit(#[trigger] s[k]),
    ensures
        decimal_value(s.take(i)) <= decimal_value(s.take(j)),
    decreases j - i,
{
    if i < j {
        lemma_decimal_grows(s, i, j - 1);
        assert(s.take(j).drop_last() =~= s.take(j - 1));
    }
}

/// Reads a decimal number that fits in a `u32`, written with an optional
/// leading `+`.
pub fn parse_u32(s: &str) -> (r: Option<u32>)
    ensures
        r == decimal_u32(s@),
{
    let n = s.unicode_len();
    if n > 0 && s.get_char(0) == '+' {
        let digits = s.substring_char(1, n);
        assert(digits@ =~= s@.drop_first());
        parse_digits(digits)
    } else {
        parse_digits(s)
    }
}

/// Reads a run of decimal digits whose number fits in a `u32`.
fn parse_digits(s: &str) -> (r: Option<u32>)
    ensures
        r == (if is_decimal(s@) && decimal_value(s@) <= u32::MAX {
            Some(decimal_value(s@) as u32)
        } else {
            None
        }),
{
    let n = s.unicode_len();
    if n == 0 {
        return None;
    }
    let mut i: usize = 0;
    while i < n
        invariant
            n == s@.len(),
            i <= n,
            forall|k: int| 0 <= k < i ==> is_digit(#[trigger] s@[k]),
        decreases n - i,
    {
        let c = s.get_char(i);
        if !('0' <= c && c <= '9') {
            return None;
        }
        i = i + 1;
    }
    let mut value: u64 = 0;
    let mut i: usize = 0;
    assert(s@.take(0) =~= Seq::<char>::empty());
    while i < n
        invariant
            n == s@.len(),
            i <= n,
            is_decimal(s@),
            value == decimal_value(s@.take(i as int)),
            value <= u32::MAX,
        decreases n - i,
    {
        let c = s.get_char(i);
        assert(s@.take(i + 1).drop_last() =~= s@.take(i as int));
        assert(is_digit(s@[i as int]));
        let d = (c as u32 - '0' as u32) as u64;
        value = value * 10 + d;
        if value > u32::MAX as u64 {
            proof {
                lemma_decimal_grows(s@, i + 1, n as int);
                assert(s@.take(n as int) =~= s@);
            }
            return None;
        }
        i = i + 1;
    }
    assert(s@.take(n as int) =~= s@);
    Some(value as u32)
}

/// The document count of a listing row: none given is zero.
pub open spec fn row_count(docs_count: Option<String>) -> Option<u32> {
    match docs_count {
        Some(text) => decimal_u32(text@),
        None => Some(0),
    }
}

/// The outcome of reading a listing row as an index: it fails exactly when
/// the name does not split or the document count is not a `u32`, and then
/// says which; on success it keeps the name, its parts and the count.
pub open spec fn converts_to(row: ElasticsearchIndex, r: Result<Index, Error>) -> bool {
    match r {
        Ok(ix) => {
            &&& ix.name@ == row.name@
            &&& split_name(row.name@) == Some((ix.doc_type@, ix.dataset@))
            &&& row_count(row.docs_count) == Some(ix.docs_count)
            &&& ix.status == IndexStatus::Available
        },
        Err(e) => if split_name(row.name@) is None {
            e@ == ErrorModel::IndexConversion {
                details: "could not convert elasticsearch index into model index: "@ + row.name@,
            }
        } else {
            &&& row_count(row.docs_count) is None
            &&& e@ == ErrorModel::IndexConversion {
                details: "invalid document count for index "@ + row.name@,
            }
        },
    }
}

/// The outcome of reading a filtered listing: nothing when it has no row,
/// else the outcome of reading its last row.
pub open spec fn reads_listing(rows: Seq<ElasticsearchIndex>, r: Result<Option<Index>, Error>) -> bool {
    if rows.len() == 0 {
        r matches Ok(None)
    } else {
        match r {
            Ok(Some(ix)) => converts_to(rows.last(), Ok(ix)),
            Ok(None) => false,
            Err(e) => converts_to(rows.last(), Err(e)),
        }
    }
}

impl IndexStatus {
    /// The status for a health value of the backend: every value means the
    /// index is available.
    pub fn from(status: String) -> (r: IndexStatus)
        ensures
            r == IndexStatus::Available,
    {
        IndexStatus::Available
    }
}

impl Index {
    /// Builds an index from a row of the backend's listing, reading the
    /// document type and dataset out of its name.
    pub fn try_from(index: ElasticsearchIndex) -> (r: Result<Index, Error>)
        ensures
            converts_to(index, r),
    {
        let ElasticsearchIndex { name, docs_count, status, .. } = index;
        let (doc_type, dataset) = match split_index_name(name.as_str()) {
            Some(parts) => parts,
            None => {
                let mut details = String::from_str("could not convert elasticsearch index into model index: ");
                details.append(name.as_str());
                return Err(Error::IndexConversion { details });
            },
        };
        let docs_count = match docs_count {
            Some(text) => match parse_u32(text.as_str()) {
                Some(v) => v,
                None => {
                    let mut details = String::from_str("invalid document count for index ");
                    details.append(name.as_str());
                    return Err(Error::IndexConversion { details });
                },
            },
            None => 0,
        };
        Ok(Index { name, doc_type, dataset, docs_count, status: IndexStatus::from(status) })
    }
}

/// The index that a filtered listing returns: the last row, if any.
pub fn index_from_rows(rows: Vec<ElasticsearchIndex>) -> (r: Result<Option<Index>, Error>)
    ensures
        reads_listing(rows@, r),
{
    let mut rows = rows;
    match rows.pop() {
        Some(row) => match Index::try_from(row) {
            Ok(ix) => Ok(Some(ix)),
            Err(e) => Err(e),
        },
        None => Ok(None),
    }
}

} // verus!
