use vstd::prelude::*;

verus! {

/// Whether two strings hold the same characters.
pub fn same_text(a: &str, b: &str) -> (r: bool)
    ensures
        r == (a@ == b@),
{
    let n = a.unicode_len();
    if n != b.unicode_len() {
        return false;
    }
    let mut i: usize = 0;
    while i < n
        invariant
            n == a@.len(),
            n == b@.len(),
            i <= n,
            forall|j: int| 0 <= j < i ==> a@[j] == b@[j],
        decreases n - i,
    {
        if a.get_char(i) != b.get_char(i) {
            return false;
        }
        i = i + 1;
    }
    assert(a@ =~= b@);
    true
}

/// Whether `text` begins with `prefix`.
pub fn has_prefix(text: &str, prefix: &str) -> (r: bool)
    ensures
        r == (prefix@.len() <= text@.len() && text@.subrange(0, prefix@.len() as int) == prefix@),
{
    let n = prefix.unicode_len();
    if n > text.unicode_len() {
        return false;
    }
    let mut i: usize = 0;
    while i < n
        invariant
            n == prefix@.len(),
            n <= text@.len(),
            i <= n,
            forall|j: int| 0 <= j < i ==> text@[j] == prefix@[j],
        decreases n - i,
    {
        if text.get_char(i) != prefix.get_char(i) {
            assert(text@.subrange(0, n as int)[i as int] != prefix@[i as int]);
            return false;
        }
        i = i + 1;
    }
    assert(text@.subrange(0, n as int) =~= prefix@);
    true
}

/// Whether `a` comes before `b` in the order of `String`: they agree up to a
/// position where `a` ends and `b` goes on, or where `a` has the smaller
/// character.
pub open spec fn text_less(a: Seq<char>, b: Seq<char>) -> bool {
    exists|i: int| #[trigger] differ_at(a, b, i)
}

/// Whether `a` and `b` agree before position `i` and `a` is smaller there.
pub open spec fn differ_at(a: Seq<char>, b: Seq<char>, i: int) -> bool {
    &&& 0 <= i <= a.len()
    &&& i < b.len()
    &&& a.take(i) == b.take(i)
    &&& (i == a.len() || (a[i] as u32) < (b[i] as u32))
}

/// No text comes before itself.
pub proof fn lemma_text_less_irreflexive(a: Seq<char>)
    ensures
        !text_less(a, a),
{
}

/// The order of texts is transitive.
pub proof fn lemma_text_less_transitive(a: Seq<char>, b: Seq<char>, c: Seq<char>)
    requires
        text_less(a, b),
        text_less(b, c),
    ensures
        text_less(a, c),
{
    let i = choose|i: int| differ_at(a, b, i);
    let j = choose|j: int| differ_at(b, c, j);
    if i < j {
        assert(b.take(i) == b.take(j).take(i));
        assert(c.take(i) == c.take(j).take(i));
        if i < a.len() {
            assert(b[i] == b.take(j)[i]);
            assert(c[i] == c.take(j)[i]);
        }
        assert(differ_at(a, c, i));
    } else if j < i {
        assert(a.take(j) == a.take(i).take(j));
        assert(b.take(j) == b.take(i).take(j));
        assert(a[j] == a.take(i)[j]);
        assert(b[j] == b.take(i)[j]);
        assert(differ_at(a, c, j));
    } else {
        assert(differ_at(a, c, i));
    }
}

/// Compares two texts in the order of `String`: negative when `a` comes
/// first, zero when they are equal, positive when `b` comes first.
pub fn compare_text(a: &str, b: &str) -> (r: i8)
    ensures
        r < 0 ==> text_less(a@, b@),
        r == 0 ==> a@ == b@,
        r > 0 ==> text_less(b@, a@),
{
    let n = a.unicode_len();
    let m = b.unicode_len();
    let mut i: usize = 0;
    while i < n && i < m
        invariant
            n == a@.len(),
            m == b@.len(),
            i <= n,
            i <= m,
            a@.take(i as int) == b@.take(i as int),
        decreases n - i,
    {
        let x = a.get_char(i);
        let y = b.get_char(i);
        if (x as u32) < (y as u32) {
            assert(differ_at(a@, b@, i as int));
            return -1;
        }
        if (y as u32) < (x as u32) {
            assert(differ_at(b@, a@, i as int));
            return 1;
        }
        assert(x == y);
        assert(a@.take(i + 1) =~= a@.take(i as int).push(x));
        assert(b@.take(i + 1) =~= b@.take(i as int).push(y));
        i = i + 1;
    }
    if n < m {
        assert(a@.take(n as int) =~= a@);
        assert(differ_at(a@, b@, n as int));
        -1
    } else if m < n {
        assert(b@.take(m as int) =~= b@);
        assert(differ_at(b@, a@, m as int));
        1
    } else {
        assert(a@ =~= a@.take(n as int));
        assert(b@ =~= b@.take(m as int));
        0
    }
}

} // verus!
