use vstd::prelude::*;

verus! {

/// The character sequences of a list of strings.
pub open spec fn views(v: Seq<String>) -> Seq<Seq<char>> {
    v.map_values(|s: String| s@)
}

/// The items of `list` with `sep` between each two neighbours.
pub open spec fn joined(list: Seq<Seq<char>>, sep: Seq<char>) -> Seq<char>
    decreases list.len(),
{
    if list.len() == 0 {
        Seq::empty()
    } else if list.len() == 1 {
        list[0]
    } else {
        joined(list.drop_last(), sep) + sep + list.last()
    }
}

/// `needle` occurs in `hay` as a contiguous run.
pub open spec fn occurs_in(needle: Seq<char>, hay: Seq<char>) -> bool {
    exists|i: int| 0 <= i && i + needle.len() <= hay.len() && #[trigger] hay.subrange(i, i + needle.len()) == needle
}

/// Whether `s` and `t` hold the same characters.
pub fn same_text(s: &str, t: &str) -> (r: bool)
    ensures
        r == (s@ == t@),
{
    let n = s.unicode_len();
    if n != t.unicode_len() {
        return false;
    }
    let mut i: usize = 0;
    while i < n
        invariant
            n == s@.len(),
            n == t@.len(),
            i <= n,
            forall|k: int| 0 <= k < i ==> s@[k] == t@[k],
        decreases n - i,
    {
        if s.get_char(i) != t.get_char(i) {
            return false;
        }
        i = i + 1;
    }
    assert(s@ =~= t@);
    true
}

/// A separator between path components.
pub open spec fn is_separator(c: char) -> bool {
    c == '/' || c == '\\'
}

/// `seg` stands in `path` at `i` as a whole component: the path starts or a
/// separator comes right before it, and the path ends or a separator comes
/// right after it.
pub open spec fn segment_at(seg: Seq<char>, path: Seq<char>, i: int) -> bool {
    &&& 0 <= i && i + seg.len() <= path.len()
    &&& path.subrange(i, i + seg.len()) == seg
    &&& (i == 0 || is_separator(path[i - 1]))
    &&& (i + seg.len() == path.len() || is_separator(path[i + seg.len()]))
}

/// One component of `path` is `seg`.
pub open spec fn has_segment(seg: Seq<char>, path: Seq<char>) -> bool {
    exists|i: int| #[trigger] segment_at(seg, path, i)
}

/// Whether `needle` stands in `hay` at `start`.
fn matches_at(hay: &str, needle: &str, start: usize) -> (r: bool)
    requires
        start + needle@.len() <= hay@.len(),
    ensures
        r == (hay@.subrange(start as int, start + needle@.len()) == needle@),
{
    let h = hay.unicode_len();
    let n = needle.unicode_len();
    let mut k: usize = 0;
    while k < n
        invariant
            h == hay@.len(),
            n == needle@.len(),
            start + n <= h,
            k <= n,
            forall|m: int| 0 <= m < k ==> hay@[start + m] == needle@[m],
        decreases n - k,
    {
        if hay.get_char(start + k) != needle.get_char(k) {
            assert(hay@.subrange(start as int, start + n)[k as int] != needle@[k as int]);
            return false;
        }
        k = k + 1;
    }
    assert(hay@.subrange(start as int, start + n) =~= needle@);
    true
}

/// Whether `c` separates path components.
fn is_separator_char(c: char) -> (r: bool)
    ensures
        r == is_separator(c),
{
    c == '/' || c == '\\'
}

/// Whether `needle` occurs in `hay`.
pub fn contains_text(hay: &str, needle: &str) -> (r: bool)
    ensures
        r == occurs_in(needle@, hay@),
{
    let h = hay.unicode_len();
    let n = needle.unicode_len();
    if n > h {
        return false;
    }
    let mut start: usize = 0;
    loop
        invariant
            h == hay@.len(),
            n == needle@.len(),
            n <= h,
            start <= h - n,
            forall|j: int| 0 <= j < start ==> #[trigger] hay@.subrange(j, j + n) != needle@,
        ensures
            forall|j: int| 0 <= j <= h - n ==> #[trigger] hay@.subrange(j, j + n) != needle@,
        decreases h - n - start,
    {
        if matches_at(hay, needle, start) {
            return true;
        }
        if start == h - n {
            break;
        }
        start = start + 1;
    }
    false
}

/// Whether one component of `path` is `seg`.
pub fn has_segment_text(path: &str, seg: &str) -> (r: bool)
    ensures
        r == has_segment(seg@, path@),
{
    let h = path.unicode_len();
    let n = seg.unicode_len();
    if n > h {
        assert forall|i: int| !#[trigger] segment_at(seg@, path@, i) by {}
        return false;
    }
    let mut start: usize = 0;
    loop
        invariant
            h == path@.len(),
            n == seg@.len(),
            n <= h,
            start <= h - n,
            forall|j: int| 0 <= j < start ==> !#[trigger] segment_at(seg@, path@, j),
        ensures
            forall|j: int| 0 <= j <= h - n ==> !#[trigger] segment_at(seg@, path@, j),
        decreases h - n - start,
    {
        let before = start == 0 || is_separator_char(path.get_char(start - 1));
        let after = start + n == h || is_separator_char(path.get_char(start + n));
        if before && after && matches_at(path, seg, start) {
            assert(segment_at(seg@, path@, start as int));
            return true;
        }
        if start == h - n {
            break;
        }
        start = start + 1;
    }
    assert forall|j: int| !#[trigger] segment_at(seg@, path@, j) by {
        if 0 <= j && j + n <= h {
            assert(j <= h - n);
        }
    }
    false
}

/// Whether any item of `list` holds the text `t`.
pub fn any_is(list: &Vec<String>, t: &str) -> (r: bool)
    ensures
        r == views(list@).contains(t@),
{
    let mut i: usize = 0;
    while i < list.len()
        invariant
            i <= list@.len(),
            forall|k: int| 0 <= k < i ==> list@[k]@ != t@,
        decreases list@.len() - i,
    {
        if same_text(list[i].as_str(), t) {
            assert(views(list@)[i as int] == t@);
            return true;
        }
        i = i + 1;
    }
    assert forall|k: int| 0 <= k < views(list@).len() implies views(list@)[k] != t@ by {
        assert(views(list@)[k] == list@[k]@);
    }
    false
}

/// The items of `list` with `sep` between each two neighbours.
pub fn join(list: &Vec<String>, sep: &str) -> (r: String)
    ensures
        r@ == joined(views(list@), sep@),
{
    let mut out = String::new();
    let mut i: usize = 0;
    while i < list.len()
        invariant
            i <= list@.len(),
            out@ == joined(views(list@).take(i as int), sep@),
        decreases list@.len() - i,
    {
        let ghost before = views(list@).take(i as int);
        if i > 0 {
            out.append(sep);
        }
        out.append(list[i].as_str());
        proof {
            let after = views(list@).take(i + 1);
            assert(after.drop_last() =~= before);
            assert(after.last() == list@[i as int]@);
            if i == 0 {
                assert(before.len() == 0);
            }
        }
        i = i + 1;
    }
    assert(views(list@).take(list@.len() as int) =~= views(list@));
    out
}

} // verus!
