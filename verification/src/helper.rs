//! Time conversion and path helpers.
use vstd::prelude::*;

verus! {

/// Number of 100-nanosecond intervals between 1601-01-01 and 1970-01-01.
pub const UNIX_EPOCH_AS_FILE_TIME: i64 = 116444736000000000;

/// Number of 100-nanosecond intervals in one millisecond.
pub const FILE_TIME_TICKS_PER_MILLISECOND: i64 = 10000;

/// The file time (100-nanosecond intervals since 1601-01-01 UTC) of an instant
/// given in milliseconds since 1970-01-01 UTC.
pub open spec fn spec_file_time(milisec: int) -> int {
    milisec * 10000 + 116444736000000000
}

/// Whether `to_file_time` computes without overflow on `milisec`: both the
/// product and the sum fit in an `i64`.
pub open spec fn file_time_in_range(milisec: int) -> bool {
    &&& i64::MIN <= milisec * 10000 <= i64::MAX
    &&& i64::MIN <= spec_file_time(milisec) <= i64::MAX
}

/// Converts milliseconds since the Unix epoch into a Windows file time.
pub fn to_file_time(milisec: i64) -> (ft: i64)
    requires
        file_time_in_range(milisec as int),
    ensures
        ft as int == spec_file_time(milisec as int),
{
    milisec * FILE_TIME_TICKS_PER_MILLISECOND + UNIX_EPOCH_AS_FILE_TIME
}

/// Converts milliseconds since the Unix epoch into a Windows file time split
/// into its low and high 32-bit halves, each read as an `i32`.
pub fn to_split_file_time(milisec: i64) -> (r: (i32, i32))
    requires
        file_time_in_range(milisec as int),
    ensures
        r.0 == (spec_file_time(milisec as int) as i64) as i32,
        r.1 as int == spec_file_time(milisec as int) / 0x1_0000_0000,
        (r.0 as u32) as int == spec_file_time(milisec as int) % 0x1_0000_0000,
{
    let ft = to_file_time(milisec);
    let high = (ft >> 32u32) as i32;
    let low = ft as i32;
    assert((ft >> 32u32) as i32 as int == ft as int / 0x1_0000_0000) by (bit_vector);
    assert((ft as i32) as u32 as int == ft as int % 0x1_0000_0000) by (bit_vector);
    (low, high)
}


/// Start index of the segment of `s` that is still open once `s[0..i]` has
/// been read: the index right after the last `'/'` before `i`, or 0.
pub open spec fn segment_start(s: Seq<char>, i: int) -> int
    decreases i,
{
    if i <= 0 {
        0
    } else if s[i - 1] == '/' {
        i
    } else {
        segment_start(s, i - 1)
    }
}

/// A normal path component: not empty, not `.` and not `..`.
pub open spec fn is_normal_component(seg: Seq<char>) -> bool {
    &&& seg.len() > 0
    &&& seg != seq!['.']
    &&& seg != seq!['.', '.']
}

/// The one-element list `[seg]` when `seg` is a normal component, else `[]`.
pub open spec fn keep_if_normal(seg: Seq<char>) -> Seq<Seq<char>> {
    if is_normal_component(seg) {
        seq![seg]
    } else {
        Seq::empty()
    }
}

/// The normal components among the segments of `s[0..i]` that a `'/'` has
/// already closed, in order.
pub open spec fn closed_components(s: Seq<char>, i: int) -> Seq<Seq<char>>
    decreases i,
{
    if i <= 0 {
        Seq::empty()
    } else if s[i - 1] == '/' {
        closed_components(s, i - 1) + keep_if_normal(s.subrange(segment_start(s, i - 1), i - 1))
    } else {
        closed_components(s, i - 1)
    }
}

/// The normal components of a Unix path: its `'/'`-separated segments,
/// without the empty ones (a leading, trailing or doubled `'/'`), `.` and `..`.
pub open spec fn normal_components(s: Seq<char>) -> Seq<Seq<char>> {
    closed_components(s, s.len() as int) + keep_if_normal(
        s.subrange(segment_start(s, s.len() as int), s.len() as int),
    )
}

/// The views of a list of strings.
pub open spec fn string_views(v: Seq<String>) -> Seq<Seq<char>> {
    v.map_values(|c: String| c@)
}

/// Appends `path[start..end]` (in characters) to `out` when it is a normal component.
fn push_if_normal(path: &str, start: usize, end: usize, out: &mut Vec<String>)
    requires
        start <= end <= path@.len(),
    ensures
        string_views(final(out)@) == string_views(old(out)@) + keep_if_normal(
            path@.subrange(start as int, end as int),
        ),
{
    let ghost seg = path@.subrange(start as int, end as int);
    let len = end - start;
    let normal = if len == 0 {
        false
    } else if len == 1 {
        path.get_char(start) != '.'
    } else if len == 2 {
        !(path.get_char(start) == '.' && path.get_char(start + 1) == '.')
    } else {
        true
    };
    proof {
        if len == 1 {
            assert(seg =~= seq!['.'] <==> seg[0] == '.');
        }
        if len == 2 {
            assert(seg =~= seq!['.', '.'] <==> (seg[0] == '.' && seg[1] == '.'));
        }
        if len > 2 {
            assert(seg.len() != seq!['.'].len());
            assert(seg.len() != seq!['.', '.'].len());
        }
    }
    assert(normal == is_normal_component(seg));
    if normal {
        let component = path.substring_char(start, end).to_owned();
        let ghost before = out@;
        out.push(component);
        assert(string_views(out@) =~= string_views(before) + seq![seg]);
    } else {
        assert(string_views(out@) =~= string_views(out@) + keep_if_normal(seg));
    }
}

/// The normal components of `path`, in order (the components that
/// `std::path::Path::components` yields as `Component::Normal`).
pub fn path_components(path: &str) -> (r: Vec<String>)
    ensures
        string_views(r@) == normal_components(path@),
{
    let n = path.unicode_len();
    let mut out: Vec<String> = Vec::new();
    let mut start: usize = 0;
    let mut i: usize = 0;
    assert(string_views(out@) =~= closed_components(path@, 0));
    while i < n
        invariant
            n == path@.len(),
            0 <= start <= i <= n,
            start == segment_start(path@, i as int),
            string_views(out@) == closed_components(path@, i as int),
        decreases n - i,
    {
        if path.get_char(i) == '/' {
            push_if_normal(path, start, i, &mut out);
            start = i + 1;
        }
        i = i + 1;
    }
    push_if_normal(path, start, n, &mut out);
    out
}


/// The open segment of `s[0..i]` starts at or before `i` and holds no `'/'`.
proof fn lemma_segment_start(s: Seq<char>, i: int)
    requires
        0 <= i <= s.len(),
    ensures
        0 <= segment_start(s, i) <= i,
        forall|j: int| segment_start(s, i) <= j < i ==> s[j] != '/',
    decreases i,
{
    if i > 0 {
        lemma_segment_start(s, i - 1);
    }
}

/// Every element of `keep_if_normal(seg)` is normal; none holds a `'/'` when `seg` holds none.
proof fn lemma_keep_if_normal(seg: Seq<char>)
    requires
        !seg.contains('/'),
    ensures
        forall|k: int|
            0 <= k < keep_if_normal(seg).len() ==> is_normal_component(
                #[trigger] keep_if_normal(seg)[k],
            ) && !keep_if_normal(seg)[k].contains('/'),
{
}

proof fn lemma_closed_components_normal(s: Seq<char>, i: int)
    requires
        0 <= i <= s.len(),
    ensures
        forall|k: int|
            0 <= k < closed_components(s, i).len() ==> is_normal_component(
                #[trigger] closed_components(s, i)[k],
            ) && !closed_components(s, i)[k].contains('/'),
    decreases i,
{
    if i > 0 {
        lemma_closed_components_normal(s, i - 1);
        if s[i - 1] == '/' {
            lemma_segment_start(s, i - 1);
            let seg = s.subrange(segment_start(s, i - 1), i - 1);
            assert(!seg.contains('/'));
            lemma_keep_if_normal(seg);
            let prev = closed_components(s, i - 1);
            assert forall|k: int| 0 <= k < closed_components(s, i).len() implies is_normal_component(
                #[trigger] closed_components(s, i)[k],
            ) && !closed_components(s, i)[k].contains('/') by {
                if k < prev.len() {
                    assert(closed_components(s, i)[k] == prev[k]);
                } else {
                    assert(closed_components(s, i)[k] == keep_if_normal(seg)[k - prev.len()]);
                }
            }
        }
    }
}

/// Every component of a path is a normal component (not empty, not `.`, not
/// `..`) and holds no `'/'`.
pub proof fn lemma_components_are_normal(s: Seq<char>)
    ensures
        forall|k: int|
            0 <= k < normal_components(s).len() ==> is_normal_component(
                #[trigger] normal_components(s)[k],
            ) && !normal_components(s)[k].contains('/'),
{
    let n = s.len() as int;
    lemma_closed_components_normal(s, n);
    lemma_segment_start(s, n);
    let seg = s.subrange(segment_start(s, n), n);
    assert(!seg.contains('/'));
    lemma_keep_if_normal(seg);
    let prev = closed_components(s, n);
    assert forall|k: int| 0 <= k < normal_components(s).len() implies is_normal_component(
        #[trigger] normal_components(s)[k],
    ) && !normal_components(s)[k].contains('/') by {
        if k < prev.len() {
            assert(normal_components(s)[k] == prev[k]);
        } else {
            assert(normal_components(s)[k] == keep_if_normal(seg)[k - prev.len()]);
        }
    }
}

/// The split file time recombines into the file time: the high half times
/// 2^32 plus the low half read as unsigned is the whole.
pub proof fn lemma_split_file_time_recombines(milisec: int)
    ensures
        (spec_file_time(milisec) / 0x1_0000_0000) * 0x1_0000_0000 + spec_file_time(milisec)
            % 0x1_0000_0000 == spec_file_time(milisec),
{
    vstd::arithmetic::div_mod::lemma_fundamental_div_mod(spec_file_time(milisec), 0x1_0000_0000);
}

/// The file time grows with the instant: a later instant has a larger file time.
pub proof fn lemma_file_time_strictly_increasing(a: int, b: int)
    requires
        a < b,
    ensures
        spec_file_time(a) < spec_file_time(b),
{
}


/// Whether two strings hold the same characters.
pub fn str_eq(a: &str, b: &str) -> (r: bool)
    ensures
        r == (a@ == b@),
{
    let n = a.unicode_len();
    let m = b.unicode_len();
    if n != m {
        return false;
    }
    let mut i: usize = 0;
    while i < n
        invariant
            n == a@.len(),
            m == b@.len(),
            n == m,
            i <= n,
            forall|j: int| 0 <= j < i ==> a@[j] == b@[j],
        decreases n - i,
    {
        if a.get_char(i) != b.get_char(i) {
            return false;
        }
        i = i + 1;
    }
    assert(a@ =~= b@);
    true
}


/// The code of a character with ASCII upper-case letters mapped to lower case.
pub open spec fn ascii_lower_code(c: char) -> u32 {
    if 'A' <= c && c <= 'Z' {
        (c as u32 + 32) as u32
    } else {
        c as u32
    }
}

/// Two strings are equal when ASCII letters are compared without regard to case.
pub open spec fn spec_eq_ignore_ascii_case(a: Seq<char>, b: Seq<char>) -> bool {
    &&& a.len() == b.len()
    &&& forall|i: int| 0 <= i < a.len() ==> ascii_lower_code(a[i]) == ascii_lower_code(b[i])
}

/// Whether `a` and `b` are equal when ASCII letters are compared without
/// regard to case (as `str::eq_ignore_ascii_case` decides).
pub fn eq_ignore_ascii_case(a: &str, b: &str) -> (r: bool)
    ensures
        r == spec_eq_ignore_ascii_case(a@, b@),
{
    let n = a.unicode_len();
    let m = b.unicode_len();
    if n != m {
        return false;
    }
    let mut i: usize = 0;
    while i < n
        invariant
            n == a@.len(),
            m == b@.len(),
            n == m,
            i <= n,
            forall|j: int| 0 <= j < i ==> ascii_lower_code(a@[j]) == ascii_lower_code(b@[j]),
        decreases n - i,
    {
        let x = a.get_char(i);
        let y = b.get_char(i);
        let lx: u32 = if 'A' <= x && x <= 'Z' { x as u32 + 32 } else { x as u32 };
        let ly: u32 = if 'A' <= y && y <= 'Z' { y as u32 + 32 } else { y as u32 };
        if lx != ly {
            return false;
        }
        i = i + 1;
    }
    true
}

/// `a` and `b` agree on their first `k` characters, and `a` ends there
/// while `b` goes on, or `a` has the smaller character at `k`.
pub open spec fn less_at(a: Seq<char>, b: Seq<char>, k: int) -> bool {
    &&& 0 <= k <= a.len()
    &&& k <= b.len()
    &&& forall|j: int| 0 <= j < k ==> a[j] == b[j]
    &&& (k == a.len() && k < b.len()) || (k < a.len() && k < b.len() && (a[k] as int) < (b[k] as int))
}

/// `a` comes before `b` in lexicographic order of character codes: at the
/// first position where they differ `a` has the smaller character, or `a` is
/// a proper prefix of `b`.
pub open spec fn str_less(a: Seq<char>, b: Seq<char>) -> bool {
    exists|k: int| less_at(a, b, k)
}

/// Whether `a` comes before `b` in lexicographic order of character codes
/// (the order of `str`, which compares UTF-8 bytes the same way).
pub fn str_lt(a: &str, b: &str) -> (r: bool)
    ensures
        r == str_less(a@, b@),
{
    let n = a.unicode_len();
    let m = b.unicode_len();
    let mut i: usize = 0;
    while i < n && i < m
        invariant
            n == a@.len(),
            m == b@.len(),
            i <= n,
            i <= m,
            forall|j: int| 0 <= j < i ==> a@[j] == b@[j],
        decreases n - i,
    {
        let x = a.get_char(i);
        let y = b.get_char(i);
        if x != y {
            proof {
                if (x as u32) < (y as u32) {
                    assert(less_at(a@, b@, i as int));
                } else {
                    assert forall|k: int| !less_at(a@, b@, k) by {
                        if less_at(a@, b@, k) && k > i {
                            assert(a@[i as int] == b@[i as int]);
                        }
                    }
                }
            }
            return (x as u32) < (y as u32);
        }
        i = i + 1;
    }
    proof {
        if i == n && n < m {
            assert(less_at(a@, b@, i as int));
        } else {
            assert forall|k: int| !less_at(a@, b@, k) by {}
        }
    }
    i == n && n < m
}

/// No string comes before itself.
pub proof fn lemma_str_less_irreflexive(a: Seq<char>)
    ensures
        !str_less(a, a),
{
}

/// The order of strings is transitive.
pub proof fn lemma_str_less_transitive(a: Seq<char>, b: Seq<char>, c: Seq<char>)
    requires
        str_less(a, b),
        str_less(b, c),
    ensures
        str_less(a, c),
{
    let k1 = choose|k: int| less_at(a, b, k);
    let k2 = choose|k: int| less_at(b, c, k);
    let k = if k1 < k2 { k1 } else { k2 };
    assert forall|j: int| 0 <= j < k implies a[j] == c[j] by {
        assert(a[j] == b[j]);
        assert(b[j] == c[j]);
    }
    if k1 < k2 {
        if k1 < a.len() {
            assert(b[k1] == c[k1]);
        }
    } else if k2 < k1 {
        assert(a[k2] == b[k2]);
    }
    assert(less_at(a, c, k));
}

/// Of two different strings, one comes before the other.
pub proof fn lemma_str_less_total(a: Seq<char>, b: Seq<char>)
    requires
        a != b,
    ensures
        str_less(a, b) || str_less(b, a),
{
    let n = if a.len() < b.len() { a.len() as int } else { b.len() as int };
    if forall|j: int| 0 <= j < n ==> a[j] == b[j] {
        if a.len() == b.len() {
            assert(a =~= b);
        } else if a.len() < b.len() {
            assert(less_at(a, b, n));
        } else {
            assert(less_at(b, a, n));
        }
    } else {
        let d = choose|d: int| 0 <= d < n && !(a[d] == b[d]);
        let k = first_difference(a, b, d);
        assert(forall|j: int| 0 <= j < k ==> b[j] == a[j]);
        if (a[k] as int) < (b[k] as int) {
            assert(less_at(a, b, k));
        } else {
            assert(a[k] as int != b[k] as int);
            assert(less_at(b, a, k));
        }
    }
}

/// The first position before or at `d` where `a` and `b` differ.
proof fn first_difference(a: Seq<char>, b: Seq<char>, d: int) -> (k: int)
    requires
        0 <= d < a.len(),
        d < b.len(),
        a[d] != b[d],
    ensures
        0 <= k <= d,
        a[k] != b[k],
        forall|j: int| 0 <= j < k ==> a[j] == b[j],
    decreases d,
{
    if forall|j: int| 0 <= j < d ==> a[j] == b[j] {
        d
    } else {
        let e = choose|e: int| 0 <= e < d && !(a[e] == b[e]);
        first_difference(a, b, e)
    }
}


/// The path `/seg_0/seg_1/.../seg_n` made of `segs`; the empty path for no segment.
pub open spec fn join_path(segs: Seq<Seq<char>>) -> Seq<char>
    decreases segs.len(),
{
    if segs.len() == 0 {
        Seq::empty()
    } else {
        join_path(segs.drop_last()) + seq!['/'] + segs.last()
    }
}

/// What `segment_start` and `closed_components` say of a prefix does not
/// depend on what follows it.
proof fn lemma_prefix_stable(s1: Seq<char>, t: Seq<char>, i: int)
    requires
        0 <= i <= s1.len(),
    ensures
        segment_start(s1 + t, i) == segment_start(s1, i),
        closed_components(s1 + t, i) == closed_components(s1, i),
    decreases i,
{
    if i > 0 {
        lemma_prefix_stable(s1, t, i - 1);
        assert((s1 + t)[i - 1] == s1[i - 1]);
        if s1[i - 1] == '/' {
            lemma_segment_start(s1, i - 1);
            assert((s1 + t).subrange(segment_start(s1, i - 1), i - 1) =~= s1.subrange(
                segment_start(s1, i - 1),
                i - 1,
            ));
        }
    }
}

/// Inside a run of characters without `'/'` that follows a `'/'` at `a - 1`,
/// the open segment starts at `a` and no segment is closed.
proof fn lemma_slash_free_run(s: Seq<char>, a: int, i: int)
    requires
        1 <= a <= i <= s.len(),
        s[a - 1] == '/',
        forall|j: int| a <= j < i ==> s[j] != '/',
    ensures
        segment_start(s, i) == a,
        closed_components(s, i) == closed_components(s, a),
    decreases i,
{
    if i > a {
        lemma_slash_free_run(s, a, i - 1);
    }
}

/// Splitting a path joined from normal components without `'/'` gives back
/// those components: `path_components` undoes `join_path`.
pub proof fn lemma_components_of_joined_path(segs: Seq<Seq<char>>)
    requires
        forall|k: int| 0 <= k < segs.len() ==> is_normal_component(#[trigger] segs[k]) && !segs[k].contains('/'),
    ensures
        normal_components(join_path(segs)) == segs,
    decreases segs.len(),
{
    if segs.len() == 0 {
        let s = join_path(segs);
        assert(s.subrange(segment_start(s, 0), 0) =~= Seq::<char>::empty());
        assert(normal_components(s) =~= segs);
    } else {
        let init = segs.drop_last();
        let last = segs.last();
        assert forall|k: int| 0 <= k < init.len() implies is_normal_component(#[trigger] init[k])
            && !init[k].contains('/') by {
            assert(init[k] == segs[k]);
        }
        lemma_components_of_joined_path(init);
        let p = join_path(init);
        let s = join_path(segs);
        let t = seq!['/'] + last;
        assert(s =~= p + t);
        let n = p.len() as int;
        lemma_prefix_stable(p, t, n);
        lemma_segment_start(p, n);
        assert(s[n] == '/');
        assert(s.subrange(segment_start(s, n), n) =~= p.subrange(segment_start(p, n), n));
        assert(closed_components(s, n + 1) == normal_components(p));
        assert forall|j: int| n + 1 <= j < s.len() implies s[j] != '/' by {
            assert(s[j] == last[j - n - 1]);
            if s[j] == '/' {
                assert(last.contains('/'));
            }
        }
        lemma_slash_free_run(s, n + 1, s.len() as int);
        assert(s.subrange(n + 1, s.len() as int) =~= last);
        assert(is_normal_component(segs[segs.len() - 1]));
        assert(normal_components(s) =~= segs);
    }
}

/// Two characters are the same ignoring ASCII case: they are equal, or one
/// is an upper-case ASCII letter `'A'..='Z'` and the other its lower-case form.
pub open spec fn same_ignoring_ascii_case(x: char, y: char) -> bool {
    ||| x == y
    ||| ('A' <= x && x <= 'Z' && y as int == x as int + 32)
    ||| ('A' <= y && y <= 'Z' && x as int == y as int + 32)
}

proof fn lemma_char_same_ignoring_ascii_case(x: char, y: char)
    ensures
        (ascii_lower_code(x) == ascii_lower_code(y)) <==> same_ignoring_ascii_case(x, y),
{
    assert('A' as int == 65 && 'Z' as int == 90);
    assert(x as u32 as int == x as int);
    assert(y as u32 as int == y as int);
    if x as int == y as int {
        assert(x == y);
    }
}

/// Two strings are equal ignoring ASCII case exactly when they have the same
/// length and each pair of characters at one position is the same character
/// or an ASCII letter in its two cases; the relation is reflexive and symmetric.
pub proof fn lemma_eq_ignore_ascii_case_letters(a: Seq<char>, b: Seq<char>)
    ensures
        spec_eq_ignore_ascii_case(a, b) <==> (a.len() == b.len() && forall|i: int|
            0 <= i < a.len() ==> same_ignoring_ascii_case(#[trigger] a[i], b[i])),
        spec_eq_ignore_ascii_case(a, a),
        spec_eq_ignore_ascii_case(a, b) == spec_eq_ignore_ascii_case(b, a),
{
    assert forall|i: int| 0 <= i < a.len() && i < b.len() implies ((ascii_lower_code(a[i])
        == ascii_lower_code(b[i])) <==> same_ignoring_ascii_case(#[trigger] a[i], b[i])) by {
        lemma_char_same_ignoring_ascii_case(a[i], b[i]);
    }
}

} // verus!
