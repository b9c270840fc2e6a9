//! The admission filter: a pure predicate over the raw query text that
//! decides, before any backend resource is touched, whether the query may
//! run. The policy is deliberately minimal: after case folding and trimming
//! of surrounding whitespace, the text must begin with the token `select`.
//! This is a defence-in-depth gate, not a grammar validator: it cannot by
//! itself rule out every unsafe construct a `select` statement can reach.

use vstd::prelude::*;

verus! {

/// The characters with the Unicode `White_Space` property, the set that
/// `char::is_whitespace` recognises and that trimming removes.
pub open spec fn space(c: char) -> bool {
    let u = c as u32;
    u == 0x20 || u == 0x09 || u == 0x0a || u == 0x0b || u == 0x0c || u == 0x0d
        || u == 0x85 || u == 0xa0 || u == 0x1680
        || (0x2000 <= u && u <= 0x200a)
        || u == 0x2028 || u == 0x2029 || u == 0x202f || u == 0x205f || u == 0x3000
}

/// Whether `c` counts as whitespace for trimming.
pub fn is_space(c: char) -> (r: bool)
    ensures
        r == space(c),
{
    let u = c as u32;
    u == 0x20 || u == 0x09 || u == 0x0a || u == 0x0b || u == 0x0c || u == 0x0d
        || u == 0x85 || u == 0xa0 || u == 0x1680
        || (0x2000 <= u && u <= 0x200a)
        || u == 0x2028 || u == 0x2029 || u == 0x202f || u == 0x205f || u == 0x3000
}

/// `s` without its leading whitespace.
pub open spec fn trim_start_of(s: Seq<char>) -> Seq<char>
    decreases s.len(),
{
    if s.len() > 0 && space(s.first()) {
        trim_start_of(s.drop_first())
    } else {
        s
    }
}

/// `s` without its trailing whitespace.
pub open spec fn trim_end_of(s: Seq<char>) -> Seq<char>
    decreases s.len(),
{
    if s.len() > 0 && space(s.last()) {
        trim_end_of(s.drop_last())
    } else {
        s
    }
}

/// `s` without its surrounding whitespace.
pub open spec fn trim_of(s: Seq<char>) -> Seq<char> {
    trim_end_of(trim_start_of(s))
}

/// What `str::to_lowercase` returns; the Unicode lowercase mapping depends on
/// the characters alone.
pub uninterp spec fn lower_of(s: Seq<char>) -> Seq<char>;

/// Relies on `str::to_lowercase`: its result is the Unicode lowercase mapping
/// of the input, a function of the characters alone.
#[verifier::external_body]
fn lowercase(s: &str) -> (r: String)
    ensures
        r@ == lower_of(s@),
{
    s.to_lowercase()
}

/// `p` is a prefix of `s`.
pub open spec fn has_prefix(s: Seq<char>, p: Seq<char>) -> bool {
    p.len() <= s.len() && s.take(p.len() as int) == p
}

/// The admission decision: a query is allowed exactly when its text, case
/// folded and trimmed of surrounding whitespace, begins with `select`.
pub open spec fn query_allowed(q: Seq<char>) -> bool {
    has_prefix(trim_of(lower_of(q)), "select"@)
}

/// The characters of `s`, in order, as a vector.
pub fn chars_of(s: &str) -> (v: Vec<char>)
    ensures
        v@ == s@,
{
    let n = s.unicode_len();
    let mut v: Vec<char> = Vec::new();
    let mut i: usize = 0;
    while i < n
        invariant
            i <= n,
            n as nat == s@.len(),
            v@ == s@.take(i as int),
        decreases n - i,
    {
        let c = s.get_char(i);
        v.push(c);
        proof {
            assert(v@ =~= s@.take(i as int + 1));
        }
        i += 1;
    }
    proof {
        assert(s@.take(n as int) =~= s@);
    }
    v
}

/// The number of leading whitespace characters of `chars`.
fn leading_spaces(chars: &Vec<char>) -> (lo: usize)
    ensures
        lo <= chars@.len(),
        forall|j: int| 0 <= j < lo ==> space(chars@[j]),
        lo < chars@.len() ==> !space(chars@[lo as int]),
{
    let n = chars.len();
    let mut lo: usize = 0;
    while lo < n
        invariant
            lo <= n,
            n == chars@.len(),
            forall|j: int| 0 <= j < lo ==> space(chars@[j]),
        decreases n - lo,
    {
        if !is_space(chars[lo]) {
            return lo;
        }
        lo += 1;
    }
    lo
}

/// The end of the whitespace-trimmed core of `chars` that starts at `lo`.
fn trailing_bound(chars: &Vec<char>, lo: usize) -> (hi: usize)
    requires
        lo <= chars@.len(),
    ensures
        lo <= hi <= chars@.len(),
        forall|j: int| hi <= j < chars@.len() ==> space(chars@[j]),
        hi > lo ==> !space(chars@[hi - 1]),
{
    let n = chars.len();
    let mut hi: usize = n;
    while hi > lo
        invariant
            lo <= hi <= n,
            n == chars@.len(),
            forall|j: int| hi <= j < n ==> space(chars@[j]),
        decreases hi,
    {
        if !is_space(chars[hi - 1]) {
            return hi;
        }
        hi -= 1;
    }
    hi
}

/// Whether `b` occurs in `a` starting at position `lo`.
fn matches_at(a: &Vec<char>, lo: usize, b: &Vec<char>) -> (r: bool)
    requires
        lo + b@.len() <= a@.len(),
    ensures
        r == (a@.subrange(lo as int, lo as int + b@.len() as int) == b@),
{
    let ghost sr = a@.subrange(lo as int, lo as int + b@.len() as int);
    let n = a.len();
    let m = b.len();
    let mut i: usize = 0;
    while i < m
        invariant
            i <= m,
            m == b@.len(),
            n == a@.len(),
            lo + m <= n,
            sr == a@.subrange(lo as int, lo as int + b@.len() as int),
            forall|j: int| 0 <= j < i ==> a@[lo + j] == b@[j],
        decreases m - i,
    {
        if a[lo + i] != b[i] {
            proof {
                assert(sr[i as int] == a@[lo + i]);
            }
            return false;
        }
        i += 1;
    }
    proof {
        assert(sr =~= b@);
    }
    true
}

/// Dropping `i` known-whitespace leading characters computes `trim_start_of`.
proof fn lemma_trim_start_skip(s: Seq<char>, i: int)
    requires
        0 <= i <= s.len(),
        forall|j: int| 0 <= j < i ==> space(s[j]),
        i < s.len() ==> !space(s[i]),
    ensures
        trim_start_of(s) == s.skip(i),
    decreases i,
{
    if i == 0 {
        assert(s.skip(0) =~= s);
    } else {
        assert(space(s.first()));
        let t = s.drop_first();
        assert(forall|j: int| 0 <= j < i - 1 ==> space(t[j]));
        lemma_trim_start_skip(t, i - 1);
        assert(s.skip(i) =~= t.skip(i - 1));
    }
}

/// Keeping `m` characters, the last of which is not whitespace while all the
/// later ones are, computes `trim_end_of`.
proof fn lemma_trim_end_take(s: Seq<char>, m: int)
    requires
        0 <= m <= s.len(),
        forall|j: int| m <= j < s.len() ==> space(s[j]),
        m > 0 ==> !space(s[m - 1]),
    ensures
        trim_end_of(s) == s.take(m),
    decreases s.len(),
{
    if m == s.len() {
        assert(s.take(m) =~= s);
    } else {
        assert(space(s.last()));
        let t = s.drop_last();
        assert(forall|j: int| m <= j < t.len() ==> space(t[j]));
        lemma_trim_end_take(t, m);
        assert(s.take(m) =~= t.take(m));
    }
}

/// The admission filter. Allows a query exactly when its text, case folded
/// and trimmed of surrounding whitespace, begins with `select`; it touches
/// no resource besides the text itself.
pub fn screen_query(query: &str) -> (allowed: bool)
    ensures
        allowed == query_allowed(query@),
{
    let lowered = lowercase(query);
    let chars = chars_of(lowered.as_str());
    let ghost s: Seq<char> = lower_of(query@);
    let lo = leading_spaces(&chars);
    let hi = trailing_bound(&chars, lo);
    proof {
        lemma_trim_start_skip(s, lo as int);
        lemma_trim_end_take(s.skip(lo as int), hi - lo as int);
        assert(trim_of(s) =~= s.subrange(lo as int, hi as int));
    }
    let token = chars_of("select");
    let ghost t = trim_of(s);
    if hi - lo < token.len() {
        assert(!has_prefix(t, "select"@));
        false
    } else {
        let r = matches_at(&chars, lo, &token);
        proof {
            let m = token@.len() as int;
            assert(t.take(m) =~= s.subrange(lo as int, lo as int + m));
        }
        r
    }
}

} // verus!
