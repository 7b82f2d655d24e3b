//! Comparing release versions.

use vstd::prelude::*;

use crate::text::{
    a_shown_number_reads_back, all_digits, chars_of, decimal, digits_value, is_digit, parse_unsigned,
    string_of,
};

verus! {

/// Where the upstream part of a package version ends.
pub open spec fn base_len(v: Seq<char>) -> int
    decreases v.len(),
{
    if v.len() == 0 || v[0] == '-' || v[0] == '+' {
        0
    } else {
        1 + base_len(v.skip(1))
    }
}

/// The upstream part of a package version, without its suffix.
pub open spec fn upstream(v: Seq<char>) -> Seq<char> {
    v.take(base_len(v))
}

/// The upstream part of a package version: `0.10.0` of `0.10.0-1.fc44`.
pub fn version_base(v: &str) -> (r: &str)
    ensures
        r@ == upstream(v@),
        0 <= base_len(v@) <= v@.len(),
{
    let c = chars_of(v);
    let mut i: usize = 0;
    proof {
        assert(v@.skip(0) =~= v@);
    }
    while i < c.len() && c[i] != '-' && c[i] != '+'
        invariant
            i <= c@.len(),
            c@ == v@,
            base_len(v@) == i + base_len(v@.skip(i as int)),
        decreases c@.len() - i,
    {
        proof {
            assert(v@.skip(i as int).skip(1) =~= v@.skip(i + 1));
        }
        i = i + 1;
    }
    proof {
        assert(base_len(v@.skip(i as int)) == 0);
        assert(v@.subrange(0, i as int) =~= v@.take(i as int));
    }
    v.substring_char(0, i)
}

/// Where the first field of a version ends: at a dot.
pub open spec fn field_len(v: Seq<char>) -> int
    decreases v.len(),
{
    if v.len() == 0 || v[0] == '.' {
        0
    } else {
        1 + field_len(v.skip(1))
    }
}

pub proof fn lemma_field_len(v: Seq<char>)
    ensures
        0 <= field_len(v) <= v.len(),
    decreases v.len(),
{
    if v.len() > 0 && v[0] != '.' {
        lemma_field_len(v.skip(1));
    }
}

/// The number in a field of digits; one too large to hold counts as zero.
pub open spec fn field_value(p: Seq<char>) -> nat {
    if digits_value(p) <= u64::MAX {
        digits_value(p)
    } else {
        0
    }
}

/// The numeric fields of a version, up to the first one that is not a number.
pub open spec fn fields(v: Seq<char>) -> Seq<nat>
    decreases v.len(),
    via fields_decrease
{
    let n = field_len(v);
    let p = v.take(n);
    if p.len() == 0 || !all_digits(p) {
        Seq::empty()
    } else if n < v.len() {
        seq![field_value(p)] + fields(v.skip(n + 1))
    } else {
        seq![field_value(p)]
    }
}

#[via_fn]
proof fn fields_decrease(v: Seq<char>) {
    lemma_field_len(v);
}

/// The field at `i`; a missing one counts as zero.
pub open spec fn field_at(f: Seq<nat>, i: int) -> nat {
    if 0 <= i < f.len() {
        f[i]
    } else {
        0
    }
}

/// The two agree before `i`.
pub open spec fn agree_before(a: Seq<nat>, b: Seq<nat>, i: int) -> bool {
    forall|j: int| 0 <= j < i ==> #[trigger] field_at(a, j) == field_at(b, j)
}

/// `a` is larger at the first place where they differ.
pub open spec fn greater(a: Seq<nat>, b: Seq<nat>) -> bool {
    exists|i: int|
        0 <= i && #[trigger] field_at(a, i) > field_at(b, i) && agree_before(a, b, i)
}

/// The numeric fields that two versions are compared by: those of the upstream
/// part alone.
pub open spec fn compared(v: Seq<char>) -> Seq<nat> {
    fields(upstream(v))
}

/// Whether version `a` is newer than version `b`.
pub open spec fn newer(a: Seq<char>, b: Seq<char>) -> bool {
    greater(compared(a), compared(b))
}

pub open spec fn nats(v: Seq<u64>) -> Seq<nat> {
    v.map_values(|n: u64| n as nat)
}

fn parse_fields(s: &str) -> (r: Vec<u64>)
    ensures
        nats(r@) == fields(s@),
{
    let c = chars_of(s);
    let n: usize = c.len();
    let mut out: Vec<u64> = Vec::new();
    let mut i: usize = 0;
    proof {
        assert(s@.skip(0) =~= s@);
        assert(nats(out@) + fields(s@) =~= fields(s@));
    }
    loop
        invariant_except_break
            fields(s@) == nats(out@) + fields(s@.skip(i as int)),
        invariant
            n == c@.len(),
            i <= n,
            c@ == s@,
        ensures
            nats(out@) == fields(s@),
        decreases n + 1 - i,
    {
        let ghost rest = s@.skip(i as int);
        let start: usize = i;
        let mut j: usize = i;
        let mut digits: bool = true;
        while j < n && c[j] != '.'
            invariant
                n == c@.len(),
                start <= j <= n,
                c@ == s@,
                rest == s@.skip(start as int),
                field_len(rest) == (j - start) + field_len(s@.skip(j as int)),
                digits <==> forall|k: int| start <= k < j ==> is_digit(#[trigger] s@[k]),
            decreases n - j,
        {
            let ch: char = c[j];
            if !('0' <= ch && ch <= '9') {
                proof {
                    assert(!is_digit(s@[j as int]));
                }
                digits = false;
            }
            proof {
                assert(s@.skip(j as int).skip(1) =~= s@.skip(j + 1));
            }
            j = j + 1;
        }
        let ghost p = rest.take(j - start);
        proof {
            assert(field_len(s@.skip(j as int)) == 0);
            assert(p =~= s@.subrange(start as int, j as int));
            assert(digits <==> all_digits(p)) by {
                if digits {
                    assert forall|k: int| 0 <= k < p.len() implies is_digit(#[trigger] p[k]) by {
                        assert(p[k] == s@[start + k]);
                    }
                } else {
                    let k = choose|k: int| start <= k < j && !is_digit(#[trigger] s@[k]);
                    assert(p[k - start] == s@[k]);
                }
            }
        }
        if j == start || !digits {
            proof {
                assert(fields(rest) =~= Seq::<nat>::empty());
                assert(nats(out@) + fields(rest) =~= nats(out@));
            }
            break;
        }
        let part = string_of(&c, start, j);
        let value: u64 = match parse_unsigned(part.as_str(), 18446744073709551615) {
            Some(v) => v,
            None => 0,
        };
        proof {
            assert(part@ == p);
            assert(is_digit(p[0]));
            assert(p[0] != '+');
            assert(crate::text::unsigned_body(p) == p);
            assert(value == field_value(p));
        }
        let ghost before = nats(out@);
        out.push(value);
        proof {
            assert(nats(out@) =~= before.push(field_value(p)));
        }
        if j == n {
            proof {
                assert(fields(rest) =~= seq![field_value(p)]);
                assert(before + fields(rest) =~= nats(out@));
            }
            break;
        }
        proof {
            assert(rest.skip(j - start + 1) =~= s@.skip(j + 1));
            assert(before + (seq![field_value(p)] + fields(s@.skip(j + 1))) =~= nats(out@) + fields(
                s@.skip(j + 1),
            ));
        }
        i = j + 1;
    }
    out
}

fn at(v: &Vec<u64>, i: usize) -> (r: u64)
    ensures
        r == field_at(nats(v@), i as int),
{
    if i < v.len() {
        v[i]
    } else {
        0
    }
}

/// True if dotted version `a` is strictly newer than `b`: numeric per field,
/// missing fields count as zero, and reading stops at the first field that is
/// not a number. A suffix of a distribution or a pre-release is ignored.
pub fn version_gt(a: &str, b: &str) -> (r: bool)
    ensures
        r == newer(a@, b@),
{
    let va = parse_fields(version_base(a));
    let vb = parse_fields(version_base(b));
    let ghost fa = nats(va@);
    let ghost fb = nats(vb@);
    let n: usize = if va.len() > vb.len() {
        va.len()
    } else {
        vb.len()
    };
    let mut i: usize = 0;
    while i < n
        invariant
            fa == nats(va@),
            fb == nats(vb@),
            fa == compared(a@),
            fb == compared(b@),
            i <= n,
            va@.len() <= n,
            vb@.len() <= n,
            agree_before(fa, fb, i as int),
        decreases n - i,
    {
        let x: u64 = at(&va, i);
        let y: u64 = at(&vb, i);
        if x != y {
            proof {
                if x > y {
                    assert(field_at(fa, i as int) > field_at(fb, i as int));
                } else {
                    assert forall|k: int|
                        0 <= k && #[trigger] field_at(fa, k) > field_at(fb, k) implies !agree_before(
                        fa,
                        fb,
                        k,
                    ) by {
                        if k > i {
                            assert(field_at(fa, i as int) != field_at(fb, i as int));
                        } else if k < i {
                            assert(field_at(fa, k) == field_at(fb, k));
                        }
                    }
                }
            }
            return x > y;
        }
        proof {
            assert(field_at(fa, i as int) == field_at(fb, i as int));
        }
        i = i + 1;
    }
    proof {
        assert forall|k: int| 0 <= k implies #[trigger] field_at(fa, k) == field_at(fb, k) by {
            if k < n {
                assert(field_at(fa, k) == field_at(fb, k));
            }
        }
    }
    false
}

proof fn the_suffix_is_cut_off(v: Seq<char>, suffix: Seq<char>)
    requires
        suffix.len() > 0,
        suffix[0] == '-' || suffix[0] == '+',
    ensures
        base_len(v + suffix) == base_len(v),
        0 <= base_len(v) <= v.len(),
    decreases v.len(),
{
    if v.len() == 0 {
        assert((v + suffix)[0] == suffix[0]);
    } else {
        assert((v + suffix)[0] == v[0]);
        assert((v + suffix).skip(1) =~= v.skip(1) + suffix);
        the_suffix_is_cut_off(v.skip(1), suffix);
    }
}

/// A suffix after a hyphen or a plus changes no comparison: a packaged version
/// compares as the upstream version it was built from.
pub proof fn a_suffix_is_ignored(v: Seq<char>, suffix: Seq<char>, other: Seq<char>)
    requires
        suffix.len() > 0,
        suffix[0] == '-' || suffix[0] == '+',
    ensures
        newer(v + suffix, other) == newer(v, other),
        newer(other, v + suffix) == newer(other, v),
        !newer(v + suffix, v),
        !newer(v, v + suffix),
{
    the_suffix_is_cut_off(v, suffix);
    assert(upstream(v + suffix) =~= upstream(v));
    newer_is_asymmetric(v, v);
}

/// No version is newer than itself, and of two versions at most one is newer.
pub proof fn newer_is_asymmetric(a: Seq<char>, b: Seq<char>)
    ensures
        !newer(a, a),
        newer(a, b) ==> !newer(b, a),
{
    let fa = compared(a);
    let fb = compared(b);
    if newer(a, b) && newer(b, a) {
        let i = choose|i: int|
            0 <= i && #[trigger] field_at(fa, i) > field_at(fb, i) && agree_before(fa, fb, i);
        let j = choose|j: int|
            0 <= j && #[trigger] field_at(fb, j) > field_at(fa, j) && agree_before(fb, fa, j);
        if i < j {
            assert(field_at(fb, i) == field_at(fa, i));
        } else if j < i {
            assert(field_at(fa, j) == field_at(fb, j));
        }
    }
}

/// What is newer than a newer version is newer too.
pub proof fn newer_is_transitive(a: Seq<char>, b: Seq<char>, c: Seq<char>)
    requires
        newer(a, b),
        newer(b, c),
    ensures
        newer(a, c),
{
    let fa = compared(a);
    let fb = compared(b);
    let fc = compared(c);
    let i = choose|i: int|
        0 <= i && #[trigger] field_at(fa, i) > field_at(fb, i) && agree_before(fa, fb, i);
    let j = choose|j: int|
        0 <= j && #[trigger] field_at(fb, j) > field_at(fc, j) && agree_before(fb, fc, j);
    let k = if i < j {
        i
    } else {
        j
    };
    if i < j {
        assert(field_at(fb, i) == field_at(fc, i));
    } else if j < i {
        assert(field_at(fa, j) == field_at(fb, j));
    }
    assert(agree_before(fa, fc, k)) by {
        assert forall|m: int| 0 <= m < k implies #[trigger] field_at(fa, m) == field_at(fc, m) by {
            assert(field_at(fa, m) == field_at(fb, m));
            assert(field_at(fb, m) == field_at(fc, m));
        }
    }
    assert(field_at(fa, k) > field_at(fc, k));
}

/// A version written out: its numbers with dots between them.
pub open spec fn dotted(v: Seq<nat>) -> Seq<char>
    decreases v.len(),
{
    if v.len() == 0 {
        Seq::empty()
    } else if v.len() == 1 {
        decimal(v[0])
    } else {
        decimal(v[0]) + (seq!['.'] + dotted(v.skip(1)))
    }
}

/// Every number of a version can be held.
pub open spec fn holdable(v: Seq<nat>) -> bool {
    forall|i: int| 0 <= i < v.len() ==> #[trigger] v[i] <= u64::MAX
}

proof fn lemma_digit_run(p: Seq<char>, rest: Seq<char>)
    requires
        all_digits(p),
        rest.len() > 0 ==> rest[0] == '.',
    ensures
        field_len(p + rest) == p.len(),
    decreases p.len(),
{
    if p.len() == 0 {
        assert(p + rest =~= rest);
    } else {
        assert(is_digit(p[0]));
        assert((p + rest).skip(1) =~= p.skip(1) + rest);
        assert forall|i: int| 0 <= i < p.skip(1).len() implies is_digit(#[trigger] p.skip(1)[i]) by {
            assert(p.skip(1)[i] == p[i + 1]);
        }
        lemma_digit_run(p.skip(1), rest);
    }
}

/// A version written out is read back number by number, and has no suffix.
pub proof fn a_written_version_reads_back(v: Seq<nat>)
    requires
        v.len() > 0,
        holdable(v),
    ensures
        fields(dotted(v)) == v,
        upstream(dotted(v)) == dotted(v),
        compared(dotted(v)) == v,
        forall|i: int|
            0 <= i < dotted(v).len() ==> is_digit(#[trigger] dotted(v)[i]) || dotted(v)[i] == '.',
    decreases v.len(),
{
    let d = decimal(v[0]);
    a_shown_number_reads_back(v[0]);
    assert(v[0] <= u64::MAX);
    if v.len() == 1 {
        lemma_digit_run(d, Seq::empty());
        assert(d + Seq::<char>::empty() =~= d);
        assert(d.take(d.len() as int) =~= d);
        assert(v =~= seq![v[0]]);
    } else {
        let rest = v.skip(1);
        assert forall|i: int| 0 <= i < rest.len() implies #[trigger] rest[i] <= u64::MAX by {
            assert(rest[i] == v[i + 1]);
        }
        a_written_version_reads_back(rest);
        let tail = seq!['.'] + dotted(rest);
        let s = d + tail;
        lemma_digit_run(d, tail);
        assert(s.take(d.len() as int) =~= d);
        assert(s.skip(d.len() as int + 1) =~= dotted(rest));
        assert(seq![v[0]] + rest =~= v);
        assert forall|i: int| 0 <= i < s.len() implies is_digit(#[trigger] s[i]) || s[i] == '.' by {
            if i < d.len() {
                assert(s[i] == d[i]);
            } else if i > d.len() {
                assert(s[i] == dotted(rest)[i - d.len() - 1]);
            }
        }
    }
    lemma_no_suffix(dotted(v));
}

proof fn lemma_no_suffix(s: Seq<char>)
    requires
        forall|i: int| 0 <= i < s.len() ==> #[trigger] s[i] != '-' && s[i] != '+',
    ensures
        base_len(s) == s.len(),
        upstream(s) == s,
    decreases s.len(),
{
    if s.len() > 0 {
        assert(s[0] != '-');
        assert forall|i: int| 0 <= i < s.skip(1).len() implies #[trigger] s.skip(1)[i] != '-'
            && s.skip(1)[i] != '+' by {
            assert(s.skip(1)[i] == s[i + 1]);
        }
        lemma_no_suffix(s.skip(1));
    }
    assert(s.take(s.len() as int) =~= s);
}

/// Of two versions with as many numbers, the one with the larger number at the
/// first place where they differ is newer, whatever follows and whatever suffix
/// they carry.
pub proof fn the_first_larger_number_decides(a: Seq<nat>, b: Seq<nat>, i: int)
    requires
        a.len() == b.len(),
        holdable(a),
        holdable(b),
        0 <= i < a.len(),
        forall|j: int| 0 <= j < i ==> #[trigger] a[j] == b[j],
        a[i] > b[i],
    ensures
        newer(dotted(a), dotted(b)),
        !newer(dotted(b), dotted(a)),
{
    a_written_version_reads_back(a);
    a_written_version_reads_back(b);
    assert(field_at(a, i) > field_at(b, i));
    assert(agree_before(a, b, i)) by {
        assert forall|j: int| 0 <= j < i implies #[trigger] field_at(a, j) == field_at(b, j) by {
            assert(a[j] == b[j]);
        }
    }
    newer_is_asymmetric(dotted(a), dotted(b));
}

/// A number that is missing counts as zero: a zero written behind a version makes
/// it neither newer nor older, and any other number makes it newer.
pub proof fn a_missing_number_counts_as_zero(a: Seq<nat>, n: nat)
    requires
        a.len() > 0,
        holdable(a),
        n <= u64::MAX,
    ensures
        newer(dotted(a.push(n)), dotted(a)) <==> n > 0,
        !newer(dotted(a), dotted(a.push(n))),
        !newer(dotted(a), dotted(a)),
{
    let b = a.push(n);
    assert forall|i: int| 0 <= i < b.len() implies #[trigger] b[i] <= u64::MAX by {
        if i < a.len() {
            assert(b[i] == a[i]);
        }
    }
    a_written_version_reads_back(a);
    a_written_version_reads_back(b);
    assert forall|j: int| 0 <= j && j != a.len() implies #[trigger] field_at(b, j) == field_at(
        a,
        j,
    ) by {}
    let at = a.len() as int;
    assert(field_at(b, at) == n && field_at(a, at) == 0);
    if n > 0 {
        assert(agree_before(b, a, at));
        assert(greater(b, a));
    } else {
        assert forall|i: int| 0 <= i implies !(#[trigger] field_at(b, i) > field_at(a, i)) by {}
    }
    assert forall|i: int| 0 <= i implies !(#[trigger] field_at(a, i) > field_at(b, i)) by {}
    newer_is_asymmetric(dotted(a), dotted(a));
}

} // verus!
