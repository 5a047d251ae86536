//! Dotted version numbers (`1.27.29`) and the daemon-compatibility rules built on them.
use vstd::prelude::*;

verus! {

/// Whether `c` is one of the ASCII digits `0`..=`9`.
pub open spec fn is_digit(c: char) -> bool {
    '0' <= c && c <= '9'
}

/// Whether every character of `s` is an ASCII digit.
pub open spec fn all_digits(s: Seq<char>) -> bool {
    forall|i: int| 0 <= i < s.len() ==> is_digit(#[trigger] s[i])
}

/// The longest prefix of `s` made only of ASCII digits.
pub open spec fn leading_digits(s: Seq<char>) -> Seq<char>
    decreases s.len(),
{
    if all_digits(s) {
        s
    } else {
        leading_digits(s.drop_last())
    }
}

/// The decimal value of a string of ASCII digits.
pub open spec fn digits_value(s: Seq<char>) -> nat
    decreases s.len(),
{
    if s.len() == 0 {
        0
    } else {
        digits_value(s.drop_last()) * 10 + ((s.last() as int) - ('0' as int)) as nat
    }
}

/// The fields of `s` between occurrences of `sep`: every character either
/// extends the current field or, when it is `sep`, starts a new empty one.
pub open spec fn split_on(s: Seq<char>, sep: char) -> Seq<Seq<char>>
    decreases s.len(),
{
    if s.len() == 0 {
        seq![Seq::<char>::empty()]
    } else {
        let prev = split_on(s.drop_last(), sep);
        if s.last() == sep {
            prev.push(Seq::<char>::empty())
        } else {
            prev.update(prev.len() - 1, prev.last().push(s.last()))
        }
    }
}

/// The numeric value of one version field: the number written by its leading
/// digits (`0` when there are none), capped at `u64::MAX`.
pub open spec fn field_value(field: Seq<char>) -> nat {
    let v = digits_value(leading_digits(field));
    if v <= u64::MAX {
        v
    } else {
        u64::MAX as nat
    }
}

/// The comparison key of a version string: the value of each `.`-separated field.
pub open spec fn version_key(s: Seq<char>) -> Seq<nat> {
    split_on(s, '.').map_values(|field: Seq<char>| field_value(field))
}

/// Lexicographic order on keys, where a proper prefix sorts first.
pub open spec fn key_less(a: Seq<nat>, b: Seq<nat>) -> bool {
    exists|k: int|
        #![trigger a.take(k), b.take(k)]
        0 <= k <= a.len() && k <= b.len() && a.take(k) == b.take(k) && ((k < a.len() && k
            < b.len() && a[k] < b[k]) || (k == a.len() && k < b.len()))
}

/// `candidate` is a newer version than `current`.
pub open spec fn newer_spec(current: Seq<char>, candidate: Seq<char>) -> bool {
    key_less(version_key(current), version_key(candidate))
}

pub proof fn lemma_split_on_nonempty(s: Seq<char>, sep: char)
    ensures
        split_on(s, sep).len() >= 1,
    decreases s.len(),
{
    if s.len() > 0 {
        lemma_split_on_nonempty(s.drop_last(), sep);
    }
}

proof fn lemma_leading_digits_push(s: Seq<char>, c: char)
    ensures
        all_digits(s.push(c)) == (all_digits(s) && is_digit(c)),
        leading_digits(s.push(c)) == (if all_digits(s.push(c)) {
            s.push(c)
        } else {
            leading_digits(s)
        }),
{
    assert(s.push(c).drop_last() == s);
    if all_digits(s) && is_digit(c) {
        assert forall|i: int| 0 <= i < s.push(c).len() implies is_digit(#[trigger] s.push(c)[i]) by {
            if i < s.len() {
                assert(s.push(c)[i] == s[i]);
            }
        }
    }
    if all_digits(s.push(c)) {
        assert forall|i: int| 0 <= i < s.len() implies is_digit(#[trigger] s[i]) by {
            assert(s.push(c)[i] == s[i]);
        }
        assert(is_digit(s.push(c)[s.len() as int]));
    }
}

proof fn lemma_capped_step(v: nat, d: nat)
    requires
        d < 10,
    ensures
        ({
            let capped = if v <= u64::MAX { v } else { u64::MAX as nat };
            let next = capped * 10 + d;
            let full = v * 10 + d;
            (if next <= u64::MAX { next } else { u64::MAX as nat }) == (if full <= u64::MAX {
                full
            } else {
                u64::MAX as nat
            })
        }),
{
    if v > u64::MAX {
        assert(v * 10 + d > u64::MAX) by (nonlinear_arith)
            requires
                v > u64::MAX,
        ;
        assert((u64::MAX as nat) * 10 + d > u64::MAX) by (nonlinear_arith);
    }
}

/// Parses the comparison key of `s`, one capped number per `.`-separated field.
pub fn version_key_of(s: &str) -> (key: Vec<u64>)
    ensures
        key@.len() == version_key(s@).len(),
        forall|i: int| 0 <= i < key@.len() ==> key@[i] as nat == #[trigger] version_key(s@)[i],
{
    let cs = crate::text::chars_of(s);
    let mut key: Vec<u64> = Vec::new();
    let mut cur: u64 = 0;
    let mut leading: bool = true;
    let ghost mut parts: Seq<Seq<char>> = seq![Seq::<char>::empty()];
    let mut idx: usize = 0;
    while idx < cs.len()
        invariant
            cs@ == s@,
            idx <= cs@.len(),
            parts == split_on(cs@.take(idx as int), '.'),
            parts.len() == key@.len() + 1,
            forall|i: int| 0 <= i < key@.len() ==> key@[i] as nat == field_value(#[trigger] parts[i]),
            cur as nat == field_value(parts.last()),
            leading == all_digits(parts.last()),
        decreases cs@.len() - idx,
    {
        let c = cs[idx];
        let ghost pre = cs@.take(idx as int);
        proof {
            assert(cs@.take(idx + 1) == pre.push(c));
            assert(pre.push(c).drop_last() == pre);
            lemma_split_on_nonempty(pre, '.');
        }
        if c == '.' {
            key.push(cur);
            cur = 0;
            leading = true;
            proof {
                parts = parts.push(Seq::<char>::empty());
                assert(all_digits(Seq::<char>::empty()));
                assert(leading_digits(Seq::<char>::empty()) == Seq::<char>::empty());
                assert(digits_value(Seq::<char>::empty()) == 0);
            }
        } else {
            let ghost last = parts.last();
            proof {
                lemma_leading_digits_push(last, c);
            }
            if leading && '0' <= c && c <= '9' {
                let d: u64 = (c as u64) - ('0' as u64);
                proof {
                    let v = digits_value(leading_digits(last));
                    assert(leading_digits(last) == last);
                    assert(last.push(c).drop_last() == last);
                    assert(digits_value(last.push(c)) == v * 10 + d);
                    lemma_capped_step(v, d as nat);
                }
                if cur > (u64::MAX - d) / 10 {
                    proof {
                        assert(cur * 10 + d > u64::MAX) by (nonlinear_arith)
                            requires
                                cur > (u64::MAX - d) / 10,
                                d < 10,
                        ;
                    }
                    cur = u64::MAX;
                } else {
                    proof {
                        assert(cur * 10 + d <= u64::MAX) by (nonlinear_arith)
                            requires
                                cur <= (u64::MAX - d) / 10,
                                d < 10,
                        ;
                    }
                    cur = cur * 10 + d;
                }
            } else {
                leading = false;
            }
            proof {
                parts = parts.update(parts.len() - 1, last.push(c));
            }
        }
        proof {
            assert forall|i: int| 0 <= i < key@.len() implies key@[i] as nat == field_value(
                #[trigger] parts[i],
            ) by {}
        }
        idx += 1;
    }
    proof {
        assert(cs@.take(cs@.len() as int) == s@);
    }
    key.push(cur);
    proof {
        assert forall|i: int| 0 <= i < key@.len() implies key@[i] as nat == #[trigger] version_key(
            s@,
        )[i] by {}
    }
    key
}

} // verus!

verus! {

/// Lexicographic comparison of two keys, a proper prefix sorting first.
pub fn key_less_exec(a: &Vec<u64>, b: &Vec<u64>) -> (r: bool)
    ensures
        r == key_less(
            a@.map_values(|x: u64| x as nat),
            b@.map_values(|x: u64| x as nat),
        ),
{
    let ghost am = a@.map_values(|x: u64| x as nat);
    let ghost bm = b@.map_values(|x: u64| x as nat);
    let mut i: usize = 0;
    while i < a.len() && i < b.len()
        invariant
            i <= a@.len(),
            i <= b@.len(),
            am == a@.map_values(|x: u64| x as nat),
            bm == b@.map_values(|x: u64| x as nat),
            am.take(i as int) == bm.take(i as int),
        decreases a@.len() - i,
    {
        if a[i] < b[i] {
            assert(am.take(i as int) == bm.take(i as int));
            return true;
        }
        if a[i] > b[i] {
            assert forall|k: int|
                0 <= k <= am.len() && k <= bm.len() && #[trigger] am.take(k) == #[trigger] bm.take(
                    k,
                ) implies !((k < am.len() && k < bm.len() && am[k] < bm[k]) || (k == am.len() && k
                < bm.len())) by {
                if k < i {
                    assert(am[k] == am.take(i as int)[k]);
                    assert(bm[k] == bm.take(i as int)[k]);
                } else if k > i {
                    assert(am[i as int] == am.take(k)[i as int]);
                    assert(bm[i as int] == bm.take(k)[i as int]);
                }
            }
            return false;
        }
        assert(am.take(i + 1) == am.take(i as int).push(am[i as int]));
        assert(bm.take(i + 1) == bm.take(i as int).push(bm[i as int]));
        i += 1;
    }
    if a.len() < b.len() {
        assert(am.take(i as int) == bm.take(i as int));
        true
    } else {
        assert forall|k: int|
            0 <= k <= am.len() && k <= bm.len() && #[trigger] am.take(k) == #[trigger] bm.take(
                k,
            ) implies !((k < am.len() && k < bm.len() && am[k] < bm[k]) || (k == am.len() && k
            < bm.len())) by {
            if k < i {
                assert(am[k] == am.take(i as int)[k]);
                assert(bm[k] == bm.take(i as int)[k]);
            }
        }
        false
    }
}

proof fn lemma_key_of(key: Seq<u64>, s: Seq<char>)
    requires
        key.len() == version_key(s).len(),
        forall|i: int| 0 <= i < key.len() ==> key[i] as nat == #[trigger] version_key(s)[i],
    ensures
        key.map_values(|x: u64| x as nat) == version_key(s),
{
    assert(key.map_values(|x: u64| x as nat) =~= version_key(s));
}

/// Whether `candidate` names a newer version than `current`: the two are
/// compared field by field as numbers, and a version that extends the other
/// with more fields is the newer one.
pub fn is_newer(current: &str, candidate: &str) -> (r: bool)
    ensures
        r == newer_spec(current@, candidate@),
{
    let a = version_key_of(current);
    let b = version_key_of(candidate);
    proof {
        lemma_key_of(a@, current@);
        lemma_key_of(b@, candidate@);
    }
    key_less_exec(&a, &b)
}

/// No key sorts before itself.
pub proof fn lemma_key_less_irreflexive(a: Seq<nat>)
    ensures
        !key_less(a, a),
{
}

/// Of two keys, at most one sorts before the other.
pub proof fn lemma_key_less_asymmetric(a: Seq<nat>, b: Seq<nat>)
    requires
        key_less(a, b),
    ensures
        !key_less(b, a),
{
    let k = choose|k: int|
        #![trigger a.take(k), b.take(k)]
        0 <= k <= a.len() && k <= b.len() && a.take(k) == b.take(k) && ((k < a.len() && k
            < b.len() && a[k] < b[k]) || (k == a.len() && k < b.len()));
    assert forall|j: int|
        0 <= j <= b.len() && j <= a.len() && #[trigger] b.take(j) == #[trigger] a.take(
            j,
        ) implies !((j < b.len() && j < a.len() && b[j] < a[j]) || (j == b.len() && j
        < a.len())) by {
        if j < k {
            assert(a[j] == a.take(k)[j]);
            assert(b[j] == b.take(k)[j]);
        } else if j > k {
            assert(a[k] == a.take(j)[k]);
            assert(b[k] == b.take(j)[k]);
        }
    }
}

/// Sorting before is transitive.
pub proof fn lemma_key_less_transitive(a: Seq<nat>, b: Seq<nat>, c: Seq<nat>)
    requires
        key_less(a, b),
        key_less(b, c),
    ensures
        key_less(a, c),
{
    let k1 = choose|k: int|
        #![trigger a.take(k), b.take(k)]
        0 <= k <= a.len() && k <= b.len() && a.take(k) == b.take(k) && ((k < a.len() && k
            < b.len() && a[k] < b[k]) || (k == a.len() && k < b.len()));
    let k2 = choose|k: int|
        #![trigger b.take(k), c.take(k)]
        0 <= k <= b.len() && k <= c.len() && b.take(k) == c.take(k) && ((k < b.len() && k
            < c.len() && b[k] < c[k]) || (k == b.len() && k < c.len()));
    let k = if k1 <= k2 { k1 } else { k2 };
    assert(a.take(k) =~= c.take(k)) by {
        assert forall|j: int| 0 <= j < k implies a.take(k)[j] == c.take(k)[j] by {
            assert(a[j] == a.take(k1)[j]);
            assert(b[j] == b.take(k1)[j]);
            assert(b[j] == b.take(k2)[j]);
            assert(c[j] == c.take(k2)[j]);
        }
    }
    if k1 < k2 {
        assert(b[k1] == b.take(k2)[k1]);
        assert(c[k1] == c.take(k2)[k1]);
    } else if k2 < k1 {
        assert(a[k2] == a.take(k1)[k2]);
        assert(b[k2] == b.take(k1)[k2]);
    }
    assert(0 <= k <= a.len() && k <= c.len() && a.take(k) == c.take(k) && ((k < a.len() && k
        < c.len() && a[k] < c[k]) || (k == a.len() && k < c.len())));
}

/// No version is newer than itself.
pub proof fn lemma_not_newer_than_itself(v: Seq<char>)
    ensures
        !newer_spec(v, v),
{
    lemma_key_less_irreflexive(version_key(v));
}

/// Of two versions, at most one is newer than the other.
pub proof fn lemma_newer_asymmetric(a: Seq<char>, b: Seq<char>)
    requires
        newer_spec(a, b),
    ensures
        !newer_spec(b, a),
{
    lemma_key_less_asymmetric(version_key(a), version_key(b));
}

/// Being newer is transitive.
pub proof fn lemma_newer_transitive(a: Seq<char>, b: Seq<char>, c: Seq<char>)
    requires
        newer_spec(a, b),
        newer_spec(b, c),
    ensures
        newer_spec(a, c),
{
    lemma_key_less_transitive(version_key(a), version_key(b), version_key(c));
}


/// A string without the separator is a single field.
pub proof fn lemma_split_no_sep(x: Seq<char>, sep: char)
    requires
        forall|i: int| 0 <= i < x.len() ==> #[trigger] x[i] != sep,
    ensures
        split_on(x, sep) == seq![x],
    decreases x.len(),
{
    if x.len() > 0 {
        assert forall|i: int| 0 <= i < x.drop_last().len() implies #[trigger] x.drop_last()[i]
            != sep by {
            assert(x.drop_last()[i] == x[i]);
        }
        lemma_split_no_sep(x.drop_last(), sep);
        assert(x.drop_last().push(x.last()) == x);
        assert(seq![x.drop_last()].update(0, x.drop_last().push(x.last())) =~= seq![x]);
    } else {
        assert(x =~= Seq::<char>::empty());
    }
}

/// Splitting distributes over a separator: the fields of `x`, `sep`, `y` are
/// the fields of `x` followed by the fields of `y`.
pub proof fn lemma_split_sep_concat(x: Seq<char>, y: Seq<char>, sep: char)
    ensures
        split_on(x.push(sep) + y, sep) == split_on(x, sep) + split_on(y, sep),
    decreases y.len(),
{
    lemma_split_on_nonempty(x, sep);
    if y.len() == 0 {
        assert(x.push(sep) + y =~= x.push(sep));
        assert(x.push(sep).drop_last() =~= x);
        assert(split_on(y, sep) =~= seq![Seq::<char>::empty()]);
        assert(split_on(x, sep).push(Seq::<char>::empty()) =~= split_on(x, sep) + seq![
            Seq::<char>::empty(),
        ]);
    } else {
        let yp = y.drop_last();
        let c = y.last();
        lemma_split_sep_concat(x, yp, sep);
        lemma_split_on_nonempty(yp, sep);
        assert((x.push(sep) + y).drop_last() =~= x.push(sep) + yp);
        assert((x.push(sep) + y).last() == c);
        assert(y.drop_last() == yp);
        let px = split_on(x, sep);
        let py = split_on(yp, sep);
        if c == sep {
            assert((px + py).push(Seq::<char>::empty()) =~= px + py.push(Seq::<char>::empty()));
        } else {
            assert((px + py).last() == py.last());
            assert((px + py).update((px + py).len() - 1, py.last().push(c)) =~= px + py.update(
                py.len() - 1,
                py.last().push(c),
            ));
        }
    }
}

/// The value of a field made only of digits is the number it spells, capped.
pub proof fn lemma_field_value_all_digits(f: Seq<char>)
    requires
        all_digits(f),
    ensures
        field_value(f) == (if digits_value(f) <= u64::MAX {
            digits_value(f)
        } else {
            u64::MAX as nat
        }),
{
}

} // verus!
