//! The order in which the App Store Connect page lists apps (by name, then
//! bundle id) and projects (by label): texts are compared character by
//! character, by code point, a proper prefix first; the sort is stable.
use vstd::prelude::*;
use crate::asc_presentation::AppleWorkspaceProjectSummary;
use crate::asc_workspace::AscAppSummary;

verus! {

/// Whether the text `a` comes before the text `b`.
pub open spec fn text_before(a: Seq<char>, b: Seq<char>) -> bool
    decreases a.len(),
{
    if a.len() == 0 {
        b.len() > 0
    } else if b.len() == 0 {
        false
    } else if a[0] != b[0] {
        (a[0] as int) < (b[0] as int)
    } else {
        text_before(a.drop_first(), b.drop_first())
    }
}

/// Coming before is transitive.
pub proof fn lemma_text_before_transitive(a: Seq<char>, b: Seq<char>, c: Seq<char>)
    requires
        text_before(a, b),
        text_before(b, c),
    ensures
        text_before(a, c),
    decreases a.len(),
{
    if a.len() > 0 && b.len() > 0 && c.len() > 0 && a[0] == b[0] && b[0] == c[0] {
        lemma_text_before_transitive(a.drop_first(), b.drop_first(), c.drop_first());
    }
}

/// No text comes before itself.
pub proof fn lemma_text_before_irreflexive(a: Seq<char>)
    ensures
        !text_before(a, a),
    decreases a.len(),
{
    if a.len() > 0 {
        lemma_text_before_irreflexive(a.drop_first());
    }
}

/// Of two different texts, one comes before the other.
pub proof fn lemma_text_before_total(a: Seq<char>, b: Seq<char>)
    requires
        a != b,
    ensures
        text_before(a, b) || text_before(b, a),
    decreases a.len(),
{
    if a.len() == 0 && b.len() == 0 {
        assert(a =~= b);
    } else if a.len() > 0 && b.len() > 0 {
        if a[0] == b[0] {
            assert(a.drop_first() != b.drop_first()) by {
                if a.drop_first() == b.drop_first() {
                    assert(a =~= seq![a[0]] + a.drop_first());
                    assert(b =~= seq![b[0]] + b.drop_first());
                }
            }
            lemma_text_before_total(a.drop_first(), b.drop_first());
        } else {
            assert((a[0] as int) != (b[0] as int));
        }
    }
}

/// Whether `a` comes before `b` at position `i`, given that they agree
/// before it.
proof fn lemma_text_before_from(a: Seq<char>, b: Seq<char>, i: int)
    requires
        0 <= i <= a.len(),
        i <= b.len(),
        forall|j: int| 0 <= j < i ==> a[j] == b[j],
    ensures
        text_before(a, b) == text_before(a.skip(i), b.skip(i)),
    decreases i,
{
    if i > 0 {
        lemma_text_before_from(a.drop_first(), b.drop_first(), i - 1);
        assert(a.drop_first().skip(i - 1) =~= a.skip(i));
        assert(b.drop_first().skip(i - 1) =~= b.skip(i));
    } else {
        assert(a.skip(0) =~= a);
        assert(b.skip(0) =~= b);
    }
}

/// Whether the text `a` comes before the text `b`.
pub fn text_is_before(a: &str, b: &str) -> (r: bool)
    ensures
        r == text_before(a@, b@),
{
    let n = a.unicode_len();
    let m = b.unicode_len();
    let mut i: usize = 0;
    while i < n && i < m
        invariant
            n == a@.len(),
            m == b@.len(),
            i <= n,
            i <= m,
            forall|j: int| 0 <= j < i ==> a@[j] == b@[j],
        decreases n - i,
    {
        let x = a.get_char(i);
        let y = b.get_char(i);
        if x != y {
            proof {
                lemma_text_before_from(a@, b@, i as int);
                assert(a@.skip(i as int)[0] == x);
                assert(b@.skip(i as int)[0] == y);
            }
            return (x as u32) < (y as u32);
        }
        i = i + 1;
    }
    proof {
        lemma_text_before_from(a@, b@, i as int);
    }
    i == n && i < m
}

/// Where `x` goes among the sorted `s`: before the first element that it
/// comes before, at or after `start`; at the end when there is none.
pub open spec fn insert_position<T>(s: Seq<T>, x: T, before: spec_fn(T, T) -> bool, start: int) -> int
    decreases s.len() - start,
{
    if start < 0 || start >= s.len() {
        s.len() as int
    } else if before(x, s[start]) {
        start
    } else {
        insert_position(s, x, before, start + 1)
    }
}

/// `s` sorted by insertion, in the order `before`: each element goes
/// after every element that it does not come before, so that elements of
/// equal rank keep their order.
pub open spec fn sorted_by<T>(s: Seq<T>, before: spec_fn(T, T) -> bool) -> Seq<T>
    decreases s.len(),
{
    if s.len() == 0 {
        s
    } else {
        let r = sorted_by(s.drop_last(), before);
        r.insert(insert_position(r, s.last(), before, 0), s.last())
    }
}

/// No element comes before one that precedes it.
pub open spec fn is_sorted_by<T>(s: Seq<T>, before: spec_fn(T, T) -> bool) -> bool {
    forall|i: int, j: int| 0 <= i < j < s.len() ==> !before(#[trigger] s[j], #[trigger] s[i])
}

/// Whether `before` is transitive.
pub open spec fn transitive<T>(before: spec_fn(T, T) -> bool) -> bool {
    forall|a: T, b: T, c: T| #[trigger] before(a, b) && #[trigger] before(b, c) ==> before(a, c)
}

/// Whether nothing comes before itself in `before`.
pub open spec fn irreflexive<T>(before: spec_fn(T, T) -> bool) -> bool {
    forall|a: T| !#[trigger] before(a, a)
}

proof fn lemma_insert_position<T>(s: Seq<T>, x: T, before: spec_fn(T, T) -> bool, start: int)
    requires
        0 <= start <= s.len(),
    ensures
        start <= insert_position(s, x, before, start) <= s.len(),
        forall|j: int| start <= j < insert_position(s, x, before, start) ==> !before(x, s[j]),
        insert_position(s, x, before, start) < s.len() ==> before(
            x,
            s[insert_position(s, x, before, start)],
        ),
    decreases s.len() - start,
{
    if start < s.len() && !before(x, s[start]) {
        lemma_insert_position(s, x, before, start + 1);
    }
}

/// The result of sorting has the length of what was sorted.
pub proof fn lemma_sorted_by_len<T>(s: Seq<T>, before: spec_fn(T, T) -> bool)
    ensures
        sorted_by(s, before).len() == s.len(),
    decreases s.len(),
{
    if s.len() > 0 {
        let r = sorted_by(s.drop_last(), before);
        lemma_sorted_by_len(s.drop_last(), before);
        lemma_insert_position(r, s.last(), before, 0);
    }
}

/// Sorting in a strict order gives a sorted sequence.
pub proof fn lemma_sorted_by_is_sorted<T>(s: Seq<T>, before: spec_fn(T, T) -> bool)
    requires
        transitive(before),
        irreflexive(before),
    ensures
        is_sorted_by(sorted_by(s, before), before),
    decreases s.len(),
{
    if s.len() > 0 {
        let r = sorted_by(s.drop_last(), before);
        let x = s.last();
        lemma_sorted_by_is_sorted(s.drop_last(), before);
        lemma_insert_position(r, x, before, 0);
        let p = insert_position(r, x, before, 0);
        let t = r.insert(p, x);
        r.insert_ensures(p, x);
        assert(t == sorted_by(s, before));
        assert forall|i: int, j: int| 0 <= i < j < t.len() implies !before(
            #[trigger] t[j],
            #[trigger] t[i],
        ) by {
            if j < p {
                assert(t[i] == r[i] && t[j] == r[j]);
            } else if j == p {
                assert(t[i] == r[i]);
            } else if i == p {
                assert(t[j] == r[j - 1]);
                assert(t[i] == x);
                if before(r[j - 1], x) {
                    assert(before(x, r[p]));
                    assert(before(r[j - 1], r[p]));
                    if j - 1 > p {
                        assert(!before(r[j - 1], r[p]));
                    } else {
                        assert(!before(r[p], r[p]));
                    }
                }
            } else if i < p {
                assert(t[i] == r[i] && t[j] == r[j - 1]);
            } else {
                assert(t[i] == r[i - 1] && t[j] == r[j - 1]);
            }
        }
    }
}

/// Sorting keeps every element, as often as it occurs.
pub proof fn lemma_sorted_by_permutes<T>(s: Seq<T>, before: spec_fn(T, T) -> bool)
    ensures
        sorted_by(s, before).to_multiset() =~= s.to_multiset(),
    decreases s.len(),
{
    broadcast use vstd::seq_lib::group_to_multiset_ensures;
    broadcast use vstd::multiset::group_multiset_axioms;

    if s.len() > 0 {
        let r = sorted_by(s.drop_last(), before);
        let x = s.last();
        lemma_sorted_by_permutes(s.drop_last(), before);
        lemma_insert_position(r, x, before, 0);
        let p = insert_position(r, x, before, 0);
        let t = r.insert(p, x);
        assert(t.remove(p) =~= r);
        assert(t[p] == x);
        assert(t.to_multiset().remove(x) =~= r.to_multiset());
        assert(t.contains(x));
        assert(s.drop_last().push(x) =~= s);
        assert(t.to_multiset() =~= r.to_multiset().insert(x));
    }
}

/// Whether the app `a` is listed before the app `b`: by name, then by
/// bundle id.
pub open spec fn app_before(a: AscAppSummary, b: AscAppSummary) -> bool {
    text_before(a.name@, b.name@) || (a.name@ == b.name@ && text_before(
        a.bundle_id@,
        b.bundle_id@,
    ))
}

/// The order of apps, as a function.
pub open spec fn app_order() -> spec_fn(AscAppSummary, AscAppSummary) -> bool {
    |a: AscAppSummary, b: AscAppSummary| app_before(a, b)
}

/// The order of projects, by label, as a function.
pub open spec fn project_order() -> spec_fn(AppleWorkspaceProjectSummary, AppleWorkspaceProjectSummary) -> bool {
    |a: AppleWorkspaceProjectSummary, b: AppleWorkspaceProjectSummary| text_before(a.label@, b.label@)
}

fn copy_text(o: &Option<String>) -> (r: Option<String>)
    ensures
        r == *o,
{
    match o {
        Some(s) => Some(s.clone()),
        None => None,
    }
}

fn copy_app(a: &AscAppSummary) -> (r: AscAppSummary)
    ensures
        r == *a,
{
    AscAppSummary {
        id: a.id.clone(),
        name: a.name.clone(),
        bundle_id: a.bundle_id.clone(),
        sku: a.sku.clone(),
        primary_locale: copy_text(&a.primary_locale),
    }
}

fn app_is_before(a: &AscAppSummary, b: &AscAppSummary) -> (r: bool)
    ensures
        r == app_before(*a, *b),
{
    if text_is_before(a.name.as_str(), b.name.as_str()) {
        return true;
    }
    crate::text::str_eq(a.name.as_str(), b.name.as_str()) && text_is_before(
        a.bundle_id.as_str(),
        b.bundle_id.as_str(),
    )
}

/// The apps ordered by name, then bundle id; apps with both equal keep
/// their order.
pub fn sort_apps(apps: Vec<AscAppSummary>) -> (r: Vec<AscAppSummary>)
    ensures
        r@ == sorted_by(apps@, app_order()),
{
    let mut r: Vec<AscAppSummary> = Vec::new();
    let mut i: usize = 0;
    while i < apps.len()
        invariant
            i <= apps@.len(),
            r@ == sorted_by(apps@.take(i as int), app_order()),
        decreases apps@.len() - i,
    {
        let a = copy_app(&apps[i]);
        let ghost before_r = r@;
        let mut k: usize = 0;
        while k < r.len()
            invariant
                r@ == before_r,
                k <= r@.len(),
                insert_position(r@, a, app_order(), 0) == insert_position(
                    r@,
                    a,
                    app_order(),
                    k as int,
                ),
            ensures
                r@ == before_r,
                k <= r@.len(),
                insert_position(r@, a, app_order(), 0) == k as int,
            decreases r@.len() - k,
        {
            if app_is_before(&a, &r[k]) {
                break;
            }
            k = k + 1;
        }
        proof {
            assert(apps@.take(i + 1).drop_last() =~= apps@.take(i as int));
            assert(apps@.take(i + 1).last() == apps@[i as int]);
        }
        r.insert(k, a);
        i = i + 1;
    }
    assert(apps@.take(apps@.len() as int) =~= apps@);
    r
}

/// The projects ordered by label; projects with equal labels keep their
/// order.
pub fn sort_projects(projects: Vec<AppleWorkspaceProjectSummary>) -> (r: Vec<
    AppleWorkspaceProjectSummary,
>)
    ensures
        r@ == sorted_by(projects@, project_order()),
{
    let ghost all = projects@;
    let mut rest = projects;
    let mut r: Vec<AppleWorkspaceProjectSummary> = Vec::new();
    let ghost mut i: int = 0;
    while rest.len() > 0
        invariant
            0 <= i <= all.len(),
            rest@ == all.skip(i),
            r@ == sorted_by(all.take(i), project_order()),
        decreases rest@.len(),
    {
        let x = rest.remove(0);
        proof {
            assert(x == all[i]);
            assert(rest@ =~= all.skip(i + 1));
        }
        let ghost before_r = r@;
        let mut k: usize = 0;
        while k < r.len()
            invariant
                r@ == before_r,
                k <= r@.len(),
                insert_position(r@, x, project_order(), 0) == insert_position(
                    r@,
                    x,
                    project_order(),
                    k as int,
                ),
            ensures
                r@ == before_r,
                k <= r@.len(),
                insert_position(r@, x, project_order(), 0) == k as int,
            decreases r@.len() - k,
        {
            if text_is_before(x.label.as_str(), r[k].label.as_str()) {
                break;
            }
            k = k + 1;
        }
        proof {
            assert(all.take(i + 1).drop_last() =~= all.take(i));
            assert(all.take(i + 1).last() == all[i]);
        }
        r.insert(k, x);
        proof {
            i = i + 1;
        }
    }
    assert(all.take(i) =~= all);
    r
}

} // verus!
