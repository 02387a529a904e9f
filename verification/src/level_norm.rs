//! Normalization of universe levels and the comparisons built on it.
use vstd::prelude::*;

use crate::level::{
    base, depth, depth_limit, imax_ok, is_explicit, kind_num, levels_equal, max_ok, offset, size,
    spec_imax, spec_max, succ_n, Level, LevelV,
};
use crate::level_ops::{geq_core, lemma_base_size};
use crate::name_order::{compare_names, name_order};

verus! {

/// The arguments of nested `max` nodes, left to right.
pub open spec fn max_args(l: LevelV) -> Seq<LevelV>
    decreases l,
{
    match l {
        LevelV::Max(a, b) => max_args(*a) + max_args(*b),
        _ => seq![l],
    }
}

/// The order in which normalization sorts the arguments of a `max`.
pub open spec fn norm_lt(a: LevelV, b: LevelV) -> bool
    decreases size(a),
{
    let l1 = base(a);
    let l2 = base(b);
    if l1 != l2 {
        if kind_num(l1) != kind_num(l2) {
            kind_num(l1) < kind_num(l2)
        } else {
            match (l1, l2) {
                (LevelV::Param(n1), LevelV::Param(n2)) => name_order(n1, n2) < 0,
                (LevelV::MVar(n1), LevelV::MVar(n2)) => name_order(n1, n2) < 0,
                (LevelV::Max(a1, a2), LevelV::Max(b1, b2)) => {
                    proof {
                        lemma_base_size(a);
                    }
                    if *a1 != *b1 {
                        norm_lt(*a1, *b1)
                    } else {
                        norm_lt(*a2, *b2)
                    }
                },
                (LevelV::IMax(a1, a2), LevelV::IMax(b1, b2)) => {
                    proof {
                        lemma_base_size(a);
                    }
                    if *a1 != *b1 {
                        norm_lt(*a1, *b1)
                    } else {
                        norm_lt(*a2, *b2)
                    }
                },
                _ => false,
            }
        }
    } else {
        offset(a) < offset(b)
    }
}

/// `x` inserted into `s` before the first element it is `norm_lt`-below.
pub open spec fn insert_sorted(s: Seq<LevelV>, x: LevelV) -> Seq<LevelV>
    decreases s.len(),
{
    if s.len() == 0 {
        seq![x]
    } else if norm_lt(x, s[0]) {
        seq![x] + s
    } else {
        seq![s[0]] + insert_sorted(s.drop_first(), x)
    }
}

/// Stable sort of `s` by `norm_lt`.
pub open spec fn sort_levels(s: Seq<LevelV>) -> Seq<LevelV>
    decreases s.len(),
{
    if s.len() == 0 {
        s
    } else {
        insert_sorted(sort_levels(s.drop_last()), s.last())
    }
}

/// From an explicit `s[i]`, the last index of the run of explicit levels.
pub open spec fn last_explicit_from(s: Seq<LevelV>, i: int) -> int
    decreases s.len() - i,
{
    if 0 <= i && i + 1 < s.len() && is_explicit(s[i + 1]) {
        last_explicit_from(s, i + 1)
    } else {
        i
    }
}

/// The first index `>= j` whose offset is at least `k` (or `|s|`).
pub open spec fn first_offset_geq(s: Seq<LevelV>, j: int, k: nat) -> int
    decreases s.len() - j,
{
    if 0 <= j && j < s.len() && offset(s[j]) < k {
        first_offset_geq(s, j + 1, k)
    } else {
        j
    }
}

/// Where deduplication starts: the largest explicit level is dropped when a
/// later argument has at least its offset.
pub open spec fn dedup_start(s: Seq<LevelV>) -> int {
    if s.len() > 0 && is_explicit(s[0]) {
        let i = last_explicit_from(s, 0);
        let j = first_offset_geq(s, i + 1, offset(s[i]));
        if j < s.len() {
            i + 1
        } else {
            i
        }
    } else {
        0
    }
}

/// Keep, among neighbours with the same base, the one with the largest offset.
pub open spec fn dedup_from(s: Seq<LevelV>, i: int, acc: Seq<LevelV>) -> Seq<LevelV>
    decreases s.len() - i,
{
    if i < 0 || i >= s.len() || acc.len() == 0 {
        acc
    } else {
        let prev = acc.last();
        let curr = s[i];
        if base(prev) == base(curr) {
            if offset(prev) < offset(curr) {
                dedup_from(s, i + 1, acc.drop_last().push(curr))
            } else {
                dedup_from(s, i + 1, acc)
            }
        } else {
            dedup_from(s, i + 1, acc.push(curr))
        }
    }
}

/// The deduplicated arguments of a sorted argument list.
pub open spec fn dedup_levels(s: Seq<LevelV>) -> Seq<LevelV> {
    let st = dedup_start(s);
    if 0 <= st < s.len() {
        dedup_from(s, st + 1, seq![s[st]])
    } else {
        Seq::empty()
    }
}

/// Smart `max`, or `None` when it would exceed the depth limit.
pub open spec fn checked_max(a: LevelV, b: LevelV) -> Option<LevelV> {
    if max_ok(a, b) {
        Some(spec_max(a, b))
    } else {
        None
    }
}

/// `max a0 (max a1 (... an))` built with the smart constructor.
pub open spec fn fold_max(args: Seq<LevelV>) -> Option<LevelV>
    decreases args.len(),
{
    if args.len() == 0 {
        None
    } else if args.len() == 1 {
        Some(args[0])
    } else {
        match fold_max(args.drop_first()) {
            Some(r) => checked_max(args[0], r),
            None => None,
        }
    }
}

/// Each argument lifted by `k` successors, or `None` past the depth limit.
pub open spec fn lift_all(args: Seq<LevelV>, k: nat) -> Option<Seq<LevelV>> {
    if forall|i: int| 0 <= i < args.len() ==> depth(#[trigger] args[i]) + k <= depth_limit() {
        Some(args.map_values(|a: LevelV| succ_n(a, k)))
    } else {
        None
    }
}

/// The normal form of a level; `None` when some intermediate level would
/// exceed the depth limit.
pub open spec fn spec_normalize(l: LevelV) -> Option<LevelV>
    decreases size(l), 0int,
{
    let b = base(l);
    let k = offset(l);
    proof {
        lemma_base_size(l);
    }
    match b {
        LevelV::IMax(x, y) => match (spec_normalize(*x), spec_normalize(*y)) {
            (Some(nx), Some(ny)) => if imax_ok(nx, ny) && depth(spec_imax(nx, ny)) + k
                <= depth_limit() {
                Some(succ_n(spec_imax(nx, ny), k))
            } else {
                None
            },
            _ => None,
        },
        LevelV::Max(x, y) => match (norm_args(*x), norm_args(*y)) {
            (Some(ax), Some(ay)) => match lift_all(
                dedup_levels(sort_levels(ax + ay)),
                k,
            ) {
                Some(lifted) => fold_max(lifted),
                None => None,
            },
            _ => None,
        },
        _ => Some(l),
    }
}

/// Normalizing `l` never puts a level of depth `u32::MAX` into a `max` or
/// `imax`, nor lifts one past the depth limit.
pub open spec fn normalize_fits(l: LevelV) -> bool
    decreases size(l), 0int,
{
    let b = base(l);
    let k = offset(l);
    proof {
        lemma_base_size(l);
    }
    match b {
        LevelV::IMax(x, y) => normalize_fits(*x) && normalize_fits(*y) && match (
            spec_normalize(*x),
            spec_normalize(*y),
        ) {
            (Some(nx), Some(ny)) => depth(nx) < depth_limit() && depth(ny) < depth_limit() && depth(
                spec_imax(nx, ny),
            ) + k <= depth_limit(),
            _ => false,
        },
        LevelV::Max(x, y) => norm_args_fits(*x) && norm_args_fits(*y) && match (
            norm_args(*x),
            norm_args(*y),
        ) {
            (Some(ax), Some(ay)) => match lift_all(dedup_levels(sort_levels(ax + ay)), k) {
                Some(lifted) => fold_max_fits(lifted),
                None => false,
            },
            _ => false,
        },
        _ => true,
    }
}

/// Collecting the normalized arguments of `c` fits in the same way.
pub open spec fn norm_args_fits(c: LevelV) -> bool
    decreases size(c), 1int,
{
    match c {
        LevelV::Max(x, y) => norm_args_fits(*x) && norm_args_fits(*y),
        _ => normalize_fits(c),
    }
}

/// The normalized arguments contributed by one argument of a `max`.
pub open spec fn norm_args(c: LevelV) -> Option<Seq<LevelV>>
    decreases size(c), 1int,
{
    match c {
        LevelV::Max(x, y) => match (norm_args(*x), norm_args(*y)) {
            (Some(ax), Some(ay)) => Some(ax + ay),
            _ => None,
        },
        _ => match spec_normalize(c) {
            Some(n) => Some(max_args(n)),
            None => None,
        },
    }
}

/// Append the arguments of nested `max` nodes of `l` to `args`.
fn push_max_args(l: &Level, args: &mut Vec<Level>)
    ensures
        final(args)@.map_values(|x: Level| x@) == old(args)@.map_values(|x: Level| x@) + max_args(
            l@,
        ),
    decreases size(l@),
{
    if l.is_max() {
        let a = l.max_lhs();
        let b = l.max_rhs();
        push_max_args(a, args);
        push_max_args(b, args);
        proof {
            assert(max_args(l@) == max_args(a@) + max_args(b@));
        }
    } else {
        let ghost before = args@;
        args.push(l.clone());
        proof {
            assert(args@.map_values(|x: Level| x@) == before.map_values(|x: Level| x@).push(l@));
        }
    }
}

/// Whether `a` comes before `b` in the order normalization sorts by.
fn is_norm_lt(a: &Level, b: &Level) -> (r: bool)
    ensures
        r == norm_lt(a@, b@),
    decreases size(a@),
{
    let (l1, off1) = a.to_offset();
    let (l2, off2) = b.to_offset();
    proof {
        lemma_base_size(a@);
        lemma_base_size(b@);
    }
    if !levels_equal(&l1, &l2) {
        if l1.kind_num() != l2.kind_num() {
            return l1.kind_num() < l2.kind_num();
        }
        if l1.is_param() {
            return compare_names(l1.param_name(), l2.param_name()) < 0;
        }
        if l1.is_mvar() {
            return compare_names(l1.mvar_name(), l2.mvar_name()) < 0;
        }
        if l1.is_max() {
            let a1 = l1.max_lhs();
            let b1 = l2.max_lhs();
            if !levels_equal(a1, b1) {
                return is_norm_lt(a1, b1);
            } else {
                return is_norm_lt(l1.max_rhs(), l2.max_rhs());
            }
        }
        if l1.is_imax() {
            let a1 = l1.imax_lhs();
            let b1 = l2.imax_lhs();
            if !levels_equal(a1, b1) {
                return is_norm_lt(a1, b1);
            } else {
                return is_norm_lt(l1.imax_rhs(), l2.imax_rhs());
            }
        }
        false
    } else {
        off1 < off2
    }
}

proof fn lemma_insert_at(s: Seq<LevelV>, x: LevelV, p: int)
    requires
        0 <= p <= s.len(),
        forall|j: int| 0 <= j < p ==> !norm_lt(x, #[trigger] s[j]),
        p < s.len() ==> norm_lt(x, s[p]),
    ensures
        insert_sorted(s, x) == s.take(p).push(x) + s.skip(p),
    decreases s.len(),
{
    if s.len() == 0 {
        assert(s.take(p).push(x) + s.skip(p) == seq![x]);
    } else if p == 0 {
        assert(s.take(0).push(x) + s.skip(0) == seq![x] + s);
    } else {
        let t = s.drop_first();
        assert forall|j: int| 0 <= j < p - 1 implies !norm_lt(x, #[trigger] t[j]) by {
            assert(t[j] == s[j + 1]);
        }
        lemma_insert_at(t, x, p - 1);
        assert(s.take(p).push(x) + s.skip(p) == seq![s[0]] + (t.take(p - 1).push(x) + t.skip(
            p - 1,
        )));
    }
}

/// Stable insertion sort by `norm_lt`.
fn sort_by_norm_lt(v: Vec<Level>) -> (r: Vec<Level>)
    ensures
        r@.map_values(|x: Level| x@) == sort_levels(v@.map_values(|x: Level| x@)),
{
    let ghost vv = v@.map_values(|x: Level| x@);
    let mut out: Vec<Level> = Vec::new();
    let mut i: usize = 0;
    proof {
        assert(vv.take(0) == Seq::<LevelV>::empty());
    }
    while i < v.len()
        invariant
            i <= v@.len(),
            vv == v@.map_values(|x: Level| x@),
            out@.map_values(|x: Level| x@) == sort_levels(vv.take(i as int)),
        decreases v@.len() - i,
    {
        let x = v[i].clone();
        let ghost ov = out@.map_values(|y: Level| y@);
        let mut p: usize = 0;
        while p < out.len() && !is_norm_lt(&x, &out[p])
            invariant
                p <= out@.len(),
                ov == out@.map_values(|y: Level| y@),
                forall|j: int| 0 <= j < p ==> !norm_lt(x@, #[trigger] ov[j]),
            decreases out@.len() - p,
        {
            proof {
                assert(ov[p as int] == out@[p as int]@);
            }
            p = p + 1;
        }
        proof {
            if p < out@.len() {
                assert(ov[p as int] == out@[p as int]@);
            }
            lemma_insert_at(ov, x@, p as int);
            assert(vv.take(i + 1).drop_last() == vv.take(i as int));
            assert(vv.take(i + 1).last() == x@);
        }
        let ghost before = out@;
        out.insert(p, x);
        proof {
            assert(out@ == before.take(p as int).push(x) + before.skip(p as int));
            assert(out@.map_values(|y: Level| y@) == ov.take(p as int).push(x@) + ov.skip(
                p as int,
            ));
        }
        i = i + 1;
    }
    proof {
        assert(vv.take(v@.len() as int) == vv);
    }
    out
}

/// The deduplication step of normalization on a sorted argument list.
fn dedup_sorted(s: &Vec<Level>) -> (r: Vec<Level>)
    ensures
        r@.map_values(|x: Level| x@) == dedup_levels(s@.map_values(|x: Level| x@)),
{
    let ghost sv = s@.map_values(|x: Level| x@);
    let n = s.len();
    let mut i: usize = 0;
    if i < n && s[i].is_explicit() {
        proof {
            assert(sv[0] == s@[0]@);
        }
        while i + 1 < n && s[i + 1].is_explicit()
            invariant
                n == s@.len(),
                i < n,
                sv == s@.map_values(|x: Level| x@),
                last_explicit_from(sv, 0) == last_explicit_from(sv, i as int),
            decreases n - i,
        {
            proof {
                assert(sv[i + 1] == s@[i + 1]@);
            }
            i = i + 1;
        }
        proof {
            if i + 1 < n {
                assert(sv[i + 1] == s@[i + 1]@);
            }
            assert(sv[i as int] == s@[i as int]@);
        }
        let k = s[i].to_offset().1;
        let mut j = i + 1;
        while j < n && s[j].to_offset().1 < k
            invariant
                n == s@.len(),
                i < j <= n,
                sv == s@.map_values(|x: Level| x@),
                k == offset(sv[i as int]),
                first_offset_geq(sv, i + 1, k as nat) == first_offset_geq(sv, j as int, k as nat),
            decreases n - j,
        {
            proof {
                assert(sv[j as int] == s@[j as int]@);
            }
            j = j + 1;
        }
        proof {
            if j < n {
                assert(sv[j as int] == s@[j as int]@);
            }
        }
        if j < n {
            i = i + 1;
        }
    }
    proof {
        if n > 0 {
            assert(sv[0] == s@[0]@);
        }
        assert(i as int == dedup_start(sv) || (i as int >= n && dedup_start(sv) >= n));
    }
    let mut rargs: Vec<Level> = Vec::new();
    if i < n {
        rargs.push(s[i].clone());
        proof {
            assert(rargs@.map_values(|x: Level| x@) == seq![sv[i as int]]);
        }
        i = i + 1;
        while i < n
            invariant
                n == s@.len(),
                0 < i <= n,
                sv == s@.map_values(|x: Level| x@),
                rargs@.len() > 0,
                dedup_levels(sv) == dedup_from(sv, i as int, rargs@.map_values(|x: Level| x@)),
            decreases n - i,
        {
            let ghost acc = rargs@.map_values(|x: Level| x@);
            let last = rargs.len() - 1;
            let (pb, po) = rargs[last].to_offset();
            let (cb, co) = s[i].to_offset();
            proof {
                assert(sv[i as int] == s@[i as int]@);
                assert(acc.last() == rargs@[last as int]@);
            }
            if levels_equal(&pb, &cb) {
                if po < co {
                    let ghost before = rargs@;
                    rargs.pop();
                    rargs.push(s[i].clone());
                    proof {
                        assert(rargs@.map_values(|x: Level| x@) == acc.drop_last().push(sv[i as int]));
                    }
                }
            } else {
                let ghost before = rargs@;
                rargs.push(s[i].clone());
                proof {
                    assert(rargs@.map_values(|x: Level| x@) == acc.push(sv[i as int]));
                }
            }
            i = i + 1;
        }
        proof {
            assert(dedup_from(sv, i as int, rargs@.map_values(|x: Level| x@)) == rargs@.map_values(
                |x: Level| x@,
            ));
        }
    } else {
        proof {
            assert(rargs@.map_values(|x: Level| x@) == Seq::<LevelV>::empty());
        }
    }
    rargs
}

/// `max args[0] (max args[1] (... args[n-1]))` with the smart constructor.
fn fold_max_exec(args: &Vec<Level>) -> (r: Level)
    requires
        fold_max(args@.map_values(|x: Level| x@)) is Some,
    ensures
        r@ == fold_max(args@.map_values(|x: Level| x@))->0,
{
    let ghost av = args@.map_values(|x: Level| x@);
    let n = args.len();
    if n == 1 {
        return args[0].clone();
    }
    proof {
        lemma_fold_max_suffix(av, n - 2);
        let t = av.skip(n - 2);
        assert(av.skip(n - 1) == seq![av[n - 1]]);
        assert(fold_max(av.skip(n - 1)) == Some(av[n - 1]));
        assert(t.drop_first() == av.skip(n - 1));
        assert(t[0] == av[n - 2]);
        assert(fold_max(t) == checked_max(av[n - 2], av[n - 1]));
        assert(av[n - 2] == args@[n - 2]@);
        assert(av[n - 1] == args@[n - 1]@);
    }
    let mut r = Level::max(args[n - 2].clone(), args[n - 1].clone());
    let mut i = n - 2;
    while i > 0
        invariant
            2 <= n == args@.len(),
            i <= n - 2,
            av == args@.map_values(|x: Level| x@),
            fold_max(av.skip(i as int)) == Some(r@),
            fold_max(av) is Some,
        decreases i,
    {
        i = i - 1;
        proof {
            lemma_fold_max_suffix(av, i as int);
            let t = av.skip(i as int);
            assert(t.drop_first() == av.skip(i + 1));
            assert(t[0] == av[i as int]);
            assert(fold_max(t) == checked_max(av[i as int], r@));
            assert(av[i as int] == args@[i as int]@);
        }
        r = Level::max(args[i].clone(), r);
    }
    proof {
        assert(av.skip(0) == av);
    }
    r
}

proof fn lemma_fold_max_suffix(av: Seq<LevelV>, i: int)
    requires
        0 <= i < av.len(),
        fold_max(av) is Some,
    ensures
        fold_max(av.skip(i)) is Some,
    decreases i,
{
    if i == 0 {
        assert(av.skip(0) == av);
    } else {
        assert(av.drop_first().skip(i - 1) == av.skip(i));
        assert(av.len() >= 2);
        lemma_fold_max_suffix(av.drop_first(), i - 1);
    }
}

/// Folding `args` with `max` from the right never puts an argument or a
/// partial result of depth `u32::MAX` into a `max`.
pub open spec fn fold_max_fits(args: Seq<LevelV>) -> bool
    decreases args.len(),
{
    if args.len() == 0 {
        false
    } else if args.len() == 1 {
        true
    } else {
        &&& fold_max_fits(args.drop_first())
        &&& depth(args[0]) < depth_limit()
        &&& fold_max(args.drop_first()) matches Some(r) && depth(r) < depth_limit()
    }
}

proof fn lemma_fold_max_fits_suffix(av: Seq<LevelV>, i: int)
    requires
        0 <= i < av.len(),
        fold_max_fits(av),
    ensures
        fold_max_fits(av.skip(i)),
    decreases i,
{
    if i > 0 {
        assert(av.drop_first().skip(i - 1) == av.skip(i));
        lemma_fold_max_fits_suffix(av.drop_first(), i - 1);
    } else {
        assert(av.skip(0) == av);
    }
}

/// `max args[0] (max args[1] (... args[n-1]))`, or `None` where a step would
/// come within one step of the depth limit.
fn try_fold_max(args: &Vec<Level>) -> (r: Option<Level>)
    ensures
        r matches Some(x) ==> fold_max(args@.map_values(|l: Level| l@)) == Some(x@),
        r is Some <==> fold_max_fits(args@.map_values(|l: Level| l@)),
{
    let ghost av = args@.map_values(|x: Level| x@);
    let n = args.len();
    if n == 0 {
        return None;
    }
    let mut r = args[n - 1].clone();
    let mut i = n - 1;
    proof {
        assert(av.skip(n - 1) =~= seq![av[n - 1]]);
        assert(av[n - 1] == args@[n - 1]@);
    }
    while i > 0
        invariant
            1 <= n == args@.len(),
            i <= n - 1,
            av == args@.map_values(|x: Level| x@),
            fold_max(av.skip(i as int)) == Some(r@),
            fold_max_fits(av.skip(i as int)),
        decreases i,
    {
        i = i - 1;
        proof {
            let t = av.skip(i as int);
            assert(t.drop_first() =~= av.skip(i + 1));
            assert(t[0] == av[i as int]);
            assert(av[i as int] == args@[i as int]@);
        }
        if args[i].depth() >= u32::MAX || r.depth() >= u32::MAX {
            proof {
                if fold_max_fits(av) {
                    lemma_fold_max_fits_suffix(av, i as int);
                }
            }
            return None;
        }
        r = Level::max(args[i].clone(), r);
    }
    proof {
        assert(av.skip(0) =~= av);
    }
    Some(r)
}

/// Collect the normalized arguments of `c`; `false` (with `out` in any
/// state) where normalizing an argument was refused.
fn try_collect_norm_args(c: &Level, out: &mut Vec<Level>) -> (b: bool)
    ensures
        b <==> norm_args_fits(c@),
        b ==> norm_args(c@) is Some,
        b ==> final(out)@.map_values(|x: Level| x@) == old(out)@.map_values(|x: Level| x@)
            + norm_args(c@)->0,
    decreases size(c@), 1int,
{
    if c.is_max() {
        let x = c.max_lhs();
        let y = c.max_rhs();
        if !try_collect_norm_args(x, out) {
            return false;
        }
        if !try_collect_norm_args(y, out) {
            return false;
        }
        proof {
            assert(norm_args(c@)->0 == norm_args(x@)->0 + norm_args(y@)->0);
        }
        true
    } else {
        match c.try_normalize() {
            Some(na) => {
                push_max_args(&na, out);
                true
            },
            None => false,
        }
    }
}

impl Level {
    /// Normalize a level, or `None` where a step would come within one step
    /// of the depth limit.
    pub fn try_normalize(&self) -> (r: Option<Level>)
        ensures
            r matches Some(x) ==> spec_normalize(self@) == Some(x@),
            r is Some <==> normalize_fits(self@),
        decreases size(self@), 0int,
    {
        let (b, k) = self.to_offset();
        proof {
            lemma_base_size(self@);
        }
        if b.is_imax() {
            let nl1 = b.imax_lhs().try_normalize()?;
            let nl2 = b.imax_rhs().try_normalize()?;
            if nl1.depth() >= u32::MAX || nl2.depth() >= u32::MAX {
                return None;
            }
            let im = Level::imax(nl1, nl2);
            if im.depth() as u64 + k as u64 > u32::MAX as u64 {
                return None;
            }
            return Some(Level::succ_n(im, k));
        }
        if b.is_max() {
            let mut normalized: Vec<Level> = Vec::new();
            if !try_collect_norm_args(b.max_lhs(), &mut normalized) {
                return None;
            }
            if !try_collect_norm_args(b.max_rhs(), &mut normalized) {
                return None;
            }
            let sorted = sort_by_norm_lt(normalized);
            let rargs = dedup_sorted(&sorted);
            let ghost rv = rargs@.map_values(|x: Level| x@);
            proof {
                assert(normalize_fits(self@) <==> (lift_all(rv, k as nat) matches Some(l)
                    && fold_max_fits(l)));
            }
            let mut lifted: Vec<Level> = Vec::new();
            let mut i: usize = 0;
            while i < rargs.len()
                invariant
                    normalize_fits(self@) <==> (lift_all(rv, k as nat) matches Some(l)
                        && fold_max_fits(l)),
                    i <= rargs@.len(),
                    rv == rargs@.map_values(|x: Level| x@),
                    lifted@.len() == i,
                    forall|j: int| 0 <= j < i ==> depth(#[trigger] rv[j]) + k <= depth_limit(),
                    forall|j: int|
                        0 <= j < i ==> #[trigger] lifted@[j]@ == succ_n(rv[j], k as nat),
                decreases rargs@.len() - i,
            {
                proof {
                    assert(rv[i as int] == rargs@[i as int]@);
                }
                if rargs[i].depth() as u64 + k as u64 > u32::MAX as u64 {
                    proof {
                        assert(depth(rv[i as int]) + k > depth_limit());
                        assert(lift_all(rv, k as nat) is None);
                    }
                    return None;
                }
                lifted.push(Level::succ_n(rargs[i].clone(), k));
                i = i + 1;
            }
            proof {
                assert(lifted@.map_values(|x: Level| x@) =~= rv.map_values(
                    |a: LevelV| succ_n(a, k as nat),
                ));
                assert(lift_all(rv, k as nat) is Some);
            }
            return try_fold_max(&lifted);
        }
        Some(self.clone())
    }
}

/// Whether two levels are equivalent, where both can be normalized;
/// levels that are equal are equivalent in any case.
pub fn levels_equivalent(a: &Level, b: &Level) -> (r: bool)
    ensures
        r == (a@ == b@ || (normalize_fits(a@) && normalize_fits(b@) && spec_normalize(a@)
            == spec_normalize(b@))),
{
    if levels_equal(a, b) {
        return true;
    }
    match (a.try_normalize(), b.try_normalize()) {
        (Some(x), Some(y)) => levels_equal(&x, &y),
        _ => false,
    }
}

impl Level {
    /// Normalize a level: flatten nested `max`, normalize the arguments, sort
    /// them, drop subsumed ones and rebuild; `imax` is normalized argument-wise.
    pub fn normalize(&self) -> (r: Level)
        requires
            spec_normalize(self@) is Some,
        ensures
            r@ == spec_normalize(self@)->0,
        decreases size(self@), 0int,
    {
        let (b, k) = self.to_offset();
        proof {
            lemma_base_size(self@);
        }
        if b.is_imax() {
            let nl1 = b.imax_lhs().normalize();
            let nl2 = b.imax_rhs().normalize();
            return Level::succ_n(Level::imax(nl1, nl2), k);
        }
        if b.is_max() {
            let mut normalized: Vec<Level> = Vec::new();
            collect_norm_args(b.max_lhs(), &mut normalized);
            collect_norm_args(b.max_rhs(), &mut normalized);
            let sorted = sort_by_norm_lt(normalized);
            let mut rargs = dedup_sorted(&sorted);
            let ghost rv = rargs@.map_values(|x: Level| x@);
            let mut lifted: Vec<Level> = Vec::new();
            let mut i: usize = 0;
            while i < rargs.len()
                invariant
                    i <= rargs@.len(),
                    rv == rargs@.map_values(|x: Level| x@),
                    lift_all(rv, k as nat) is Some,
                    lifted@.len() == i,
                    forall|j: int|
                        0 <= j < i ==> #[trigger] lifted@[j]@ == succ_n(rv[j], k as nat),
                decreases rargs@.len() - i,
            {
                proof {
                    assert(rv[i as int] == rargs@[i as int]@);
                    assert(depth(rv[i as int]) + k <= depth_limit());
                }
                lifted.push(Level::succ_n(rargs[i].clone(), k));
                i = i + 1;
            }
            proof {
                assert(lifted@.map_values(|x: Level| x@) == rv.map_values(
                    |a: LevelV| succ_n(a, k as nat),
                ));
            }
            return fold_max_exec(&lifted);
        }
        self.clone()
    }

    /// Check if two levels are equivalent (equal, or equal after normalization).
    pub fn is_equivalent(&self, other: &Level) -> (b: bool)
        requires
            self@ != other@ ==> spec_normalize(self@) is Some && spec_normalize(other@) is Some,
        ensures
            b == (self@ == other@ || spec_normalize(self@) == spec_normalize(other@)),
    {
        if levels_equal(self, other) {
            return true;
        }
        let n1 = self.normalize();
        let n2 = other.normalize();
        levels_equal(&n1, &n2)
    }

    /// Check if `self >= other` for all parameter assignments (on normal forms).
    pub fn is_geq(&self, other: &Level) -> (b: bool)
        requires
            spec_normalize(self@) is Some,
            spec_normalize(other@) is Some,
        ensures
            b == geq_core(spec_normalize(self@)->0, spec_normalize(other@)->0),
    {
        is_geq_core(&self.normalize(), &other.normalize())
    }
}

/// The normalized arguments contributed by `c` appended to `out`.
fn collect_norm_args(c: &Level, out: &mut Vec<Level>)
    requires
        norm_args(c@) is Some,
    ensures
        final(out)@.map_values(|x: Level| x@) == old(out)@.map_values(|x: Level| x@) + norm_args(
            c@,
        )->0,
    decreases size(c@), 1int,
{
    if c.is_max() {
        let x = c.max_lhs();
        let y = c.max_rhs();
        collect_norm_args(x, out);
        collect_norm_args(y, out);
        proof {
            assert(norm_args(c@)->0 == norm_args(x@)->0 + norm_args(y@)->0);
        }
    } else {
        let na = c.normalize();
        push_max_args(&na, out);
    }
}

/// `l1 >= l2` by Lean's syntactic rules (on normalized levels).
fn is_geq_core(l1: &Level, l2: &Level) -> (b: bool)
    ensures
        b == geq_core(l1@, l2@),
    decreases size(l1@) + size(l2@),
{
    if levels_equal(l1, l2) || l2.is_zero() {
        return true;
    }
    if l2.is_max() {
        return is_geq_core(l1, l2.max_lhs()) && is_geq_core(l1, l2.max_rhs());
    }
    if l1.is_max() {
        if is_geq_core(l1.max_lhs(), l2) || is_geq_core(l1.max_rhs(), l2) {
            return true;
        }
    }
    if l2.is_imax() {
        return is_geq_core(l1, l2.imax_lhs()) && is_geq_core(l1, l2.imax_rhs());
    }
    if l1.is_imax() {
        return is_geq_core(l1.imax_rhs(), l2);
    }
    let (base1, off1) = l1.to_offset();
    let (base2, off2) = l2.to_offset();
    if levels_equal(&base1, &base2) || base2.is_zero() {
        return off1 >= off2;
    }
    if off1 == off2 && off1 > 0 {
        proof {
            lemma_base_size(l1@);
            lemma_base_size(l2@);
        }
        return is_geq_core(&base1, &base2);
    }
    false
}

} // verus!
