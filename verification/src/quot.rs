//! The quotient primitives and their reduction rule.
use vstd::prelude::*;

use crate::expr::{app_args_of, app_fn_of, exprs_view, mk_app_spec, Expr, ExprV};
use crate::name::{names_equal, Limb, Name};

verus! {

/// The components of `Quot`.
pub open spec fn quot_limbs() -> Seq<Limb> {
    seq![Limb::Str("Quot"@)]
}

/// The components of `Quot.mk`.
pub open spec fn quot_mk_limbs() -> Seq<Limb> {
    seq![Limb::Str("Quot"@), Limb::Str("mk"@)]
}

/// The components of `Quot.lift`.
pub open spec fn quot_lift_limbs() -> Seq<Limb> {
    seq![Limb::Str("Quot"@), Limb::Str("lift"@)]
}

/// The components of `Quot.ind`.
pub open spec fn quot_ind_limbs() -> Seq<Limb> {
    seq![Limb::Str("Quot"@), Limb::Str("ind"@)]
}

/// `Quot`.
pub fn quot_name() -> (r: Name)
    ensures
        r@ == quot_limbs(),
{
    Name::mk_simple("Quot")
}

/// `Quot.mk`.
pub fn quot_mk_name() -> (r: Name)
    ensures
        r@ == quot_mk_limbs(),
{
    Name::mk_str(Name::mk_simple("Quot"), "mk")
}

/// `Quot.lift`.
pub fn quot_lift_name() -> (r: Name)
    ensures
        r@ == quot_lift_limbs(),
{
    Name::mk_str(Name::mk_simple("Quot"), "lift")
}

/// `Quot.ind`.
pub fn quot_ind_name() -> (r: Name)
    ensures
        r@ == quot_ind_limbs(),
{
    Name::mk_str(Name::mk_simple("Quot"), "ind")
}

/// Whether `n` is one of the quotient primitives.
pub fn is_quot_decl(n: &Name) -> (b: bool)
    ensures
        b == (n@ == quot_limbs() || n@ == quot_mk_limbs() || n@ == quot_lift_limbs() || n@
            == quot_ind_limbs()),
{
    names_equal(n, &quot_name()) || names_equal(n, &quot_mk_name()) || names_equal(
        n,
        &quot_lift_name(),
    ) || names_equal(n, &quot_ind_name())
}

/// Whether `n` is a quotient recursor (`Quot.lift` or `Quot.ind`).
pub fn is_quot_rec(n: &Name) -> (b: bool)
    ensures
        b == (n@ == quot_lift_limbs() || n@ == quot_ind_limbs()),
{
    names_equal(n, &quot_lift_name()) || names_equal(n, &quot_ind_name())
}

/// The position of the major premise of a quotient recursor: 5 for
/// `Quot.lift`, 4 for `Quot.ind`.
pub open spec fn major_index(head: Seq<Limb>) -> int {
    if head == quot_lift_limbs() {
        5
    } else {
        4
    }
}

/// `e` is an application of a quotient recursor with its major premise present.
pub open spec fn quot_redex_candidate(e: ExprV) -> bool {
    &&& e is App
    &&& app_fn_of(e) matches ExprV::Const(n, _) && (n == quot_lift_limbs() || n
        == quot_ind_limbs())
    &&& app_args_of(e).len() > major_index(app_fn_of(e)->Const_0)
}

/// The reduct of `e` once its major premise has been put in weak head normal
/// form `major`: `Quot.lift f h (Quot.mk _ _ a) rest` and
/// `Quot.ind f h (Quot.mk _ _ a) rest` become `f a rest`.
pub open spec fn quot_reduct(e: ExprV, major: ExprV) -> Option<ExprV> {
    let args = app_args_of(e);
    let k = major_index(app_fn_of(e)->Const_0);
    if app_fn_of(major) matches ExprV::Const(m, _) && m == quot_mk_limbs() && app_args_of(
        major,
    ).len() >= 3 {
        Some(
            mk_app_spec(
                ExprV::App(Box::new(args[3]), Box::new(app_args_of(major)[2])),
                args.subrange(k + 1, args.len() as int),
            ),
        )
    } else {
        None
    }
}

/// Attempt to reduce a quotient recursor application; `whnf` puts the major
/// premise in weak head normal form.
pub fn quot_reduce_rec<F: Fn(&Expr) -> Expr>(e: &Expr, whnf: &F) -> (r: Option<Expr>)
    requires
        forall|a: &Expr| #[trigger] whnf.requires((a,)),
        app_args_of(e@).len() <= usize::MAX,
    ensures
        !quot_redex_candidate(e@) ==> r is None,
        quot_redex_candidate(e@) ==> exists|a: &Expr, w: Expr|
            #![trigger whnf.ensures((a,), w)]
            {
                &&& a@ == app_args_of(e@)[major_index(app_fn_of(e@)->Const_0)]
                &&& whnf.ensures((a,), w)
                &&& (match quot_reduct(e@, w@) {
                    Some(x) => r matches Some(y) && y@ == x,
                    None => r is None,
                })
            },
{
    if !e.is_app() {
        return None;
    }
    let f = e.get_app_fn();
    if !f.is_const() {
        return None;
    }
    let fn_name = f.const_name();
    if !is_quot_rec(fn_name) {
        return None;
    }
    let mut args: Vec<Expr> = Vec::new();
    e.get_app_args(&mut args);
    proof {
        assert(exprs_view(args@) == app_args_of(e@)) by {
            assert(Seq::<ExprV>::empty() + app_args_of(e@).reverse() == app_args_of(e@).reverse());
            assert(app_args_of(e@).reverse().reverse() =~= app_args_of(e@));
        }
    }
    let major_idx: usize = if names_equal(fn_name, &quot_lift_name()) {
        5
    } else {
        4
    };
    if args.len() <= major_idx {
        return None;
    }
    proof {
        assert(args@[major_idx as int]@ == app_args_of(e@)[major_idx as int]);
    }
    let major = whnf(&args[major_idx]);
    let major_fn = major.get_app_fn();
    if !major_fn.is_const() || !names_equal(major_fn.const_name(), &quot_mk_name()) {
        return None;
    }
    let mut major_args: Vec<Expr> = Vec::new();
    major.get_app_args(&mut major_args);
    proof {
        assert(Seq::<ExprV>::empty() + app_args_of(major@).reverse() == app_args_of(
            major@,
        ).reverse());
        assert(app_args_of(major@).reverse().reverse() =~= app_args_of(major@));
    }
    if major_args.len() < 3 {
        return None;
    }
    let a = &major_args[2];
    let f_idx: usize = 3;
    let func = &args[f_idx];
    let mut result = Expr::app(func.clone(), a.clone());
    let ghost av = app_args_of(e@);
    let ghost head = ExprV::App(Box::new(av[3]), Box::new(app_args_of(major@)[2]));
    let mut i: usize = major_idx + 1;
    proof {
        assert(av.subrange(major_idx + 1, major_idx + 1) =~= Seq::<ExprV>::empty());
    }
    while i < args.len()
        invariant
            major_idx + 1 <= i <= args@.len(),
            exprs_view(args@) == av,
            result@ == mk_app_spec(head, av.subrange(major_idx + 1, i as int)),
        decreases args@.len() - i,
    {
        proof {
            assert(av.subrange(major_idx + 1, i + 1).drop_last() =~= av.subrange(
                major_idx + 1,
                i as int,
            ));
            assert(av[i as int] == args@[i as int]@);
        }
        result = Expr::app(result, args[i].clone());
        i = i + 1;
    }
    Some(result)
}

} // verus!
