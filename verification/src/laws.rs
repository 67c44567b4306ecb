//! The engine-wide guarantees, proved once and for all inputs.

use vstd::prelude::*;

use crate::ast::{AssignExprV, DeclaratorV, ExprV, FnDeclV, FunctionV, KeyV, MemberV, PatV, ProgramV, PropV, StmtV, TargetV, VarKind};
use crate::config::sanitize_id;
use crate::function_query::{operator_name, FunctionQuery, FunctionType};
use crate::instrumentation::{
    channel_binding_stmt, channel_string, script_start_index_v, decide_fn_decl_v, ctor_wrapped_body_v, if_subscribers_v, publish_stmt_v, set_ctx_stmt_v,
    wrapped_body_v, apply_fn_wrap_v, apply_ctor_wrap_v, apply_expr_wrap_v, apply_declarator_v,
    apply_decls_v, apply_assign_v, channel_ident, ctx_ident, ctor_ctx_props, trace_ctx_props,
    has_subscribers_v, ConfigV, InstrV,
};
use crate::visitor::{
    failed_names_v, fan_assign_flags, fan_assign_recurse, fan_assign_states,
    fan_class_decl_states, fan_class_expr_states, fan_class_method_flags,
    fan_class_method_recurse, fan_class_method_states, fan_constructor_flags,
    fan_constructor_states, fan_fn_decl_flags, fan_fn_decl_states, fan_method_prop_flags,
    fan_method_prop_states, fan_var_decl_flags, fan_var_decl_recurse, fan_var_decl_states, fan_apply_assign_v, fan_apply_ctor_v, fan_apply_decls_v, fan_apply_fn_v,
    fan_module_preludes_v, fan_script_preludes_v, flags_at, import_stmt_v, iv_matches,
    matching_states_v, require_stmt_v, transform_program_v, visit_assign_children_v,
    visit_declarator_v, visit_decls_v, visit_expr_v, visit_exprs_v, visit_function_v,
    visit_member_v, visit_members_v, visit_opt_stmts_v, visit_prop_v, visit_props_v,
    visit_stmt_v, visit_stmts_v,
};
use crate::instrumentation::flag_at;
use crate::ast::ConstructorV;

verus! {

/// A file whose module, version or path is rejected by every configured
/// matcher selects no instrumentation, so the visitor built for it is empty
/// and its transform hands the program back unchanged (the transform contract
/// covers the empty case).
pub proof fn lemma_no_match_selects_nothing(
    ivs: Seq<InstrV>,
    module_name: Seq<char>,
    version: Seq<char>,
    file_path: Seq<char>,
)
    requires
        forall|i: int|
            0 <= i < ivs.len() ==> !iv_matches(ivs[i], module_name, version, file_path),
    ensures
        matching_states_v(ivs, module_name, version, file_path).len() == 0,
    decreases ivs,
{
    if ivs.len() > 0 {
        lemma_no_match_selects_nothing(
            ivs.subrange(0, ivs.len() - 1),
            module_name,
            version,
            file_path,
        );
    }
}

/// A transform reports a failure exactly when some selected instrumentation
/// did not inject, and then the report carries the query name of every
/// instrumentation that did not inject.
pub proof fn lemma_failure_reporting(ivs: Seq<InstrV>)
    ensures
        (failed_names_v(ivs).len() == 0) <==> (forall|i: int|
            0 <= i < ivs.len() ==> ivs[i].has_injected),
        forall|i: int|
            0 <= i < ivs.len() && !ivs[i].has_injected ==> failed_names_v(ivs).contains(
                ivs[i].config.query.spec_name(),
            ),
    decreases ivs,
{
    if ivs.len() > 0 {
        let pre = ivs.subrange(0, ivs.len() - 1);
        lemma_failure_reporting(pre);
        assert forall|i: int|
            0 <= i < ivs.len() && !ivs[i].has_injected implies failed_names_v(ivs).contains(
            ivs[i].config.query.spec_name(),
        ) by {
            if i < ivs.len() - 1 {
                assert(pre[i] == ivs[i]);
                let name = ivs[i].config.query.spec_name();
                let j = choose|j: int|
                    0 <= j < failed_names_v(pre).len() && failed_names_v(pre)[j] == name;
                if ivs[ivs.len() - 1].has_injected {
                    assert(failed_names_v(ivs)[j] == name);
                } else {
                    assert(failed_names_v(ivs)[j] == name);
                }
            } else {
                assert(failed_names_v(ivs).last() == ivs[i].config.query.spec_name());
            }
        }
        if failed_names_v(ivs).len() == 0 {
            assert(ivs[ivs.len() - 1].has_injected);
            assert(forall|i: int| 0 <= i < pre.len() ==> #[trigger] pre[i].has_injected);
            assert(forall|i: int| 0 <= i < ivs.len() - 1 ==> ivs[i] == pre[i]);
        }
    }
}

/// The constructor wrapper is safe around `super()`: every original
/// statement survives, in order, inside the try block right after the start
/// publish; the error handler rethrows the caught error; and the handler's
/// only read of `this` sits inside a nested try whose empty catch swallows
/// the reference error thrown before `super()` has run.
pub proof fn lemma_constructor_wrapper_shape(
    cv: ConfigV,
    mv: Option<Seq<char>>,
    orig: Seq<StmtV>,
)
    ensures
        ({
            let w = ctor_wrapped_body_v(cv, mv, orig);
            let id = sanitize_id(cv.channel_name);
            &&& w.len() == 2
            &&& (w[1] matches StmtV::Try { block, catch_param, catch, finally } && {
                &&& block.len() == orig.len() + 1
                &&& block[0] == if_subscribers_v(id, seq![publish_stmt_v(id, "start"@)])
                &&& block.subrange(1, block.len() as int) == orig
                &&& catch_param == Option::Some("tr_ch_err"@)
                &&& (catch matches Option::Some(cs) && {
                    &&& cs.len() == 2
                    &&& cs[1] == StmtV::Throw(ExprV::Ident("tr_ch_err"@))
                    &&& cs[0] == if_subscribers_v(
                        id,
                        seq![
                            set_ctx_stmt_v(id, "error"@, ExprV::Ident("tr_ch_err"@)),
                            StmtV::Try {
                                block: seq![set_ctx_stmt_v(id, "self"@, ExprV::This)],
                                catch_param: Option::Some("refErr"@),
                                catch: Option::Some(Seq::<StmtV>::empty()),
                                finally: Option::None,
                            },
                            publish_stmt_v(id, "error"@),
                        ],
                    )
                })
                &&& (finally matches Option::Some(fs) && fs == seq![
                    if_subscribers_v(
                        id,
                        seq![
                            set_ctx_stmt_v(id, "self"@, ExprV::This),
                            publish_stmt_v(id, "end"@),
                        ],
                    ),
                ])
            })
        }),
{
    let w = ctor_wrapped_body_v(cv, mv, orig);
    let id = sanitize_id(cv.channel_name);
    let block = seq![if_subscribers_v(id, seq![publish_stmt_v(id, "start"@)])] + orig;
    assert(block.subrange(1, block.len() as int) =~= orig);
}


// ---------------------------------------------------------------------------
// Counting the channel plumbing (the single-import and per-instrumentation
// prelude guarantees).
// ---------------------------------------------------------------------------

/// The shared channel import, in either the module or the script form.
pub open spec fn is_import_v(s: StmtV) -> bool {
    s is ImportNamed || s is RequireNamed
}

/// A channel binding: one `const` declarator initialized by a call of the
/// imported channel factory.
pub open spec fn is_prelude_v(s: StmtV) -> bool {
    match s {
        StmtV::VarDecl(vd) => vd.kind == VarKind::Const && vd.decls.len() == 1 && match vd
            .decls[0].init {
            Option::Some(ExprV::Call { callee, args }) => callee == seq![
                ExprV::Ident("tr_ch_apm_tracingChannel"@),
            ],
            _ => false,
        },
        _ => false,
    }
}

/// Counting functions: how many statements in a tree satisfy `f`, function
/// bodies included.
pub open spec fn cnt_stmts(f: spec_fn(StmtV) -> bool, ss: Seq<StmtV>) -> nat
    decreases ss,
{
    if ss.len() == 0 {
        0
    } else {
        cnt_stmt(f, ss[0]) + cnt_stmts(f, ss.subrange(1, ss.len() as int))
    }
}

pub open spec fn cnt_opt_stmts(f: spec_fn(StmtV) -> bool, b: Option<Seq<StmtV>>) -> nat
    decreases b,
{
    match b {
        Option::Some(ss) => cnt_stmts(f, ss),
        Option::None => 0,
    }
}

pub open spec fn cnt_fun(f: spec_fn(StmtV) -> bool, fun: FunctionV) -> nat
    decreases fun,
{
    cnt_opt_stmts(f, fun.body)
}

pub open spec fn cnt_exprs(f: spec_fn(StmtV) -> bool, es: Seq<ExprV>) -> nat
    decreases es,
{
    if es.len() == 0 {
        0
    } else {
        cnt_expr(f, es[0]) + cnt_exprs(f, es.subrange(1, es.len() as int))
    }
}

pub open spec fn cnt_decl(f: spec_fn(StmtV) -> bool, d: DeclaratorV) -> nat
    decreases d,
{
    match d.init {
        Option::Some(e) => cnt_expr(f, e),
        Option::None => 0,
    }
}

pub open spec fn cnt_decls(f: spec_fn(StmtV) -> bool, ds: Seq<DeclaratorV>) -> nat
    decreases ds,
{
    if ds.len() == 0 {
        0
    } else {
        cnt_decl(f, ds[0]) + cnt_decls(f, ds.subrange(1, ds.len() as int))
    }
}

pub open spec fn cnt_member(f: spec_fn(StmtV) -> bool, m: MemberV) -> nat
    decreases m,
{
    match m {
        MemberV::Method(cm) => cnt_fun(f, cm.func),
        MemberV::Ctor(c) => cnt_opt_stmts(f, c.body),
        MemberV::Other(_) => 0,
    }
}

pub open spec fn cnt_members(f: spec_fn(StmtV) -> bool, ms: Seq<MemberV>) -> nat
    decreases ms,
{
    if ms.len() == 0 {
        0
    } else {
        cnt_member(f, ms[0]) + cnt_members(f, ms.subrange(1, ms.len() as int))
    }
}

pub open spec fn cnt_prop(f: spec_fn(StmtV) -> bool, p: PropV) -> nat
    decreases p,
{
    match p {
        PropV::Method(mp) => cnt_fun(f, mp.func),
        PropV::KeyValue { key, value } => cnt_expr(f, value),
        _ => 0,
    }
}

pub open spec fn cnt_props(f: spec_fn(StmtV) -> bool, ps: Seq<PropV>) -> nat
    decreases ps,
{
    if ps.len() == 0 {
        0
    } else {
        cnt_prop(f, ps[0]) + cnt_props(f, ps.subrange(1, ps.len() as int))
    }
}

pub open spec fn cnt_target(f: spec_fn(StmtV) -> bool, t: TargetV) -> nat
    decreases t,
{
    match t {
        TargetV::Member { obj, prop } => cnt_exprs(f, obj),
        _ => 0,
    }
}

pub open spec fn cnt_expr(f: spec_fn(StmtV) -> bool, e: ExprV) -> nat
    decreases e,
{
    match e {
        ExprV::FnExpr(fe) => cnt_fun(f, fe.func),
        ExprV::Arrow { is_async, params, body } => cnt_stmts(f, body),
        ExprV::Class(ce) => cnt_members(f, ce.members),
        ExprV::Assign(ae) => cnt_target(f, ae.target) + cnt_exprs(f, ae.right),
        ExprV::Call { callee, args } => cnt_exprs(f, callee) + cnt_exprs(f, args),
        ExprV::Member { obj, prop } => cnt_exprs(f, obj),
        ExprV::Object(ps) => cnt_props(f, ps),
        ExprV::Not(inner) => cnt_exprs(f, inner),
        _ => 0,
    }
}

pub open spec fn cnt_stmt(f: spec_fn(StmtV) -> bool, s: StmtV) -> nat
    decreases s,
{
    (if f(s) {
        1nat
    } else {
        0nat
    }) + match s {
        StmtV::FnDecl(fd) => cnt_fun(f, fd.func),
        StmtV::VarDecl(vd) => cnt_decls(f, vd.decls),
        StmtV::ClassDecl(cd) => cnt_members(f, cd.members),
        StmtV::Expr(e) => cnt_expr(f, e),
        StmtV::Return(oe) => match oe {
            Option::Some(e) => cnt_expr(f, e),
            Option::None => 0,
        },
        StmtV::If { cond, cons, alt } => cnt_expr(f, cond) + cnt_stmts(f, cons) + cnt_opt_stmts(
            f,
            alt,
        ),
        StmtV::Block(ss) => cnt_stmts(f, ss),
        StmtV::Try { block, catch_param, catch, finally } => cnt_stmts(f, block) + cnt_opt_stmts(
            f,
            catch,
        ) + cnt_opt_stmts(f, finally),
        StmtV::Throw(e) => cnt_expr(f, e),
        _ => 0,
    }
}

/// A predicate that singles out channel plumbing only: nothing but the
/// shared import or a channel binding satisfies it, and whether a statement
/// satisfies it depends only on those two shapes.
pub open spec fn plumbing_only(f: spec_fn(StmtV) -> bool) -> bool {
    &&& forall|s: StmtV| #[trigger] f(s) ==> is_import_v(s) || is_prelude_v(s)
    &&& forall|s1: StmtV, s2: StmtV|
        is_import_v(s1) == is_import_v(s2) && is_prelude_v(s1) == is_prelude_v(s2) ==> #[trigger] f(
            s1,
        ) == #[trigger] f(s2)
}

proof fn lemma_cnt_stmts1(f: spec_fn(StmtV) -> bool, x: StmtV)
    ensures
        cnt_stmts(f, seq![x]) == cnt_stmt(f, x),
{
    assert(seq![x].subrange(1, 1) =~= Seq::<StmtV>::empty());
    assert(cnt_stmts(f, Seq::<StmtV>::empty()) == 0);
}

proof fn lemma_cnt_stmts_concat(f: spec_fn(StmtV) -> bool, a: Seq<StmtV>, b: Seq<StmtV>)
    ensures
        cnt_stmts(f, a + b) == cnt_stmts(f, a) + cnt_stmts(f, b),
    decreases a,
{
    if a.len() == 0 {
        assert(a + b =~= b);
    } else {
        let tail = a.subrange(1, a.len() as int);
        lemma_cnt_stmts_concat(f, tail, b);
        assert((a + b)[0] == a[0]);
        assert((a + b).subrange(1, (a + b).len() as int) =~= tail + b);
    }
}

proof fn lemma_cnt_stmts_push(f: spec_fn(StmtV) -> bool, ss: Seq<StmtV>, x: StmtV)
    ensures
        cnt_stmts(f, ss.push(x)) == cnt_stmts(f, ss) + cnt_stmt(f, x),
{
    assert(ss.push(x) =~= ss + seq![x]);
    lemma_cnt_stmts_concat(f, ss, seq![x]);
    lemma_cnt_stmts1(f, x);
}

proof fn lemma_cnt_stmts_insert(f: spec_fn(StmtV) -> bool, ss: Seq<StmtV>, k: int, x: StmtV)
    requires
        0 <= k <= ss.len(),
    ensures
        cnt_stmts(f, ss.insert(k, x)) == cnt_stmts(f, ss) + cnt_stmt(f, x),
{
    let a = ss.subrange(0, k);
    let b = ss.subrange(k, ss.len() as int);
    assert(ss.insert(k, x) =~= a + (seq![x] + b));
    assert(ss =~= a + b);
    lemma_cnt_stmts_concat(f, a, seq![x] + b);
    lemma_cnt_stmts_concat(f, seq![x], b);
    lemma_cnt_stmts_concat(f, a, b);
    lemma_cnt_stmts1(f, x);
}

proof fn lemma_cnt_exprs1(f: spec_fn(StmtV) -> bool, x: ExprV)
    ensures
        cnt_exprs(f, seq![x]) == cnt_expr(f, x),
{
    assert(seq![x].subrange(1, 1) =~= Seq::<ExprV>::empty());
    assert(cnt_exprs(f, Seq::<ExprV>::empty()) == 0);
}

proof fn lemma_cnt_exprs2(f: spec_fn(StmtV) -> bool, x: ExprV, y: ExprV)
    ensures
        cnt_exprs(f, seq![x, y]) == cnt_expr(f, x) + cnt_expr(f, y),
{
    assert(seq![x, y].subrange(1, 2) =~= seq![y]);
    lemma_cnt_exprs1(f, y);
}

proof fn lemma_cnt_decls1(f: spec_fn(StmtV) -> bool, d: DeclaratorV)
    ensures
        cnt_decls(f, seq![d]) == cnt_decl(f, d),
{
    assert(seq![d].subrange(1, 1) =~= Seq::<DeclaratorV>::empty());
    assert(cnt_decls(f, Seq::<DeclaratorV>::empty()) == 0);
}

proof fn lemma_cnt_props_zero(f: spec_fn(StmtV) -> bool, ps: Seq<PropV>)
    requires
        forall|j: int| 0 <= j < ps.len() ==> cnt_prop(f, #[trigger] ps[j]) == 0,
    ensures
        cnt_props(f, ps) == 0,
    decreases ps,
{
    if ps.len() > 0 {
        lemma_cnt_props_zero(f, ps.subrange(1, ps.len() as int));
    }
}

/// The trace context object holds no statements at all.
proof fn lemma_trace_ctx_cnt(f: spec_fn(StmtV) -> bool, mv: Option<Seq<char>>)
    ensures
        cnt_props(f, trace_ctx_props(mv)) == 0,
        cnt_props(f, ctor_ctx_props(mv)) == 0,
{
    let ps = trace_ctx_props(mv);
    assert forall|j: int| 0 <= j < ps.len() implies cnt_prop(f, #[trigger] ps[j]) == 0 by {
        assert(cnt_prop(f, ps[j]) == 0);
    }
    lemma_cnt_props_zero(f, ps);
    let cs = ctor_ctx_props(mv);
    assert forall|j: int| 0 <= j < cs.len() implies cnt_prop(f, #[trigger] cs[j]) == 0 by {
        assert(cnt_prop(f, cs[j]) == 0);
    }
    lemma_cnt_props_zero(f, cs);
}

/// The non-constructor wrapper adds no plumbing: it counts exactly what the
/// original body counts.
proof fn lemma_wrapped_body_cnt(
    f: spec_fn(StmtV) -> bool,
    cv: ConfigV,
    mv: Option<Seq<char>>,
    params: Seq<PatV>,
    orig: Seq<StmtV>,
)
    requires
        plumbing_only(f),
    ensures
        cnt_stmts(f, wrapped_body_v(cv, mv, params, orig)) == cnt_stmts(f, orig),
{
    let id = sanitize_id(cv.channel_name);
    let w = wrapped_body_v(cv, mv, params, orig);
    let s1 = w[0];
    let s2 = w[1];
    let s3 = w[2];
    let s4 = w[3];
    assert(w =~= seq![s1] + (seq![s2] + (seq![s3] + seq![s4])));
    lemma_cnt_stmts_concat(f, seq![s1], seq![s2] + (seq![s3] + seq![s4]));
    lemma_cnt_stmts_concat(f, seq![s2], seq![s3] + seq![s4]);
    lemma_cnt_stmts_concat(f, seq![s3], seq![s4]);
    lemma_cnt_stmts1(f, s1);
    lemma_cnt_stmts1(f, s2);
    lemma_cnt_stmts1(f, s3);
    lemma_cnt_stmts1(f, s4);
    assert(!f(s1) && !f(s2) && !f(s3) && !f(s4));

    // s1: const __apm$original_args = arguments;
    lemma_cnt_decls1(f, s1->VarDecl_0.decls[0]);
    assert(s1->VarDecl_0.decls =~= seq![s1->VarDecl_0.decls[0]]);
    assert(cnt_stmt(f, s1) == 0);

    // the inner statements of the traced arrow
    let inner = s2->VarDecl_0.decls[0].init->Some_0->Arrow_body;
    let w1 = inner[0];
    let w2 = inner[1];
    lemma_cnt_body2(f, w1, w2);
    assert(inner =~= seq![w1, w2]);
    assert(!f(w1) && !f(w2));
    // w1: const __apm$wrapped = (<params>) => { <orig> };
    lemma_cnt_decls1(f, w1->VarDecl_0.decls[0]);
    assert(w1->VarDecl_0.decls =~= seq![w1->VarDecl_0.decls[0]]);
    assert(cnt_decl(f, w1->VarDecl_0.decls[0]) == cnt_stmts(f, orig));
    assert(cnt_stmt(f, w1) == cnt_stmts(f, orig));
    // w2: return __apm$wrapped.apply(null, __apm$original_args);
    let apply_callee = ExprV::Member { obj: seq![ExprV::Ident("__apm$wrapped"@)], prop: "apply"@ };
    lemma_cnt_exprs1(f, apply_callee);
    lemma_cnt_exprs1(f, ExprV::Ident("__apm$wrapped"@));
    lemma_cnt_exprs2(f, ExprV::Null, ExprV::Ident("__apm$original_args"@));
    assert(cnt_stmt(f, w2) == 0);
    // s2 itself
    lemma_cnt_decls1(f, s2->VarDecl_0.decls[0]);
    assert(s2->VarDecl_0.decls =~= seq![s2->VarDecl_0.decls[0]]);
    assert(cnt_stmt(f, s2) == cnt_stmts(f, orig));

    // s3: if (!ch.hasSubscribers) return __apm$traced();
    let g = s3->If_cons[0];
    assert(s3->If_cons =~= seq![g]);
    lemma_cnt_stmts1(f, g);
    assert(!f(g));
    lemma_cnt_exprs1(f, has_subscribers_v(id));
    lemma_cnt_exprs1(f, ExprV::Ident(channel_ident(id)));
    lemma_cnt_exprs1(f, ExprV::Ident("__apm$traced"@));
    assert(cnt_exprs(f, Seq::<ExprV>::empty()) == 0);
    assert(cnt_stmt(f, g) == 0);
    assert(cnt_stmt(f, s3) == 0);

    // s4: return ch.<op>(__apm$traced, { ... });
    let trace_callee = ExprV::Member {
        obj: seq![ExprV::Ident(channel_ident(id))],
        prop: operator_name(cv.query.spec_kind()),
    };
    lemma_cnt_exprs1(f, trace_callee);
    lemma_cnt_exprs2(f, ExprV::Ident("__apm$traced"@), ExprV::Object(trace_ctx_props(mv)));
    lemma_trace_ctx_cnt(f, mv);
    assert(cnt_stmt(f, s4) == 0);
}

/// The constructor wrapper adds no plumbing either.
proof fn lemma_ctor_body_cnt(
    f: spec_fn(StmtV) -> bool,
    cv: ConfigV,
    mv: Option<Seq<char>>,
    orig: Seq<StmtV>,
)
    requires
        plumbing_only(f),
    ensures
        cnt_stmts(f, ctor_wrapped_body_v(cv, mv, orig)) == cnt_stmts(f, orig),
{
    let id = sanitize_id(cv.channel_name);
    let w = ctor_wrapped_body_v(cv, mv, orig);
    let s1 = w[0];
    let s2 = w[1];
    assert(w =~= seq![s1] + seq![s2]);
    lemma_cnt_stmts_concat(f, seq![s1], seq![s2]);
    lemma_cnt_stmts1(f, s1);
    lemma_cnt_stmts1(f, s2);
    assert(!f(s1) && !f(s2));

    // s1: const tr_ch_apm_ctx$<id> = { ... };
    lemma_cnt_decls1(f, s1->VarDecl_0.decls[0]);
    assert(s1->VarDecl_0.decls =~= seq![s1->VarDecl_0.decls[0]]);
    lemma_trace_ctx_cnt(f, mv);
    assert(cnt_stmt(f, s1) == 0);

    // the try block: the start-publish guard, then the original statements
    let blk = s2->Try_block;
    let ifstart = if_subscribers_v(id, seq![publish_stmt_v(id, "start"@)]);
    assert(blk =~= seq![ifstart] + orig);
    lemma_cnt_stmts_concat(f, seq![ifstart], orig);
    lemma_cnt_stmts1(f, ifstart);
    lemma_if_subscribers_cnt(f, id, seq![publish_stmt_v(id, "start"@)]);
    lemma_publish_cnt(f, id, "start"@);
    lemma_cnt_stmts1(f, publish_stmt_v(id, "start"@));
    assert(cnt_stmts(f, blk) == cnt_stmts(f, orig));

    // the catch: the error guard, then the rethrow
    let cs = s2->Try_catch->Some_0;
    let c0 = cs[0];
    let c1 = cs[1];
    lemma_cnt_body2(f, c0, c1);
    assert(cs =~= seq![c0, c1]);
    let inner_try = StmtV::Try {
        block: seq![set_ctx_stmt_v(id, "self"@, ExprV::This)],
        catch_param: Option::Some("refErr"@),
        catch: Option::Some(Seq::<StmtV>::empty()),
        finally: Option::None,
    };
    let err_body = seq![
        set_ctx_stmt_v(id, "error"@, ExprV::Ident("tr_ch_err"@)),
        inner_try,
        publish_stmt_v(id, "error"@),
    ];
    lemma_if_subscribers_cnt(f, id, err_body);
    lemma_cnt_body3(f, err_body[0], err_body[1], err_body[2]);
    assert(err_body =~= seq![err_body[0], err_body[1], err_body[2]]);
    lemma_set_ctx_cnt(f, id, "error"@, ExprV::Ident("tr_ch_err"@));
    lemma_set_ctx_cnt(f, id, "self"@, ExprV::This);
    lemma_publish_cnt(f, id, "error"@);
    lemma_cnt_stmts1(f, set_ctx_stmt_v(id, "self"@, ExprV::This));
    assert(!f(inner_try));
    assert(cnt_stmts(f, Seq::<StmtV>::empty()) == 0);
    assert(cnt_stmt(f, inner_try) == 0);
    assert(cnt_stmt(f, c0) == 0);
    lemma_cnt_exprs1(f, ExprV::Ident("tr_ch_err"@));
    assert(cnt_stmt(f, c1) == 0);
    assert(cnt_stmts(f, cs) == 0);

    // the finally: one guard with two statements
    let fs = s2->Try_finally->Some_0;
    let fin_body = seq![
        set_ctx_stmt_v(id, "self"@, ExprV::This),
        publish_stmt_v(id, "end"@),
    ];
    assert(fs =~= seq![if_subscribers_v(id, fin_body)]);
    lemma_cnt_stmts1(f, if_subscribers_v(id, fin_body));
    lemma_if_subscribers_cnt(f, id, fin_body);
    lemma_cnt_body2(f, fin_body[0], fin_body[1]);
    lemma_publish_cnt(f, id, "end"@);
    assert(cnt_stmts(f, fs) == 0);
    assert(cnt_stmt(f, s2) == cnt_stmts(f, orig));
}

proof fn lemma_cnt_body2(f: spec_fn(StmtV) -> bool, a: StmtV, b: StmtV)
    ensures
        cnt_stmts(f, seq![a, b]) == cnt_stmt(f, a) + cnt_stmt(f, b),
{
    assert(seq![a, b].subrange(1, 2) =~= seq![b]);
    lemma_cnt_stmts1(f, b);
}

proof fn lemma_cnt_body3(f: spec_fn(StmtV) -> bool, a: StmtV, b: StmtV, c: StmtV)
    ensures
        cnt_stmts(f, seq![a, b, c]) == cnt_stmt(f, a) + cnt_stmt(f, b) + cnt_stmt(f, c),
{
    assert(seq![a, b, c].subrange(1, 3) =~= seq![b, c]);
    lemma_cnt_body2(f, b, c);
}

/// A subscriber guard counts what its body counts.
proof fn lemma_if_subscribers_cnt(f: spec_fn(StmtV) -> bool, id: Seq<char>, body: Seq<StmtV>)
    requires
        plumbing_only(f),
    ensures
        cnt_stmt(f, if_subscribers_v(id, body)) == cnt_stmts(f, body),
{
    let s = if_subscribers_v(id, body);
    assert(!f(s));
    assert(s->If_cons =~= seq![StmtV::Block(body)]);
    lemma_cnt_stmts1(f, StmtV::Block(body));
    assert(!f(StmtV::Block(body)));
    lemma_cnt_exprs1(f, ExprV::Ident(channel_ident(id)));
    assert(cnt_expr(f, has_subscribers_v(id)) == 0);
}

/// A publish statement is no plumbing and holds none.
proof fn lemma_publish_cnt(f: spec_fn(StmtV) -> bool, id: Seq<char>, event: Seq<char>)
    requires
        plumbing_only(f),
    ensures
        cnt_stmt(f, publish_stmt_v(id, event)) == 0,
{
    let s = publish_stmt_v(id, event);
    assert(!f(s));
    let ch = ExprV::Ident(channel_ident(id));
    let ev = ExprV::Member { obj: seq![ch], prop: event };
    let pb = ExprV::Member { obj: seq![ev], prop: "publish"@ };
    let ctx = ExprV::Ident(ctx_ident(id));
    lemma_cnt_exprs1(f, ch);
    lemma_cnt_exprs1(f, ev);
    lemma_cnt_exprs1(f, pb);
    lemma_cnt_exprs1(f, ctx);
    assert(cnt_expr(f, ev) == 0);
    assert(cnt_expr(f, pb) == 0);
}

/// A context-field assignment is no plumbing and holds none.
proof fn lemma_set_ctx_cnt(f: spec_fn(StmtV) -> bool, id: Seq<char>, prop: Seq<char>, rhs: ExprV)
    requires
        plumbing_only(f),
        cnt_expr(f, rhs) == 0,
    ensures
        cnt_stmt(f, set_ctx_stmt_v(id, prop, rhs)) == 0,
{
    let s = set_ctx_stmt_v(id, prop, rhs);
    assert(!f(s));
    let ctx = ExprV::Ident(ctx_ident(id));
    lemma_cnt_exprs1(f, ctx);
    lemma_cnt_exprs1(f, rhs);
    let tv = TargetV::Member { obj: seq![ctx], prop: KeyV::Ident(prop) };
    assert(cnt_expr(f, ctx) == 0);
    assert(cnt_target(f, tv) == 0);
    let ae = AssignExprV { target: tv, right: seq![rhs] };
    assert(cnt_expr(f, ExprV::Assign(ae)) == cnt_target(f, ae.target) + cnt_exprs(f, ae.right));
}


// ---------------------------------------------------------------------------
// The traversal neither adds nor removes plumbing.
// ---------------------------------------------------------------------------

/// A call of the imported channel factory.
pub open spec fn factory_call(e: ExprV) -> bool {
    match e {
        ExprV::Call { callee, args } => callee == seq![
            ExprV::Ident("tr_ch_apm_tracingChannel"@),
        ],
        _ => false,
    }
}

pub open spec fn opt_factory_call(oe: Option<ExprV>) -> bool {
    match oe {
        Option::Some(e) => factory_call(e),
        Option::None => false,
    }
}

proof fn lemma_apply_fn_cnt(f: spec_fn(StmtV) -> bool, iv: InstrV, w: bool, fun: FunctionV)
    requires
        plumbing_only(f),
    ensures
        cnt_fun(f, apply_fn_wrap_v(iv, w, fun)) == cnt_fun(f, fun),
{
    if w {
        match fun.body {
            Option::Some(b) => {
                lemma_wrapped_body_cnt(f, iv.config, iv.module_version, fun.params, b);
            },
            Option::None => {},
        }
    }
}

proof fn lemma_apply_ctor_cnt(f: spec_fn(StmtV) -> bool, iv: InstrV, w: bool, c: ConstructorV)
    requires
        plumbing_only(f),
    ensures
        cnt_opt_stmts(f, apply_ctor_wrap_v(iv, w, c).body) == cnt_opt_stmts(f, c.body),
{
    if w {
        match c.body {
            Option::Some(b) => {
                lemma_ctor_body_cnt(f, iv.config, iv.module_version, b);
            },
            Option::None => {},
        }
    }
}

proof fn lemma_apply_expr_cnt(f: spec_fn(StmtV) -> bool, iv: InstrV, w: bool, e: ExprV)
    requires
        plumbing_only(f),
    ensures
        cnt_expr(f, apply_expr_wrap_v(iv, w, e)) == cnt_expr(f, e),
        apply_expr_wrap_v(iv, w, e) is Ident <==> e is Ident,
        e is Ident ==> apply_expr_wrap_v(iv, w, e) == e,
        factory_call(apply_expr_wrap_v(iv, w, e)) == factory_call(e),
{
    if w {
        match e {
            ExprV::FnExpr(fe) => {
                lemma_apply_fn_cnt(f, iv, true, fe.func);
            },
            _ => {},
        }
    }
}

proof fn lemma_apply_declarator_cnt(f: spec_fn(StmtV) -> bool, iv: InstrV, w: bool, d: DeclaratorV)
    requires
        plumbing_only(f),
    ensures
        cnt_decl(f, apply_declarator_v(iv, w, d)) == cnt_decl(f, d),
        opt_factory_call(apply_declarator_v(iv, w, d).init) == opt_factory_call(d.init),
        apply_declarator_v(iv, w, d).init is Some <==> d.init is Some,
{
    if w {
        match d.init {
            Option::Some(e) => {
                lemma_apply_expr_cnt(f, iv, true, e);
            },
            Option::None => {},
        }
    }
}

proof fn lemma_apply_decls_cnt(
    f: spec_fn(StmtV) -> bool,
    iv: InstrV,
    flags: Seq<bool>,
    ds: Seq<DeclaratorV>,
)
    requires
        plumbing_only(f),
    ensures
        cnt_decls(f, apply_decls_v(iv, flags, ds)) == cnt_decls(f, ds),
        apply_decls_v(iv, flags, ds).len() == ds.len(),
        forall|j: int|
            0 <= j < ds.len() ==> opt_factory_call(#[trigger] apply_decls_v(iv, flags, ds)[j].init)
                == opt_factory_call(ds[j].init),
    decreases ds,
{
    let out = apply_decls_v(iv, flags, ds);
    assert forall|j: int|
        0 <= j < ds.len() implies opt_factory_call(#[trigger] out[j].init) == opt_factory_call(
        ds[j].init,
    ) by {
        lemma_apply_declarator_cnt(f, iv, flag_at(flags, j), ds[j]);
    }
    if ds.len() > 0 {
        let pre = ds.subrange(0, ds.len() - 1);
        lemma_apply_decls_cnt(f, iv, flags, pre);
        // head-form recomposition
        lemma_cnt_decls_last(f, ds);
        lemma_cnt_decls_last(f, out);
        assert(out.subrange(0, out.len() - 1) =~= apply_decls_v(iv, flags, pre));
        lemma_apply_declarator_cnt(f, iv, flag_at(flags, ds.len() - 1), ds[ds.len() - 1]);
    }
}

/// Splitting the count of a non-empty list at its last element.
proof fn lemma_cnt_decls_last(f: spec_fn(StmtV) -> bool, ds: Seq<DeclaratorV>)
    requires
        ds.len() > 0,
    ensures
        cnt_decls(f, ds) == cnt_decls(f, ds.subrange(0, ds.len() - 1)) + cnt_decl(
            f,
            ds[ds.len() - 1],
        ),
    decreases ds,
{
    if ds.len() == 1 {
        assert(ds.subrange(0, 0) =~= Seq::<DeclaratorV>::empty());
        assert(cnt_decls(f, Seq::<DeclaratorV>::empty()) == 0);
        assert(ds.subrange(1, 1) =~= Seq::<DeclaratorV>::empty());
    } else {
        let tail = ds.subrange(1, ds.len() as int);
        lemma_cnt_decls_last(f, tail);
        let pre = ds.subrange(0, ds.len() - 1);
        assert(pre[0] == ds[0]);
        assert(pre.subrange(1, pre.len() as int) =~= tail.subrange(0, tail.len() - 1));
        assert(tail[tail.len() - 1] == ds[ds.len() - 1]);
    }
}

proof fn lemma_cnt_stmts_last(f: spec_fn(StmtV) -> bool, ss: Seq<StmtV>)
    requires
        ss.len() > 0,
    ensures
        cnt_stmts(f, ss) == cnt_stmts(f, ss.subrange(0, ss.len() - 1)) + cnt_stmt(
            f,
            ss[ss.len() - 1],
        ),
{
    let pre = ss.subrange(0, ss.len() - 1);
    assert(ss =~= pre.push(ss[ss.len() - 1]));
    lemma_cnt_stmts_push(f, pre, ss[ss.len() - 1]);
}

proof fn lemma_cnt_exprs_last(f: spec_fn(StmtV) -> bool, es: Seq<ExprV>)
    requires
        es.len() > 0,
    ensures
        cnt_exprs(f, es) == cnt_exprs(f, es.subrange(0, es.len() - 1)) + cnt_expr(
            f,
            es[es.len() - 1],
        ),
    decreases es,
{
    if es.len() == 1 {
        assert(es.subrange(0, 0) =~= Seq::<ExprV>::empty());
        assert(cnt_exprs(f, Seq::<ExprV>::empty()) == 0);
        assert(es.subrange(1, 1) =~= Seq::<ExprV>::empty());
    } else {
        let tail = es.subrange(1, es.len() as int);
        lemma_cnt_exprs_last(f, tail);
        let pre = es.subrange(0, es.len() - 1);
        assert(pre[0] == es[0]);
        assert(pre.subrange(1, pre.len() as int) =~= tail.subrange(0, tail.len() - 1));
        assert(tail[tail.len() - 1] == es[es.len() - 1]);
    }
}

proof fn lemma_cnt_members_last(f: spec_fn(StmtV) -> bool, ms: Seq<MemberV>)
    requires
        ms.len() > 0,
    ensures
        cnt_members(f, ms) == cnt_members(f, ms.subrange(0, ms.len() - 1)) + cnt_member(
            f,
            ms[ms.len() - 1],
        ),
    decreases ms,
{
    if ms.len() == 1 {
        assert(ms.subrange(0, 0) =~= Seq::<MemberV>::empty());
        assert(cnt_members(f, Seq::<MemberV>::empty()) == 0);
        assert(ms.subrange(1, 1) =~= Seq::<MemberV>::empty());
    } else {
        let tail = ms.subrange(1, ms.len() as int);
        lemma_cnt_members_last(f, tail);
        let pre = ms.subrange(0, ms.len() - 1);
        assert(pre[0] == ms[0]);
        assert(pre.subrange(1, pre.len() as int) =~= tail.subrange(0, tail.len() - 1));
        assert(tail[tail.len() - 1] == ms[ms.len() - 1]);
    }
}

proof fn lemma_cnt_props_last(f: spec_fn(StmtV) -> bool, ps: Seq<PropV>)
    requires
        ps.len() > 0,
    ensures
        cnt_props(f, ps) == cnt_props(f, ps.subrange(0, ps.len() - 1)) + cnt_prop(
            f,
            ps[ps.len() - 1],
        ),
    decreases ps,
{
    if ps.len() == 1 {
        assert(ps.subrange(0, 0) =~= Seq::<PropV>::empty());
        assert(cnt_props(f, Seq::<PropV>::empty()) == 0);
        assert(ps.subrange(1, 1) =~= Seq::<PropV>::empty());
    } else {
        let tail = ps.subrange(1, ps.len() as int);
        lemma_cnt_props_last(f, tail);
        let pre = ps.subrange(0, ps.len() - 1);
        assert(pre[0] == ps[0]);
        assert(pre.subrange(1, pre.len() as int) =~= tail.subrange(0, tail.len() - 1));
        assert(tail[tail.len() - 1] == ps[ps.len() - 1]);
    }
}

proof fn lemma_fan_apply_fn_cnt(
    f: spec_fn(StmtV) -> bool,
    ivs: Seq<InstrV>,
    flags: Seq<bool>,
    fun: FunctionV,
)
    requires
        plumbing_only(f),
    ensures
        cnt_fun(f, fan_apply_fn_v(ivs, flags, fun)) == cnt_fun(f, fun),
    decreases ivs,
{
    if ivs.len() > 0 {
        lemma_fan_apply_fn_cnt(f, ivs.subrange(0, ivs.len() - 1), flags.subrange(0, ivs.len() - 1), fun);
        lemma_apply_fn_cnt(
            f,
            ivs[ivs.len() - 1],
            flag_at(flags, ivs.len() - 1),
            fan_apply_fn_v(ivs.subrange(0, ivs.len() - 1), flags.subrange(0, ivs.len() - 1), fun),
        );
    }
}

proof fn lemma_fan_apply_ctor_cnt(
    f: spec_fn(StmtV) -> bool,
    ivs: Seq<InstrV>,
    flags: Seq<bool>,
    c: ConstructorV,
)
    requires
        plumbing_only(f),
    ensures
        cnt_opt_stmts(f, fan_apply_ctor_v(ivs, flags, c).body) == cnt_opt_stmts(f, c.body),
    decreases ivs,
{
    if ivs.len() > 0 {
        lemma_fan_apply_ctor_cnt(
            f,
            ivs.subrange(0, ivs.len() - 1),
            flags.subrange(0, ivs.len() - 1),
            c,
        );
        lemma_apply_ctor_cnt(
            f,
            ivs[ivs.len() - 1],
            flag_at(flags, ivs.len() - 1),
            fan_apply_ctor_v(ivs.subrange(0, ivs.len() - 1), flags.subrange(0, ivs.len() - 1), c),
        );
    }
}

proof fn lemma_fan_apply_decls_cnt(
    f: spec_fn(StmtV) -> bool,
    ivs: Seq<InstrV>,
    flagss: Seq<Seq<bool>>,
    ds: Seq<DeclaratorV>,
)
    requires
        plumbing_only(f),
    ensures
        cnt_decls(f, fan_apply_decls_v(ivs, flagss, ds)) == cnt_decls(f, ds),
        fan_apply_decls_v(ivs, flagss, ds).len() == ds.len(),
        forall|j: int|
            0 <= j < ds.len() ==> opt_factory_call(
                #[trigger] fan_apply_decls_v(ivs, flagss, ds)[j].init,
            ) == opt_factory_call(ds[j].init),
    decreases ivs,
{
    if ivs.len() > 0 {
        let pre = fan_apply_decls_v(
            ivs.subrange(0, ivs.len() - 1),
            flagss.subrange(0, ivs.len() - 1),
            ds,
        );
        lemma_fan_apply_decls_cnt(
            f,
            ivs.subrange(0, ivs.len() - 1),
            flagss.subrange(0, ivs.len() - 1),
            ds,
        );
        lemma_apply_decls_cnt(f, ivs[ivs.len() - 1], flags_at(flagss, ivs.len() - 1), pre);
    }
}

proof fn lemma_fan_apply_assign_cnt(
    f: spec_fn(StmtV) -> bool,
    ivs: Seq<InstrV>,
    flags: Seq<bool>,
    a: AssignExprV,
)
    requires
        plumbing_only(f),
    ensures
        cnt_target(f, fan_apply_assign_v(ivs, flags, a).target) == cnt_target(f, a.target),
        cnt_exprs(f, fan_apply_assign_v(ivs, flags, a).right) == cnt_exprs(f, a.right),
    decreases ivs,
{
    if ivs.len() > 0 {
        let pre = fan_apply_assign_v(
            ivs.subrange(0, ivs.len() - 1),
            flags.subrange(0, ivs.len() - 1),
            a,
        );
        lemma_fan_apply_assign_cnt(
            f,
            ivs.subrange(0, ivs.len() - 1),
            flags.subrange(0, ivs.len() - 1),
            a,
        );
        let iv = ivs[ivs.len() - 1];
        let w = flag_at(flags, ivs.len() - 1);
        if w && pre.right.len() == 1 {
            lemma_apply_expr_cnt(f, iv, true, pre.right[0]);
            lemma_cnt_exprs1(f, pre.right[0]);
            lemma_cnt_exprs1(f, apply_expr_wrap_v(iv, true, pre.right[0]));
            assert(pre.right =~= seq![pre.right[0]]);
        }
    }
}


proof fn lemma_visit_stmts_cnt(f: spec_fn(StmtV) -> bool, ivs: Seq<InstrV>, ss: Seq<StmtV>)
    requires
        plumbing_only(f),
    ensures
        cnt_stmts(f, visit_stmts_v(ivs, ss).1) == cnt_stmts(f, ss),
        visit_stmts_v(ivs, ss).1.len() == ss.len(),
    decreases ss,
{
    if ss.len() > 0 {
        let pre = ss.subrange(0, ss.len() - 1);
        lemma_visit_stmts_cnt(f, ivs, pre);
        let (ivs1, pre_out) = visit_stmts_v(ivs, pre);
        lemma_visit_stmt_cnt(f, ivs1, ss[ss.len() - 1]);
        let (ivs2, last_out) = visit_stmt_v(ivs1, ss[ss.len() - 1]);
        lemma_cnt_stmts_push(f, pre_out, last_out);
        lemma_cnt_stmts_last(f, ss);
    }
}

proof fn lemma_visit_opt_stmts_cnt(
    f: spec_fn(StmtV) -> bool,
    ivs: Seq<InstrV>,
    b: Option<Seq<StmtV>>,
)
    requires
        plumbing_only(f),
    ensures
        cnt_opt_stmts(f, visit_opt_stmts_v(ivs, b).1) == cnt_opt_stmts(f, b),
    decreases b,
{
    match b {
        Option::Some(ss) => {
            lemma_visit_stmts_cnt(f, ivs, ss);
        },
        Option::None => {},
    }
}

proof fn lemma_visit_function_cnt(f: spec_fn(StmtV) -> bool, ivs: Seq<InstrV>, fun: FunctionV)
    requires
        plumbing_only(f),
    ensures
        cnt_fun(f, visit_function_v(ivs, fun).1) == cnt_fun(f, fun),
    decreases fun,
{
    lemma_visit_opt_stmts_cnt(f, ivs, fun.body);
}

proof fn lemma_visit_exprs_cnt(f: spec_fn(StmtV) -> bool, ivs: Seq<InstrV>, es: Seq<ExprV>)
    requires
        plumbing_only(f),
    ensures
        cnt_exprs(f, visit_exprs_v(ivs, es).1) == cnt_exprs(f, es),
        visit_exprs_v(ivs, es).1.len() == es.len(),
        forall|j: int|
            0 <= j < es.len() ==> ((#[trigger] visit_exprs_v(ivs, es).1[j] is Ident) <==> es[j]
                is Ident),
        forall|j: int|
            0 <= j < es.len() && es[j] is Ident ==> #[trigger] visit_exprs_v(ivs, es).1[j]
                == es[j],
    decreases es,
{
    if es.len() > 0 {
        let pre = es.subrange(0, es.len() - 1);
        lemma_visit_exprs_cnt(f, ivs, pre);
        let (ivs1, pre_out) = visit_exprs_v(ivs, pre);
        lemma_visit_expr_cnt(f, ivs1, es[es.len() - 1]);
        let (ivs2, last_out) = visit_expr_v(ivs1, es[es.len() - 1]);
        assert(pre_out.push(last_out) =~= pre_out + seq![last_out]);
        lemma_cnt_exprs_last(f, pre_out.push(last_out));
        assert(pre_out.push(last_out).subrange(0, pre_out.len() as int) =~= pre_out);
        lemma_cnt_exprs_last(f, es);
        assert forall|j: int|
            0 <= j < es.len() implies ((#[trigger] visit_exprs_v(ivs, es).1[j] is Ident) <==> es[j]
            is Ident) && (es[j] is Ident ==> visit_exprs_v(ivs, es).1[j] == es[j]) by {
            if j < es.len() - 1 {
                assert(pre[j] == es[j]);
                assert(visit_exprs_v(ivs, es).1[j] == pre_out[j]);
            }
        }
    }
}

proof fn lemma_visit_declarator_cnt(f: spec_fn(StmtV) -> bool, ivs: Seq<InstrV>, d: DeclaratorV)
    requires
        plumbing_only(f),
    ensures
        cnt_decl(f, visit_declarator_v(ivs, d).1) == cnt_decl(f, d),
        opt_factory_call(visit_declarator_v(ivs, d).1.init) == opt_factory_call(d.init),
    decreases d,
{
    match d.init {
        Option::Some(e) => {
            lemma_visit_expr_cnt(f, ivs, e);
        },
        Option::None => {},
    }
}

proof fn lemma_visit_decls_cnt(f: spec_fn(StmtV) -> bool, ivs: Seq<InstrV>, ds: Seq<DeclaratorV>)
    requires
        plumbing_only(f),
    ensures
        cnt_decls(f, visit_decls_v(ivs, ds).1) == cnt_decls(f, ds),
        visit_decls_v(ivs, ds).1.len() == ds.len(),
        forall|j: int|
            0 <= j < ds.len() ==> opt_factory_call(#[trigger] visit_decls_v(ivs, ds).1[j].init)
                == opt_factory_call(ds[j].init),
    decreases ds,
{
    if ds.len() > 0 {
        let pre = ds.subrange(0, ds.len() - 1);
        lemma_visit_decls_cnt(f, ivs, pre);
        let (ivs1, pre_out) = visit_decls_v(ivs, pre);
        lemma_visit_declarator_cnt(f, ivs1, ds[ds.len() - 1]);
        let (ivs2, last_out) = visit_declarator_v(ivs1, ds[ds.len() - 1]);
        assert(pre_out.push(last_out).subrange(0, pre_out.len() as int) =~= pre_out);
        lemma_cnt_decls_last(f, pre_out.push(last_out));
        lemma_cnt_decls_last(f, ds);
        assert forall|j: int|
            0 <= j < ds.len() implies opt_factory_call(
            #[trigger] visit_decls_v(ivs, ds).1[j].init,
        ) == opt_factory_call(ds[j].init) by {
            if j < ds.len() - 1 {
                assert(pre[j] == ds[j]);
                assert(visit_decls_v(ivs, ds).1[j] == pre_out[j]);
            }
        }
    }
}

proof fn lemma_visit_member_cnt(f: spec_fn(StmtV) -> bool, ivs: Seq<InstrV>, m: MemberV)
    requires
        plumbing_only(f),
    ensures
        cnt_member(f, visit_member_v(ivs, m).1) == cnt_member(f, m),
    decreases m,
{
    match m {
        MemberV::Method(cm) => {
            let flags = fan_class_method_flags(ivs, cm);
            let ivs1 = fan_class_method_states(ivs, cm);
            if fan_class_method_recurse(ivs, cm) {
                lemma_visit_function_cnt(f, ivs1, cm.func);
                let (ivs2, f2) = visit_function_v(ivs1, cm.func);
                lemma_fan_apply_fn_cnt(f, ivs2, flags, f2);
            } else {
                lemma_fan_apply_fn_cnt(f, ivs1, flags, cm.func);
            }
        },
        MemberV::Ctor(c) => {
            let flags = fan_constructor_flags(ivs, c);
            let ivs1 = fan_constructor_states(ivs, c);
            lemma_fan_apply_ctor_cnt(f, ivs1, flags, c);
        },
        MemberV::Other(_) => {},
    }
}

proof fn lemma_visit_members_cnt(f: spec_fn(StmtV) -> bool, ivs: Seq<InstrV>, ms: Seq<MemberV>)
    requires
        plumbing_only(f),
    ensures
        cnt_members(f, visit_members_v(ivs, ms).1) == cnt_members(f, ms),
    decreases ms,
{
    if ms.len() > 0 {
        let pre = ms.subrange(0, ms.len() - 1);
        lemma_visit_members_cnt(f, ivs, pre);
        let (ivs1, pre_out) = visit_members_v(ivs, pre);
        lemma_visit_member_cnt(f, ivs1, ms[ms.len() - 1]);
        let (ivs2, last_out) = visit_member_v(ivs1, ms[ms.len() - 1]);
        assert(pre_out.push(last_out).subrange(0, pre_out.len() as int) =~= pre_out);
        lemma_cnt_members_last(f, pre_out.push(last_out));
        lemma_cnt_members_last(f, ms);
    }
}

proof fn lemma_visit_prop_cnt(f: spec_fn(StmtV) -> bool, ivs: Seq<InstrV>, p: PropV)
    requires
        plumbing_only(f),
    ensures
        cnt_prop(f, visit_prop_v(ivs, p).1) == cnt_prop(f, p),
    decreases p,
{
    match p {
        PropV::Method(mp) => {
            let flags = fan_method_prop_flags(ivs, mp);
            let ivs1 = fan_method_prop_states(ivs, mp);
            lemma_fan_apply_fn_cnt(f, ivs1, flags, mp.func);
        },
        PropV::KeyValue { key, value } => {
            lemma_visit_expr_cnt(f, ivs, value);
        },
        _ => {},
    }
}

proof fn lemma_visit_props_cnt(f: spec_fn(StmtV) -> bool, ivs: Seq<InstrV>, ps: Seq<PropV>)
    requires
        plumbing_only(f),
    ensures
        cnt_props(f, visit_props_v(ivs, ps).1) == cnt_props(f, ps),
    decreases ps,
{
    if ps.len() > 0 {
        let pre = ps.subrange(0, ps.len() - 1);
        lemma_visit_props_cnt(f, ivs, pre);
        let (ivs1, pre_out) = visit_props_v(ivs, pre);
        lemma_visit_prop_cnt(f, ivs1, ps[ps.len() - 1]);
        let (ivs2, last_out) = visit_prop_v(ivs1, ps[ps.len() - 1]);
        assert(pre_out.push(last_out).subrange(0, pre_out.len() as int) =~= pre_out);
        lemma_cnt_props_last(f, pre_out.push(last_out));
        lemma_cnt_props_last(f, ps);
    }
}

proof fn lemma_visit_assign_children_cnt(
    f: spec_fn(StmtV) -> bool,
    ivs: Seq<InstrV>,
    a: AssignExprV,
)
    requires
        plumbing_only(f),
    ensures
        cnt_target(f, visit_assign_children_v(ivs, a).1.target) == cnt_target(f, a.target),
        cnt_exprs(f, visit_assign_children_v(ivs, a).1.right) == cnt_exprs(f, a.right),
    decreases a,
{
    let (ivs1, t1) = match a.target {
        TargetV::Member { obj, prop } => {
            lemma_visit_exprs_cnt(f, ivs, obj);
            let (ivs1, o1) = visit_exprs_v(ivs, obj);
            (ivs1, TargetV::Member { obj: o1, prop })
        },
        _ => (ivs, a.target),
    };
    lemma_visit_exprs_cnt(f, ivs1, a.right);
}

proof fn lemma_visit_expr_cnt(f: spec_fn(StmtV) -> bool, ivs: Seq<InstrV>, e: ExprV)
    requires
        plumbing_only(f),
    ensures
        cnt_expr(f, visit_expr_v(ivs, e).1) == cnt_expr(f, e),
        (visit_expr_v(ivs, e).1 is Ident) <==> (e is Ident),
        e is Ident ==> visit_expr_v(ivs, e).1 == e,
        factory_call(visit_expr_v(ivs, e).1) == factory_call(e),
    decreases e,
{
    match e {
        ExprV::FnExpr(fe) => {
            lemma_visit_function_cnt(f, ivs, fe.func);
        },
        ExprV::Arrow { is_async, params, body } => {
            lemma_visit_stmts_cnt(f, ivs, body);
        },
        ExprV::Class(ce) => {
            let ivs1 = fan_class_expr_states(ivs, ce.name);
            if ivs.len() > 0 {
                lemma_visit_members_cnt(f, ivs1, ce.members);
            }
        },
        ExprV::Assign(ae) => {
            let flags = fan_assign_flags(ivs, ae);
            let ivs1 = fan_assign_states(ivs, ae);
            let (ivs2, ae2) = if fan_assign_recurse(ivs, ae) {
                lemma_visit_assign_children_cnt(f, ivs1, ae);
                visit_assign_children_v(ivs1, ae)
            } else {
                (ivs1, ae)
            };
            lemma_fan_apply_assign_cnt(f, ivs2, flags, ae2);
        },
        ExprV::Call { callee, args } => {
            lemma_visit_exprs_cnt(f, ivs, callee);
            let (ivs1, c1) = visit_exprs_v(ivs, callee);
            lemma_visit_exprs_cnt(f, ivs1, args);
            if callee.len() == 1 {
                assert(c1 =~= seq![c1[0]]);
                assert(callee =~= seq![callee[0]]);
            }
        },
        ExprV::Member { obj, prop } => {
            lemma_visit_exprs_cnt(f, ivs, obj);
        },
        ExprV::Object(ps) => {
            lemma_visit_props_cnt(f, ivs, ps);
        },
        ExprV::Not(inner) => {
            lemma_visit_exprs_cnt(f, ivs, inner);
        },
        _ => {},
    }
}

proof fn lemma_visit_stmt_cnt(f: spec_fn(StmtV) -> bool, ivs: Seq<InstrV>, s: StmtV)
    requires
        plumbing_only(f),
    ensures
        cnt_stmt(f, visit_stmt_v(ivs, s).1) == cnt_stmt(f, s),
    decreases s,
{
    let out = visit_stmt_v(ivs, s).1;
    match s {
        StmtV::FnDecl(fd) => {
            let flags = fan_fn_decl_flags(ivs, fd);
            let ivs1 = fan_fn_decl_states(ivs, fd);
            if ivs.len() > 0 {
                lemma_visit_function_cnt(f, ivs1, fd.func);
                let (ivs2, f2) = visit_function_v(ivs1, fd.func);
                lemma_fan_apply_fn_cnt(f, ivs2, flags, f2);
            } else {
                lemma_fan_apply_fn_cnt(f, ivs1, flags, fd.func);
            }
            assert(is_import_v(out) == is_import_v(s) && is_prelude_v(out) == is_prelude_v(s));
            assert(f(out) == f(s));
        },
        StmtV::VarDecl(vd) => {
            let flagss = fan_var_decl_flags(ivs, vd);
            let ivs1 = fan_var_decl_states(ivs, vd);
            let (ivs2, ds2) = if fan_var_decl_recurse(ivs, vd) {
                lemma_visit_decls_cnt(f, ivs1, vd.decls);
                visit_decls_v(ivs1, vd.decls)
            } else {
                (ivs1, vd.decls)
            };
            lemma_fan_apply_decls_cnt(f, ivs2, flagss, ds2);
            let ds3 = fan_apply_decls_v(ivs2, flagss, ds2);
            assert(ds3.len() == vd.decls.len());
            if vd.decls.len() >= 1 {
                assert(opt_factory_call(ds3[0].init) == opt_factory_call(vd.decls[0].init));
            }
            assert(is_prelude_v(out) == is_prelude_v(s));
            assert(is_import_v(out) == is_import_v(s));
            assert(f(out) == f(s));
        },
        StmtV::ClassDecl(cd) => {
            let ivs1 = fan_class_decl_states(ivs, cd.name);
            if ivs.len() > 0 {
                lemma_visit_members_cnt(f, ivs1, cd.members);
            }
            assert(f(out) == f(s));
        },
        StmtV::Expr(e) => {
            lemma_visit_expr_cnt(f, ivs, e);
            assert(f(out) == f(s));
        },
        StmtV::Return(oe) => {
            match oe {
                Option::Some(e) => {
                    lemma_visit_expr_cnt(f, ivs, e);
                    assert(f(out) == f(s));
                },
                Option::None => {},
            }
        },
        StmtV::If { cond, cons, alt } => {
            lemma_visit_expr_cnt(f, ivs, cond);
            let (ivs1, c1) = visit_expr_v(ivs, cond);
            lemma_visit_stmts_cnt(f, ivs1, cons);
            let (ivs2, cons1) = visit_stmts_v(ivs1, cons);
            lemma_visit_opt_stmts_cnt(f, ivs2, alt);
            assert(f(out) == f(s));
        },
        StmtV::Block(ss) => {
            lemma_visit_stmts_cnt(f, ivs, ss);
            assert(f(out) == f(s));
        },
        StmtV::Try { block, catch_param, catch, finally } => {
            lemma_visit_stmts_cnt(f, ivs, block);
            let (ivs1, b1) = visit_stmts_v(ivs, block);
            lemma_visit_opt_stmts_cnt(f, ivs1, catch);
            let (ivs2, c1) = visit_opt_stmts_v(ivs1, catch);
            lemma_visit_opt_stmts_cnt(f, ivs2, finally);
            assert(f(out) == f(s));
        },
        StmtV::Throw(e) => {
            lemma_visit_expr_cnt(f, ivs, e);
            assert(f(out) == f(s));
        },
        _ => {},
    }
}

// ---------------------------------------------------------------------------
// The transform's plumbing arithmetic, and the two laws it carries.
// ---------------------------------------------------------------------------

/// One channel binding is or is not counted by `f`, and holds no further
/// plumbing inside.
proof fn lemma_binding_cnt(f: spec_fn(StmtV) -> bool, c: ConfigV)
    requires
        plumbing_only(f),
    ensures
        cnt_stmt(f, channel_binding_stmt(c)) == if f(channel_binding_stmt(c)) {
            1nat
        } else {
            0nat
        },
{
    let b = channel_binding_stmt(c);
    lemma_cnt_decls1(f, b->VarDecl_0.decls[0]);
    assert(b->VarDecl_0.decls =~= seq![b->VarDecl_0.decls[0]]);
    let callee_e = ExprV::Ident("tr_ch_apm_tracingChannel"@);
    let arg_e = ExprV::Str(channel_string(c.module_name, c.channel_name));
    lemma_cnt_exprs1(f, callee_e);
    lemma_cnt_exprs1(f, arg_e);
    assert(cnt_decl(f, b->VarDecl_0.decls[0]) == 0);
}

/// How many statements of a run of channel bindings `f` counts.
pub open spec fn cnt_bindings(f: spec_fn(StmtV) -> bool, ivs: Seq<InstrV>) -> nat
    decreases ivs,
{
    if ivs.len() == 0 {
        0
    } else {
        (if f(channel_binding_stmt(ivs[0].config)) {
            1nat
        } else {
            0nat
        }) + cnt_bindings(f, ivs.subrange(1, ivs.len() as int))
    }
}

proof fn lemma_fan_module_preludes_cnt(
    f: spec_fn(StmtV) -> bool,
    ivs: Seq<InstrV>,
    body: Seq<StmtV>,
)
    requires
        plumbing_only(f),
        body.len() >= 1,
    ensures
        cnt_stmts(f, fan_module_preludes_v(ivs, body)) == cnt_stmts(f, body) + cnt_bindings(
            f,
            ivs,
        ),
    decreases ivs,
{
    if ivs.len() > 0 {
        let b1 = body.insert(1, channel_binding_stmt(ivs[0].config));
        lemma_cnt_stmts_insert(f, body, 1, channel_binding_stmt(ivs[0].config));
        lemma_binding_cnt(f, ivs[0].config);
        lemma_fan_module_preludes_cnt(f, ivs.subrange(1, ivs.len() as int), b1);
    }
}

proof fn lemma_fan_script_preludes_cnt(
    f: spec_fn(StmtV) -> bool,
    ivs: Seq<InstrV>,
    body: Seq<StmtV>,
)
    requires
        plumbing_only(f),
        script_start_index_v(body) + 1 <= body.len(),
    ensures
        cnt_stmts(f, fan_script_preludes_v(ivs, body)) == cnt_stmts(f, body) + cnt_bindings(
            f,
            ivs,
        ),
    decreases ivs,
{
    if ivs.len() > 0 {
        let k = script_start_index_v(body) + 1;
        let b1 = body.insert(k, channel_binding_stmt(ivs[0].config));
        lemma_cnt_stmts_insert(f, body, k, channel_binding_stmt(ivs[0].config));
        lemma_binding_cnt(f, ivs[0].config);
        assert(b1[0] == body[0]);
        lemma_fan_script_preludes_cnt(f, ivs.subrange(1, ivs.len() as int), b1);
    }
}

/// Every channel binding satisfies the prelude shape and neither binding
/// form is an import.
proof fn lemma_binding_is_prelude(c: ConfigV)
    ensures
        is_prelude_v(channel_binding_stmt(c)),
        !is_import_v(channel_binding_stmt(c)),
{
}

proof fn lemma_cnt_bindings_all(f: spec_fn(StmtV) -> bool, ivs: Seq<InstrV>)
    requires
        forall|i: int| 0 <= i < ivs.len() ==> f(#[trigger] channel_binding_stmt(ivs[i].config)),
    ensures
        cnt_bindings(f, ivs) == ivs.len(),
    decreases ivs,
{
    if ivs.len() > 0 {
        lemma_cnt_bindings_all(f, ivs.subrange(1, ivs.len() as int));
    }
}

proof fn lemma_cnt_bindings_none(f: spec_fn(StmtV) -> bool, ivs: Seq<InstrV>)
    requires
        forall|i: int| 0 <= i < ivs.len() ==> !f(#[trigger] channel_binding_stmt(ivs[i].config)),
    ensures
        cnt_bindings(f, ivs) == 0,
    decreases ivs,
{
    if ivs.len() > 0 {
        lemma_cnt_bindings_none(f, ivs.subrange(1, ivs.len() as int));
    }
}

/// The transform's whole plumbing arithmetic: over any program and any
/// plumbing-shaped predicate, the output counts the input plus the one
/// shared import plus one binding per instrumentation.
proof fn lemma_transform_cnt(
    f: spec_fn(StmtV) -> bool,
    ivs: Seq<InstrV>,
    dc: Seq<char>,
    p: ProgramV,
)
    requires
        plumbing_only(f),
    ensures
        cnt_stmts(f, transform_program_v(ivs, dc, p).1.body) == cnt_stmts(f, p.body) + (if f(
            match p.kind {
                crate::ast::ProgramKind::Module => import_stmt_v(dc),
                crate::ast::ProgramKind::Script => require_stmt_v(dc),
            },
        ) {
            1nat
        } else {
            0nat
        }) + cnt_bindings(f, ivs),
{
    match p.kind {
        crate::ast::ProgramKind::Module => {
            let imp = import_stmt_v(dc);
            let b1 = p.body.insert(0, imp);
            lemma_cnt_stmts_insert(f, p.body, 0, imp);
            assert(cnt_stmt(f, imp) == if f(imp) {
                1nat
            } else {
                0nat
            });
            lemma_fan_module_preludes_cnt(f, ivs, b1);
            let b2 = fan_module_preludes_v(ivs, b1);
            lemma_visit_stmts_cnt(f, ivs, b2);
        },
        crate::ast::ProgramKind::Script => {
            let req = require_stmt_v(dc);
            let k = script_start_index_v(p.body);
            let b1 = p.body.insert(k, req);
            lemma_cnt_stmts_insert(f, p.body, k, req);
            assert(cnt_stmt(f, req) == if f(req) {
                1nat
            } else {
                0nat
            });
            if k == 1 {
                assert(b1[0] == p.body[0]);
            }
            assert(script_start_index_v(b1) + 1 <= b1.len());
            lemma_fan_script_preludes_cnt(f, ivs, b1);
            let b2 = fan_script_preludes_v(ivs, b1);
            lemma_visit_stmts_cnt(f, ivs, b2);
        },
    }
}

/// For any program that holds no channel import of its own, the transformed
/// program holds exactly one, however many instrumentations ran.
pub proof fn lemma_single_import(ivs: Seq<InstrV>, dc: Seq<char>, p: ProgramV)
    requires
        cnt_stmts(|s: StmtV| is_import_v(s), p.body) == 0,
    ensures
        cnt_stmts(|s: StmtV| is_import_v(s), transform_program_v(ivs, dc, p).1.body) == 1,
{
    let f = |s: StmtV| is_import_v(s);
    assert(plumbing_only(f));
    lemma_cnt_bindings_none(f, ivs);
    lemma_transform_cnt(f, ivs, dc, p);
}

/// For any program that holds no channel binding of its own, the transformed
/// program holds exactly one binding per instrumentation that ran.
pub proof fn lemma_one_prelude_per_instrumentation(ivs: Seq<InstrV>, dc: Seq<char>, p: ProgramV)
    requires
        cnt_stmts(|s: StmtV| is_prelude_v(s), p.body) == 0,
    ensures
        cnt_stmts(|s: StmtV| is_prelude_v(s), transform_program_v(ivs, dc, p).1.body) == ivs.len(),
{
    let f = |s: StmtV| is_prelude_v(s);
    assert(plumbing_only(f));
    assert forall|i: int|
        0 <= i < ivs.len() implies f(#[trigger] channel_binding_stmt(ivs[i].config)) by {
        lemma_binding_is_prelude(ivs[i].config);
    }
    lemma_cnt_bindings_all(f, ivs);
    lemma_transform_cnt(f, ivs, dc, p);
}


// ---------------------------------------------------------------------------
// Ordinality: with index k, the (k+1)-th name-identical candidate is wrapped
// and the others are untouched.
// ---------------------------------------------------------------------------

/// A statement list the traversal leaves alone, whatever the states: no
/// statement in it matches anything and nothing in it is rewritten.
pub open spec fn stmts_inert(ss: Seq<StmtV>) -> bool {
    forall|ivs: Seq<InstrV>| #[trigger] visit_stmts_v(ivs, ss) == (ivs, ss)
}

/// A candidate for a declaration query: a function declaration carrying the
/// query's name, with a body, whose body the traversal leaves alone.
pub open spec fn decl_candidate(s: StmtV, q: FunctionQuery) -> bool {
    match s {
        StmtV::FnDecl(fd) => fd.name == q.spec_name() && match fd.func.body {
            Option::Some(b) => stmts_inert(b),
            Option::None => false,
        },
        _ => false,
    }
}

/// The candidate `s` with its body wrapped for `iv`.
pub open spec fn wrapped_candidate(iv: InstrV, s: StmtV) -> StmtV {
    let fd = s->FnDecl_0;
    StmtV::FnDecl(
        FnDeclV {
            name: fd.name,
            func: FunctionV {
                body: Option::Some(
                    wrapped_body_v(
                        iv.config,
                        iv.module_version,
                        fd.func.params,
                        fd.func.body->Some_0,
                    ),
                ),
                ..fd.func
            },
        },
    )
}

/// One candidate offered to one instrumentation: a hit at the wanted ordinal
/// wraps the body, a miss leaves the statement untouched; either way the
/// ordinal moves by one.
proof fn lemma_visit_candidate(iv: InstrV, s: StmtV)
    requires
        iv.config.query.spec_typ() == FunctionType::FunctionDeclaration,
        decl_candidate(s, iv.config.query),
        0 <= iv.count < usize::MAX as int,
    ensures
        ({
            let (ivs2, out) = visit_stmt_v(seq![iv], s);
            if iv.count == iv.config.query.spec_index() {
                ivs2 == seq![InstrV { count: iv.count + 1, has_injected: true, ..iv }] && out
                    == wrapped_candidate(iv, s)
            } else {
                ivs2 == seq![InstrV { count: iv.count + 1, ..iv }] && out == s
            }
        }),
{
    let fd = s->FnDecl_0;
    let ivs = seq![iv];
    let flags = fan_fn_decl_flags(ivs, fd);
    let ivs1 = fan_fn_decl_states(ivs, fd);
    let (iv2, w) = decide_fn_decl_v(iv, fd);
    assert(flags =~= seq![w]);
    assert(ivs1 =~= seq![iv2]);
    let b = fd.func.body->Some_0;
    assert(visit_stmts_v(ivs1, b) == (ivs1, b));
    assert(visit_opt_stmts_v(ivs1, fd.func.body) == (ivs1, fd.func.body));
    assert(visit_function_v(ivs1, fd.func) == (ivs1, FunctionV { ..fd.func }));
    assert(FunctionV { ..fd.func } == fd.func);
    // the apply fan over one instrumentation
    assert(ivs1.subrange(0, 0) =~= Seq::<InstrV>::empty());
    assert(flags.subrange(0, 0) =~= Seq::<bool>::empty());
    assert(fan_apply_fn_v(Seq::<InstrV>::empty(), Seq::<bool>::empty(), fd.func) == fd.func);
    assert(fan_apply_fn_v(ivs1, flags, fd.func) == apply_fn_wrap_v(iv2, flag_at(flags, 0), fd.func));
    if iv.count == iv.config.query.spec_index() {
        assert(w);
        assert(iv2 == InstrV { count: iv.count + 1, has_injected: true, ..iv });
        assert(visit_stmt_v(ivs, s).1 == wrapped_candidate(iv, s));
    } else {
        assert(!w);
        assert(iv2 == InstrV { count: iv.count + 1, ..iv });
        assert(apply_fn_wrap_v(iv2, false, fd.func) == fd.func);
        assert(FnDeclV { name: fd.name, func: fd.func } == fd);
        assert(visit_stmt_v(ivs, s).1 == s);
    }
}

/// A run of candidates the wanted ordinal lies outside of: every candidate
/// misses, nothing changes, and the ordinal moves by the length of the run.
proof fn lemma_ordinality_all_miss(iv: InstrV, ss: Seq<StmtV>)
    requires
        iv.config.query.spec_typ() == FunctionType::FunctionDeclaration,
        forall|j: int| 0 <= j < ss.len() ==> decl_candidate(#[trigger] ss[j], iv.config.query),
        0 <= iv.count,
        iv.count + ss.len() <= usize::MAX as int,
        iv.config.query.spec_index() < iv.count || iv.config.query.spec_index() >= iv.count
            + ss.len(),
    ensures
        visit_stmts_v(seq![iv], ss) == (
            seq![InstrV { count: iv.count + ss.len(), ..iv }],
            ss,
        ),
    decreases ss,
{
    if ss.len() == 0 {
        assert(InstrV { count: iv.count + 0, ..iv } == iv);
        assert(seq![InstrV { count: iv.count, ..iv }] =~= seq![iv]);
    } else {
        let pre = ss.subrange(0, ss.len() - 1);
        lemma_ordinality_all_miss(iv, pre);
        let iv1 = InstrV { count: iv.count + pre.len(), ..iv };
        assert(seq![InstrV { count: iv.count + pre.len(), ..iv }] =~= seq![iv1]);
        lemma_visit_candidate(iv1, ss[ss.len() - 1]);
        assert(visit_stmts_v(seq![iv], ss).1 =~= ss);
        assert(seq![InstrV { count: iv1.count + 1, ..iv1 }] =~= seq![
            InstrV { count: iv.count + ss.len(), ..iv },
        ]);
    }
}

/// Ordinality: among a run of name-identical candidates, exactly the one at
/// the query's ordinal is wrapped, every other one is untouched, the success
/// flag is set, and the ordinal ends past the run.
pub proof fn lemma_ordinality(iv: InstrV, ss: Seq<StmtV>)
    requires
        iv.config.query.spec_typ() == FunctionType::FunctionDeclaration,
        forall|j: int| 0 <= j < ss.len() ==> decl_candidate(#[trigger] ss[j], iv.config.query),
        0 <= iv.count,
        iv.count + ss.len() <= usize::MAX as int,
        iv.count <= iv.config.query.spec_index() < iv.count + ss.len(),
    ensures
        ({
            let (ivs2, out) = visit_stmts_v(seq![iv], ss);
            let hit = iv.config.query.spec_index() - iv.count;
            &&& out.len() == ss.len()
            &&& forall|j: int| 0 <= j < ss.len() && j != hit ==> out[j] == ss[j]
            &&& out[hit] == wrapped_candidate(
                InstrV { count: iv.config.query.spec_index(), ..iv },
                ss[hit],
            )
            &&& ivs2 == seq![
                InstrV { count: iv.count + ss.len(), has_injected: true, ..iv },
            ]
        }),
    decreases ss,
{
    let k = iv.config.query.spec_index();
    let hit = k - iv.count;
    let pre = ss.subrange(0, ss.len() - 1);
    let (ivs1, pre_out) = visit_stmts_v(seq![iv], pre);
    let (ivs2, out) = visit_stmts_v(seq![iv], ss);
    if hit == ss.len() - 1 {
        lemma_ordinality_all_miss(iv, pre);
        let iv1 = InstrV { count: iv.count + pre.len(), ..iv };
        assert(seq![InstrV { count: iv.count + pre.len(), ..iv }] =~= seq![iv1]);
        assert(iv1.count == k);
        lemma_visit_candidate(iv1, ss[ss.len() - 1]);
        assert(iv1.config == iv.config && iv1.module_version == iv.module_version);
        assert(wrapped_candidate(iv1, ss[hit]) == wrapped_candidate(
            InstrV { count: k, ..iv },
            ss[hit],
        ));
        assert(out =~= pre.push(wrapped_candidate(iv1, ss[hit])));
        assert(out[hit] == wrapped_candidate(InstrV { count: k, ..iv }, ss[hit]));
        assert(forall|j: int| 0 <= j < ss.len() && j != hit ==> out[j] == ss[j]);
        assert(ivs2 =~= seq![InstrV { count: iv.count + ss.len(), has_injected: true, ..iv }]);
    } else {
        lemma_ordinality(iv, pre);
        let iv1 = InstrV { count: iv.count + pre.len(), has_injected: true, ..iv };
        assert(ivs1 =~= seq![iv1]);
        assert(iv1.count > k);
        lemma_visit_candidate(iv1, ss[ss.len() - 1]);
        assert(out =~= pre_out.push(ss[ss.len() - 1]));
        assert(out[hit] == pre_out[hit]);
        assert(pre_out[hit] == wrapped_candidate(InstrV { count: k, ..iv }, pre[hit]));
        assert(pre[hit] == ss[hit]);
        assert forall|j: int| 0 <= j < ss.len() && j != hit implies out[j] == ss[j] by {
            if j < ss.len() - 1 {
                assert(out[j] == pre_out[j]);
                assert(pre[j] == ss[j]);
            }
        }
        assert(ivs2 =~= seq![InstrV { count: iv.count + ss.len(), has_injected: true, ..iv }]);
    }
}


/// The shape of the fast path: the wrapper is four statements; the third is
/// the guard that, with nobody subscribed, returns the traced thunk's call
/// directly; and the fourth routes the call through the tracing operator of
/// the query's kind on the instrumentation's own channel. (What the wrapped
/// code computes at run time is the embedding's business; the engine pins the
/// emitted shape.)
pub proof fn lemma_hot_path_shape(
    cv: ConfigV,
    mv: Option<Seq<char>>,
    params: Seq<PatV>,
    orig: Seq<StmtV>,
)
    ensures
        ({
            let w = wrapped_body_v(cv, mv, params, orig);
            let id = sanitize_id(cv.channel_name);
            &&& w.len() == 4
            &&& w[2] == (StmtV::If {
                cond: ExprV::Not(seq![has_subscribers_v(id)]),
                cons: seq![
                    StmtV::Return(
                        Option::Some(
                            ExprV::Call {
                                callee: seq![ExprV::Ident("__apm$traced"@)],
                                args: Seq::<ExprV>::empty(),
                            },
                        ),
                    ),
                ],
                alt: Option::None,
            })
            &&& (w[3] matches StmtV::Return(Option::Some(ExprV::Call { callee, args }))
                && callee == seq![
                    ExprV::Member {
                        obj: seq![ExprV::Ident(channel_ident(id))],
                        prop: operator_name(cv.query.spec_kind()),
                    },
                ])
        }),
{
}

} // verus!
