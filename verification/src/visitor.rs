//! The traversal driver: one pass over a program, fanned out over all
//! selected instrumentations.
//!
//! At every supported node the driver lets each instrumentation decide, in
//! configuration order, whether it matches (moving that instrumentation's
//! counters), then descends into the node's original children when any
//! instrumentation asked for it, and finally applies the decided rewrites,
//! again in configuration order, so that when several instrumentations wrap
//! one function the later configuration ends up outermost.

use vstd::prelude::*;

use crate::ast::{
    assign_view, class_decl_view, class_expr_view, class_method_view, constructor_view,
    AssignTarget, BindingPat, Prop,
    decl_view, decls_view, expr_view, exprs_view, fn_decl_view, fn_expr_view, fun_view,
    lemma_stmts_view_index, member_view, members_view, method_prop_view, opt_stmts_view, var_decl_view,
    opt_str_view, prop_view, props_view, stmt_view, stmts_view, AssignExpr, AssignExprV,
    ClassDecl, ClassExpr, ClassMember, ClassMethod, ClassMethodV, Constructor, ConstructorV,
    ClassDeclV, ClassExprV, DeclaratorV, Expr, ExprV, FnDecl, FnDeclV, FnExprV, Function,
    FunctionV, KeyV, MemberV, MethodProp, MethodPropV, PatV, Program, PropV, TargetV,
    ProgramKind, ProgramV, Stmt, StmtV, VarDecl, VarDeclV, VarDeclarator,
};
use crate::config::{module_matches, Config};
use crate::error::OrchestrionError;
use crate::instrumentation::{
    apply_assign_v, apply_ctor_wrap_v, apply_decls_v, apply_fn_wrap_v, channel_binding_stmt,
    config_view, decide_assign_v, decide_class_decl_v, decide_class_expr_v,
    decide_class_method_v, decide_constructor_v, decide_decls_v, decide_fn_decl_v,
    decide_method_prop_v, flag_at, instrs_view, script_start_index_v, ConfigV, InstrV,
    Instrumentation, get_script_start_index,
};

verus! {

// ---------------------------------------------------------------------------
// The decide fan-out: every instrumentation decides on its own state, so the
// fanned decision is element-wise.
// ---------------------------------------------------------------------------

pub open spec fn fan_fn_decl_states(ivs: Seq<InstrV>, fd: FnDeclV) -> Seq<InstrV> {
    Seq::new(ivs.len(), |i: int| decide_fn_decl_v(ivs[i], fd).0)
}

pub open spec fn fan_fn_decl_flags(ivs: Seq<InstrV>, fd: FnDeclV) -> Seq<bool> {
    Seq::new(ivs.len(), |i: int| decide_fn_decl_v(ivs[i], fd).1)
}

pub open spec fn fan_var_decl_states(ivs: Seq<InstrV>, vd: VarDeclV) -> Seq<InstrV> {
    Seq::new(ivs.len(), |i: int| decide_decls_v(ivs[i], vd.decls).0)
}

pub open spec fn fan_var_decl_flags(ivs: Seq<InstrV>, vd: VarDeclV) -> Seq<Seq<bool>> {
    Seq::new(ivs.len(), |i: int| decide_decls_v(ivs[i], vd.decls).1)
}

/// Whether any instrumentation still wants the declarators' children
/// visited: each answers "do not recurse" only when its last eligible
/// declarator was wrapped.
pub open spec fn fan_var_decl_recurse(ivs: Seq<InstrV>, vd: VarDeclV) -> bool {
    exists|i: int| 0 <= i < ivs.len() && !decide_decls_v(ivs[i], vd.decls).2
}

pub open spec fn fan_class_decl_states(ivs: Seq<InstrV>, name: Seq<char>) -> Seq<InstrV> {
    Seq::new(ivs.len(), |i: int| decide_class_decl_v(ivs[i], name))
}

pub open spec fn fan_class_expr_states(ivs: Seq<InstrV>, name: Option<Seq<char>>) -> Seq<
    InstrV,
> {
    Seq::new(ivs.len(), |i: int| decide_class_expr_v(ivs[i], name))
}

pub open spec fn fan_class_method_states(ivs: Seq<InstrV>, m: ClassMethodV) -> Seq<InstrV> {
    Seq::new(ivs.len(), |i: int| decide_class_method_v(ivs[i], m).0)
}

pub open spec fn fan_class_method_flags(ivs: Seq<InstrV>, m: ClassMethodV) -> Seq<bool> {
    Seq::new(ivs.len(), |i: int| decide_class_method_v(ivs[i], m).1)
}

pub open spec fn fan_class_method_recurse(ivs: Seq<InstrV>, m: ClassMethodV) -> bool {
    exists|i: int| 0 <= i < ivs.len() && decide_class_method_v(ivs[i], m).2
}

pub open spec fn fan_constructor_states(ivs: Seq<InstrV>, c: ConstructorV) -> Seq<InstrV> {
    Seq::new(ivs.len(), |i: int| decide_constructor_v(ivs[i], c).0)
}

pub open spec fn fan_constructor_flags(ivs: Seq<InstrV>, c: ConstructorV) -> Seq<bool> {
    Seq::new(ivs.len(), |i: int| decide_constructor_v(ivs[i], c).1)
}

pub open spec fn fan_method_prop_states(ivs: Seq<InstrV>, m: MethodPropV) -> Seq<InstrV> {
    Seq::new(ivs.len(), |i: int| decide_method_prop_v(ivs[i], m).0)
}

pub open spec fn fan_method_prop_flags(ivs: Seq<InstrV>, m: MethodPropV) -> Seq<bool> {
    Seq::new(ivs.len(), |i: int| decide_method_prop_v(ivs[i], m).1)
}

pub open spec fn fan_assign_states(ivs: Seq<InstrV>, a: AssignExprV) -> Seq<InstrV> {
    Seq::new(ivs.len(), |i: int| decide_assign_v(ivs[i], a).0)
}

pub open spec fn fan_assign_flags(ivs: Seq<InstrV>, a: AssignExprV) -> Seq<bool> {
    Seq::new(ivs.len(), |i: int| decide_assign_v(ivs[i], a).1)
}

pub open spec fn fan_assign_recurse(ivs: Seq<InstrV>, a: AssignExprV) -> bool {
    exists|i: int| 0 <= i < ivs.len() && !decide_assign_v(ivs[i], a).1
}

// ---------------------------------------------------------------------------
// The apply fan-out: the rewrites stack, the first configuration innermost.
// ---------------------------------------------------------------------------

pub open spec fn fan_apply_fn_v(ivs: Seq<InstrV>, flags: Seq<bool>, f: FunctionV) -> FunctionV
    decreases ivs,
{
    if ivs.len() == 0 {
        f
    } else {
        apply_fn_wrap_v(
            ivs[ivs.len() - 1],
            flag_at(flags, ivs.len() - 1),
            fan_apply_fn_v(ivs.subrange(0, ivs.len() - 1), flags.subrange(0, ivs.len() - 1), f),
        )
    }
}

pub open spec fn fan_apply_ctor_v(ivs: Seq<InstrV>, flags: Seq<bool>, c: ConstructorV) -> ConstructorV
    decreases ivs,
{
    if ivs.len() == 0 {
        c
    } else {
        apply_ctor_wrap_v(
            ivs[ivs.len() - 1],
            flag_at(flags, ivs.len() - 1),
            fan_apply_ctor_v(ivs.subrange(0, ivs.len() - 1), flags.subrange(0, ivs.len() - 1), c),
        )
    }
}

/// The flag list of instrumentation `k`, empty past the end.
pub open spec fn flags_at(flagss: Seq<Seq<bool>>, k: int) -> Seq<bool> {
    if 0 <= k < flagss.len() {
        flagss[k]
    } else {
        Seq::empty()
    }
}

pub open spec fn fan_apply_decls_v(
    ivs: Seq<InstrV>,
    flagss: Seq<Seq<bool>>,
    ds: Seq<DeclaratorV>,
) -> Seq<DeclaratorV>
    decreases ivs,
{
    if ivs.len() == 0 {
        ds
    } else {
        apply_decls_v(
            ivs[ivs.len() - 1],
            flags_at(flagss, ivs.len() - 1),
            fan_apply_decls_v(
                ivs.subrange(0, ivs.len() - 1),
                flagss.subrange(0, ivs.len() - 1),
                ds,
            ),
        )
    }
}

pub open spec fn fan_apply_assign_v(ivs: Seq<InstrV>, flags: Seq<bool>, a: AssignExprV) -> AssignExprV
    decreases ivs,
{
    if ivs.len() == 0 {
        a
    } else {
        apply_assign_v(
            ivs[ivs.len() - 1],
            flag_at(flags, ivs.len() - 1),
            fan_apply_assign_v(
                ivs.subrange(0, ivs.len() - 1),
                flags.subrange(0, ivs.len() - 1),
                a,
            ),
        )
    }
}

// ---------------------------------------------------------------------------
// Preludes and resets.
// ---------------------------------------------------------------------------

/// Each instrumentation's channel binding goes to index 1 of a module body,
/// in configuration order, right behind the shared import.
pub open spec fn fan_module_preludes_v(ivs: Seq<InstrV>, body: Seq<StmtV>) -> Seq<StmtV>
    decreases ivs,
{
    if ivs.len() == 0 {
        body
    } else {
        fan_module_preludes_v(
            ivs.subrange(1, ivs.len() as int),
            body.insert(1, channel_binding_stmt(ivs[0].config)),
        )
    }
}

/// Each instrumentation's channel binding goes right behind the shared
/// require of a script body, in configuration order.
pub open spec fn fan_script_preludes_v(ivs: Seq<InstrV>, body: Seq<StmtV>) -> Seq<StmtV>
    decreases ivs,
{
    if ivs.len() == 0 {
        body
    } else {
        fan_script_preludes_v(
            ivs.subrange(1, ivs.len() as int),
            body.insert(script_start_index_v(body) + 1, channel_binding_stmt(ivs[0].config)),
        )
    }
}

/// All per-traversal counters cleared, as after finishing a program.
pub open spec fn reset_all_v(ivs: Seq<InstrV>) -> Seq<InstrV> {
    Seq::new(ivs.len(), |i: int| InstrV { count: 0, is_correct_class: false, ..ivs[i] })
}

/// All success flags cleared, as after collecting failures.
pub open spec fn clear_injected_v(ivs: Seq<InstrV>) -> Seq<InstrV> {
    Seq::new(ivs.len(), |i: int| InstrV { has_injected: false, ..ivs[i] })
}

/// The query names of the instrumentations that did not inject, in order.
pub open spec fn failed_names_v(ivs: Seq<InstrV>) -> Seq<Seq<char>>
    decreases ivs,
{
    if ivs.len() == 0 {
        Seq::empty()
    } else {
        let rest = failed_names_v(ivs.subrange(0, ivs.len() - 1));
        if ivs[ivs.len() - 1].has_injected {
            rest
        } else {
            rest.push(ivs[ivs.len() - 1].config.query.spec_name())
        }
    }
}

// ---------------------------------------------------------------------------
// The driver.
// ---------------------------------------------------------------------------

/// The selected instrumentations of one file, and the single traversal that
/// rewrites a parsed program with all of them.
#[derive(Debug)]
pub struct InstrumentationVisitor {
    instrumentations: Vec<Instrumentation>,
    dc_module: String,
}

impl InstrumentationVisitor {
    /// The match states of the selected instrumentations, in configuration
    /// order.
    pub closed spec fn states(self) -> Seq<InstrV> {
        instrs_view(self.instrumentations@)
    }

    /// The module specifier the channel factory is imported from.
    pub closed spec fn dc(self) -> Seq<char> {
        self.dc_module@
    }

    pub(crate) fn new(instrumentations: Vec<Instrumentation>, dc_module: String) -> (r: Self)
        ensures
            r.states() == instrs_view(instrumentations@),
            r.dc() == dc_module@,
    {
        InstrumentationVisitor { instrumentations, dc_module }
    }

    #[verifier::loop_isolation(false)]
    fn fan_decide_fn_decl(&mut self, node: &FnDecl) -> (flags: Vec<bool>)
        ensures
            final(self).states() == fan_fn_decl_states(
                old(self).states(),
                fn_decl_view(*node),
            ),
            flags@ == fan_fn_decl_flags(old(self).states(), fn_decl_view(*node)),
            final(self).dc() == old(self).dc(),
    {
        let ghost ivs0 = old(self).states();
        let ghost fdv = fn_decl_view(*node);
        let n = self.instrumentations.len();
        let mut flags: Vec<bool> = Vec::new();
        let mut i: usize = 0;
        while i < n
            invariant
                n == self.instrumentations@.len(),
                i <= n,
                flags@.len() == i,
                ivs0.len() == n,
                self.dc_module == old(self).dc_module,
                forall|j: int| 0 <= j < n ==> ivs0[j] == old(self).instrumentations@[j].view_spec(),
                forall|j: int|
                    i <= j < n ==> self.instrumentations@[j] == old(self).instrumentations@[j],
                forall|j: int|
                    0 <= j < i ==> self.instrumentations@[j].view_spec() == decide_fn_decl_v(
                        ivs0[j],
                        fdv,
                    ).0,
                forall|j: int| 0 <= j < i ==> flags@[j] == decide_fn_decl_v(ivs0[j], fdv).1,
            decreases n - i,
        {
            proof {
                assert(self.instrumentations@[i as int].view_spec() == ivs0[i as int]);
            }
            let instr = &mut self.instrumentations[i];
            let w = instr.decide_fn_decl(node);
            flags.push(w);
            i = i + 1;
        }
        proof {
            assert(self.states() =~= fan_fn_decl_states(ivs0, fdv));
            assert(flags@ =~= fan_fn_decl_flags(ivs0, fdv));
        }
        flags
    }

    #[verifier::loop_isolation(false)]
    fn fan_apply_fn(&self, flags: &Vec<bool>, func: &mut Function)
        requires
            flags@.len() == self.states().len(),
        ensures
            fun_view(*final(func)) == fan_apply_fn_v(self.states(), flags@, fun_view(*old(func))),
    {
        let ghost ivs = self.states();
        let ghost f0 = fun_view(*old(func));
        let n = self.instrumentations.len();
        let mut i: usize = 0;
        while i < n
            invariant
                n == self.instrumentations@.len(),
                i <= n,
                ivs == self.states(),
                ivs.len() == n,
                fun_view(*func) == fan_apply_fn_v(
                    ivs.subrange(0, i as int),
                    flags@.subrange(0, i as int),
                    f0,
                ),
            decreases n - i,
        {
            let w = flags[i];
            let instr = &self.instrumentations[i];
            proof {
                assert(instr.view_spec() == ivs[i as int]);
                assert(w == flag_at(flags@.subrange(0, i + 1), i as int));
            }
            instr.apply_wrap(w, func);
            proof {
                assert(ivs.subrange(0, i + 1).subrange(0, i as int) =~= ivs.subrange(0, i as int));
                assert(flags@.subrange(0, i + 1).subrange(0, i as int) =~= flags@.subrange(
                    0,
                    i as int,
                ));
                assert(ivs.subrange(0, i + 1)[i as int] == ivs[i as int]);
            }
            i = i + 1;
        }
        proof {
            assert(ivs.subrange(0, n as int) =~= ivs);
            assert(flags@.subrange(0, n as int) =~= flags@);
        }
    }

    #[verifier::loop_isolation(false)]
    fn fan_decide_var_decl(&mut self, node: &VarDecl) -> (r: (Vec<Vec<bool>>, bool))
        ensures
            final(self).states() == fan_var_decl_states(old(self).states(), var_decl_view(*node)),
            r.0@.len() == old(self).states().len(),
            forall|j: int|
                0 <= j < r.0@.len() ==> r.0@[j]@ == fan_var_decl_flags(
                    old(self).states(),
                    var_decl_view(*node),
                )[j],
            r.1 == fan_var_decl_recurse(old(self).states(), var_decl_view(*node)),
            final(self).dc() == old(self).dc(),
    {
        let ghost ivs0 = old(self).states();
        let ghost vdv = var_decl_view(*node);
        let n = self.instrumentations.len();
        let mut flagss: Vec<Vec<bool>> = Vec::new();
        let mut recurse = false;
        let mut i: usize = 0;
        while i < n
            invariant
                n == self.instrumentations@.len(),
                i <= n,
                flagss@.len() == i,
                ivs0.len() == n,
                self.dc_module == old(self).dc_module,
                vdv.decls == decls_view(node.decls@),
                forall|j: int| 0 <= j < n ==> ivs0[j] == old(self).instrumentations@[j].view_spec(),
                forall|j: int|
                    i <= j < n ==> self.instrumentations@[j] == old(self).instrumentations@[j],
                forall|j: int|
                    0 <= j < i ==> self.instrumentations@[j].view_spec() == decide_decls_v(
                        ivs0[j],
                        vdv.decls,
                    ).0,
                forall|j: int|
                    0 <= j < i ==> flagss@[j]@ == decide_decls_v(ivs0[j], vdv.decls).1,
                recurse == exists|j: int| 0 <= j < i && !decide_decls_v(ivs0[j], vdv.decls).2,
            decreases n - i,
        {
            proof {
                assert(self.instrumentations@[i as int].view_spec() == ivs0[i as int]);
            }
            let instr = &mut self.instrumentations[i];
            let (flags, traced) = instr.decide_var_decl(node);
            flagss.push(flags);
            if !traced {
                recurse = true;
                proof {
                    assert(!decide_decls_v(ivs0[i as int], vdv.decls).2);
                }
            }
            i = i + 1;
        }
        proof {
            assert(self.states() =~= fan_var_decl_states(ivs0, vdv));
        }
        (flagss, recurse)
    }

    #[verifier::loop_isolation(false)]
    fn fan_decide_class_decl(&mut self, node: &ClassDecl)
        ensures
            final(self).states() == fan_class_decl_states(old(self).states(), node.name@),
            final(self).dc() == old(self).dc(),
    {
        let ghost ivs0 = old(self).states();
        let n = self.instrumentations.len();
        let mut i: usize = 0;
        while i < n
            invariant
                n == self.instrumentations@.len(),
                i <= n,
                ivs0.len() == n,
                self.dc_module == old(self).dc_module,
                forall|j: int| 0 <= j < n ==> ivs0[j] == old(self).instrumentations@[j].view_spec(),
                forall|j: int|
                    i <= j < n ==> self.instrumentations@[j] == old(self).instrumentations@[j],
                forall|j: int|
                    0 <= j < i ==> self.instrumentations@[j].view_spec() == decide_class_decl_v(
                        ivs0[j],
                        node.name@,
                    ),
            decreases n - i,
        {
            proof {
                assert(self.instrumentations@[i as int].view_spec() == ivs0[i as int]);
            }
            let instr = &mut self.instrumentations[i];
            instr.decide_class_decl(node);
            i = i + 1;
        }
        proof {
            assert(self.states() =~= fan_class_decl_states(ivs0, node.name@));
        }
    }

    #[verifier::loop_isolation(false)]
    fn fan_decide_class_expr(&mut self, node: &ClassExpr)
        ensures
            final(self).states() == fan_class_expr_states(
                old(self).states(),
                opt_str_view(node.name),
            ),
            final(self).dc() == old(self).dc(),
    {
        let ghost ivs0 = old(self).states();
        let n = self.instrumentations.len();
        let mut i: usize = 0;
        while i < n
            invariant
                n == self.instrumentations@.len(),
                i <= n,
                ivs0.len() == n,
                self.dc_module == old(self).dc_module,
                forall|j: int| 0 <= j < n ==> ivs0[j] == old(self).instrumentations@[j].view_spec(),
                forall|j: int|
                    i <= j < n ==> self.instrumentations@[j] == old(self).instrumentations@[j],
                forall|j: int|
                    0 <= j < i ==> self.instrumentations@[j].view_spec() == decide_class_expr_v(
                        ivs0[j],
                        opt_str_view(node.name),
                    ),
            decreases n - i,
        {
            proof {
                assert(self.instrumentations@[i as int].view_spec() == ivs0[i as int]);
            }
            let instr = &mut self.instrumentations[i];
            instr.decide_class_expr(node);
            i = i + 1;
        }
        proof {
            assert(self.states() =~= fan_class_expr_states(ivs0, opt_str_view(node.name)));
        }
    }

    #[verifier::loop_isolation(false)]
    fn fan_decide_class_method(&mut self, node: &ClassMethod) -> (r: (Vec<bool>, bool))
        ensures
            final(self).states() == fan_class_method_states(
                old(self).states(),
                class_method_view(*node),
            ),
            r.0@ == fan_class_method_flags(old(self).states(), class_method_view(*node)),
            r.1 == fan_class_method_recurse(old(self).states(), class_method_view(*node)),
            final(self).dc() == old(self).dc(),
    {
        let ghost ivs0 = old(self).states();
        let ghost mv = class_method_view(*node);
        let n = self.instrumentations.len();
        let mut flags: Vec<bool> = Vec::new();
        let mut recurse = false;
        let mut i: usize = 0;
        while i < n
            invariant
                n == self.instrumentations@.len(),
                i <= n,
                flags@.len() == i,
                ivs0.len() == n,
                self.dc_module == old(self).dc_module,
                mv == class_method_view(*node),
                forall|j: int| 0 <= j < n ==> ivs0[j] == old(self).instrumentations@[j].view_spec(),
                forall|j: int|
                    i <= j < n ==> self.instrumentations@[j] == old(self).instrumentations@[j],
                forall|j: int|
                    0 <= j < i ==> self.instrumentations@[j].view_spec() == decide_class_method_v(
                        ivs0[j],
                        mv,
                    ).0,
                forall|j: int| 0 <= j < i ==> flags@[j] == decide_class_method_v(ivs0[j], mv).1,
                recurse == exists|j: int| 0 <= j < i && decide_class_method_v(ivs0[j], mv).2,
            decreases n - i,
        {
            proof {
                assert(self.instrumentations@[i as int].view_spec() == ivs0[i as int]);
            }
            let instr = &mut self.instrumentations[i];
            let (w, rec) = instr.decide_class_method(node);
            flags.push(w);
            if rec {
                recurse = true;
                proof {
                    assert(decide_class_method_v(ivs0[i as int], mv).2);
                }
            }
            i = i + 1;
        }
        proof {
            assert(self.states() =~= fan_class_method_states(ivs0, mv));
            assert(flags@ =~= fan_class_method_flags(ivs0, mv));
        }
        (flags, recurse)
    }

    #[verifier::loop_isolation(false)]
    fn fan_decide_constructor(&mut self, node: &Constructor) -> (flags: Vec<bool>)
        ensures
            final(self).states() == fan_constructor_states(
                old(self).states(),
                constructor_view(*node),
            ),
            flags@ == fan_constructor_flags(old(self).states(), constructor_view(*node)),
            final(self).dc() == old(self).dc(),
    {
        let ghost ivs0 = old(self).states();
        let ghost cv = constructor_view(*node);
        let n = self.instrumentations.len();
        let mut flags: Vec<bool> = Vec::new();
        let mut i: usize = 0;
        while i < n
            invariant
                n == self.instrumentations@.len(),
                i <= n,
                flags@.len() == i,
                ivs0.len() == n,
                self.dc_module == old(self).dc_module,
                cv == constructor_view(*node),
                forall|j: int| 0 <= j < n ==> ivs0[j] == old(self).instrumentations@[j].view_spec(),
                forall|j: int|
                    i <= j < n ==> self.instrumentations@[j] == old(self).instrumentations@[j],
                forall|j: int|
                    0 <= j < i ==> self.instrumentations@[j].view_spec() == decide_constructor_v(
                        ivs0[j],
                        cv,
                    ).0,
                forall|j: int| 0 <= j < i ==> flags@[j] == decide_constructor_v(ivs0[j], cv).1,
            decreases n - i,
        {
            proof {
                assert(self.instrumentations@[i as int].view_spec() == ivs0[i as int]);
            }
            let instr = &mut self.instrumentations[i];
            let w = instr.decide_constructor(node);
            flags.push(w);
            i = i + 1;
        }
        proof {
            assert(self.states() =~= fan_constructor_states(ivs0, cv));
            assert(flags@ =~= fan_constructor_flags(ivs0, cv));
        }
        flags
    }

    #[verifier::loop_isolation(false)]
    fn fan_decide_method_prop(&mut self, node: &MethodProp) -> (flags: Vec<bool>)
        ensures
            final(self).states() == fan_method_prop_states(
                old(self).states(),
                method_prop_view(*node),
            ),
            flags@ == fan_method_prop_flags(old(self).states(), method_prop_view(*node)),
            final(self).dc() == old(self).dc(),
    {
        let ghost ivs0 = old(self).states();
        let ghost mv = method_prop_view(*node);
        let n = self.instrumentations.len();
        let mut flags: Vec<bool> = Vec::new();
        let mut i: usize = 0;
        while i < n
            invariant
                n == self.instrumentations@.len(),
                i <= n,
                flags@.len() == i,
                ivs0.len() == n,
                self.dc_module == old(self).dc_module,
                mv == method_prop_view(*node),
                forall|j: int| 0 <= j < n ==> ivs0[j] == old(self).instrumentations@[j].view_spec(),
                forall|j: int|
                    i <= j < n ==> self.instrumentations@[j] == old(self).instrumentations@[j],
                forall|j: int|
                    0 <= j < i ==> self.instrumentations@[j].view_spec() == decide_method_prop_v(
                        ivs0[j],
                        mv,
                    ).0,
                forall|j: int| 0 <= j < i ==> flags@[j] == decide_method_prop_v(ivs0[j], mv).1,
            decreases n - i,
        {
            proof {
                assert(self.instrumentations@[i as int].view_spec() == ivs0[i as int]);
            }
            let instr = &mut self.instrumentations[i];
            let w = instr.decide_method_prop(node);
            flags.push(w);
            i = i + 1;
        }
        proof {
            assert(self.states() =~= fan_method_prop_states(ivs0, mv));
            assert(flags@ =~= fan_method_prop_flags(ivs0, mv));
        }
        flags
    }

    #[verifier::loop_isolation(false)]
    fn fan_decide_assign(&mut self, node: &AssignExpr) -> (r: (Vec<bool>, bool))
        ensures
            final(self).states() == fan_assign_states(old(self).states(), assign_view(*node)),
            r.0@ == fan_assign_flags(old(self).states(), assign_view(*node)),
            r.1 == fan_assign_recurse(old(self).states(), assign_view(*node)),
            final(self).dc() == old(self).dc(),
    {
        let ghost ivs0 = old(self).states();
        let ghost av = assign_view(*node);
        let n = self.instrumentations.len();
        let mut flags: Vec<bool> = Vec::new();
        let mut recurse = false;
        let mut i: usize = 0;
        while i < n
            invariant
                n == self.instrumentations@.len(),
                i <= n,
                flags@.len() == i,
                ivs0.len() == n,
                self.dc_module == old(self).dc_module,
                av == assign_view(*node),
                forall|j: int| 0 <= j < n ==> ivs0[j] == old(self).instrumentations@[j].view_spec(),
                forall|j: int|
                    i <= j < n ==> self.instrumentations@[j] == old(self).instrumentations@[j],
                forall|j: int|
                    0 <= j < i ==> self.instrumentations@[j].view_spec() == decide_assign_v(
                        ivs0[j],
                        av,
                    ).0,
                forall|j: int| 0 <= j < i ==> flags@[j] == decide_assign_v(ivs0[j], av).1,
                recurse == exists|j: int| 0 <= j < i && !decide_assign_v(ivs0[j], av).1,
            decreases n - i,
        {
            proof {
                assert(self.instrumentations@[i as int].view_spec() == ivs0[i as int]);
            }
            let instr = &mut self.instrumentations[i];
            let traced = instr.decide_assign(node);
            flags.push(traced);
            if !traced {
                recurse = true;
                proof {
                    assert(!decide_assign_v(ivs0[i as int], av).1);
                }
            }
            i = i + 1;
        }
        proof {
            assert(self.states() =~= fan_assign_states(ivs0, av));
            assert(flags@ =~= fan_assign_flags(ivs0, av));
        }
        (flags, recurse)
    }

    #[verifier::loop_isolation(false)]
    fn fan_apply_ctor(&self, flags: &Vec<bool>, node: &mut Constructor)
        requires
            flags@.len() == self.states().len(),
        ensures
            constructor_view(*final(node)) == fan_apply_ctor_v(
                self.states(),
                flags@,
                constructor_view(*old(node)),
            ),
    {
        let ghost ivs = self.states();
        let ghost c0 = constructor_view(*old(node));
        let n = self.instrumentations.len();
        let mut i: usize = 0;
        while i < n
            invariant
                n == self.instrumentations@.len(),
                i <= n,
                ivs == self.states(),
                ivs.len() == n,
                constructor_view(*node) == fan_apply_ctor_v(
                    ivs.subrange(0, i as int),
                    flags@.subrange(0, i as int),
                    c0,
                ),
            decreases n - i,
        {
            let w = flags[i];
            let instr = &self.instrumentations[i];
            proof {
                assert(instr.view_spec() == ivs[i as int]);
                assert(w == flag_at(flags@.subrange(0, i + 1), i as int));
            }
            instr.apply_ctor(w, node);
            proof {
                assert(ivs.subrange(0, i + 1).subrange(0, i as int) =~= ivs.subrange(0, i as int));
                assert(flags@.subrange(0, i + 1).subrange(0, i as int) =~= flags@.subrange(
                    0,
                    i as int,
                ));
                assert(ivs.subrange(0, i + 1)[i as int] == ivs[i as int]);
            }
            i = i + 1;
        }
        proof {
            assert(ivs.subrange(0, n as int) =~= ivs);
            assert(flags@.subrange(0, n as int) =~= flags@);
        }
    }

    #[verifier::loop_isolation(false)]
    fn fan_apply_var_decl(&self, flagss: &Vec<Vec<bool>>, node: &mut VarDecl)
        requires
            flagss@.len() == self.states().len(),
        ensures
            var_decl_view(*final(node)) == (VarDeclV {
                kind: old(node).kind,
                decls: fan_apply_decls_v(
                    self.states(),
                    Seq::new(flagss@.len(), |k: int| flagss@[k]@),
                    decls_view(old(node).decls@),
                ),
            }),
    {
        let ghost ivs = self.states();
        let ghost fss = Seq::new(flagss@.len(), |k: int| flagss@[k]@);
        let ghost d0 = decls_view(old(node).decls@);
        let n = self.instrumentations.len();
        let mut i: usize = 0;
        while i < n
            invariant
                n == self.instrumentations@.len(),
                i <= n,
                ivs == self.states(),
                ivs.len() == n,
                fss.len() == n,
                forall|k: int| 0 <= k < n ==> fss[k] == flagss@[k]@,
                node.kind == old(node).kind,
                decls_view(node.decls@) == fan_apply_decls_v(
                    ivs.subrange(0, i as int),
                    fss.subrange(0, i as int),
                    d0,
                ),
            decreases n - i,
        {
            let instr = &self.instrumentations[i];
            proof {
                assert(instr.view_spec() == ivs[i as int]);
                assert(flags_at(fss.subrange(0, i + 1), i as int) == flagss@[i as int]@);
            }
            instr.apply_var_decl(&flagss[i], node);
            proof {
                assert(ivs.subrange(0, i + 1).subrange(0, i as int) =~= ivs.subrange(0, i as int));
                assert(fss.subrange(0, i + 1).subrange(0, i as int) =~= fss.subrange(0, i as int));
                assert(ivs.subrange(0, i + 1)[i as int] == ivs[i as int]);
            }
            i = i + 1;
        }
        proof {
            assert(ivs.subrange(0, n as int) =~= ivs);
            assert(fss.subrange(0, n as int) =~= fss);
            assert(var_decl_view(*node) == (VarDeclV {
                kind: node.kind,
                decls: decls_view(node.decls@),
            }));
        }
    }

    #[verifier::loop_isolation(false)]
    fn fan_apply_assign(&self, flags: &Vec<bool>, node: &mut AssignExpr)
        requires
            flags@.len() == self.states().len(),
        ensures
            assign_view(*final(node)) == fan_apply_assign_v(
                self.states(),
                flags@,
                assign_view(*old(node)),
            ),
    {
        let ghost ivs = self.states();
        let ghost a0 = assign_view(*old(node));
        let n = self.instrumentations.len();
        let mut i: usize = 0;
        while i < n
            invariant
                n == self.instrumentations@.len(),
                i <= n,
                ivs == self.states(),
                ivs.len() == n,
                assign_view(*node) == fan_apply_assign_v(
                    ivs.subrange(0, i as int),
                    flags@.subrange(0, i as int),
                    a0,
                ),
            decreases n - i,
        {
            let w = flags[i];
            let instr = &self.instrumentations[i];
            proof {
                assert(instr.view_spec() == ivs[i as int]);
                assert(w == flag_at(flags@.subrange(0, i + 1), i as int));
            }
            instr.apply_assign(w, node);
            proof {
                assert(ivs.subrange(0, i + 1).subrange(0, i as int) =~= ivs.subrange(0, i as int));
                assert(flags@.subrange(0, i + 1).subrange(0, i as int) =~= flags@.subrange(
                    0,
                    i as int,
                ));
                assert(ivs.subrange(0, i + 1)[i as int] == ivs[i as int]);
            }
            i = i + 1;
        }
        proof {
            assert(ivs.subrange(0, n as int) =~= ivs);
            assert(flags@.subrange(0, n as int) =~= flags@);
        }
    }
}


// ---------------------------------------------------------------------------
// The traversal, over the ghost tree. Lists are processed left to right;
// at hooked nodes the decisions come first, then the original children when
// any instrumentation asked for it, then the rewrites.
// ---------------------------------------------------------------------------

pub open spec fn visit_stmts_v(ivs: Seq<InstrV>, ss: Seq<StmtV>) -> (Seq<InstrV>, Seq<StmtV>)
    decreases ss,
{
    if ss.len() == 0 {
        (ivs, ss)
    } else {
        let (ivs1, pre) = visit_stmts_v(ivs, ss.subrange(0, ss.len() - 1));
        let (ivs2, lastv) = visit_stmt_v(ivs1, ss[ss.len() - 1]);
        (ivs2, pre.push(lastv))
    }
}

pub open spec fn visit_opt_stmts_v(ivs: Seq<InstrV>, b: Option<Seq<StmtV>>) -> (
    Seq<InstrV>,
    Option<Seq<StmtV>>,
)
    decreases b,
{
    match b {
        Option::Some(ss) => {
            let (ivs1, ss1) = visit_stmts_v(ivs, ss);
            (ivs1, Option::Some(ss1))
        },
        Option::None => (ivs, b),
    }
}

pub open spec fn visit_function_v(ivs: Seq<InstrV>, f: FunctionV) -> (Seq<InstrV>, FunctionV)
    decreases f,
{
    let (ivs1, b1) = visit_opt_stmts_v(ivs, f.body);
    (ivs1, FunctionV { body: b1, ..f })
}

pub open spec fn visit_exprs_v(ivs: Seq<InstrV>, es: Seq<ExprV>) -> (Seq<InstrV>, Seq<ExprV>)
    decreases es,
{
    if es.len() == 0 {
        (ivs, es)
    } else {
        let (ivs1, pre) = visit_exprs_v(ivs, es.subrange(0, es.len() - 1));
        let (ivs2, lastv) = visit_expr_v(ivs1, es[es.len() - 1]);
        (ivs2, pre.push(lastv))
    }
}

pub open spec fn visit_decls_v(ivs: Seq<InstrV>, ds: Seq<DeclaratorV>) -> (
    Seq<InstrV>,
    Seq<DeclaratorV>,
)
    decreases ds,
{
    if ds.len() == 0 {
        (ivs, ds)
    } else {
        let (ivs1, pre) = visit_decls_v(ivs, ds.subrange(0, ds.len() - 1));
        let (ivs2, lastv) = visit_declarator_v(ivs1, ds[ds.len() - 1]);
        (ivs2, pre.push(lastv))
    }
}

pub open spec fn visit_declarator_v(ivs: Seq<InstrV>, d: DeclaratorV) -> (Seq<InstrV>, DeclaratorV)
    decreases d,
{
    match d.init {
        Option::Some(e) => {
            let (ivs1, e1) = visit_expr_v(ivs, e);
            (ivs1, DeclaratorV { name: d.name, init: Option::Some(e1) })
        },
        Option::None => (ivs, d),
    }
}

pub open spec fn visit_members_v(ivs: Seq<InstrV>, ms: Seq<MemberV>) -> (Seq<InstrV>, Seq<MemberV>)
    decreases ms,
{
    if ms.len() == 0 {
        (ivs, ms)
    } else {
        let (ivs1, pre) = visit_members_v(ivs, ms.subrange(0, ms.len() - 1));
        let (ivs2, lastv) = visit_member_v(ivs1, ms[ms.len() - 1]);
        (ivs2, pre.push(lastv))
    }
}

pub open spec fn visit_member_v(ivs: Seq<InstrV>, m: MemberV) -> (Seq<InstrV>, MemberV)
    decreases m,
{
    match m {
        MemberV::Method(cm) => {
            let flags = fan_class_method_flags(ivs, cm);
            let ivs1 = fan_class_method_states(ivs, cm);
            let (ivs2, f2) = if fan_class_method_recurse(ivs, cm) {
                visit_function_v(ivs1, cm.func)
            } else {
                (ivs1, cm.func)
            };
            (ivs2, MemberV::Method(ClassMethodV { key: cm.key, func: fan_apply_fn_v(ivs2, flags, f2) }))
        },
        MemberV::Ctor(c) => {
            let flags = fan_constructor_flags(ivs, c);
            let ivs1 = fan_constructor_states(ivs, c);
            (ivs1, MemberV::Ctor(fan_apply_ctor_v(ivs1, flags, c)))
        },
        MemberV::Other(_) => (ivs, m),
    }
}

pub open spec fn visit_props_v(ivs: Seq<InstrV>, ps: Seq<PropV>) -> (Seq<InstrV>, Seq<PropV>)
    decreases ps,
{
    if ps.len() == 0 {
        (ivs, ps)
    } else {
        let (ivs1, pre) = visit_props_v(ivs, ps.subrange(0, ps.len() - 1));
        let (ivs2, lastv) = visit_prop_v(ivs1, ps[ps.len() - 1]);
        (ivs2, pre.push(lastv))
    }
}

pub open spec fn visit_prop_v(ivs: Seq<InstrV>, p: PropV) -> (Seq<InstrV>, PropV)
    decreases p,
{
    match p {
        PropV::Method(mp) => {
            let flags = fan_method_prop_flags(ivs, mp);
            let ivs1 = fan_method_prop_states(ivs, mp);
            (ivs1, PropV::Method(MethodPropV { key: mp.key, func: fan_apply_fn_v(ivs1, flags, mp.func) }))
        },
        PropV::KeyValue { key, value } => {
            let (ivs1, v1) = visit_expr_v(ivs, value);
            (ivs1, PropV::KeyValue { key, value: v1 })
        },
        PropV::Shorthand(_) => (ivs, p),
        PropV::Other(_) => (ivs, p),
    }
}

/// The children of a simple assignment: the member target's object, then the
/// right-hand side.
pub open spec fn visit_assign_children_v(ivs: Seq<InstrV>, a: AssignExprV) -> (
    Seq<InstrV>,
    AssignExprV,
)
    decreases a,
{
    let (ivs1, t1) = match a.target {
        TargetV::Member { obj, prop } => {
            let (ivs1, o1) = visit_exprs_v(ivs, obj);
            (ivs1, TargetV::Member { obj: o1, prop })
        },
        _ => (ivs, a.target),
    };
    let (ivs2, r1) = visit_exprs_v(ivs1, a.right);
    (ivs2, AssignExprV { target: t1, right: r1 })
}

pub open spec fn visit_expr_v(ivs: Seq<InstrV>, e: ExprV) -> (Seq<InstrV>, ExprV)
    decreases e,
{
    match e {
        ExprV::FnExpr(fe) => {
            let (ivs1, f1) = visit_function_v(ivs, fe.func);
            (ivs1, ExprV::FnExpr(FnExprV { name: fe.name, func: f1 }))
        },
        ExprV::Arrow { is_async, params, body } => {
            let (ivs1, b1) = visit_stmts_v(ivs, body);
            (ivs1, ExprV::Arrow { is_async, params, body: b1 })
        },
        ExprV::Class(ce) => {
            let ivs1 = fan_class_expr_states(ivs, ce.name);
            let (ivs2, ms2) = if ivs.len() > 0 {
                visit_members_v(ivs1, ce.members)
            } else {
                (ivs1, ce.members)
            };
            (ivs2, ExprV::Class(ClassExprV { name: ce.name, members: ms2 }))
        },
        ExprV::Assign(ae) => {
            let flags = fan_assign_flags(ivs, ae);
            let ivs1 = fan_assign_states(ivs, ae);
            let (ivs2, ae2) = if fan_assign_recurse(ivs, ae) {
                visit_assign_children_v(ivs1, ae)
            } else {
                (ivs1, ae)
            };
            (ivs2, ExprV::Assign(fan_apply_assign_v(ivs2, flags, ae2)))
        },
        ExprV::Call { callee, args } => {
            let (ivs1, c1) = visit_exprs_v(ivs, callee);
            let (ivs2, a1) = visit_exprs_v(ivs1, args);
            (ivs2, ExprV::Call { callee: c1, args: a1 })
        },
        ExprV::Member { obj, prop } => {
            let (ivs1, o1) = visit_exprs_v(ivs, obj);
            (ivs1, ExprV::Member { obj: o1, prop })
        },
        ExprV::Object(ps) => {
            let (ivs1, ps1) = visit_props_v(ivs, ps);
            (ivs1, ExprV::Object(ps1))
        },
        ExprV::Not(inner) => {
            let (ivs1, i1) = visit_exprs_v(ivs, inner);
            (ivs1, ExprV::Not(i1))
        },
        _ => (ivs, e),
    }
}

pub open spec fn visit_stmt_v(ivs: Seq<InstrV>, s: StmtV) -> (Seq<InstrV>, StmtV)
    decreases s,
{
    match s {
        StmtV::FnDecl(fd) => {
            let flags = fan_fn_decl_flags(ivs, fd);
            let ivs1 = fan_fn_decl_states(ivs, fd);
            let (ivs2, f2) = if ivs.len() > 0 {
                visit_function_v(ivs1, fd.func)
            } else {
                (ivs1, fd.func)
            };
            (ivs2, StmtV::FnDecl(FnDeclV { name: fd.name, func: fan_apply_fn_v(ivs2, flags, f2) }))
        },
        StmtV::VarDecl(vd) => {
            let flagss = fan_var_decl_flags(ivs, vd);
            let ivs1 = fan_var_decl_states(ivs, vd);
            let (ivs2, ds2) = if fan_var_decl_recurse(ivs, vd) {
                visit_decls_v(ivs1, vd.decls)
            } else {
                (ivs1, vd.decls)
            };
            (ivs2, StmtV::VarDecl(VarDeclV { kind: vd.kind, decls: fan_apply_decls_v(ivs2, flagss, ds2) }))
        },
        StmtV::ClassDecl(cd) => {
            let ivs1 = fan_class_decl_states(ivs, cd.name);
            let (ivs2, ms2) = if ivs.len() > 0 {
                visit_members_v(ivs1, cd.members)
            } else {
                (ivs1, cd.members)
            };
            (ivs2, StmtV::ClassDecl(ClassDeclV { name: cd.name, members: ms2 }))
        },
        StmtV::Expr(e) => {
            let (ivs1, e1) = visit_expr_v(ivs, e);
            (ivs1, StmtV::Expr(e1))
        },
        StmtV::Return(oe) => {
            match oe {
                Option::Some(e) => {
                    let (ivs1, e1) = visit_expr_v(ivs, e);
                    (ivs1, StmtV::Return(Option::Some(e1)))
                },
                Option::None => (ivs, s),
            }
        },
        StmtV::If { cond, cons, alt } => {
            let (ivs1, c1) = visit_expr_v(ivs, cond);
            let (ivs2, cons1) = visit_stmts_v(ivs1, cons);
            let (ivs3, alt1) = visit_opt_stmts_v(ivs2, alt);
            (ivs3, StmtV::If { cond: c1, cons: cons1, alt: alt1 })
        },
        StmtV::Block(ss) => {
            let (ivs1, ss1) = visit_stmts_v(ivs, ss);
            (ivs1, StmtV::Block(ss1))
        },
        StmtV::Try { block, catch_param, catch, finally } => {
            let (ivs1, b1) = visit_stmts_v(ivs, block);
            let (ivs2, c1) = visit_opt_stmts_v(ivs1, catch);
            let (ivs3, f1) = visit_opt_stmts_v(ivs2, finally);
            (ivs3, StmtV::Try { block: b1, catch_param, catch: c1, finally: f1 })
        },
        StmtV::Throw(e) => {
            let (ivs1, e1) = visit_expr_v(ivs, e);
            (ivs1, StmtV::Throw(e1))
        },
        _ => (ivs, s),
    }
}

/// The shared channel import of a module:
/// `import { tracingChannel as tr_ch_apm_tracingChannel } from '<dc>';`
pub open spec fn import_stmt_v(dc: Seq<char>) -> StmtV {
    StmtV::ImportNamed {
        imported: "tracingChannel"@,
        local: "tr_ch_apm_tracingChannel"@,
        src: dc,
    }
}

/// The shared channel require of a script:
/// `const { tracingChannel: tr_ch_apm_tracingChannel } = require('<dc>');`
pub open spec fn require_stmt_v(dc: Seq<char>) -> StmtV {
    StmtV::RequireNamed {
        imported: "tracingChannel"@,
        local: "tr_ch_apm_tracingChannel"@,
        src: dc,
    }
}

/// One whole program: the shared import, the per-instrumentation preludes,
/// one traversal, and the counter reset.
pub open spec fn transform_program_v(ivs: Seq<InstrV>, dc: Seq<char>, p: ProgramV) -> (
    Seq<InstrV>,
    ProgramV,
)
{
    match p.kind {
        ProgramKind::Module => {
            let b1 = p.body.insert(0, import_stmt_v(dc));
            let b2 = fan_module_preludes_v(ivs, b1);
            let (ivs1, b3) = visit_stmts_v(ivs, b2);
            (reset_all_v(ivs1), ProgramV { kind: p.kind, body: b3 })
        },
        ProgramKind::Script => {
            let b1 = p.body.insert(script_start_index_v(p.body), require_stmt_v(dc));
            let b2 = fan_script_preludes_v(ivs, b1);
            let (ivs1, b3) = visit_stmts_v(ivs, b2);
            (reset_all_v(ivs1), ProgramV { kind: p.kind, body: b3 })
        },
    }
}


// ---------------------------------------------------------------------------
// Small helpers for singleton lists in the mirror.
// ---------------------------------------------------------------------------

proof fn lemma_visit_stmts_one(ivs: Seq<InstrV>, x: StmtV)
    ensures
        visit_stmts_v(ivs, seq![x]) == ({
            let (a, b) = visit_stmt_v(ivs, x);
            (a, seq![b])
        }),
{
    assert(seq![x].subrange(0, 0) =~= Seq::<StmtV>::empty());
    assert(visit_stmts_v(ivs, Seq::<StmtV>::empty()) == (ivs, Seq::<StmtV>::empty()));
    let (a, b) = visit_stmt_v(ivs, x);
    assert(visit_stmts_v(ivs, seq![x]).1 =~= seq![b]);
}

proof fn lemma_visit_exprs_one(ivs: Seq<InstrV>, x: ExprV)
    ensures
        visit_exprs_v(ivs, seq![x]) == ({
            let (a, b) = visit_expr_v(ivs, x);
            (a, seq![b])
        }),
{
    assert(seq![x].subrange(0, 0) =~= Seq::<ExprV>::empty());
    assert(visit_exprs_v(ivs, Seq::<ExprV>::empty()) == (ivs, Seq::<ExprV>::empty()));
    let (a, b) = visit_expr_v(ivs, x);
    assert(visit_exprs_v(ivs, seq![x]).1 =~= seq![b]);
}

impl InstrumentationVisitor {
    /// How many instrumentations are fanned out.
    fn instr_count(&self) -> (n: usize)
        ensures
            n == self.states().len(),
    {
        self.instrumentations.len()
    }

    #[verifier::loop_isolation(false)]
    #[verifier::rlimit(100)]
    fn visit_stmts(&mut self, v: &mut Vec<Stmt>)
        ensures
            ({
                let (ivs2, ss2) = visit_stmts_v(old(self).states(), stmts_view(old(v)@));
                final(self).states() == ivs2 && stmts_view(final(v)@) == ss2
            }),
            final(self).states().len() == old(self).states().len(),
            final(self).dc() == old(self).dc(),
        decreases *old(v),
    {
        let ghost ivs0 = self.states();
        let ghost v0 = old(v)@;
        proof {
            lemma_stmts_view_index(v0);
        }
        let n = v.len();
        let mut i: usize = 0;
        while i < n
            invariant
                n == v@.len(),
                n == v0.len(),
                i <= n,
                self.dc() == old(self).dc(),
                self.states().len() == ivs0.len(),
                forall|j: int| i <= j < n ==> v@[j] == v0[j],
                ({
                    let (ivs_i, out_i) = visit_stmts_v(ivs0, stmts_view(v0.subrange(0, i as int)));
                    self.states() == ivs_i && stmts_view(v@.subrange(0, i as int)) == out_i
                }),
            decreases n - i,
        {
            let ghost pre_states = self.states();
            let ghost v_pre = v@;
            let ghost out_i = stmts_view(v@.subrange(0, i as int));
            let mut elem = Stmt::Other(0);
            v.set_and_swap(i, &mut elem);
            proof {
                assert(elem == v0[i as int]);
                assert(decreases_to!(v0 => v0[i as int]));
            }
            self.visit_stmt(&mut elem);
            v.set_and_swap(i, &mut elem);
            proof {
                let pre = v0.subrange(0, i as int);
                let prepost = v0.subrange(0, i + 1);
                lemma_stmts_view_index(pre);
                lemma_stmts_view_index(prepost);
                assert(stmts_view(prepost).subrange(0, i as int) =~= stmts_view(pre));
                assert(stmts_view(prepost) =~= stmts_view(pre).push(stmt_view(v0[i as int])));
                assert(v@.subrange(0, i as int) =~= v_pre.subrange(0, i as int));
                lemma_stmts_view_index(v@.subrange(0, i + 1));
                lemma_stmts_view_index(v@.subrange(0, i as int));
                assert(stmts_view(v@.subrange(0, i + 1)) =~= out_i.push(stmt_view(v@[i as int])));
            }
            i = i + 1;
        }
        proof {
            assert(v0.subrange(0, n as int) =~= v0);
            assert(v@.subrange(0, n as int) =~= v@);
        }
    }

    #[verifier::loop_isolation(false)]
    #[verifier::rlimit(100)]
    fn visit_exprs(&mut self, v: &mut Vec<Expr>)
        ensures
            ({
                let (ivs2, es2) = visit_exprs_v(old(self).states(), exprs_view(old(v)@));
                final(self).states() == ivs2 && exprs_view(final(v)@) == es2
            }),
            final(self).states().len() == old(self).states().len(),
            final(self).dc() == old(self).dc(),
        decreases *old(v),
    {
        let ghost ivs0 = self.states();
        let ghost v0 = old(v)@;
        proof {
            crate::ast::lemma_exprs_view_index(v0);
        }
        let n = v.len();
        let mut i: usize = 0;
        while i < n
            invariant
                n == v@.len(),
                n == v0.len(),
                i <= n,
                self.dc() == old(self).dc(),
                self.states().len() == ivs0.len(),
                forall|j: int| i <= j < n ==> v@[j] == v0[j],
                ({
                    let (ivs_i, out_i) = visit_exprs_v(ivs0, exprs_view(v0.subrange(0, i as int)));
                    self.states() == ivs_i && exprs_view(v@.subrange(0, i as int)) == out_i
                }),
            decreases n - i,
        {
            let ghost v_pre = v@;
            let ghost out_i = exprs_view(v@.subrange(0, i as int));
            let mut elem = Expr::Other(0);
            v.set_and_swap(i, &mut elem);
            proof {
                assert(elem == v0[i as int]);
                assert(decreases_to!(v0 => v0[i as int]));
            }
            self.visit_expr(&mut elem);
            v.set_and_swap(i, &mut elem);
            proof {
                let pre = v0.subrange(0, i as int);
                let prepost = v0.subrange(0, i + 1);
                crate::ast::lemma_exprs_view_index(pre);
                crate::ast::lemma_exprs_view_index(prepost);
                assert(exprs_view(prepost).subrange(0, i as int) =~= exprs_view(pre));
                assert(exprs_view(prepost) =~= exprs_view(pre).push(expr_view(v0[i as int])));
                assert(v@.subrange(0, i as int) =~= v_pre.subrange(0, i as int));
                crate::ast::lemma_exprs_view_index(v@.subrange(0, i + 1));
                crate::ast::lemma_exprs_view_index(v@.subrange(0, i as int));
                assert(exprs_view(v@.subrange(0, i + 1)) =~= out_i.push(expr_view(v@[i as int])));
            }
            i = i + 1;
        }
        proof {
            assert(v0.subrange(0, n as int) =~= v0);
            assert(v@.subrange(0, n as int) =~= v@);
        }
    }

    #[verifier::loop_isolation(false)]
    #[verifier::rlimit(100)]
    fn visit_decls(&mut self, v: &mut Vec<VarDeclarator>)
        ensures
            ({
                let (ivs2, ds2) = visit_decls_v(old(self).states(), decls_view(old(v)@));
                final(self).states() == ivs2 && decls_view(final(v)@) == ds2
            }),
            final(self).states().len() == old(self).states().len(),
            final(self).dc() == old(self).dc(),
        decreases *old(v),
    {
        let ghost ivs0 = self.states();
        let ghost v0 = old(v)@;
        proof {
            crate::ast::lemma_decls_view_index(v0);
        }
        let n = v.len();
        let mut i: usize = 0;
        while i < n
            invariant
                n == v@.len(),
                n == v0.len(),
                i <= n,
                self.dc() == old(self).dc(),
                self.states().len() == ivs0.len(),
                forall|j: int| i <= j < n ==> v@[j] == v0[j],
                ({
                    let (ivs_i, out_i) = visit_decls_v(ivs0, decls_view(v0.subrange(0, i as int)));
                    self.states() == ivs_i && decls_view(v@.subrange(0, i as int)) == out_i
                }),
            decreases n - i,
        {
            let ghost v_pre = v@;
            let ghost out_i = decls_view(v@.subrange(0, i as int));
            let mut elem = VarDeclarator { name: BindingPat::Other(0), init: Option::None };
            v.set_and_swap(i, &mut elem);
            proof {
                assert(elem == v0[i as int]);
                assert(decreases_to!(v0 => v0[i as int]));
            }
            self.visit_declarator(&mut elem);
            v.set_and_swap(i, &mut elem);
            proof {
                let pre = v0.subrange(0, i as int);
                let prepost = v0.subrange(0, i + 1);
                crate::ast::lemma_decls_view_index(pre);
                crate::ast::lemma_decls_view_index(prepost);
                assert(decls_view(prepost).subrange(0, i as int) =~= decls_view(pre));
                assert(decls_view(prepost) =~= decls_view(pre).push(decl_view(v0[i as int])));
                assert(v@.subrange(0, i as int) =~= v_pre.subrange(0, i as int));
                crate::ast::lemma_decls_view_index(v@.subrange(0, i + 1));
                crate::ast::lemma_decls_view_index(v@.subrange(0, i as int));
                assert(decls_view(v@.subrange(0, i + 1)) =~= out_i.push(decl_view(v@[i as int])));
            }
            i = i + 1;
        }
        proof {
            assert(v0.subrange(0, n as int) =~= v0);
            assert(v@.subrange(0, n as int) =~= v@);
        }
    }

    #[verifier::loop_isolation(false)]
    #[verifier::rlimit(100)]
    fn visit_members(&mut self, v: &mut Vec<ClassMember>)
        ensures
            ({
                let (ivs2, ms2) = visit_members_v(old(self).states(), members_view(old(v)@));
                final(self).states() == ivs2 && members_view(final(v)@) == ms2
            }),
            final(self).states().len() == old(self).states().len(),
            final(self).dc() == old(self).dc(),
        decreases *old(v),
    {
        let ghost ivs0 = self.states();
        let ghost v0 = old(v)@;
        proof {
            crate::ast::lemma_members_view_index(v0);
        }
        let n = v.len();
        let mut i: usize = 0;
        while i < n
            invariant
                n == v@.len(),
                n == v0.len(),
                i <= n,
                self.dc() == old(self).dc(),
                self.states().len() == ivs0.len(),
                forall|j: int| i <= j < n ==> v@[j] == v0[j],
                ({
                    let (ivs_i, out_i) = visit_members_v(
                        ivs0,
                        members_view(v0.subrange(0, i as int)),
                    );
                    self.states() == ivs_i && members_view(v@.subrange(0, i as int)) == out_i
                }),
            decreases n - i,
        {
            let ghost v_pre = v@;
            let ghost out_i = members_view(v@.subrange(0, i as int));
            let mut elem = ClassMember::Other(0);
            v.set_and_swap(i, &mut elem);
            proof {
                assert(elem == v0[i as int]);
                assert(decreases_to!(v0 => v0[i as int]));
            }
            self.visit_member(&mut elem);
            v.set_and_swap(i, &mut elem);
            proof {
                let pre = v0.subrange(0, i as int);
                let prepost = v0.subrange(0, i + 1);
                crate::ast::lemma_members_view_index(pre);
                crate::ast::lemma_members_view_index(prepost);
                assert(members_view(prepost).subrange(0, i as int) =~= members_view(pre));
                assert(members_view(prepost) =~= members_view(pre).push(member_view(v0[i as int])));
                assert(v@.subrange(0, i as int) =~= v_pre.subrange(0, i as int));
                crate::ast::lemma_members_view_index(v@.subrange(0, i + 1));
                crate::ast::lemma_members_view_index(v@.subrange(0, i as int));
                assert(members_view(v@.subrange(0, i + 1)) =~= out_i.push(
                    member_view(v@[i as int]),
                ));
            }
            i = i + 1;
        }
        proof {
            assert(v0.subrange(0, n as int) =~= v0);
            assert(v@.subrange(0, n as int) =~= v@);
        }
    }

    #[verifier::loop_isolation(false)]
    #[verifier::rlimit(100)]
    fn visit_props(&mut self, v: &mut Vec<Prop>)
        ensures
            ({
                let (ivs2, ps2) = visit_props_v(old(self).states(), props_view(old(v)@));
                final(self).states() == ivs2 && props_view(final(v)@) == ps2
            }),
            final(self).states().len() == old(self).states().len(),
            final(self).dc() == old(self).dc(),
        decreases *old(v),
    {
        let ghost ivs0 = self.states();
        let ghost v0 = old(v)@;
        proof {
            crate::ast::lemma_props_view_index(v0);
        }
        let n = v.len();
        let mut i: usize = 0;
        while i < n
            invariant
                n == v@.len(),
                n == v0.len(),
                i <= n,
                self.dc() == old(self).dc(),
                self.states().len() == ivs0.len(),
                forall|j: int| i <= j < n ==> v@[j] == v0[j],
                ({
                    let (ivs_i, out_i) = visit_props_v(ivs0, props_view(v0.subrange(0, i as int)));
                    self.states() == ivs_i && props_view(v@.subrange(0, i as int)) == out_i
                }),
            decreases n - i,
        {
            let ghost v_pre = v@;
            let ghost out_i = props_view(v@.subrange(0, i as int));
            let mut elem = Prop::Other(0);
            v.set_and_swap(i, &mut elem);
            proof {
                assert(elem == v0[i as int]);
                assert(decreases_to!(v0 => v0[i as int]));
            }
            self.visit_prop(&mut elem);
            v.set_and_swap(i, &mut elem);
            proof {
                let pre = v0.subrange(0, i as int);
                let prepost = v0.subrange(0, i + 1);
                crate::ast::lemma_props_view_index(pre);
                crate::ast::lemma_props_view_index(prepost);
                assert(props_view(prepost).subrange(0, i as int) =~= props_view(pre));
                assert(props_view(prepost) =~= props_view(pre).push(prop_view(v0[i as int])));
                assert(v@.subrange(0, i as int) =~= v_pre.subrange(0, i as int));
                crate::ast::lemma_props_view_index(v@.subrange(0, i + 1));
                crate::ast::lemma_props_view_index(v@.subrange(0, i as int));
                assert(props_view(v@.subrange(0, i + 1)) =~= out_i.push(prop_view(v@[i as int])));
            }
            i = i + 1;
        }
        proof {
            assert(v0.subrange(0, n as int) =~= v0);
            assert(v@.subrange(0, n as int) =~= v@);
        }
    }

    fn visit_function(&mut self, f: &mut Function)
        ensures
            ({
                let (ivs2, f2) = visit_function_v(old(self).states(), fun_view(*old(f)));
                final(self).states() == ivs2 && fun_view(*final(f)) == f2
            }),
            final(self).states().len() == old(self).states().len(),
            final(self).dc() == old(self).dc(),
        decreases *old(f),
    {
        let ghost f0 = *old(f);
        proof {
            assert(fun_view(f0) == (FunctionV {
                is_async: f0.is_async,
                is_generator: f0.is_generator,
                params: crate::ast::pats_view(f0.params@),
                body: opt_stmts_view(f0.body),
            }));
        }
        let b = f.body.take();
        match b {
            Option::Some(mut stmts) => {
                proof {
                    assert(decreases_to!(f0 => f0.body));
                }
                self.visit_stmts(&mut stmts);
                f.body = Option::Some(stmts);
                proof {
                    assert(opt_stmts_view(f.body) == Option::Some(stmts_view(f.body->Some_0@)));
                    assert(opt_stmts_view(f0.body) == Option::Some(stmts_view(f0.body->Some_0@)));
                    assert(fun_view(*f) == (FunctionV {
                        is_async: f.is_async,
                        is_generator: f.is_generator,
                        params: crate::ast::pats_view(f.params@),
                        body: opt_stmts_view(f.body),
                    }));
                }
            },
            Option::None => {
                proof {
                    assert(opt_stmts_view(f0.body) == Option::<Seq<StmtV>>::None);
                    assert(fun_view(*f) == (FunctionV {
                        is_async: f.is_async,
                        is_generator: f.is_generator,
                        params: crate::ast::pats_view(f.params@),
                        body: opt_stmts_view(f.body),
                    }));
                }
            },
        }
    }

    fn visit_opt_stmts(&mut self, b: &mut Option<Vec<Stmt>>)
        ensures
            ({
                let (ivs2, b2) = visit_opt_stmts_v(old(self).states(), opt_stmts_view(*old(b)));
                final(self).states() == ivs2 && opt_stmts_view(*final(b)) == b2
            }),
            final(self).states().len() == old(self).states().len(),
            final(self).dc() == old(self).dc(),
        decreases *old(b),
    {
        let ghost b0 = *old(b);
        let taken = b.take();
        match taken {
            Option::Some(mut stmts) => {
                proof {
                    assert(decreases_to!(b0 => b0->Some_0));
                }
                self.visit_stmts(&mut stmts);
                *b = Option::Some(stmts);
                proof {
                    assert(opt_stmts_view(b0) == Option::Some(stmts_view(b0->Some_0@)));
                    assert(opt_stmts_view(*b) == Option::Some(stmts_view((*b)->Some_0@)));
                }
            },
            Option::None => {
                proof {
                    assert(opt_stmts_view(b0) == Option::<Seq<StmtV>>::None);
                }
            },
        }
    }

    fn visit_declarator(&mut self, d: &mut VarDeclarator)
        ensures
            ({
                let (ivs2, d2) = visit_declarator_v(old(self).states(), decl_view(*old(d)));
                final(self).states() == ivs2 && decl_view(*final(d)) == d2
            }),
            final(self).states().len() == old(self).states().len(),
            final(self).dc() == old(self).dc(),
        decreases *old(d),
    {
        let ghost d0 = *old(d);
        proof {
            assert(decl_view(d0) == (DeclaratorV {
                name: crate::ast::pat_view(d0.name),
                init: match d0.init {
                    Option::Some(e) => Option::Some(expr_view(e)),
                    Option::None => Option::None,
                },
            }));
        }
        let init = d.init.take();
        match init {
            Option::Some(mut e) => {
                proof {
                    assert(decreases_to!(d0 => d0.init));
                }
                self.visit_expr(&mut e);
                d.init = Option::Some(e);
                proof {
                    assert(decl_view(*d) == (DeclaratorV {
                        name: crate::ast::pat_view(d.name),
                        init: Option::Some(expr_view(d.init->Some_0)),
                    }));
                }
            },
            Option::None => {
                proof {
                    assert(decl_view(*d) == (DeclaratorV {
                        name: crate::ast::pat_view(d.name),
                        init: Option::None,
                    }));
                }
            },
        }
    }

    fn visit_member(&mut self, m: &mut ClassMember)
        ensures
            ({
                let (ivs2, m2) = visit_member_v(old(self).states(), member_view(*old(m)));
                final(self).states() == ivs2 && member_view(*final(m)) == m2
            }),
            final(self).states().len() == old(self).states().len(),
            final(self).dc() == old(self).dc(),
        decreases *old(m),
    {
        let ghost m0 = *old(m);
        let mut cur = ClassMember::Other(0);
        core::mem::swap(m, &mut cur);
        match cur {
            ClassMember::Method(mut cm) => {
                let ghost cm0 = cm;
                proof {
                    assert(member_view(m0) == MemberV::Method(class_method_view(cm0)));
                    assert(class_method_view(cm0) == (ClassMethodV {
                        key: crate::ast::key_view(cm0.key),
                        func: fun_view(cm0.func),
                    }));
                }
                let (flags, recurse) = self.fan_decide_class_method(&cm);
                if recurse {
                    proof {
                        assert(decreases_to!(m0 => cm0.func));
                    }
                    self.visit_function(&mut cm.func);
                }
                self.fan_apply_fn(&flags, &mut cm.func);
                proof {
                    assert(class_method_view(cm) == (ClassMethodV {
                        key: crate::ast::key_view(cm.key),
                        func: fun_view(cm.func),
                    }));
                }
                *m = ClassMember::Method(cm);
                proof {
                    assert(member_view(*m) == MemberV::Method(class_method_view((*m)->Method_0)));
                }
            },
            ClassMember::Ctor(mut c) => {
                let ghost c0 = c;
                proof {
                    assert(member_view(m0) == MemberV::Ctor(constructor_view(c0)));
                }
                let flags = self.fan_decide_constructor(&c);
                self.fan_apply_ctor(&flags, &mut c);
                *m = ClassMember::Ctor(c);
                proof {
                    assert(member_view(*m) == MemberV::Ctor(constructor_view((*m)->Ctor_0)));
                }
            },
            other => {
                proof {
                    assert(member_view(m0) is Other);
                }
                *m = other;
            },
        }
    }

    fn visit_prop(&mut self, p: &mut Prop)
        ensures
            ({
                let (ivs2, p2) = visit_prop_v(old(self).states(), prop_view(*old(p)));
                final(self).states() == ivs2 && prop_view(*final(p)) == p2
            }),
            final(self).states().len() == old(self).states().len(),
            final(self).dc() == old(self).dc(),
        decreases *old(p),
    {
        let ghost p0 = *old(p);
        let mut cur = Prop::Other(0);
        core::mem::swap(p, &mut cur);
        match cur {
            Prop::Method(mut mp) => {
                let ghost mp0 = mp;
                proof {
                    assert(prop_view(p0) == PropV::Method(method_prop_view(mp0)));
                    assert(method_prop_view(mp0) == (MethodPropV {
                        key: crate::ast::key_view(mp0.key),
                        func: fun_view(mp0.func),
                    }));
                }
                let flags = self.fan_decide_method_prop(&mp);
                self.fan_apply_fn(&flags, &mut mp.func);
                proof {
                    assert(method_prop_view(mp) == (MethodPropV {
                        key: crate::ast::key_view(mp.key),
                        func: fun_view(mp.func),
                    }));
                }
                *p = Prop::Method(mp);
                proof {
                    assert(prop_view(*p) == PropV::Method(method_prop_view((*p)->Method_0)));
                }
            },
            Prop::KeyValue { key, value } => {
                let ghost v0 = value;
                let mut value = value;
                proof {
                    assert(prop_view(p0) == (PropV::KeyValue {
                        key: crate::ast::key_view(key),
                        value: expr_view(v0),
                    }));
                    assert(decreases_to!(p0 => v0));
                }
                self.visit_expr(&mut value);
                *p = Prop::KeyValue { key, value };
                proof {
                    assert(prop_view(*p) == (PropV::KeyValue {
                        key: crate::ast::key_view((*p)->KeyValue_key),
                        value: expr_view((*p)->KeyValue_value),
                    }));
                }
            },
            other => {
                proof {
                    assert(prop_view(p0) is Shorthand || prop_view(p0) is Other);
                }
                *p = other;
            },
        }
    }

    #[verifier::rlimit(100)]
    fn visit_expr(&mut self, e: &mut Expr)
        ensures
            ({
                let (ivs2, e2) = visit_expr_v(old(self).states(), expr_view(*old(e)));
                final(self).states() == ivs2 && expr_view(*final(e)) == e2
            }),
            final(self).states().len() == old(self).states().len(),
            final(self).dc() == old(self).dc(),
        decreases *old(e),
    {
        let ghost e0 = *old(e);
        let ghost ivs0 = self.states();
        let mut cur = Expr::Other(0);
        core::mem::swap(e, &mut cur);
        match cur {
            Expr::FnExpr(mut fe) => {
                let ghost fe0 = fe;
                proof {
                    assert(expr_view(e0) == ExprV::FnExpr(fn_expr_view(fe0)));
                    assert(fn_expr_view(fe0) == (FnExprV {
                        name: opt_str_view(fe0.name),
                        func: fun_view(fe0.func),
                    }));
                    assert(decreases_to!(e0 => fe0.func));
                }
                self.visit_function(&mut fe.func);
                proof {
                    assert(fn_expr_view(fe) == (FnExprV {
                        name: opt_str_view(fe.name),
                        func: fun_view(fe.func),
                    }));
                }
                *e = Expr::FnExpr(fe);
                proof {
                    assert(expr_view(*e) == ExprV::FnExpr(fn_expr_view((*e)->FnExpr_0)));
                }
            },
            Expr::Arrow { is_async, params, body } => {
                let ghost b0 = body;
                let mut body = body;
                proof {
                    assert(expr_view(e0) == (ExprV::Arrow {
                        is_async,
                        params: crate::ast::pats_view(params@),
                        body: stmts_view(b0@),
                    }));
                    assert(decreases_to!(e0 => b0));
                }
                self.visit_stmts(&mut body);
                *e = Expr::Arrow { is_async, params, body };
                proof {
                    assert(expr_view(*e) == (ExprV::Arrow {
                        is_async,
                        params: crate::ast::pats_view((*e)->Arrow_params@),
                        body: stmts_view((*e)->Arrow_body@),
                    }));
                }
            },
            Expr::Class(mut ce) => {
                let ghost ce0 = ce;
                proof {
                    assert(expr_view(e0) == ExprV::Class(class_expr_view(ce0)));
                    assert(class_expr_view(ce0) == (ClassExprV {
                        name: opt_str_view(ce0.name),
                        members: members_view(ce0.members@),
                    }));
                }
                self.fan_decide_class_expr(&ce);
                if self.instr_count() > 0 {
                    proof {
                        assert(decreases_to!(e0 => ce0.members));
                    }
                    self.visit_members(&mut ce.members);
                }
                proof {
                    assert(class_expr_view(ce) == (ClassExprV {
                        name: opt_str_view(ce.name),
                        members: members_view(ce.members@),
                    }));
                }
                *e = Expr::Class(ce);
                proof {
                    assert(expr_view(*e) == ExprV::Class(class_expr_view((*e)->Class_0)));
                }
            },
            Expr::Assign(mut ae) => {
                let ghost ae0 = ae;
                proof {
                    assert(expr_view(e0) == ExprV::Assign(assign_view(ae0)));
                    assert(assign_view(ae0) == (AssignExprV {
                        target: crate::ast::target_view(ae0.target),
                        right: seq![expr_view(*ae0.right)],
                    }));
                }
                let (flags, recurse) = self.fan_decide_assign(&ae);
                if recurse {
                    // children: the member target's object, then the right side
                    let ghost av1 = assign_view(ae0);
                    let mut t = AssignTarget::Other(0);
                    core::mem::swap(&mut ae.target, &mut t);
                    match t {
                        AssignTarget::Member { obj, prop } => {
                            let ghost obj0 = obj;
                            let mut obj = obj;
                            proof {
                                assert(crate::ast::target_view(
                                    AssignTarget::Member { obj: obj0, prop },
                                ) == (TargetV::Member {
                                    obj: seq![expr_view(*obj0)],
                                    prop: crate::ast::key_view(prop),
                                }));
                                assert(decreases_to!(e0 => *obj0));
                                lemma_visit_exprs_one(self.states(), expr_view(*obj0));
                            }
                            self.visit_expr(&mut *obj);
                            proof {
                                assert(crate::ast::target_view(
                                    AssignTarget::Member { obj: obj, prop },
                                ) == (TargetV::Member {
                                    obj: seq![expr_view(*obj)],
                                    prop: crate::ast::key_view(prop),
                                }));
                            }
                            ae.target = AssignTarget::Member { obj, prop };
                        },
                        other => {
                            proof {
                                assert(!(crate::ast::target_view(other) is Member));
                            }
                            ae.target = other;
                        },
                    }
                    proof {
                        assert(decreases_to!(e0 => *ae0.right));
                        lemma_visit_exprs_one(self.states(), expr_view(*ae0.right));
                    }
                    self.visit_expr(&mut *ae.right);
                    proof {
                        assert(assign_view(ae) == (AssignExprV {
                            target: crate::ast::target_view(ae.target),
                            right: seq![expr_view(*ae.right)],
                        }));
                    }
                }
                self.fan_apply_assign(&flags, &mut ae);
                *e = Expr::Assign(ae);
                proof {
                    assert(expr_view(*e) == ExprV::Assign(assign_view((*e)->Assign_0)));
                }
            },
            Expr::Call { callee, args } => {
                let ghost c0 = callee;
                let ghost a0 = args;
                let mut callee = callee;
                let mut args = args;
                proof {
                    assert(expr_view(e0) == (ExprV::Call {
                        callee: seq![expr_view(*c0)],
                        args: exprs_view(a0@),
                    }));
                    assert(decreases_to!(e0 => *c0));
                    lemma_visit_exprs_one(ivs0, expr_view(*c0));
                }
                self.visit_expr(&mut *callee);
                proof {
                    assert(decreases_to!(e0 => a0));
                }
                self.visit_exprs(&mut args);
                *e = Expr::Call { callee, args };
                proof {
                    assert(expr_view(*e) == (ExprV::Call {
                        callee: seq![expr_view(*(*e)->Call_callee)],
                        args: exprs_view((*e)->Call_args@),
                    }));
                }
            },
            Expr::Member { obj, prop } => {
                let ghost o0 = obj;
                let mut obj = obj;
                proof {
                    assert(expr_view(e0) == (ExprV::Member {
                        obj: seq![expr_view(*o0)],
                        prop: prop@,
                    }));
                    assert(decreases_to!(e0 => *o0));
                    lemma_visit_exprs_one(ivs0, expr_view(*o0));
                }
                self.visit_expr(&mut *obj);
                *e = Expr::Member { obj, prop };
                proof {
                    assert(expr_view(*e) == (ExprV::Member {
                        obj: seq![expr_view(*(*e)->Member_obj)],
                        prop: (*e)->Member_prop@,
                    }));
                }
            },
            Expr::Object(mut ps) => {
                let ghost ps0 = ps;
                proof {
                    assert(expr_view(e0) == ExprV::Object(props_view(ps0@)));
                    assert(decreases_to!(e0 => ps0));
                }
                self.visit_props(&mut ps);
                *e = Expr::Object(ps);
                proof {
                    assert(expr_view(*e) == ExprV::Object(props_view((*e)->Object_0@)));
                }
            },
            Expr::Not(inner) => {
                let ghost i0 = inner;
                let mut inner = inner;
                proof {
                    assert(expr_view(e0) == ExprV::Not(seq![expr_view(*i0)]));
                    assert(decreases_to!(e0 => *i0));
                    lemma_visit_exprs_one(ivs0, expr_view(*i0));
                }
                self.visit_expr(&mut *inner);
                *e = Expr::Not(inner);
                proof {
                    assert(expr_view(*e) == ExprV::Not(seq![expr_view(*(*e)->Not_0)]));
                }
            },
            other => {
                proof {
                    assert(expr_view(other) is Ident || expr_view(other) is Str || expr_view(
                        other,
                    ) is Null || expr_view(other) is This || expr_view(other) is Other);
                }
                *e = other;
            },
        }
    }

    #[verifier::rlimit(100)]
    fn visit_stmt(&mut self, s: &mut Stmt)
        ensures
            ({
                let (ivs2, s2) = visit_stmt_v(old(self).states(), stmt_view(*old(s)));
                final(self).states() == ivs2 && stmt_view(*final(s)) == s2
            }),
            final(self).states().len() == old(self).states().len(),
            final(self).dc() == old(self).dc(),
        decreases *old(s),
    {
        let ghost s0 = *old(s);
        let ghost ivs0 = self.states();
        let mut cur = Stmt::Other(0);
        core::mem::swap(s, &mut cur);
        match cur {
            Stmt::FnDecl(mut fd) => {
                let ghost fd0 = fd;
                proof {
                    assert(stmt_view(s0) == StmtV::FnDecl(fn_decl_view(fd0)));
                    assert(fn_decl_view(fd0) == (FnDeclV { name: fd0.name@, func: fun_view(fd0.func) }));
                }
                let flags = self.fan_decide_fn_decl(&fd);
                if self.instr_count() > 0 {
                    proof {
                        assert(decreases_to!(s0 => fd0.func));
                    }
                    self.visit_function(&mut fd.func);
                }
                self.fan_apply_fn(&flags, &mut fd.func);
                proof {
                    assert(fn_decl_view(fd) == (FnDeclV { name: fd.name@, func: fun_view(fd.func) }));
                }
                *s = Stmt::FnDecl(fd);
                proof {
                    assert(stmt_view(*s) == StmtV::FnDecl(fn_decl_view((*s)->FnDecl_0)));
                }
            },
            Stmt::VarDecl(mut vd) => {
                let ghost vd0 = vd;
                proof {
                    assert(stmt_view(s0) == StmtV::VarDecl(var_decl_view(vd0)));
                    assert(var_decl_view(vd0) == (VarDeclV {
                        kind: vd0.kind,
                        decls: decls_view(vd0.decls@),
                    }));
                }
                let (flagss, recurse) = self.fan_decide_var_decl(&vd);
                proof {
                    assert(Seq::new(flagss@.len(), |k: int| flagss@[k]@) =~= fan_var_decl_flags(
                        ivs0,
                        var_decl_view(vd0),
                    ));
                }
                if recurse {
                    proof {
                        assert(decreases_to!(s0 => vd0.decls));
                    }
                    self.visit_decls(&mut vd.decls);
                }
                self.fan_apply_var_decl(&flagss, &mut vd);
                *s = Stmt::VarDecl(vd);
                proof {
                    assert(stmt_view(*s) == StmtV::VarDecl(var_decl_view((*s)->VarDecl_0)));
                }
            },
            Stmt::ClassDecl(mut cd) => {
                let ghost cd0 = cd;
                proof {
                    assert(stmt_view(s0) == StmtV::ClassDecl(class_decl_view(cd0)));
                    assert(class_decl_view(cd0) == (ClassDeclV {
                        name: cd0.name@,
                        members: members_view(cd0.members@),
                    }));
                }
                self.fan_decide_class_decl(&cd);
                if self.instr_count() > 0 {
                    proof {
                        assert(decreases_to!(s0 => cd0.members));
                    }
                    self.visit_members(&mut cd.members);
                }
                proof {
                    assert(class_decl_view(cd) == (ClassDeclV {
                        name: cd.name@,
                        members: members_view(cd.members@),
                    }));
                }
                *s = Stmt::ClassDecl(cd);
                proof {
                    assert(stmt_view(*s) == StmtV::ClassDecl(class_decl_view((*s)->ClassDecl_0)));
                }
            },
            Stmt::Expr(mut e) => {
                let ghost e0 = e;
                proof {
                    assert(stmt_view(s0) == StmtV::Expr(expr_view(e0)));
                    assert(decreases_to!(s0 => e0));
                }
                self.visit_expr(&mut e);
                *s = Stmt::Expr(e);
                proof {
                    assert(stmt_view(*s) == StmtV::Expr(expr_view((*s)->Expr_0)));
                }
            },
            Stmt::Return(oe) => {
                match oe {
                    Option::Some(mut e) => {
                        let ghost e0 = e;
                        proof {
                            assert(stmt_view(s0) == StmtV::Return(Option::Some(expr_view(e0))));
                            assert(decreases_to!(s0 => e0));
                        }
                        self.visit_expr(&mut e);
                        *s = Stmt::Return(Option::Some(e));
                        proof {
                            assert(stmt_view(*s) == StmtV::Return(
                                Option::Some(expr_view((*s)->Return_0->Some_0)),
                            ));
                        }
                    },
                    Option::None => {
                        *s = Stmt::Return(Option::None);
                        proof {
                            assert(stmt_view(s0) == StmtV::Return(Option::None));
                            assert(stmt_view(*s) == StmtV::Return(Option::None));
                        }
                    },
                }
            },
            Stmt::If { cond, cons, alt } => {
                let ghost cond0 = cond;
                let ghost cons0 = cons;
                let ghost alt0 = alt;
                let mut cond = cond;
                let mut cons = cons;
                let mut alt = alt;
                proof {
                    assert(stmt_view(s0) == (StmtV::If {
                        cond: expr_view(cond0),
                        cons: seq![stmt_view(*cons0)],
                        alt: match alt0 {
                            Option::Some(a) => Option::Some(seq![stmt_view(*a)]),
                            Option::None => Option::None,
                        },
                    }));
                    assert(decreases_to!(s0 => cond0));
                }
                self.visit_expr(&mut cond);
                proof {
                    assert(decreases_to!(s0 => *cons0));
                    lemma_visit_stmts_one(self.states(), stmt_view(*cons0));
                }
                self.visit_stmt(&mut *cons);
                let alt2: Option<Box<Stmt>> = match alt {
                    Option::Some(mut a) => {
                        proof {
                            assert(alt0 matches Option::Some(x) && *x == *a);
                            assert(decreases_to!(s0 => *a));
                            lemma_visit_stmts_one(self.states(), stmt_view(*a));
                        }
                        self.visit_stmt(&mut *a);
                        Option::Some(a)
                    },
                    Option::None => Option::None,
                };
                *s = Stmt::If { cond, cons, alt: alt2 };
                proof {
                    assert(stmt_view(*s) == (StmtV::If {
                        cond: expr_view((*s)->If_cond),
                        cons: seq![stmt_view(*(*s)->If_cons)],
                        alt: match (*s)->If_alt {
                            Option::Some(a) => Option::Some(seq![stmt_view(*a)]),
                            Option::None => Option::None,
                        },
                    }));
                }
            },
            Stmt::Block(mut ss) => {
                let ghost ss0 = ss;
                proof {
                    assert(stmt_view(s0) == StmtV::Block(stmts_view(ss0@)));
                    assert(decreases_to!(s0 => ss0));
                }
                self.visit_stmts(&mut ss);
                *s = Stmt::Block(ss);
                proof {
                    assert(stmt_view(*s) == StmtV::Block(stmts_view((*s)->Block_0@)));
                }
            },
            Stmt::Try { block, catch_param, catch, finally } => {
                let ghost block0 = block;
                let ghost catch0 = catch;
                let ghost finally0 = finally;
                let mut block = block;
                let mut catch = catch;
                let mut finally = finally;
                proof {
                    assert(stmt_view(s0) == (StmtV::Try {
                        block: stmts_view(block0@),
                        catch_param: opt_str_view(catch_param),
                        catch: opt_stmts_view(catch0),
                        finally: opt_stmts_view(finally0),
                    }));
                    assert(decreases_to!(s0 => block0));
                }
                self.visit_stmts(&mut block);
                proof {
                    assert(decreases_to!(s0 => catch0));
                }
                self.visit_opt_stmts(&mut catch);
                proof {
                    assert(decreases_to!(s0 => finally0));
                }
                self.visit_opt_stmts(&mut finally);
                *s = Stmt::Try { block, catch_param, catch, finally };
                proof {
                    assert(stmt_view(*s) == (StmtV::Try {
                        block: stmts_view((*s)->Try_block@),
                        catch_param: opt_str_view((*s)->Try_catch_param),
                        catch: opt_stmts_view((*s)->Try_catch),
                        finally: opt_stmts_view((*s)->Try_finally),
                    }));
                }
            },
            Stmt::Throw(mut e) => {
                let ghost e0 = e;
                proof {
                    assert(stmt_view(s0) == StmtV::Throw(expr_view(e0)));
                    assert(decreases_to!(s0 => e0));
                }
                self.visit_expr(&mut e);
                *s = Stmt::Throw(e);
                proof {
                    assert(stmt_view(*s) == StmtV::Throw(expr_view((*s)->Throw_0)));
                }
            },
            other => {
                proof {
                    assert(stmt_view(other) is ImportNamed || stmt_view(other) is RequireNamed
                        || stmt_view(other) is Other);
                }
                *s = other;
            },
        }
    }
}



// ---------------------------------------------------------------------------
// Preludes, resets, failure collection, and the whole transform.
// ---------------------------------------------------------------------------

/// Inserting a statement into a list commutes with viewing it.
proof fn lemma_stmts_view_insert(ss: Seq<Stmt>, k: int, x: Stmt)
    requires
        0 <= k <= ss.len(),
    ensures
        stmts_view(ss.insert(k, x)) == stmts_view(ss).insert(k, stmt_view(x)),
{
    lemma_stmts_view_index(ss);
    lemma_stmts_view_index(ss.insert(k, x));
    assert(stmts_view(ss.insert(k, x)) =~= stmts_view(ss).insert(k, stmt_view(x)));
}

proof fn lemma_fan_module_preludes_push(ivs: Seq<InstrV>, x: InstrV, body: Seq<StmtV>)
    ensures
        fan_module_preludes_v(ivs.push(x), body) == fan_module_preludes_v(ivs, body).insert(
            1,
            channel_binding_stmt(x.config),
        ),
    decreases ivs,
{
    if ivs.len() == 0 {
        assert(ivs.push(x)[0] == x);
        assert(ivs.push(x).subrange(1, 1) =~= Seq::<InstrV>::empty());
        assert(fan_module_preludes_v(Seq::<InstrV>::empty(), body.insert(1, channel_binding_stmt(x.config)))
            == body.insert(1, channel_binding_stmt(x.config)));
        assert(fan_module_preludes_v(ivs, body) == body);
    } else {
        let tail = ivs.subrange(1, ivs.len() as int);
        assert(ivs.push(x)[0] == ivs[0]);
        assert(ivs.push(x).subrange(1, ivs.push(x).len() as int) =~= tail.push(x));
        lemma_fan_module_preludes_push(tail, x, body.insert(1, channel_binding_stmt(ivs[0].config)));
    }
}

proof fn lemma_fan_script_preludes_push(ivs: Seq<InstrV>, x: InstrV, body: Seq<StmtV>)
    ensures
        fan_script_preludes_v(ivs.push(x), body) == ({
            let b = fan_script_preludes_v(ivs, body);
            b.insert(script_start_index_v(b) + 1, channel_binding_stmt(x.config))
        }),
    decreases ivs,
{
    if ivs.len() == 0 {
        assert(ivs.push(x)[0] == x);
        assert(ivs.push(x).subrange(1, 1) =~= Seq::<InstrV>::empty());
        let b1 = body.insert(script_start_index_v(body) + 1, channel_binding_stmt(x.config));
        assert(fan_script_preludes_v(Seq::<InstrV>::empty(), b1) == b1);
        assert(fan_script_preludes_v(ivs, body) == body);
    } else {
        let tail = ivs.subrange(1, ivs.len() as int);
        assert(ivs.push(x)[0] == ivs[0]);
        assert(ivs.push(x).subrange(1, ivs.push(x).len() as int) =~= tail.push(x));
        lemma_fan_script_preludes_push(
            tail,
            x,
            body.insert(script_start_index_v(body) + 1, channel_binding_stmt(ivs[0].config)),
        );
    }
}

/// The views of a list of strings.
pub open spec fn strs_view(ss: Seq<String>) -> Seq<Seq<char>> {
    Seq::new(ss.len(), |i: int| ss[i]@)
}

/// Whether one instrumentation state applies to the given module, version
/// and file.
pub open spec fn iv_matches(iv: InstrV, m: Seq<char>, v: Seq<char>, p: Seq<char>) -> bool {
    module_matches(iv.config.module_name, iv.config.version_range, iv.config.file_path, m, v, p)
}

/// The subsequence of states whose matchers select the given module, version
/// and file, in configuration order.
pub open spec fn matching_states_v(ivs: Seq<InstrV>, m: Seq<char>, v: Seq<char>, p: Seq<char>) -> Seq<InstrV>
    decreases ivs,
{
    if ivs.len() == 0 {
        Seq::empty()
    } else {
        let pre = matching_states_v(ivs.subrange(0, ivs.len() - 1), m, v, p);
        if iv_matches(ivs[ivs.len() - 1], m, v, p) {
            pre.push(ivs[ivs.len() - 1])
        } else {
            pre
        }
    }
}

/// A fresh instrumentation state for one configuration.
pub open spec fn fresh_instr_v(c: ConfigV) -> InstrV {
    InstrV {
        config: c,
        count: 0,
        is_correct_class: false,
        has_injected: false,
        module_version: Option::None,
    }
}

impl InstrumentationVisitor {
    /// Whether any instrumentation was selected for this file.
    pub fn has_instrumentations(&self) -> (r: bool)
        ensures
            r == (self.states().len() > 0),
    {
        self.instrumentations.len() > 0
    }

    /// The shared channel import of a module.
    fn make_import(&self) -> (s: Stmt)
        ensures
            stmt_view(s) == import_stmt_v(self.dc()),
    {
        Stmt::ImportNamed {
            imported: String::from_str("tracingChannel"),
            local: String::from_str("tr_ch_apm_tracingChannel"),
            src: self.dc_module.clone(),
        }
    }

    /// The shared channel require of a script.
    fn make_require(&self) -> (s: Stmt)
        ensures
            stmt_view(s) == require_stmt_v(self.dc()),
    {
        Stmt::RequireNamed {
            imported: String::from_str("tracingChannel"),
            local: String::from_str("tr_ch_apm_tracingChannel"),
            src: self.dc_module.clone(),
        }
    }

    #[verifier::loop_isolation(false)]
    fn insert_module_preludes(&self, body: &mut Vec<Stmt>)
        requires
            old(body)@.len() >= 1,
        ensures
            stmts_view(final(body)@) == fan_module_preludes_v(
                self.states(),
                stmts_view(old(body)@),
            ),
    {
        let ghost ivs = self.states();
        let ghost b0 = stmts_view(old(body)@);
        let n = self.instrumentations.len();
        let mut i: usize = 0;
        while i < n
            invariant
                n == self.instrumentations@.len(),
                i <= n,
                ivs == self.states(),
                ivs.len() == n,
                body@.len() >= 1,
                stmts_view(body@) == fan_module_preludes_v(ivs.subrange(0, i as int), b0),
            decreases n - i,
        {
            let instr = &self.instrumentations[i];
            proof {
                assert(instr.view_spec() == ivs[i as int]);
            }
            let ch = instr.create_tracing_channel();
            let ghost pre = body@;
            body.insert(1, ch);
            proof {
                assert(body@ == pre.insert(1, ch));
                lemma_stmts_view_insert(pre, 1, ch);
                assert(ivs.subrange(0, i + 1).subrange(0, i as int) =~= ivs.subrange(0, i as int));
                assert(ivs.subrange(0, i + 1)[i as int] == ivs[i as int]);
                assert(ivs.subrange(0, i + 1) =~= ivs.subrange(0, i as int).push(ivs[i as int]));
                lemma_fan_module_preludes_push(ivs.subrange(0, i as int), ivs[i as int], b0);
            }
            i = i + 1;
        }
        proof {
            assert(ivs.subrange(0, n as int) =~= ivs);
        }
    }

    #[verifier::loop_isolation(false)]
    fn insert_script_preludes(&self, body: &mut Vec<Stmt>)
        requires
            script_start_index_v(stmts_view(old(body)@)) + 1 <= old(body)@.len(),
        ensures
            stmts_view(final(body)@) == fan_script_preludes_v(
                self.states(),
                stmts_view(old(body)@),
            ),
    {
        let ghost ivs = self.states();
        let ghost b0 = stmts_view(old(body)@);
        let n = self.instrumentations.len();
        let mut i: usize = 0;
        while i < n
            invariant
                n == self.instrumentations@.len(),
                i <= n,
                ivs == self.states(),
                ivs.len() == n,
                script_start_index_v(stmts_view(body@)) + 1 <= body@.len(),
                stmts_view(body@) == fan_script_preludes_v(ivs.subrange(0, i as int), b0),
            decreases n - i,
        {
            let instr = &self.instrumentations[i];
            proof {
                assert(instr.view_spec() == ivs[i as int]);
                crate::ast::lemma_stmts_view_index(body@);
            }
            let start_index = get_script_start_index(body);
            let ch = instr.create_tracing_channel();
            let ghost pre = body@;
            body.insert(start_index + 1, ch);
            proof {
                assert(body@ == pre.insert(start_index + 1, ch));
                lemma_stmts_view_insert(pre, start_index + 1, ch);
                assert(ivs.subrange(0, i + 1) =~= ivs.subrange(0, i as int).push(ivs[i as int]));
                lemma_fan_script_preludes_push(ivs.subrange(0, i as int), ivs[i as int], b0);
                // a leading directive stays in place, so the next start index
                // is no further than the current length
                assert(stmts_view(body@)[0] == stmt_view(body@[0]));
            }
            i = i + 1;
        }
        proof {
            assert(ivs.subrange(0, n as int) =~= ivs);
        }
    }

    /// Clears every instrumentation's per-traversal counters.
    #[verifier::loop_isolation(false)]
    fn reset_all(&mut self)
        ensures
            final(self).states() == reset_all_v(old(self).states()),
            final(self).dc() == old(self).dc(),
    {
        let ghost ivs0 = old(self).states();
        let n = self.instrumentations.len();
        let mut i: usize = 0;
        while i < n
            invariant
                n == self.instrumentations@.len(),
                i <= n,
                ivs0.len() == n,
                self.dc_module == old(self).dc_module,
                forall|j: int| 0 <= j < n ==> ivs0[j] == old(self).instrumentations@[j].view_spec(),
                forall|j: int|
                    i <= j < n ==> self.instrumentations@[j] == old(self).instrumentations@[j],
                forall|j: int|
                    0 <= j < i ==> self.instrumentations@[j].view_spec() == (InstrV {
                        count: 0,
                        is_correct_class: false,
                        ..ivs0[j]
                    }),
            decreases n - i,
        {
            proof {
                assert(self.instrumentations@[i as int].view_spec() == ivs0[i as int]);
            }
            let instr = &mut self.instrumentations[i];
            instr.reset();
            i = i + 1;
        }
        proof {
            assert(self.states() =~= reset_all_v(ivs0));
        }
    }

    /// Clears every instrumentation's success flag, once failures have been
    /// collected, so the visitor can be reused.
    #[verifier::loop_isolation(false)]
    pub fn reset_has_injected(&mut self)
        ensures
            final(self).states() == clear_injected_v(old(self).states()),
            final(self).dc() == old(self).dc(),
    {
        let ghost ivs0 = old(self).states();
        let n = self.instrumentations.len();
        let mut i: usize = 0;
        while i < n
            invariant
                n == self.instrumentations@.len(),
                i <= n,
                ivs0.len() == n,
                self.dc_module == old(self).dc_module,
                forall|j: int| 0 <= j < n ==> ivs0[j] == old(self).instrumentations@[j].view_spec(),
                forall|j: int|
                    i <= j < n ==> self.instrumentations@[j] == old(self).instrumentations@[j],
                forall|j: int|
                    0 <= j < i ==> self.instrumentations@[j].view_spec() == (InstrV {
                        has_injected: false,
                        ..ivs0[j]
                    }),
            decreases n - i,
        {
            proof {
                assert(self.instrumentations@[i as int].view_spec() == ivs0[i as int]);
            }
            let instr = &mut self.instrumentations[i];
            instr.reset_has_injected();
            i = i + 1;
        }
        proof {
            assert(self.states() =~= clear_injected_v(ivs0));
        }
    }

    /// The query names of the instrumentations that did not inject, in
    /// configuration order; `None` when every one injected.
    #[verifier::loop_isolation(false)]
    pub fn get_failed_injections(&self) -> (r: Option<Vec<String>>)
        ensures
            match r {
                Option::Some(v) => strs_view(v@) == failed_names_v(self.states()) && v@.len() > 0,
                Option::None => failed_names_v(self.states()).len() == 0,
            },
    {
        let ghost ivs = self.states();
        let n = self.instrumentations.len();
        let mut names: Vec<String> = Vec::new();
        let mut i: usize = 0;
        while i < n
            invariant
                n == self.instrumentations@.len(),
                i <= n,
                ivs == self.states(),
                ivs.len() == n,
                strs_view(names@) == failed_names_v(ivs.subrange(0, i as int)),
            decreases n - i,
        {
            let instr = &self.instrumentations[i];
            proof {
                assert(instr.view_spec() == ivs[i as int]);
                assert(ivs.subrange(0, i + 1).subrange(0, i as int) =~= ivs.subrange(0, i as int));
                assert(ivs.subrange(0, i + 1)[i as int] == ivs[i as int]);
            }
            if !instr.has_injected() {
                let name = String::from_str(instr.query_name());
                let ghost pre_names = names@;
                names.push(name);
                proof {
                    assert(strs_view(names@) =~= strs_view(pre_names).push(name@));
                }
            }
            proof {
                assert(strs_view(names@) =~= failed_names_v(ivs.subrange(0, i + 1)));
            }
            i = i + 1;
        }
        proof {
            assert(ivs.subrange(0, n as int) =~= ivs);
        }
        if names.len() > 0 {
            Option::Some(names)
        } else {
            proof {
                assert(failed_names_v(ivs).len() == strs_view(names@).len());
            }
            Option::None
        }
    }

    /// Rewrites one parsed program: inserts the shared channel import and the
    /// per-instrumentation channel bindings at the top, wraps every matched
    /// function in one traversal, and reports the instrumentations that did
    /// not inject. When none was selected the program comes back untouched.
    /// On failure the rewritten program is withheld.
    pub fn transform(&mut self, program: Program) -> (r: Result<Program, OrchestrionError>)
        ensures
            old(self).states().len() == 0 ==> ({
                &&& final(self).states() == old(self).states()
                &&& final(self).dc() == old(self).dc()
                &&& (r matches Ok(p) && p == program)
            }),
            old(self).states().len() > 0 ==> ({
                let (ivs2, p2) = transform_program_v(
                    old(self).states(),
                    old(self).dc(),
                    crate::ast::program_view(program),
                );
                &&& final(self).states() == clear_injected_v(ivs2)
                &&& final(self).dc() == old(self).dc()
                &&& (failed_names_v(ivs2).len() == 0 ==> (r matches Ok(p)
                    && crate::ast::program_view(p) == p2))
                &&& (failed_names_v(ivs2).len() > 0 ==> (r matches Err(e) && (e matches
                    OrchestrionError::InjectionMatchFailure(v)
                    && strs_view(v@) == failed_names_v(ivs2))))
            }),
    {
        if !self.has_instrumentations() {
            return Result::Ok(program);
        }
        let ghost ivs0 = self.states();
        let ghost p0 = crate::ast::program_view(program);
        let Program { kind, mut body } = program;
        let ghost body0 = stmts_view(body@);
        match kind {
            ProgramKind::Module => {
                let import = self.make_import();
                let ghost pre = body@;
                body.insert(0, import);
                proof {
                    assert(body@ == pre.insert(0, import));
                    lemma_stmts_view_insert(pre, 0, import);
                }
                self.insert_module_preludes(&mut body);
                self.visit_stmts(&mut body);
            },
            ProgramKind::Script => {
                let start_index = get_script_start_index(&body);
                let require = self.make_require();
                let ghost pre = body@;
                proof {
                    crate::ast::lemma_stmts_view_index(pre);
                }
                body.insert(start_index, require);
                proof {
                    assert(body@ == pre.insert(start_index as int, require));
                    lemma_stmts_view_insert(pre, start_index as int, require);
                    crate::ast::lemma_stmts_view_index(body@);
                    assert(script_start_index_v(stmts_view(body@)) + 1 <= body@.len());
                }
                self.insert_script_preludes(&mut body);
                self.visit_stmts(&mut body);
            },
        }
        self.reset_all();
        let failed = self.get_failed_injections();
        self.reset_has_injected();
        match failed {
            Option::None => Result::Ok(Program { kind, body }),
            Option::Some(names) => Result::Err(OrchestrionError::InjectionMatchFailure(names)),
        }
    }
}

/// The catalog owner: builds the per-file visitors.
pub struct Instrumentor {
    instrumentations: Vec<Instrumentation>,
    dc_module: String,
}

impl Instrumentor {
    /// The states of all configured instrumentations.
    pub closed spec fn states(self) -> Seq<InstrV> {
        instrs_view(self.instrumentations@)
    }

    /// The module specifier the channel factory is imported from.
    pub closed spec fn dc(self) -> Seq<char> {
        self.dc_module@
    }

    /// Builds the orchestrator for a whole catalog; every instrumentation
    /// starts with clear counters and flags.
    #[verifier::loop_isolation(false)]
    pub fn new(config: Config) -> (r: Self)
        ensures
            r.states() == Seq::new(
                config.instrumentations@.len(),
                |i: int| fresh_instr_v(config_view(config.instrumentations@[i])),
            ),
            r.dc() == config.dc_module@,
    {
        let Config { instrumentations: mut configs, dc_module } = config;
        let ghost cs0 = configs@;
        let mut instrs: Vec<Instrumentation> = Vec::new();
        let n = configs.len();
        let mut i: usize = 0;
        while i < n
            invariant
                i <= n,
                cs0.len() == n,
                configs@ == cs0.subrange(i as int, n as int),
                instrs@.len() == i,
                forall|j: int|
                    0 <= j < i ==> instrs@[j].view_spec() == fresh_instr_v(config_view(cs0[j])),
            decreases n - i,
        {
            let c = configs.remove(0);
            proof {
                assert(c == cs0[i as int]);
                assert(cs0.subrange(i as int, n as int).subrange(
                    1,
                    (n - i) as int,
                ) =~= cs0.subrange(i + 1, n as int));
            }
            instrs.push(Instrumentation::new(c));
            i = i + 1;
        }
        let r = Instrumentor { instrumentations: instrs, dc_module };
        proof {
            assert(r.states() =~= Seq::new(
                cs0.len(),
                |i: int| fresh_instr_v(config_view(cs0[i])),
            ));
        }
        r
    }

    /// The visitor holding copies of every instrumentation that matches the
    /// given module name, version and file path, in configuration order.
    #[verifier::loop_isolation(false)]
    pub fn get_matching_instrumentations(
        &self,
        module_name: &str,
        version: &str,
        file_path: &str,
    ) -> (r: InstrumentationVisitor)
        ensures
            r.states() == matching_states_v(self.states(), module_name@, version@, file_path@),
            r.dc() == self.dc(),
    {
        let ghost ivs = self.states();
        let n = self.instrumentations.len();
        let mut selected: Vec<Instrumentation> = Vec::new();
        let mut i: usize = 0;
        while i < n
            invariant
                n == self.instrumentations@.len(),
                ivs == self.states(),
                ivs.len() == n,
                i <= n,
                instrs_view(selected@) == matching_states_v(
                    ivs.subrange(0, i as int),
                    module_name@,
                    version@,
                    file_path@,
                ),
            decreases n - i,
        {
            let instr = &self.instrumentations[i];
            proof {
                assert(instr.view_spec() == ivs[i as int]);
                assert(ivs.subrange(0, i + 1).subrange(0, i as int) =~= ivs.subrange(0, i as int));
                assert(ivs.subrange(0, i + 1)[i as int] == ivs[i as int]);
            }
            if instr.matches(module_name, version, file_path) {
                let ghost pre = selected@;
                selected.push(instr.duplicate());
                proof {
                    assert(instrs_view(selected@) =~= instrs_view(pre).push(instr.view_spec()));
                }
            }
            proof {
                assert(instrs_view(selected@) =~= matching_states_v(
                    ivs.subrange(0, i + 1),
                    module_name@,
                    version@,
                    file_path@,
                ));
            }
            i = i + 1;
        }
        proof {
            assert(ivs.subrange(0, n as int) =~= ivs);
        }
        InstrumentationVisitor::new(selected, self.dc_module.clone())
    }
}


} // verus!