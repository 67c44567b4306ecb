//! One configured instrumentation: its per-traversal match state, and the
//! synthesis of the tracing wrappers it injects.
//!
//! An [`Instrumentation`] pairs one [`InstrumentationConfig`] with a running
//! candidate ordinal (`count`), a coarse class-scope flag
//! (`is_correct_class`), the success flag (`has_injected`), and the module
//! version it stamps into the generated context objects.
//!
//! Matching happens in two steps so a driver can keep traversal order
//! faithful: a `decide_*` call updates the match state and answers what to
//! wrap, and the corresponding apply step (`insert_tracing`,
//! `insert_constructor_tracing`) rewrites a function body without touching
//! any state. The `visit_mut_*` hooks compose the two for hosts that drive
//! node visits themselves.

use vstd::prelude::*;

use crate::ast::{
    assign_view, class_decl_view, class_expr_view, class_method_view, constructor_view,
    decl_view, decls_view, expr_view, exprs_view, fn_decl_view, fn_expr_view, fun_view, key_view,
    method_prop_view, var_decl_view, lemma_decls_view_index,
    lemma_exprs_view_index, lemma_members_view_index, lemma_props_view_index,
    lemma_stmts_view_index, member_view, members_view,
    opt_str_view, opt_stmts_view, pat_view, pats_view, prop_view, props_view, stmt_view,
    stmts_view, target_view, AssignExpr, AssignExprV, AssignTarget, BindingPat, ClassDecl,
    ClassDeclV, ClassExpr, ClassExprV, ClassMember, ClassMethod, ClassMethodV, Constructor,
    ConstructorV, DeclaratorV, Expr, ExprV, FnDecl, FnDeclV, FnExpr, FnExprV, Function, FunctionV,
    KeyV, MemberV, MethodProp, MethodPropV, PatV, Prop, PropKey, PropV, Stmt, StmtV, TargetV,
    VarDecl, VarDeclV, VarDeclarator, VarKind,
};
use crate::config::{sanitize_id, InstrumentationConfig, module_matches};
use crate::function_query::{
    operator_name, query_step, ordinal_step, sat_inc, FunctionKind, FunctionQuery, FunctionType,
};

verus! {

/// The mathematical content of an [`InstrumentationConfig`].
pub struct ConfigV {
    pub channel_name: Seq<char>,
    pub module_name: Seq<char>,
    pub version_range: Seq<char>,
    pub file_path: Seq<char>,
    pub query: FunctionQuery,
}

pub open spec fn config_view(c: InstrumentationConfig) -> ConfigV {
    ConfigV {
        channel_name: c.channel_name@,
        module_name: c.module.name@,
        version_range: c.module.version_range@,
        file_path: c.module.file_path@,
        query: c.function_query,
    }
}

/// The state of one instrumentation, as contracts see it.
pub struct InstrV {
    pub config: ConfigV,
    pub count: int,
    pub is_correct_class: bool,
    pub has_injected: bool,
    pub module_version: Option<Seq<char>>,
}

/// One instrumentation: a configuration plus per-traversal match state.
#[derive(Debug)]
pub struct Instrumentation {
    pub(crate) config: InstrumentationConfig,
    count: usize,
    is_correct_class: bool,
    has_injected: bool,
    module_version: Option<String>,
}

impl Instrumentation {
    pub closed spec fn view_spec(self) -> InstrV {
        InstrV {
            config: config_view(self.config),
            count: self.count as int,
            is_correct_class: self.is_correct_class,
            has_injected: self.has_injected,
            module_version: opt_str_view(self.module_version),
        }
    }
}

pub open spec fn instrs_view(s: Seq<Instrumentation>) -> Seq<InstrV> {
    Seq::new(s.len(), |i: int| s[i].view_spec())
}

// ---------------------------------------------------------------------------
// The shapes of the synthesized code.
// ---------------------------------------------------------------------------

/// The per-instrumentation channel binding: `tr_ch_apm$<id>`.
pub open spec fn channel_ident(id: Seq<char>) -> Seq<char> {
    "tr_ch_apm$"@ + id
}

/// The per-constructor context binding: `tr_ch_apm_ctx$<id>`.
pub open spec fn ctx_ident(id: Seq<char>) -> Seq<char> {
    "tr_ch_apm_ctx$"@ + id
}

/// The channel name published on: `orchestrion:<module>:<channel>`.
pub open spec fn channel_string(module_name: Seq<char>, channel_name: Seq<char>) -> Seq<char> {
    "orchestrion:"@ + module_name + ":"@ + channel_name
}

/// `const <name> = <init>;`
pub open spec fn const_decl_v(name: Seq<char>, init: ExprV) -> StmtV {
    StmtV::VarDecl(
        VarDeclV {
            kind: VarKind::Const,
            decls: seq![DeclaratorV { name: PatV::Ident(name), init: Option::Some(init) }],
        },
    )
}

/// `tr_ch_apm$<id>.hasSubscribers`
pub open spec fn has_subscribers_v(id: Seq<char>) -> ExprV {
    ExprV::Member { obj: seq![ExprV::Ident(channel_ident(id))], prop: "hasSubscribers"@ }
}

/// The channel-binding prelude of one instrumentation:
/// `const tr_ch_apm$<id> = tr_ch_apm_tracingChannel("orchestrion:<module>:<channel>");`
pub open spec fn channel_binding_stmt(cv: ConfigV) -> StmtV {
    const_decl_v(
        channel_ident(sanitize_id(cv.channel_name)),
        ExprV::Call {
            callee: seq![ExprV::Ident("tr_ch_apm_tracingChannel"@)],
            args: seq![ExprV::Str(channel_string(cv.module_name, cv.channel_name))],
        },
    )
}

/// The properties of the context object handed to the tracing operator:
/// `{ arguments, self: this[, moduleVersion: <v>] }`.
pub open spec fn trace_ctx_props(mv: Option<Seq<char>>) -> Seq<PropV> {
    let base = seq![
        PropV::Shorthand("arguments"@),
        PropV::KeyValue { key: KeyV::Ident("self"@), value: ExprV::This },
    ];
    match mv {
        Option::Some(v) => base.push(
            PropV::KeyValue { key: KeyV::Ident("moduleVersion"@), value: ExprV::Str(v) },
        ),
        Option::None => base,
    }
}

/// The body of the wrapper around a non-constructor function, given the
/// original body `orig` and parameter patterns `params`.
pub open spec fn wrapped_body_v(
    cv: ConfigV,
    mv: Option<Seq<char>>,
    params: Seq<PatV>,
    orig: Seq<StmtV>,
) -> Seq<StmtV> {
    let id = sanitize_id(cv.channel_name);
    let is_async = cv.query.spec_kind() == FunctionKind::Async;
    seq![
        // const __apm$original_args = arguments;
        const_decl_v("__apm$original_args"@, ExprV::Ident("arguments"@)),
        // const __apm$traced = () => {
        //     const __apm$wrapped = (<params>) => { <orig> };
        //     return __apm$wrapped.apply(null, __apm$original_args);
        // };
        const_decl_v(
            "__apm$traced"@,
            ExprV::Arrow {
                is_async,
                params: Seq::empty(),
                body: seq![
                    const_decl_v(
                        "__apm$wrapped"@,
                        ExprV::Arrow { is_async, params, body: orig },
                    ),
                    StmtV::Return(
                        Option::Some(
                            ExprV::Call {
                                callee: seq![
                                    ExprV::Member {
                                        obj: seq![ExprV::Ident("__apm$wrapped"@)],
                                        prop: "apply"@,
                                    },
                                ],
                                args: seq![ExprV::Null, ExprV::Ident("__apm$original_args"@)],
                            },
                        ),
                    ),
                ],
            },
        ),
        // if (!tr_ch_apm$<id>.hasSubscribers) return __apm$traced();
        StmtV::If {
            cond: ExprV::Not(seq![has_subscribers_v(id)]),
            cons: seq![
                StmtV::Return(
                    Option::Some(
                        ExprV::Call {
                            callee: seq![ExprV::Ident("__apm$traced"@)],
                            args: Seq::empty(),
                        },
                    ),
                ),
            ],
            alt: Option::None,
        },
        // return tr_ch_apm$<id>.<op>(__apm$traced, { arguments, self: this, ... });
        StmtV::Return(
            Option::Some(
                ExprV::Call {
                    callee: seq![
                        ExprV::Member {
                            obj: seq![ExprV::Ident(channel_ident(id))],
                            prop: operator_name(cv.query.spec_kind()),
                        },
                    ],
                    args: seq![
                        ExprV::Ident("__apm$traced"@),
                        ExprV::Object(trace_ctx_props(mv)),
                    ],
                },
            ),
        ),
    ]
}

/// `tr_ch_apm$<id>.<event>.publish(tr_ch_apm_ctx$<id>);`
pub open spec fn publish_stmt_v(id: Seq<char>, event: Seq<char>) -> StmtV {
    StmtV::Expr(
        ExprV::Call {
            callee: seq![
                ExprV::Member {
                    obj: seq![
                        ExprV::Member {
                            obj: seq![ExprV::Ident(channel_ident(id))],
                            prop: event,
                        },
                    ],
                    prop: "publish"@,
                },
            ],
            args: seq![ExprV::Ident(ctx_ident(id))],
        },
    )
}

/// `tr_ch_apm_ctx$<id>.<prop> = <rhs>;`
pub open spec fn set_ctx_stmt_v(id: Seq<char>, prop: Seq<char>, rhs: ExprV) -> StmtV {
    StmtV::Expr(
        ExprV::Assign(
            AssignExprV {
                target: TargetV::Member {
                    obj: seq![ExprV::Ident(ctx_ident(id))],
                    prop: KeyV::Ident(prop),
                },
                right: seq![rhs],
            },
        ),
    )
}

/// `if (tr_ch_apm$<id>.hasSubscribers) { <body> }`
pub open spec fn if_subscribers_v(id: Seq<char>, body: Seq<StmtV>) -> StmtV {
    StmtV::If {
        cond: has_subscribers_v(id),
        cons: seq![StmtV::Block(body)],
        alt: Option::None,
    }
}

/// The constructor context object: `{ arguments[, moduleVersion: <v>] }`.
pub open spec fn ctor_ctx_props(mv: Option<Seq<char>>) -> Seq<PropV> {
    let base = seq![PropV::Shorthand("arguments"@)];
    match mv {
        Option::Some(v) => base.push(
            PropV::KeyValue { key: KeyV::Ident("moduleVersion"@), value: ExprV::Str(v) },
        ),
        Option::None => base,
    }
}

/// The body of the wrapper around a constructor, given the original
/// statements `orig`. The assignment `ctx.self = this` in the error handler
/// sits in a nested `try` whose catch swallows the reference error thrown
/// before `super()` has run; the handler rethrows the original error.
pub open spec fn ctor_wrapped_body_v(cv: ConfigV, mv: Option<Seq<char>>, orig: Seq<StmtV>) -> Seq<
    StmtV,
> {
    let id = sanitize_id(cv.channel_name);
    seq![
        // const tr_ch_apm_ctx$<id> = { arguments, ... };
        const_decl_v(ctx_ident(id), ExprV::Object(ctor_ctx_props(mv))),
        StmtV::Try {
            block: seq![if_subscribers_v(id, seq![publish_stmt_v(id, "start"@)])] + orig,
            catch_param: Option::Some("tr_ch_err"@),
            catch: Option::Some(
                seq![
                    if_subscribers_v(
                        id,
                        seq![
                            set_ctx_stmt_v(id, "error"@, ExprV::Ident("tr_ch_err"@)),
                            StmtV::Try {
                                block: seq![set_ctx_stmt_v(id, "self"@, ExprV::This)],
                                catch_param: Option::Some("refErr"@),
                                catch: Option::Some(Seq::empty()),
                                finally: Option::None,
                            },
                            publish_stmt_v(id, "error"@),
                        ],
                    ),
                    StmtV::Throw(ExprV::Ident("tr_ch_err"@)),
                ],
            ),
            finally: Option::Some(
                seq![
                    if_subscribers_v(
                        id,
                        seq![
                            set_ctx_stmt_v(id, "self"@, ExprV::This),
                            publish_stmt_v(id, "end"@),
                        ],
                    ),
                ],
            ),
        },
    ]
}

// ---------------------------------------------------------------------------
// Small executable builders.
// ---------------------------------------------------------------------------

fn vec1<T>(a: T) -> (v: Vec<T>)
    ensures
        v@ == seq![a],
{
    let mut v: Vec<T> = Vec::new();
    v.push(a);
    proof {
        assert(v@ =~= seq![a]);
    }
    v
}

fn vec2<T>(a: T, b: T) -> (v: Vec<T>)
    ensures
        v@ == seq![a, b],
{
    let mut v: Vec<T> = Vec::new();
    v.push(a);
    v.push(b);
    proof {
        assert(v@ =~= seq![a, b]);
    }
    v
}

/// `a + b` as a fresh string.
fn str_concat(a: &str, b: &str) -> (r: String)
    ensures
        r@ == a@ + b@,
{
    let s = String::from_str(a);
    s.concat(b)
}

/// An equal copy of a list of binding patterns.
fn clone_pats(ps: &Vec<BindingPat>) -> (r: Vec<BindingPat>)
    ensures
        r@ == ps@,
{
    let mut r: Vec<BindingPat> = Vec::new();
    let n = ps.len();
    let mut i: usize = 0;
    while i < n
        invariant
            n == ps@.len(),
            i <= n,
            r@ == ps@.subrange(0, i as int),
        decreases n - i,
    {
        let p = match &ps[i] {
            BindingPat::Ident(s) => BindingPat::Ident(s.clone()),
            BindingPat::Other(n) => BindingPat::Other(*n),
        };
        r.push(p);
        proof {
            assert(r@ =~= ps@.subrange(0, i + 1));
        }
        i = i + 1;
    }
    proof {
        assert(ps@.subrange(0, n as int) =~= ps@);
    }
    r
}

/// `const <name> = <init>;` as a statement value.
fn const_decl(name: String, init: Expr) -> (s: Stmt)
    ensures
        stmt_view(s) == const_decl_v(name@, expr_view(init)),
{
    let ghost name_seq = name@;
    let ghost init_v = expr_view(init);
    let d = VarDeclarator { name: BindingPat::Ident(name), init: Option::Some(init) };
    proof {
        assert(seq![d].subrange(1, 1) =~= Seq::<VarDeclarator>::empty());
        assert(decls_view(seq![d].subrange(1, 1)) =~= Seq::<DeclaratorV>::empty());
        assert(decls_view(seq![d]) =~= seq![decl_view(d)]);
    }
    let vd = VarDecl { kind: VarKind::Const, decls: vec1(d) };
    proof {
        assert(var_decl_view(vd) == (VarDeclV {
            kind: VarKind::Const,
            decls: seq![
                DeclaratorV { name: PatV::Ident(name_seq), init: Option::Some(init_v) },
            ],
        }));
    }
    Stmt::VarDecl(vd)
}

/// `<obj>.<prop>` for an identifier `obj`.
fn ident_member(obj: String, prop: &str) -> (e: Expr)
    ensures
        expr_view(e) == (ExprV::Member { obj: seq![ExprV::Ident(obj@)], prop: prop@ }),
{
    let ghost obj_seq = obj@;
    let inner = Expr::Ident(obj);
    proof {
        assert(expr_view(inner) == ExprV::Ident(obj_seq));
    }
    Expr::Member { obj: Box::new(inner), prop: String::from_str(prop) }
}

impl Instrumentation {
    /// A fresh instrumentation for one configuration, with all counters and
    /// flags clear.
    pub fn new(config: InstrumentationConfig) -> (r: Self)
        ensures
            r.view_spec() == (InstrV {
                config: config_view(config),
                count: 0,
                is_correct_class: false,
                has_injected: false,
                module_version: Option::None,
            }),
    {
        Instrumentation {
            config,
            count: 0,
            is_correct_class: false,
            has_injected: false,
            module_version: Option::None,
        }
    }

    /// Record the version of the module being transformed; generated context
    /// objects will carry it as `moduleVersion`.
    pub fn set_module_version(&mut self, version: &str)
        ensures
            final(self).view_spec() == (InstrV {
                module_version: Option::Some(version@),
                ..old(self).view_spec()
            }),
    {
        self.module_version = Option::Some(String::from_str(version));
    }

    /// Whether this instrumentation has rewritten a function since the last
    /// reset.
    pub fn has_injected(&self) -> (r: bool)
        ensures
            r == self.view_spec().has_injected,
    {
        self.has_injected
    }

    /// Clears the per-traversal counters; called after each program.
    pub(crate) fn reset(&mut self)
        ensures
            final(self).view_spec() == (InstrV {
                count: 0,
                is_correct_class: false,
                ..old(self).view_spec()
            }),
    {
        self.count = 0;
        self.is_correct_class = false;
    }

    /// Clears the success flag, once failures have been collected.
    pub(crate) fn reset_has_injected(&mut self)
        ensures
            final(self).view_spec() == (InstrV {
                has_injected: false,
                ..old(self).view_spec()
            }),
    {
        self.has_injected = false;
    }

    /// Whether this instrumentation applies to the given module, version and
    /// file.
    pub fn matches(&self, module_name: &str, version: &str, file_path: &str) -> (r: bool)
        ensures
            r == module_matches(
                self.view_spec().config.module_name,
                self.view_spec().config.version_range,
                self.view_spec().config.file_path,
                module_name@,
                version@,
                file_path@,
            ),
    {
        self.config.matches(module_name, version, file_path)
    }

    /// An equal copy, match state included.
    pub(crate) fn duplicate(&self) -> (r: Self)
        ensures
            r == *self,
    {
        Instrumentation {
            config: self.config.duplicate(),
            count: self.count,
            is_correct_class: self.is_correct_class,
            has_injected: self.has_injected,
            module_version: match &self.module_version {
                Option::Some(v) => Option::Some(v.clone()),
                Option::None => Option::None,
            },
        }
    }

    /// The name of the query this instrumentation matches with.
    pub fn query_name(&self) -> (r: &str)
        ensures
            r@ == self.view_spec().config.query.spec_name(),
    {
        self.config.function_query.name()
    }

    /// An equal copy of the recorded module version.
    fn dup_module_version(&self) -> (r: Option<String>)
        ensures
            opt_str_view(r) == self.view_spec().module_version,
    {
        match &self.module_version {
            Option::Some(v) => Option::Some(v.clone()),
            Option::None => Option::None,
        }
    }

    /// `tr_ch_apm$<id>` for this instrumentation.
    fn channel_ident_string(&self) -> (r: String)
        ensures
            r@ == channel_ident(sanitize_id(self.view_spec().config.channel_name)),
    {
        let id = self.config.get_identifier_name();
        str_concat("tr_ch_apm$", id.as_str())
    }

    /// The channel-binding prelude statement of this instrumentation.
    pub(crate) fn create_tracing_channel(&self) -> (s: Stmt)
        ensures
            stmt_view(s) == channel_binding_stmt(self.view_spec().config),
    {
        let ch_name = self.channel_ident_string();
        let channel_str = str_concat("orchestrion:", self.config.module.name.as_str()).concat(
            ":",
        ).concat(self.config.channel_name.as_str());
        let arg = Expr::Str(channel_str);
        let ghost arg_v = expr_view(arg);
        let args = vec1(arg);
        proof {
            assert(seq![arg].subrange(1, 1) =~= Seq::<Expr>::empty());
            assert(exprs_view(seq![arg].subrange(1, 1)) =~= Seq::<ExprV>::empty());
            assert(exprs_view(args@) =~= seq![arg_v]);
        }
        let callee_ident = Expr::Ident(String::from_str("tr_ch_apm_tracingChannel"));
        proof {
            assert(expr_view(callee_ident) == ExprV::Ident("tr_ch_apm_tracingChannel"@));
        }
        let call = Expr::Call { callee: Box::new(callee_ident), args };
        proof {
            assert(expr_view(call) == (ExprV::Call {
                callee: seq![ExprV::Ident("tr_ch_apm_tracingChannel"@)],
                args: seq![arg_v],
            }));
        }
        const_decl(ch_name, call)
    }

    /// `tr_ch_apm_ctx$<id>` for this instrumentation.
    fn ctx_ident_string(&self) -> (r: String)
        ensures
            r@ == ctx_ident(sanitize_id(self.view_spec().config.channel_name)),
    {
        let id = self.config.get_identifier_name();
        str_concat("tr_ch_apm_ctx$", id.as_str())
    }

    /// `if (tr_ch_apm$<id>.hasSubscribers) { <body> }`
    fn make_if_subscribers(&self, body: Vec<Stmt>) -> (s: Stmt)
        ensures
            stmt_view(s) == if_subscribers_v(
                sanitize_id(self.view_spec().config.channel_name),
                stmts_view(body@),
            ),
    {
        let ghost body_v = stmts_view(body@);
        let ch = self.channel_ident_string();
        let cond = ident_member(ch, "hasSubscribers");
        let blk = Stmt::Block(body);
        proof {
            assert(stmt_view(blk) == StmtV::Block(body_v));
        }
        let s = Stmt::If { cond, cons: Box::new(blk), alt: Option::None };
        proof {
            assert(stmt_view(s) == (StmtV::If {
                cond: expr_view(cond),
                cons: seq![StmtV::Block(body_v)],
                alt: Option::None,
            }));
        }
        s
    }

    /// `tr_ch_apm$<id>.<event>.publish(tr_ch_apm_ctx$<id>);`
    fn make_publish(&self, event: &str) -> (s: Stmt)
        ensures
            stmt_view(s) == publish_stmt_v(
                sanitize_id(self.view_spec().config.channel_name),
                event@,
            ),
    {
        let ghost id = sanitize_id(self.view_spec().config.channel_name);
        let ch = self.channel_ident_string();
        let ev_member = ident_member(ch, event);
        let pub_member = Expr::Member { obj: Box::new(ev_member), prop: String::from_str(
            "publish",
        ) };
        proof {
            assert(expr_view(pub_member) == (ExprV::Member {
                obj: seq![expr_view(ev_member)],
                prop: "publish"@,
            }));
        }
        let ctx = Expr::Ident(self.ctx_ident_string());
        proof {
            assert(expr_view(ctx) == ExprV::Ident(ctx_ident(id)));
        }
        let args = vec1(ctx);
        proof {
            lemma_exprs_view_index(args@);
            assert(exprs_view(args@) =~= seq![ExprV::Ident(ctx_ident(id))]);
        }
        let call = Expr::Call { callee: Box::new(pub_member), args };
        proof {
            assert(expr_view(call) == (ExprV::Call {
                callee: seq![expr_view(pub_member)],
                args: seq![ExprV::Ident(ctx_ident(id))],
            }));
        }
        let s = Stmt::Expr(call);
        proof {
            assert(stmt_view(s) == StmtV::Expr(expr_view(call)));
        }
        s
    }

    /// `tr_ch_apm_ctx$<id>.<prop> = <rhs>;`
    fn make_set_ctx(&self, prop: &str, rhs: Expr) -> (s: Stmt)
        ensures
            stmt_view(s) == set_ctx_stmt_v(
                sanitize_id(self.view_spec().config.channel_name),
                prop@,
                expr_view(rhs),
            ),
    {
        let ghost id = sanitize_id(self.view_spec().config.channel_name);
        let ghost rhs_v = expr_view(rhs);
        let ctx = Expr::Ident(self.ctx_ident_string());
        proof {
            assert(expr_view(ctx) == ExprV::Ident(ctx_ident(id)));
        }
        let target = AssignTarget::Member {
            obj: Box::new(ctx),
            prop: PropKey::Ident(String::from_str(prop)),
        };
        proof {
            assert(target_view(target) == (TargetV::Member {
                obj: seq![ExprV::Ident(ctx_ident(id))],
                prop: KeyV::Ident(prop@),
            }));
        }
        let ae = AssignExpr { target, right: Box::new(rhs) };
        proof {
            assert(assign_view(ae) == (AssignExprV { target: target_view(target), right: seq![
                rhs_v,
            ] }));
        }
        let e = Expr::Assign(ae);
        proof {
            assert(expr_view(e) == ExprV::Assign(assign_view(ae)));
        }
        let s = Stmt::Expr(e);
        proof {
            assert(stmt_view(s) == StmtV::Expr(expr_view(e)));
        }
        s
    }

    /// Rewrites a non-constructor function body in place to the tracing
    /// wrapper, capturing the original body and parameters. Touches no match
    /// state.
    pub(crate) fn insert_tracing(&self, body: &mut Vec<Stmt>, params: &Vec<BindingPat>)
        ensures
            stmts_view(final(body)@) == wrapped_body_v(
                self.view_spec().config,
                self.view_spec().module_version,
                pats_view(params@),
                stmts_view(old(body)@),
            ),
    {
        let ghost cv = self.view_spec().config;
        let ghost mv = self.view_spec().module_version;
        let ghost id = sanitize_id(cv.channel_name);
        let ghost orig_v = stmts_view(old(body)@);
        let mut original: Vec<Stmt> = Vec::new();
        core::mem::swap(body, &mut original);

        let is_async = self.config.function_query.kind().is_async();

        // const __apm$original_args = arguments;
        let arg_ident = Expr::Ident(String::from_str("arguments"));
        proof {
            assert(expr_view(arg_ident) == ExprV::Ident("arguments"@));
        }
        let s1 = const_decl(String::from_str("__apm$original_args"), arg_ident);

        // const __apm$wrapped = (<params>) => { <original body> };
        let wrapped_params = clone_pats(params);
        let wrapped_arrow = Expr::Arrow { is_async, params: wrapped_params, body: original };
        proof {
            assert(expr_view(wrapped_arrow) == (ExprV::Arrow {
                is_async,
                params: pats_view(params@),
                body: orig_v,
            }));
        }
        let s_wrapped = const_decl(String::from_str("__apm$wrapped"), wrapped_arrow);

        // return __apm$wrapped.apply(null, __apm$original_args);
        let apply_callee = ident_member(String::from_str("__apm$wrapped"), "apply");
        let args_ident = Expr::Ident(String::from_str("__apm$original_args"));
        proof {
            assert(expr_view(args_ident) == ExprV::Ident("__apm$original_args"@));
            assert(expr_view(Expr::Null) == ExprV::Null);
        }
        let apply_args = vec2(Expr::Null, args_ident);
        proof {
            lemma_exprs_view_index(apply_args@);
            assert(exprs_view(apply_args@) =~= seq![
                ExprV::Null,
                ExprV::Ident("__apm$original_args"@),
            ]);
        }
        let apply_call = Expr::Call { callee: Box::new(apply_callee), args: apply_args };
        proof {
            assert(expr_view(apply_call) == (ExprV::Call {
                callee: seq![expr_view(apply_callee)],
                args: seq![ExprV::Null, ExprV::Ident("__apm$original_args"@)],
            }));
        }
        let ret_apply = Stmt::Return(Option::Some(apply_call));
        proof {
            assert(stmt_view(ret_apply) == StmtV::Return(Option::Some(expr_view(apply_call))));
        }

        // const __apm$traced = () => { ... };
        let traced_body = vec2(s_wrapped, ret_apply);
        proof {
            lemma_stmts_view_index(traced_body@);
            assert(stmts_view(traced_body@) =~= seq![stmt_view(s_wrapped), stmt_view(ret_apply)]);
        }
        let no_params: Vec<BindingPat> = Vec::new();
        proof {
            assert(pats_view(no_params@) =~= Seq::<PatV>::empty());
        }
        let traced_arrow = Expr::Arrow { is_async, params: no_params, body: traced_body };
        proof {
            assert(expr_view(traced_arrow) == (ExprV::Arrow {
                is_async,
                params: Seq::<PatV>::empty(),
                body: seq![stmt_view(s_wrapped), stmt_view(ret_apply)],
            }));
        }
        let s2 = const_decl(String::from_str("__apm$traced"), traced_arrow);

        // if (!tr_ch_apm$<id>.hasSubscribers) return __apm$traced();
        let ch = self.channel_ident_string();
        let has_subs = ident_member(ch.clone(), "hasSubscribers");
        let cond = Expr::Not(Box::new(has_subs));
        proof {
            assert(expr_view(cond) == ExprV::Not(seq![has_subscribers_v(id)]));
        }
        let traced_ident = Expr::Ident(String::from_str("__apm$traced"));
        proof {
            assert(expr_view(traced_ident) == ExprV::Ident("__apm$traced"@));
        }
        let no_args: Vec<Expr> = Vec::new();
        proof {
            assert(exprs_view(no_args@) =~= Seq::<ExprV>::empty());
        }
        let call_traced = Expr::Call { callee: Box::new(traced_ident), args: no_args };
        proof {
            assert(expr_view(call_traced) == (ExprV::Call {
                callee: seq![ExprV::Ident("__apm$traced"@)],
                args: Seq::<ExprV>::empty(),
            }));
        }
        let ret_traced = Stmt::Return(Option::Some(call_traced));
        proof {
            assert(stmt_view(ret_traced) == StmtV::Return(Option::Some(expr_view(call_traced))));
        }
        let s3 = Stmt::If { cond, cons: Box::new(ret_traced), alt: Option::None };
        proof {
            assert(stmt_view(s3) == (StmtV::If {
                cond: expr_view(cond),
                cons: seq![stmt_view(ret_traced)],
                alt: Option::None,
            }));
        }

        // return tr_ch_apm$<id>.<op>(__apm$traced, { arguments, self: this, ... });
        let op = self.config.function_query.kind().tracing_operator();
        let trace_callee = ident_member(ch, op);
        let p1 = Prop::Shorthand(String::from_str("arguments"));
        let p2 = Prop::KeyValue { key: PropKey::Ident(String::from_str("self")), value: Expr::This };
        proof {
            assert(prop_view(p1) == PropV::Shorthand("arguments"@));
            assert(prop_view(p2) == (PropV::KeyValue {
                key: KeyV::Ident("self"@),
                value: ExprV::This,
            }));
        }
        let mut props = vec2(p1, p2);
        match self.dup_module_version() {
            Option::Some(v) => {
                let ghost vv = v@;
                let p3 = Prop::KeyValue {
                    key: PropKey::Ident(String::from_str("moduleVersion")),
                    value: Expr::Str(v),
                };
                proof {
                    assert(prop_view(p3) == (PropV::KeyValue {
                        key: KeyV::Ident("moduleVersion"@),
                        value: ExprV::Str(vv),
                    }));
                }
                props.push(p3);
            },
            Option::None => {},
        }
        proof {
            lemma_props_view_index(props@);
            assert(props_view(props@) =~= trace_ctx_props(mv));
        }
        let obj = Expr::Object(props);
        proof {
            assert(expr_view(obj) == ExprV::Object(trace_ctx_props(mv)));
        }
        let traced_ident2 = Expr::Ident(String::from_str("__apm$traced"));
        proof {
            assert(expr_view(traced_ident2) == ExprV::Ident("__apm$traced"@));
        }
        let args4 = vec2(traced_ident2, obj);
        proof {
            lemma_exprs_view_index(args4@);
            assert(exprs_view(args4@) =~= seq![
                ExprV::Ident("__apm$traced"@),
                ExprV::Object(trace_ctx_props(mv)),
            ]);
        }
        let call4 = Expr::Call { callee: Box::new(trace_callee), args: args4 };
        proof {
            assert(expr_view(call4) == (ExprV::Call {
                callee: seq![expr_view(trace_callee)],
                args: seq![ExprV::Ident("__apm$traced"@), ExprV::Object(trace_ctx_props(mv))],
            }));
        }
        let s4 = Stmt::Return(Option::Some(call4));
        proof {
            assert(stmt_view(s4) == StmtV::Return(Option::Some(expr_view(call4))));
        }

        body.push(s1);
        body.push(s2);
        body.push(s3);
        body.push(s4);
        proof {
            assert(body@ =~= seq![s1, s2, s3, s4]);
            lemma_stmts_view_index(body@);
            assert(stmts_view(body@) =~= wrapped_body_v(cv, mv, pats_view(params@), orig_v));
        }
    }

    /// Rewrites a constructor body in place to the publish-based wrapper.
    /// Touches no match state.
    pub(crate) fn insert_constructor_tracing(&self, body: &mut Vec<Stmt>)
        ensures
            stmts_view(final(body)@) == ctor_wrapped_body_v(
                self.view_spec().config,
                self.view_spec().module_version,
                stmts_view(old(body)@),
            ),
    {
        let ghost cv = self.view_spec().config;
        let ghost mv = self.view_spec().module_version;
        let ghost id = sanitize_id(cv.channel_name);
        let ghost orig_v = stmts_view(old(body)@);
        let ghost orig_seq = old(body)@;
        let mut original: Vec<Stmt> = Vec::new();
        core::mem::swap(body, &mut original);

        // const tr_ch_apm_ctx$<id> = { arguments, ... };
        let p1 = Prop::Shorthand(String::from_str("arguments"));
        proof {
            assert(prop_view(p1) == PropV::Shorthand("arguments"@));
        }
        let mut props = vec1(p1);
        match self.dup_module_version() {
            Option::Some(v) => {
                let ghost vv = v@;
                let p2 = Prop::KeyValue {
                    key: PropKey::Ident(String::from_str("moduleVersion")),
                    value: Expr::Str(v),
                };
                proof {
                    assert(prop_view(p2) == (PropV::KeyValue {
                        key: KeyV::Ident("moduleVersion"@),
                        value: ExprV::Str(vv),
                    }));
                }
                props.push(p2);
            },
            Option::None => {},
        }
        proof {
            lemma_props_view_index(props@);
            assert(props_view(props@) =~= ctor_ctx_props(mv));
        }
        let obj = Expr::Object(props);
        proof {
            assert(expr_view(obj) == ExprV::Object(ctor_ctx_props(mv)));
        }
        let s1 = const_decl(self.ctx_ident_string(), obj);

        // try { if (ch.hasSubscribers) { ch.start.publish(ctx); } <original> }
        let start_pub = self.make_publish("start");
        let start_blk = vec1(start_pub);
        proof {
            lemma_stmts_view_index(start_blk@);
            assert(stmts_view(start_blk@) =~= seq![publish_stmt_v(id, "start"@)]);
        }
        let if_start = self.make_if_subscribers(start_blk);
        let mut blk = vec1(if_start);
        blk.append(&mut original);
        proof {
            assert(blk@ =~= seq![if_start] + orig_seq);
            lemma_stmts_view_index(blk@);
            lemma_stmts_view_index(orig_seq);
            assert(stmts_view(blk@) =~= seq![stmt_view(if_start)] + orig_v);
        }

        // catch (tr_ch_err) { ... throw tr_ch_err; }
        let err_ident = Expr::Ident(String::from_str("tr_ch_err"));
        proof {
            assert(expr_view(err_ident) == ExprV::Ident("tr_ch_err"@));
        }
        let set_err = self.make_set_ctx("error", err_ident);
        let inner_set = self.make_set_ctx("self", Expr::This);
        proof {
            assert(expr_view(Expr::This) == ExprV::This);
        }
        let inner_blk = vec1(inner_set);
        proof {
            lemma_stmts_view_index(inner_blk@);
            assert(stmts_view(inner_blk@) =~= seq![set_ctx_stmt_v(id, "self"@, ExprV::This)]);
        }
        let empty_catch: Vec<Stmt> = Vec::new();
        proof {
            assert(stmts_view(empty_catch@) =~= Seq::<StmtV>::empty());
        }
        proof {
            assert(opt_stmts_view(Option::Some(empty_catch)) == Option::Some(
                stmts_view(empty_catch@),
            ));
            assert(opt_stmts_view(Option::<Vec<Stmt>>::None) == Option::<Seq<StmtV>>::None);
        }
        let inner_try = Stmt::Try {
            block: inner_blk,
            catch_param: Option::Some(String::from_str("refErr")),
            catch: Option::Some(empty_catch),
            finally: Option::None,
        };
        proof {
            assert(stmt_view(inner_try) == (StmtV::Try {
                block: seq![set_ctx_stmt_v(id, "self"@, ExprV::This)],
                catch_param: Option::Some("refErr"@),
                catch: Option::Some(Seq::<StmtV>::empty()),
                finally: Option::None,
            }));
        }
        let err_pub = self.make_publish("error");
        let err_body = vec3(set_err, inner_try, err_pub);
        proof {
            lemma_stmts_view_index(err_body@);
            assert(stmts_view(err_body@) =~= seq![
                stmt_view(set_err),
                stmt_view(inner_try),
                stmt_view(err_pub),
            ]);
        }
        let if_err = self.make_if_subscribers(err_body);
        let err_ident2 = Expr::Ident(String::from_str("tr_ch_err"));
        let throw = Stmt::Throw(err_ident2);
        proof {
            assert(expr_view(err_ident2) == ExprV::Ident("tr_ch_err"@));
            assert(stmt_view(throw) == StmtV::Throw(ExprV::Ident("tr_ch_err"@)));
        }
        let catch_stmts = vec2(if_err, throw);
        proof {
            lemma_stmts_view_index(catch_stmts@);
            assert(stmts_view(catch_stmts@) =~= seq![stmt_view(if_err), stmt_view(throw)]);
        }

        // finally { if (ch.hasSubscribers) { ctx.self = this; ch.end.publish(ctx); } }
        let end_set = self.make_set_ctx("self", Expr::This);
        proof {
            assert(expr_view(Expr::This) == ExprV::This);
        }
        let end_pub = self.make_publish("end");
        let end_body = vec2(end_set, end_pub);
        proof {
            lemma_stmts_view_index(end_body@);
            assert(stmts_view(end_body@) =~= seq![stmt_view(end_set), stmt_view(end_pub)]);
        }
        let if_end = self.make_if_subscribers(end_body);
        let fin = vec1(if_end);
        proof {
            lemma_stmts_view_index(fin@);
            assert(stmts_view(fin@) =~= seq![stmt_view(if_end)]);
        }

        proof {
            assert(opt_stmts_view(Option::Some(catch_stmts)) == Option::Some(
                stmts_view(catch_stmts@),
            ));
            assert(opt_stmts_view(Option::Some(fin)) == Option::Some(stmts_view(fin@)));
        }
        let s2 = Stmt::Try {
            block: blk,
            catch_param: Option::Some(String::from_str("tr_ch_err")),
            catch: Option::Some(catch_stmts),
            finally: Option::Some(fin),
        };
        proof {
            assert(stmt_view(s2) == (StmtV::Try {
                block: seq![stmt_view(if_start)] + orig_v,
                catch_param: Option::Some("tr_ch_err"@),
                catch: Option::Some(seq![stmt_view(if_err), stmt_view(throw)]),
                finally: Option::Some(seq![stmt_view(if_end)]),
            }));
        }

        body.push(s1);
        body.push(s2);
        proof {
            assert(body@ =~= seq![s1, s2]);
            lemma_stmts_view_index(body@);
            assert(stmts_view(body@) =~= ctor_wrapped_body_v(cv, mv, orig_v));
        }
    }
}

fn vec3<T>(a: T, b: T, c: T) -> (v: Vec<T>)
    ensures
        v@ == seq![a, b, c],
{
    let mut v: Vec<T> = Vec::new();
    v.push(a);
    v.push(b);
    v.push(c);
    proof {
        assert(v@ =~= seq![a, b, c]);
    }
    v
}

// ---------------------------------------------------------------------------
// The match decisions, as state transformers over `InstrV`.
//
// A decision updates the ordinal and flags and answers what to wrap; the
// matching apply function rewrites the node and touches no state. The
// `visit_mut_*` hooks below compose the two.
// ---------------------------------------------------------------------------

/// One candidate offered to an instrumentation: ordinal bookkeeping plus,
/// when the candidate hits and has a body, the decision to wrap.
pub open spec fn note_match_v(iv: InstrV, t: FunctionType, name: Seq<char>, has_body: bool) -> (
    InstrV,
    bool,
) {
    let (hit, c2) = query_step(iv.config.query, t, name, iv.count);
    if hit && has_body {
        (InstrV { count: sat_inc(c2), has_injected: true, ..iv }, true)
    } else {
        (InstrV { count: c2, ..iv }, false)
    }
}

pub open spec fn decide_fn_decl_v(iv: InstrV, fd: FnDeclV) -> (InstrV, bool) {
    note_match_v(iv, FunctionType::FunctionDeclaration, fd.name, fd.func.body is Some)
}

/// Entering a class declaration: the scope flag is set iff the query has no
/// class filter or the filter names this class.
pub open spec fn decide_class_decl_v(iv: InstrV, name: Seq<char>) -> InstrV {
    InstrV {
        is_correct_class: match iv.config.query.spec_class_name() {
            Option::Some(c) => c == name,
            Option::None => true,
        },
        ..iv
    }
}

/// Entering a class expression; an anonymous class never satisfies a class
/// filter.
pub open spec fn decide_class_expr_v(iv: InstrV, name: Option<Seq<char>>) -> InstrV {
    InstrV {
        is_correct_class: match iv.config.query.spec_class_name() {
            Option::Some(c) => match name {
                Option::Some(n) => n == c,
                Option::None => false,
            },
            Option::None => true,
        },
        ..iv
    }
}

/// A class method: only identifier keys are considered, and the ordinal only
/// moves while the class-scope flag is set. Answers (state, wrap, recurse).
pub open spec fn decide_class_method_v(iv: InstrV, m: ClassMethodV) -> (InstrV, bool, bool) {
    match m.key {
        KeyV::Ident(name) => if !iv.is_correct_class {
            (iv, false, true)
        } else {
            let (iv2, w) = note_match_v(iv, FunctionType::Method, name, m.func.body is Some);
            (iv2, w, true)
        },
        _ => (iv, false, false),
    }
}

/// An object-literal method: like a class method, but without a class scope,
/// and children are never visited.
pub open spec fn decide_method_prop_v(iv: InstrV, m: MethodPropV) -> (InstrV, bool) {
    match m.key {
        KeyV::Ident(name) => note_match_v(iv, FunctionType::Method, name, m.func.body is Some),
        _ => (iv, false),
    }
}

/// A constructor: considered only inside the right class and for a query
/// named `constructor`; the ordinal moves on every considered constructor.
pub open spec fn decide_constructor_v(iv: InstrV, c: ConstructorV) -> (InstrV, bool) {
    if !iv.is_correct_class || iv.config.query.spec_name() != "constructor"@ {
        (iv, false)
    } else if iv.count == iv.config.query.spec_index() && c.body is Some {
        (InstrV { count: sat_inc(iv.count), has_injected: true, ..iv }, true)
    } else {
        (InstrV { count: sat_inc(iv.count), ..iv }, false)
    }
}

/// One declarator: eligible when its initializer is a function expression
/// and its pattern a plain identifier, which names the function. Answers
/// (state, wrap, eligible).
pub open spec fn decide_declarator_v(iv: InstrV, d: DeclaratorV) -> (InstrV, bool, bool) {
    match d.init {
        Option::Some(ExprV::FnExpr(fe)) => match d.name {
            PatV::Ident(nm) => {
                let (iv2, w) = note_match_v(
                    iv,
                    FunctionType::FunctionExpression,
                    nm,
                    fe.func.body is Some,
                );
                (iv2, w, true)
            },
            _ => (iv, false, false),
        },
        _ => (iv, false, false),
    }
}

/// All declarators of one statement, left to right. `traced` is the answer
/// of the last eligible declarator, `false` when there is none — the shape
/// the recurse answer of the variable-declaration hook takes.
pub open spec fn decide_decls_v(iv: InstrV, ds: Seq<DeclaratorV>) -> (InstrV, Seq<bool>, bool)
    decreases ds,
{
    if ds.len() == 0 {
        (iv, Seq::empty(), false)
    } else {
        let (iv1, flags1, t1) = decide_decls_v(iv, ds.subrange(0, ds.len() - 1));
        let (iv2, w, eligible) = decide_declarator_v(iv1, ds[ds.len() - 1]);
        (
            iv2,
            flags1.push(w),
            if eligible {
                w
            } else {
                t1
            },
        )
    }
}

/// A simple assignment: when the right-hand side is a function expression,
/// the name is inferred from an identifier target or an identifier-keyed
/// member target. Answers (state, traced).
pub open spec fn decide_assign_v(iv: InstrV, a: AssignExprV) -> (InstrV, bool) {
    if a.right.len() == 1 {
        match a.right[0] {
            ExprV::FnExpr(fe) => match a.target {
                TargetV::Ident(nm) => note_match_v(
                    iv,
                    FunctionType::FunctionExpression,
                    nm,
                    fe.func.body is Some,
                ),
                TargetV::Member { prop: KeyV::Ident(p), .. } => note_match_v(
                    iv,
                    FunctionType::FunctionExpression,
                    p,
                    fe.func.body is Some,
                ),
                _ => (iv, false),
            },
            _ => (iv, false),
        }
    } else {
        (iv, false)
    }
}

// ---------------------------------------------------------------------------
// The apply steps, as functions over the ghost tree.
// ---------------------------------------------------------------------------

/// Wrapping a function: when asked and a body is there, the body becomes the
/// tracing wrapper around the original statements.
pub open spec fn apply_fn_wrap_v(iv: InstrV, w: bool, f: FunctionV) -> FunctionV {
    if w {
        match f.body {
            Option::Some(b) => FunctionV {
                body: Option::Some(wrapped_body_v(iv.config, iv.module_version, f.params, b)),
                ..f
            },
            Option::None => f,
        }
    } else {
        f
    }
}

/// Wrapping a constructor body.
pub open spec fn apply_ctor_wrap_v(iv: InstrV, w: bool, c: ConstructorV) -> ConstructorV {
    if w {
        match c.body {
            Option::Some(b) => ConstructorV {
                body: Option::Some(ctor_wrapped_body_v(iv.config, iv.module_version, b)),
                ..c
            },
            Option::None => c,
        }
    } else {
        c
    }
}

/// Wrapping an expression when it is a function expression.
pub open spec fn apply_expr_wrap_v(iv: InstrV, w: bool, e: ExprV) -> ExprV {
    if w {
        match e {
            ExprV::FnExpr(fe) => ExprV::FnExpr(
                FnExprV { name: fe.name, func: apply_fn_wrap_v(iv, true, fe.func) },
            ),
            _ => e,
        }
    } else {
        e
    }
}

/// Wrapping the initializer of one declarator.
pub open spec fn apply_declarator_v(iv: InstrV, w: bool, d: DeclaratorV) -> DeclaratorV {
    if w {
        match d.init {
            Option::Some(e) => DeclaratorV {
                name: d.name,
                init: Option::Some(apply_expr_wrap_v(iv, true, e)),
            },
            Option::None => d,
        }
    } else {
        d
    }
}

/// The wrap flag for position `j`, `false` past the end of the flag list.
pub open spec fn flag_at(flags: Seq<bool>, j: int) -> bool {
    0 <= j < flags.len() && flags[j]
}

/// Wrapping the flagged declarators of one statement.
pub open spec fn apply_decls_v(iv: InstrV, flags: Seq<bool>, ds: Seq<DeclaratorV>) -> Seq<
    DeclaratorV,
> {
    Seq::new(ds.len(), |i: int| apply_declarator_v(iv, flag_at(flags, i), ds[i]))
}

/// Wrapping the right-hand side of an assignment.
pub open spec fn apply_assign_v(iv: InstrV, w: bool, a: AssignExprV) -> AssignExprV {
    if w && a.right.len() == 1 {
        AssignExprV { target: a.target, right: seq![apply_expr_wrap_v(iv, true, a.right[0])] }
    } else {
        a
    }
}

// ---------------------------------------------------------------------------
// The per-node hooks: decision and apply composed, as the driver composes
// them at one node.
// ---------------------------------------------------------------------------

pub open spec fn hook_fn_decl_v(iv: InstrV, fd: FnDeclV) -> (InstrV, FnDeclV, bool) {
    let (iv2, w) = decide_fn_decl_v(iv, fd);
    (iv2, FnDeclV { name: fd.name, func: apply_fn_wrap_v(iv2, w, fd.func) }, true)
}

pub open spec fn hook_var_decl_v(iv: InstrV, vd: VarDeclV) -> (InstrV, VarDeclV, bool) {
    let (iv2, flags, traced) = decide_decls_v(iv, vd.decls);
    (iv2, VarDeclV { kind: vd.kind, decls: apply_decls_v(iv2, flags, vd.decls) }, !traced)
}

pub open spec fn hook_class_method_v(iv: InstrV, m: ClassMethodV) -> (InstrV, ClassMethodV, bool) {
    let (iv2, w, recurse) = decide_class_method_v(iv, m);
    (iv2, ClassMethodV { key: m.key, func: apply_fn_wrap_v(iv2, w, m.func) }, recurse)
}

pub open spec fn hook_constructor_v(iv: InstrV, c: ConstructorV) -> (InstrV, ConstructorV, bool) {
    let (iv2, w) = decide_constructor_v(iv, c);
    (iv2, apply_ctor_wrap_v(iv2, w, c), false)
}

pub open spec fn hook_method_prop_v(iv: InstrV, m: MethodPropV) -> (InstrV, MethodPropV, bool) {
    let (iv2, w) = decide_method_prop_v(iv, m);
    (iv2, MethodPropV { key: m.key, func: apply_fn_wrap_v(iv2, w, m.func) }, false)
}

pub open spec fn hook_assign_v(iv: InstrV, a: AssignExprV) -> (InstrV, AssignExprV, bool) {
    let (iv2, traced) = decide_assign_v(iv, a);
    (iv2, apply_assign_v(iv2, traced, a), !traced)
}

/// True of the `"use strict"` directive statement.
pub open spec fn is_use_strict_v(s: StmtV) -> bool {
    match s {
        StmtV::Expr(ExprV::Str(t)) => t == "use strict"@,
        _ => false,
    }
}

/// Where insertions into a script body start: after a leading `"use strict"`
/// directive, else at the front.
pub open spec fn script_start_index_v(body: Seq<StmtV>) -> int {
    if body.len() > 0 && is_use_strict_v(body[0]) {
        1
    } else {
        0
    }
}

/// The module hook: the channel binding goes to index 1, right after the
/// shared import at index 0.
pub open spec fn hook_module_v(iv: InstrV, body: Seq<StmtV>) -> (Seq<StmtV>, bool) {
    (body.insert(1, channel_binding_stmt(iv.config)), true)
}

/// The script hook: the channel binding goes right after the shared require,
/// which itself sits after a leading directive.
pub open spec fn hook_script_v(iv: InstrV, body: Seq<StmtV>) -> (Seq<StmtV>, bool) {
    (body.insert(script_start_index_v(body) + 1, channel_binding_stmt(iv.config)), true)
}

impl Instrumentation {
    /// Offer one candidate: bookkeeping on the ordinal and, on a hit with a
    /// body, the decision to wrap.
    pub(crate) fn note_match(&mut self, typ: FunctionType, name: &String, has_body: bool) -> (w:
        bool)
        ensures
            (final(self).view_spec(), w) == note_match_v(
                old(self).view_spec(),
                typ,
                name@,
                has_body,
            ),
    {
        let ok = self.config.function_query.typ() == typ && self.config.function_query
            .name_matches(name);
        let hit = self.config.function_query.maybe_increment_count(ok, &mut self.count);
        if hit && has_body {
            if self.count < usize::MAX {
                self.count = self.count + 1;
            }
            self.has_injected = true;
            true
        } else {
            false
        }
    }

    pub(crate) fn decide_fn_decl(&mut self, node: &FnDecl) -> (w: bool)
        ensures
            (final(self).view_spec(), w) == decide_fn_decl_v(
                old(self).view_spec(),
                fn_decl_view(*node),
            ),
    {
        self.note_match(FunctionType::FunctionDeclaration, &node.name, node.func.body.is_some())
    }

    pub(crate) fn decide_class_decl(&mut self, node: &ClassDecl)
        ensures
            final(self).view_spec() == decide_class_decl_v(old(self).view_spec(), node.name@),
    {
        let ok = match self.config.function_query.class_name() {
            Option::Some(c) => node.name.eq(&String::from_str(c)),
            Option::None => true,
        };
        self.is_correct_class = ok;
    }

    pub(crate) fn decide_class_expr(&mut self, node: &ClassExpr)
        ensures
            final(self).view_spec() == decide_class_expr_v(
                old(self).view_spec(),
                opt_str_view(node.name),
            ),
    {
        let ok = match self.config.function_query.class_name() {
            Option::Some(c) => match &node.name {
                Option::Some(n) => n.eq(&String::from_str(c)),
                Option::None => false,
            },
            Option::None => true,
        };
        self.is_correct_class = ok;
    }

    pub(crate) fn decide_class_method(&mut self, node: &ClassMethod) -> (r: (bool, bool))
        ensures
            ({
                let (iv2, w, recurse) = decide_class_method_v(
                    old(self).view_spec(),
                    class_method_view(*node),
                );
                final(self).view_spec() == iv2 && r.0 == w && r.1 == recurse
            }),
    {
        match &node.key {
            PropKey::Ident(name) => {
                if !self.is_correct_class {
                    (false, true)
                } else {
                    let w = self.note_match(
                        FunctionType::Method,
                        name,
                        node.func.body.is_some(),
                    );
                    (w, true)
                }
            },
            PropKey::Other(_) => (false, false),
        }
    }

    pub(crate) fn decide_method_prop(&mut self, node: &MethodProp) -> (w: bool)
        ensures
            (final(self).view_spec(), w) == decide_method_prop_v(
                old(self).view_spec(),
                method_prop_view(*node),
            ),
    {
        match &node.key {
            PropKey::Ident(name) => self.note_match(
                FunctionType::Method,
                name,
                node.func.body.is_some(),
            ),
            PropKey::Other(_) => false,
        }
    }

    pub(crate) fn decide_constructor(&mut self, node: &Constructor) -> (w: bool)
        ensures
            (final(self).view_spec(), w) == decide_constructor_v(
                old(self).view_spec(),
                constructor_view(*node),
            ),
    {
        let is_ctor_query = self.config.function_query.name_matches(
            &String::from_str("constructor"),
        );
        if !self.is_correct_class || !is_ctor_query {
            return false;
        }
        if self.count == self.config.function_query.index() && node.body.is_some() {
            if self.count < usize::MAX {
                self.count = self.count + 1;
            }
            self.has_injected = true;
            true
        } else {
            if self.count < usize::MAX {
                self.count = self.count + 1;
            }
            false
        }
    }

    pub(crate) fn decide_declarator(&mut self, d: &VarDeclarator) -> (r: (bool, bool))
        ensures
            ({
                let (iv2, w, eligible) = decide_declarator_v(old(self).view_spec(), decl_view(*d));
                final(self).view_spec() == iv2 && r.0 == w && r.1 == eligible
            }),
    {
        match &d.init {
            Option::Some(init) => match init {
                Expr::FnExpr(fe) => match &d.name {
                    BindingPat::Ident(nm) => {
                        let w = self.note_match(
                            FunctionType::FunctionExpression,
                            nm,
                            fe.func.body.is_some(),
                        );
                        (w, true)
                    },
                    BindingPat::Other(_) => (false, false),
                },
                _ => (false, false),
            },
            Option::None => (false, false),
        }
    }

    pub(crate) fn decide_var_decl(&mut self, node: &VarDecl) -> (r: (Vec<bool>, bool))
        ensures
            ({
                let (iv2, flags, traced) = decide_decls_v(
                    old(self).view_spec(),
                    decls_view(node.decls@),
                );
                final(self).view_spec() == iv2 && r.0@ == flags && r.1 == traced
            }),
    {
        let ghost dv = decls_view(node.decls@);
        proof {
            lemma_decls_view_index(node.decls@);
        }
        let mut flags: Vec<bool> = Vec::new();
        let mut traced = false;
        let n = node.decls.len();
        let mut i: usize = 0;
        while i < n
            invariant
                n == node.decls@.len(),
                i <= n,
                dv == decls_view(node.decls@),
                dv.len() == n,
                forall|j: int| 0 <= j < n ==> dv[j] == decl_view(node.decls@[j]),
                ({
                    let (iv2, fl, tr) = decide_decls_v(
                        old(self).view_spec(),
                        dv.subrange(0, i as int),
                    );
                    self.view_spec() == iv2 && flags@ == fl && traced == tr
                }),
            decreases n - i,
        {
            let (w, eligible) = self.decide_declarator(&node.decls[i]);
            flags.push(w);
            if eligible {
                traced = w;
            }
            proof {
                assert(dv.subrange(0, i + 1).subrange(0, i as int) =~= dv.subrange(0, i as int));
                assert(dv.subrange(0, i + 1)[i as int] == dv[i as int]);
            }
            i = i + 1;
        }
        proof {
            assert(dv.subrange(0, n as int) =~= dv);
        }
        (flags, traced)
    }

    pub(crate) fn decide_assign(&mut self, node: &AssignExpr) -> (traced: bool)
        ensures
            (final(self).view_spec(), traced) == decide_assign_v(
                old(self).view_spec(),
                assign_view(*node),
            ),
    {
        proof {
            assert(assign_view(*node) == (AssignExprV {
                target: target_view(node.target),
                right: seq![expr_view(*node.right)],
            }));
        }
        match &*node.right {
            Expr::FnExpr(fe) => {
                proof {
                    assert(expr_view(*node.right) == ExprV::FnExpr(fn_expr_view(*fe)));
                    assert(fn_expr_view(*fe) == (FnExprV {
                        name: opt_str_view(fe.name),
                        func: fun_view(fe.func),
                    }));
                    assert(fun_view(fe.func).body is Some <==> fe.func.body is Some);
                }
                match &node.target {
                    AssignTarget::Ident(nm) => {
                        proof {
                            assert(target_view(node.target) == TargetV::Ident(nm@));
                        }
                        self.note_match(
                            FunctionType::FunctionExpression,
                            nm,
                            fe.func.body.is_some(),
                        )
                    },
                    AssignTarget::Member { obj, prop } => {
                        proof {
                            assert(target_view(node.target) == (TargetV::Member {
                                obj: seq![expr_view(**obj)],
                                prop: key_view(*prop),
                            }));
                        }
                        match prop {
                            PropKey::Ident(p) => self.note_match(
                                FunctionType::FunctionExpression,
                                p,
                                fe.func.body.is_some(),
                            ),
                            PropKey::Other(_) => false,
                        }
                    },
                    AssignTarget::Other(_) => {
                        proof {
                            assert(target_view(node.target) is Other);
                        }
                        false
                    },
                }
            },
            _ => {
                proof {
                    assert(!(expr_view(*node.right) is FnExpr));
                }
                false
            },
        }
    }

    /// Wraps the body of a function when asked; touches no match state.
    pub(crate) fn apply_wrap(&self, w: bool, func: &mut Function)
        ensures
            fun_view(*final(func)) == apply_fn_wrap_v(self.view_spec(), w, fun_view(*old(func))),
    {
        if w {
            let b = func.body.take();
            match b {
                Option::Some(mut stmts) => {
                    self.insert_tracing(&mut stmts, &func.params);
                    func.body = Option::Some(stmts);
                },
                Option::None => {},
            }
        }
    }

    /// Wraps a constructor body when asked; touches no match state.
    pub(crate) fn apply_ctor(&self, w: bool, node: &mut Constructor)
        ensures
            constructor_view(*final(node)) == apply_ctor_wrap_v(
                self.view_spec(),
                w,
                constructor_view(*old(node)),
            ),
    {
        if w {
            let b = node.body.take();
            match b {
                Option::Some(mut stmts) => {
                    self.insert_constructor_tracing(&mut stmts);
                    node.body = Option::Some(stmts);
                },
                Option::None => {},
            }
        }
    }

    /// Wraps a function expression when asked; touches no match state.
    pub(crate) fn apply_fn_expr(&self, w: bool, e: &mut Expr)
        ensures
            expr_view(*final(e)) == apply_expr_wrap_v(self.view_spec(), w, expr_view(*old(e))),
    {
        if w {
            let mut tmp = Expr::Other(0);
            core::mem::swap(e, &mut tmp);
            match tmp {
                Expr::FnExpr(fe) => {
                    let ghost fe0 = fe;
                    let mut fe = fe;
                    self.apply_wrap(true, &mut fe.func);
                    proof {
                        assert(expr_view(*old(e)) == ExprV::FnExpr(fn_expr_view(fe0)));
                        assert(fn_expr_view(fe0) == (FnExprV {
                            name: opt_str_view(fe0.name),
                            func: fun_view(fe0.func),
                        }));
                        assert(fn_expr_view(fe) == (FnExprV {
                            name: opt_str_view(fe.name),
                            func: fun_view(fe.func),
                        }));
                    }
                    *e = Expr::FnExpr(fe);
                    proof {
                        assert(expr_view(*e) == ExprV::FnExpr(fn_expr_view(fe)));
                    }
                },
                other => {
                    proof {
                        assert(!(expr_view(other) is FnExpr));
                    }
                    *e = other;
                },
            }
        }
    }

    /// Wraps the initializer of one declarator when asked.
    pub(crate) fn apply_declarator(&self, w: bool, d: &mut VarDeclarator)
        ensures
            decl_view(*final(d)) == apply_declarator_v(self.view_spec(), w, decl_view(*old(d))),
    {
        if w {
            let init = d.init.take();
            match init {
                Option::Some(mut e) => {
                    self.apply_fn_expr(true, &mut e);
                    d.init = Option::Some(e);
                },
                Option::None => {},
            }
        }
    }

    /// Wraps the flagged declarators of one statement.
    #[verifier::rlimit(50)]
    #[verifier::loop_isolation(false)]
    pub(crate) fn apply_var_decl(&self, flags: &Vec<bool>, node: &mut VarDecl)
        ensures
            var_decl_view(*final(node)) == (VarDeclV {
                kind: old(node).kind,
                decls: apply_decls_v(self.view_spec(), flags@, decls_view(old(node).decls@)),
            }),
    {
        let ghost dv0 = decls_view(old(node).decls@);
        proof {
            lemma_decls_view_index(old(node).decls@);
        }
        let n = node.decls.len();
        let mut i: usize = 0;
        while i < n
            invariant
                n == node.decls@.len(),
                i <= n,
                node.kind == old(node).kind,
                dv0.len() == n,
                forall|j: int| 0 <= j < n ==> dv0[j] == decl_view(old(node).decls@[j]),
                forall|j: int|
                    i <= j < n ==> node.decls@[j] == old(node).decls@[j],
                forall|j: int|
                    0 <= j < i ==> decl_view(node.decls@[j]) == apply_declarator_v(
                        self.view_spec(),
                        flag_at(flags@, j),
                        dv0[j],
                    ),
            decreases n - i,
        {
            let w = if i < flags.len() {
                flags[i]
            } else {
                false
            };
            proof {
                assert(w == flag_at(flags@, i as int));
            }
            let d = &mut node.decls[i];
            self.apply_declarator(w, d);
            i = i + 1;
        }
        proof {
            lemma_decls_view_index(node.decls@);
            let res = apply_decls_v(self.view_spec(), flags@, dv0);
            assert(res.len() == n);
            assert forall|j: int| 0 <= j < n implies decls_view(node.decls@)[j] == res[j] by {
                assert(decls_view(node.decls@)[j] == decl_view(node.decls@[j]));
                assert(decl_view(node.decls@[j]) == apply_declarator_v(
                    self.view_spec(),
                    flag_at(flags@, j),
                    dv0[j],
                ));
                assert(res[j] == apply_declarator_v(self.view_spec(), flag_at(flags@, j), dv0[j]));
            }
            assert(decls_view(node.decls@) =~= apply_decls_v(self.view_spec(), flags@, dv0));
            assert(var_decl_view(*node) == (VarDeclV {
                kind: old(node).kind,
                decls: decls_view(node.decls@),
            }));
        }
    }

    /// Wraps the right-hand side of an assignment when asked.
    pub(crate) fn apply_assign(&self, w: bool, node: &mut AssignExpr)
        ensures
            assign_view(*final(node)) == apply_assign_v(
                self.view_spec(),
                w,
                assign_view(*old(node)),
            ),
    {
        if w {
            self.apply_fn_expr(true, &mut *node.right);
        }
        proof {
            assert(assign_view(*node) == (AssignExprV {
                target: target_view(node.target),
                right: seq![expr_view(*node.right)],
            }));
        }
    }

    // -----------------------------------------------------------------------
    // The per-node hooks a host can drive a traversal with.
    // -----------------------------------------------------------------------

    /// Inserts this instrumentation's channel binding at index 1 of a module
    /// body (right after the shared import); answers whether to visit
    /// children, which is always yes.
    pub fn visit_mut_module(&mut self, body: &mut Vec<Stmt>) -> (r: bool)
        requires
            old(body)@.len() >= 1,
        ensures
            final(self).view_spec() == old(self).view_spec(),
            (stmts_view(final(body)@), r) == hook_module_v(
                old(self).view_spec(),
                stmts_view(old(body)@),
            ),
    {
        let ghost b0 = stmts_view(old(body)@);
        let ch = self.create_tracing_channel();
        body.insert(1, ch);
        proof {
            lemma_stmts_view_index(old(body)@);
            lemma_stmts_view_index(body@);
            assert(body@ =~= old(body)@.insert(1, ch));
            assert(stmts_view(body@) =~= b0.insert(1, stmt_view(ch)));
        }
        true
    }

    /// Inserts this instrumentation's channel binding right after the shared
    /// require of a script body.
    pub fn visit_mut_script(&mut self, body: &mut Vec<Stmt>) -> (r: bool)
        requires
            script_start_index_v(stmts_view(old(body)@)) + 1 <= old(body)@.len(),
        ensures
            final(self).view_spec() == old(self).view_spec(),
            (stmts_view(final(body)@), r) == hook_script_v(
                old(self).view_spec(),
                stmts_view(old(body)@),
            ),
    {
        let ghost b0 = stmts_view(old(body)@);
        proof {
            lemma_stmts_view_index(old(body)@);
        }
        let start_index = get_script_start_index(body);
        let ch = self.create_tracing_channel();
        body.insert(start_index + 1, ch);
        proof {
            lemma_stmts_view_index(body@);
            assert(body@ =~= old(body)@.insert(start_index + 1, ch));
            assert(stmts_view(body@) =~= b0.insert(start_index + 1, stmt_view(ch)));
        }
        true
    }

    /// Matches and wraps a function declaration; children are always visited.
    pub fn visit_mut_fn_decl(&mut self, node: &mut FnDecl) -> (r: bool)
        ensures
            ({
                let (iv2, fd2, rec) = hook_fn_decl_v(
                    old(self).view_spec(),
                    fn_decl_view(*old(node)),
                );
                final(self).view_spec() == iv2 && fn_decl_view(*final(node)) == fd2 && r == rec
            }),
    {
        let w = self.decide_fn_decl(node);
        self.apply_wrap(w, &mut node.func);
        proof {
            assert(fn_decl_view(*node) == (FnDeclV {
                name: node.name@,
                func: fun_view(node.func),
            }));
        }
        true
    }

    /// Matches and wraps function expressions bound by the declarators of a
    /// variable declaration; children are skipped when a declarator was
    /// wrapped.
    pub fn visit_mut_var_decl(&mut self, node: &mut VarDecl) -> (r: bool)
        ensures
            ({
                let (iv2, vd2, rec) = hook_var_decl_v(
                    old(self).view_spec(),
                    var_decl_view(*old(node)),
                );
                final(self).view_spec() == iv2 && var_decl_view(*final(node)) == vd2 && r == rec
            }),
    {
        let (flags, traced) = self.decide_var_decl(node);
        self.apply_var_decl(&flags, node);
        !traced
    }

    /// Notes whether this class matches the query's class filter; children
    /// are always visited.
    pub fn visit_mut_class_decl(&mut self, node: &mut ClassDecl) -> (r: bool)
        ensures
            final(self).view_spec() == decide_class_decl_v(
                old(self).view_spec(),
                old(node).name@,
            ),
            *final(node) == *old(node),
            r == true,
    {
        self.decide_class_decl(node);
        true
    }

    /// Notes whether this class expression matches the query's class filter.
    pub fn visit_mut_class_expr(&mut self, node: &mut ClassExpr) -> (r: bool)
        ensures
            final(self).view_spec() == decide_class_expr_v(
                old(self).view_spec(),
                opt_str_view(old(node).name),
            ),
            *final(node) == *old(node),
            r == true,
    {
        self.decide_class_expr(node);
        true
    }

    /// Matches and wraps a class method while inside the right class.
    pub fn visit_mut_class_method(&mut self, node: &mut ClassMethod) -> (r: bool)
        ensures
            ({
                let (iv2, m2, rec) = hook_class_method_v(
                    old(self).view_spec(),
                    class_method_view(*old(node)),
                );
                final(self).view_spec() == iv2 && class_method_view(*final(node)) == m2 && r == rec
            }),
    {
        let (w, recurse) = self.decide_class_method(node);
        self.apply_wrap(w, &mut node.func);
        proof {
            assert(class_method_view(*node) == (ClassMethodV {
                key: key_view(node.key),
                func: fun_view(node.func),
            }));
            assert(key_view(node.key) == key_view(old(node).key));
        }
        recurse
    }

    /// Matches and wraps a constructor while inside the right class; children
    /// are never visited.
    pub fn visit_mut_constructor(&mut self, node: &mut Constructor) -> (r: bool)
        ensures
            ({
                let (iv2, c2, rec) = hook_constructor_v(
                    old(self).view_spec(),
                    constructor_view(*old(node)),
                );
                final(self).view_spec() == iv2 && constructor_view(*final(node)) == c2 && r == rec
            }),
    {
        let w = self.decide_constructor(node);
        self.apply_ctor(w, node);
        false
    }

    /// Matches and wraps an object-literal method; children are never
    /// visited.
    pub fn visit_mut_method_prop(&mut self, node: &mut MethodProp) -> (r: bool)
        ensures
            ({
                let (iv2, m2, rec) = hook_method_prop_v(
                    old(self).view_spec(),
                    method_prop_view(*old(node)),
                );
                final(self).view_spec() == iv2 && method_prop_view(*final(node)) == m2 && r == rec
            }),
    {
        let w = self.decide_method_prop(node);
        self.apply_wrap(w, &mut node.func);
        proof {
            assert(method_prop_view(*node) == (MethodPropV {
                key: key_view(node.key),
                func: fun_view(node.func),
            }));
            assert(key_view(node.key) == key_view(old(node).key));
        }
        false
    }

    /// Infers a name from a simple assignment target and wraps a matching
    /// function expression on its right-hand side; children are skipped when
    /// it was wrapped.
    pub fn visit_mut_assign_expr(&mut self, node: &mut AssignExpr) -> (r: bool)
        ensures
            ({
                let (iv2, a2, rec) = hook_assign_v(old(self).view_spec(), assign_view(*old(node)));
                final(self).view_spec() == iv2 && assign_view(*final(node)) == a2 && r == rec
            }),
    {
        let traced = self.decide_assign(node);
        self.apply_assign(traced, node);
        !traced
    }
}

/// Where insertions into a script body start: after a leading `"use strict"`
/// directive, else at the front.
pub fn get_script_start_index(script: &Vec<Stmt>) -> (r: usize)
    ensures
        r as int == script_start_index_v(stmts_view(script@)),
{
    proof {
        lemma_stmts_view_index(script@);
    }
    if script.len() > 0 {
        match &script[0] {
            Stmt::Expr(e) => {
                proof {
                    assert(stmt_view(script@[0]) == StmtV::Expr(expr_view(*e)));
                }
                match e {
                    Expr::Str(s) => {
                        proof {
                            assert(expr_view(*e) == ExprV::Str(s@));
                        }
                        if s.eq(&String::from_str("use strict")) {
                            1
                        } else {
                            0
                        }
                    },
                    _ => {
                        proof {
                            assert(!(expr_view(*e) is Str));
                        }
                        0
                    },
                }
            },
            _ => {
                proof {
                    assert(!(stmt_view(script@[0]) is Expr));
                }
                0
            },
        }
    } else {
        0
    }
}

} // verus!
