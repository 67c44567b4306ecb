//! Typed predicates over function locations, with ordinal matching.
//!
//! A [`FunctionQuery`] names one function in a file: by declaration name, by
//! inferred expression name, by method name (optionally scoped to a class),
//! or as a class constructor. Because a file may hold several syntactically
//! identical candidates, every query carries a zero-based `index`: the match
//! succeeds on the candidate whose ordinal among name-identical candidates
//! equals `index`. The caller threads the running ordinal through `count`.

use vstd::prelude::*;

use crate::ast::FnDecl;

verus! {

/// The structural category a query selects on.
#[derive(Debug, Clone, Copy, PartialEq, Eq, Structural)]
pub enum FunctionType {
    FunctionDeclaration,
    FunctionExpression,
    Method,
}

/// The calling convention of the function to wrap; decides which tracing
/// operator the generated code invokes.
#[derive(Debug, Clone, Copy, PartialEq, Eq, Structural)]
pub enum FunctionKind {
    Sync,
    Async,
    Callback,
}

impl FunctionKind {
    /// True exactly for [`FunctionKind::Async`].
    pub fn is_async(&self) -> (r: bool)
        ensures
            r == (*self == FunctionKind::Async),
    {
        match self {
            FunctionKind::Async => true,
            _ => false,
        }
    }

    /// The tracing-channel operator the generated wrapper calls.
    pub fn tracing_operator(&self) -> (r: &'static str)
        ensures
            r@ == operator_name(*self),
    {
        match self {
            FunctionKind::Sync => "traceSync",
            FunctionKind::Async => "tracePromise",
            FunctionKind::Callback => "traceCallback",
        }
    }
}

/// The operator name each kind maps to.
pub open spec fn operator_name(k: FunctionKind) -> Seq<char> {
    match k {
        FunctionKind::Sync => "traceSync"@,
        FunctionKind::Async => "tracePromise"@,
        FunctionKind::Callback => "traceCallback"@,
    }
}

/// One function location inside a file.
#[derive(Debug)]
pub enum FunctionQuery {
    ClassMethod { class_name: String, method_name: String, kind: FunctionKind, index: usize },
    ClassConstructor { class_name: String, index: usize },
    ObjectMethod { method_name: String, kind: FunctionKind, index: usize },
    FunctionDeclaration { function_name: String, kind: FunctionKind, index: usize },
    FunctionExpression { expression_name: String, kind: FunctionKind, index: usize },
}

impl FunctionQuery {
    /// The kind of the function the query names; constructors count as sync.
    pub open spec fn spec_kind(self) -> FunctionKind {
        match self {
            FunctionQuery::ClassConstructor { .. } => FunctionKind::Sync,
            FunctionQuery::ClassMethod { kind, .. } => kind,
            FunctionQuery::ObjectMethod { kind, .. } => kind,
            FunctionQuery::FunctionDeclaration { kind, .. } => kind,
            FunctionQuery::FunctionExpression { kind, .. } => kind,
        }
    }

    /// The name the query matches against.
    pub open spec fn spec_name(self) -> Seq<char> {
        match self {
            FunctionQuery::ClassConstructor { .. } => "constructor"@,
            FunctionQuery::ClassMethod { method_name, .. } => method_name@,
            FunctionQuery::ObjectMethod { method_name, .. } => method_name@,
            FunctionQuery::FunctionDeclaration { function_name, .. } => function_name@,
            FunctionQuery::FunctionExpression { expression_name, .. } => expression_name@,
        }
    }

    /// The structural category the query matches.
    pub open spec fn spec_typ(self) -> FunctionType {
        match self {
            FunctionQuery::ClassConstructor { .. } => FunctionType::Method,
            FunctionQuery::ClassMethod { .. } => FunctionType::Method,
            FunctionQuery::ObjectMethod { .. } => FunctionType::Method,
            FunctionQuery::FunctionDeclaration { .. } => FunctionType::FunctionDeclaration,
            FunctionQuery::FunctionExpression { .. } => FunctionType::FunctionExpression,
        }
    }

    /// The ordinal of the candidate the query selects.
    pub open spec fn spec_index(self) -> int {
        match self {
            FunctionQuery::ClassConstructor { index, .. } => index as int,
            FunctionQuery::ClassMethod { index, .. } => index as int,
            FunctionQuery::ObjectMethod { index, .. } => index as int,
            FunctionQuery::FunctionDeclaration { index, .. } => index as int,
            FunctionQuery::FunctionExpression { index, .. } => index as int,
        }
    }

    /// The class scope the query is limited to, if any.
    pub open spec fn spec_class_name(self) -> Option<Seq<char>> {
        match self {
            FunctionQuery::ClassConstructor { class_name, .. } => Option::Some(class_name@),
            FunctionQuery::ClassMethod { class_name, .. } => Option::Some(class_name@),
            _ => Option::None,
        }
    }

    /// A constructor query for class `class_name`, at ordinal 0.
    pub fn class_constructor(class_name: &str) -> (r: Self)
        ensures
            r matches FunctionQuery::ClassConstructor { class_name: rc, index: ri } && rc@
                == class_name@ && ri == 0usize,
    {
        FunctionQuery::ClassConstructor { class_name: String::from_str(class_name), index: 0 }
    }

    /// A method query for `class_name.method_name`, at ordinal 0.
    pub fn class_method(class_name: &str, method_name: &str, kind: FunctionKind) -> (r: Self)
        ensures
            r matches FunctionQuery::ClassMethod {
                class_name: rc,
                method_name: rm,
                kind: rk,
                index: ri,
            } && rc@ == class_name@ && rm@ == method_name@ && rk == kind && ri == 0usize,
    {
        FunctionQuery::ClassMethod {
            class_name: String::from_str(class_name),
            method_name: String::from_str(method_name),
            kind,
            index: 0,
        }
    }

    /// An object-literal method query, at ordinal 0.
    pub fn object_method(method_name: &str, kind: FunctionKind) -> (r: Self)
        ensures
            r matches FunctionQuery::ObjectMethod { method_name: rm, kind: rk, index: ri }
                && rm@ == method_name@ && rk == kind && ri == 0usize,
    {
        FunctionQuery::ObjectMethod {
            method_name: String::from_str(method_name),
            kind,
            index: 0,
        }
    }

    /// A function-declaration query, at ordinal 0.
    pub fn function_declaration(function_name: &str, kind: FunctionKind) -> (r: Self)
        ensures
            r matches FunctionQuery::FunctionDeclaration { function_name: rn, kind: rk, index: ri }
                && rn@ == function_name@ && rk == kind && ri == 0usize,
    {
        FunctionQuery::FunctionDeclaration {
            function_name: String::from_str(function_name),
            kind,
            index: 0,
        }
    }

    /// A function-expression query, at ordinal 0.
    pub fn function_expression(expression_name: &str, kind: FunctionKind) -> (r: Self)
        ensures
            r matches FunctionQuery::FunctionExpression {
                expression_name: rn,
                kind: rk,
                index: ri,
            } && rn@ == expression_name@ && rk == kind && ri == 0usize,
    {
        FunctionQuery::FunctionExpression {
            expression_name: String::from_str(expression_name),
            kind,
            index: 0,
        }
    }

    /// An equal copy of the query.
    pub fn duplicate(&self) -> (r: Self)
        ensures
            r == *self,
    {
        match self {
            FunctionQuery::ClassMethod { class_name, method_name, kind, index } => {
                FunctionQuery::ClassMethod {
                    class_name: class_name.clone(),
                    method_name: method_name.clone(),
                    kind: *kind,
                    index: *index,
                }
            },
            FunctionQuery::ClassConstructor { class_name, index } => {
                FunctionQuery::ClassConstructor { class_name: class_name.clone(), index: *index }
            },
            FunctionQuery::ObjectMethod { method_name, kind, index } => {
                FunctionQuery::ObjectMethod {
                    method_name: method_name.clone(),
                    kind: *kind,
                    index: *index,
                }
            },
            FunctionQuery::FunctionDeclaration { function_name, kind, index } => {
                FunctionQuery::FunctionDeclaration {
                    function_name: function_name.clone(),
                    kind: *kind,
                    index: *index,
                }
            },
            FunctionQuery::FunctionExpression { expression_name, kind, index } => {
                FunctionQuery::FunctionExpression {
                    expression_name: expression_name.clone(),
                    kind: *kind,
                    index: *index,
                }
            },
        }
    }

    /// The kind of the function the query names.
    pub fn kind(&self) -> (r: FunctionKind)
        ensures
            r == self.spec_kind(),
    {
        match self {
            FunctionQuery::ClassConstructor { .. } => FunctionKind::Sync,
            FunctionQuery::ClassMethod { kind, .. } => *kind,
            FunctionQuery::ObjectMethod { kind, .. } => *kind,
            FunctionQuery::FunctionDeclaration { kind, .. } => *kind,
            FunctionQuery::FunctionExpression { kind, .. } => *kind,
        }
    }

    /// The name the query matches against.
    pub fn name(&self) -> (r: &str)
        ensures
            r@ == self.spec_name(),
    {
        match self {
            FunctionQuery::ClassConstructor { .. } => "constructor",
            FunctionQuery::ClassMethod { method_name, .. } => method_name.as_str(),
            FunctionQuery::ObjectMethod { method_name, .. } => method_name.as_str(),
            FunctionQuery::FunctionDeclaration { function_name, .. } => function_name.as_str(),
            FunctionQuery::FunctionExpression { expression_name, .. } => expression_name.as_str(),
        }
    }

    /// The structural category the query matches.
    pub fn typ(&self) -> (r: FunctionType)
        ensures
            r == self.spec_typ(),
    {
        match self {
            FunctionQuery::ClassConstructor { .. } => FunctionType::Method,
            FunctionQuery::ClassMethod { .. } => FunctionType::Method,
            FunctionQuery::ObjectMethod { .. } => FunctionType::Method,
            FunctionQuery::FunctionDeclaration { .. } => FunctionType::FunctionDeclaration,
            FunctionQuery::FunctionExpression { .. } => FunctionType::FunctionExpression,
        }
    }

    /// The ordinal of the candidate the query selects.
    pub fn index(&self) -> (r: usize)
        ensures
            r as int == self.spec_index(),
    {
        match self {
            FunctionQuery::ClassConstructor { index, .. } => *index,
            FunctionQuery::ClassMethod { index, .. } => *index,
            FunctionQuery::ObjectMethod { index, .. } => *index,
            FunctionQuery::FunctionDeclaration { index, .. } => *index,
            FunctionQuery::FunctionExpression { index, .. } => *index,
        }
    }

    /// The class scope the query is limited to, if any.
    pub fn class_name(&self) -> (r: Option<&str>)
        ensures
            match r {
                Option::Some(s) => self.spec_class_name() == Option::Some(s@),
                Option::None => self.spec_class_name() is None,
            },
    {
        match self {
            FunctionQuery::ClassConstructor { class_name, .. } => Option::Some(
                class_name.as_str(),
            ),
            FunctionQuery::ClassMethod { class_name, .. } => Option::Some(class_name.as_str()),
            _ => Option::None,
        }
    }

    /// True when the query's name equals `n`.
    pub(crate) fn name_matches(&self, n: &String) -> (r: bool)
        ensures
            r == (self.spec_name() == n@),
    {
        match self {
            FunctionQuery::ClassConstructor { .. } => {
                String::from_str("constructor").eq(n)
            },
            FunctionQuery::ClassMethod { method_name, .. } => method_name.eq(n),
            FunctionQuery::ObjectMethod { method_name, .. } => method_name.eq(n),
            FunctionQuery::FunctionDeclaration { function_name, .. } => function_name.eq(n),
            FunctionQuery::FunctionExpression { expression_name, .. } => expression_name.eq(n),
        }
    }

    /// When a candidate was structurally and by name acceptable, decide the
    /// ordinal: a hit leaves `count` alone and answers `true`; a miss bumps
    /// `count` and answers `false`.
    pub fn maybe_increment_count(&self, matches_except_count: bool, count: &mut usize) -> (r: bool)
        ensures
            (r, *final(count) as int) == ordinal_step(
                self.spec_index(),
                matches_except_count,
                *old(count) as int,
            ),
    {
        if matches_except_count {
            if self.index() == *count {
                true
            } else {
                if *count < usize::MAX {
                    *count = *count + 1;
                }
                false
            }
        } else {
            false
        }
    }

    /// Ordinal match of a function declaration named `func.name`.
    pub fn matches_decl(&self, func: &FnDecl, count: &mut usize) -> (r: bool)
        ensures
            (r, *final(count) as int) == query_step(
                *self,
                FunctionType::FunctionDeclaration,
                func.name@,
                *old(count) as int,
            ),
    {
        let matches_except_count = self.typ() == FunctionType::FunctionDeclaration
            && self.name_matches(&func.name);
        self.maybe_increment_count(matches_except_count, count)
    }

    /// Ordinal match of a function expression whose inferred name is `name`.
    pub fn matches_expr(&self, count: &mut usize, name: &str) -> (r: bool)
        ensures
            (r, *final(count) as int) == query_step(
                *self,
                FunctionType::FunctionExpression,
                name@,
                *old(count) as int,
            ),
    {
        let matches_except_count = self.typ() == FunctionType::FunctionExpression
            && self.name_matches(&String::from_str(name));
        self.maybe_increment_count(matches_except_count, count)
    }

    /// Ordinal match of a method named `name`.
    pub fn matches_method(&self, count: &mut usize, name: &str) -> (r: bool)
        ensures
            (r, *final(count) as int) == query_step(
                *self,
                FunctionType::Method,
                name@,
                *old(count) as int,
            ),
    {
        let matches_except_count = self.typ() == FunctionType::Method
            && self.name_matches(&String::from_str(name));
        self.maybe_increment_count(matches_except_count, count)
    }
}

/// Ordinal bookkeeping shared by the three match functions: when the
/// structural and name test already passed (`ok`), a hit at the wanted
/// ordinal answers `true`; a miss bumps the running ordinal, which
/// saturates at the machine limit.
pub open spec fn ordinal_step(index: int, ok: bool, count: int) -> (bool, int) {
    if ok {
        if index == count {
            (true, count)
        } else {
            (false, sat_inc(count))
        }
    } else {
        (false, count)
    }
}

/// A counter bump that saturates at the machine limit instead of wrapping.
pub open spec fn sat_inc(count: int) -> int {
    if count < usize::MAX as int {
        count + 1
    } else {
        count
    }
}

/// One candidate offered to a query: the answer and the new running ordinal.
pub open spec fn query_step(q: FunctionQuery, t: FunctionType, name: Seq<char>, count: int) -> (
    bool,
    int,
) {
    ordinal_step(q.spec_index(), q.spec_typ() == t && q.spec_name() == name, count)
}

} // verus!
