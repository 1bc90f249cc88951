//! The exemption predicates: one per binding category.
//!
//! Each predicate is a pure function of a symbol and the frozen per-file
//! model, and each executable predicate's contract equates its result with a
//! spec-level function of those inputs alone — so re-invocation on the same
//! inputs always yields the same decision.
//!
//! `true` means the unused binding is allowed (not reported); `false` means
//! the caller should emit a diagnostic. Wherever the model turns out not to
//! hold an expected surrounding construct, the predicates degrade to `false`:
//! reporting is the safer failure mode than silent suppression.

use vstd::prelude::*;

use crate::ast::{
    node_wf, FormalParameter, FunctionType, MethodKind, ModuleDecl, NodeKind, PropertyKind,
    VarKind,
};
use crate::binding_pattern::{
    has_any_used_binding, is_destructuring_pattern, spec_has_any_used_binding,
    spec_is_destructuring,
};
use crate::options::{ArgsOption, NoUnusedVars, VarsOption};
use crate::semantic::{Semantic, Symbol};

verus! {

/// An ambient namespace: `declare namespace ...` or a `global` augmentation.
/// Such a declaration describes external shape only, so nothing inside it can
/// meaningfully be "unused".
pub open spec fn spec_ambient_namespace(namespace: ModuleDecl) -> bool {
    namespace.declare || namespace.is_global
}

/// Executable mirror of [`spec_ambient_namespace`].
pub fn is_ambient_namespace(namespace: &ModuleDecl) -> (r: bool)
    ensures
        r == spec_ambient_namespace(*namespace),
{
    namespace.declare || namespace.is_global
}

/// The declaration node of `sym` is an expression-form function or class.
pub open spec fn spec_function_or_class_declaration_used(sem: Semantic, sym: Symbol) -> bool {
    match sem.nodes@[sym.declaration as int].kind {
        NodeKind::Class { is_expression } => is_expression,
        NodeKind::Function(f) => f.spec_is_expression(),
        _ => false,
    }
}

/// Upward walk of the for-of/for-in exemption, starting at node `i`:
/// transparent wrappers are skipped; a for-in/for-of statement decides by its
/// body shape; anything else (or running out of ancestors) denies.
pub open spec fn for_of_exempt_from(sem: Semantic, i: int) -> bool
    decreases i,
        when sem.wf() && 0 <= i < sem.nodes@.len()
{
    match sem.nodes@[i].kind {
        NodeKind::Parenthesized
        | NodeKind::VariableDeclaration
        | NodeKind::BindingIdentifier
        | NodeKind::SimpleAssignmentTarget
        | NodeKind::AssignmentTarget => match sem.nodes@[i].parent {
            Some(p) => for_of_exempt_from(sem, p as int),
            None => false,
        },
        NodeKind::ForIn { body } => body.spec_is_early_return(),
        NodeKind::ForOf { body } => body.spec_is_early_return(),
        _ => false,
    }
}

/// The symbol is the loop binding of a for-in/for-of statement whose body is
/// the narrow early-return shape.
pub open spec fn spec_declared_in_for_of_loop(sem: Semantic, sym: Symbol) -> bool {
    match sem.nodes@[sym.declaration as int].parent {
        Some(p) => for_of_exempt_from(sem, p as int),
        None => false,
    }
}

/// Node `n` is an ambient namespace/module declaration.
pub open spec fn spec_ambient_module_node(sem: Semantic, n: int) -> bool {
    match sem.nodes@[n].kind {
        NodeKind::ModuleDeclaration(m) => spec_ambient_namespace(m),
        _ => false,
    }
}

/// Some scope in the chain from scope `s` outward (including `s` itself) was
/// introduced by an ambient namespace/module declaration.
pub open spec fn in_declared_module_from(sem: Semantic, s: int) -> bool
    decreases s,
        when sem.wf() && 0 <= s < sem.scopes@.len()
{
    if spec_ambient_module_node(sem, sem.scopes@[s].node as int) {
        true
    } else {
        match sem.scopes@[s].parent {
            Some(p) => in_declared_module_from(sem, p as int),
            None => false,
        }
    }
}

/// The symbol lives inside an ambient namespace/module declaration.
pub open spec fn spec_in_declared_module(sem: Semantic, sym: Symbol) -> bool {
    in_declared_module_from(sem, sym.scope as int)
}

impl Symbol {
    /// The declaration of this symbol is itself used because it is an
    /// expression: an expression-form function or class is always passed in
    /// as an argument or assigned to a variable, so its name binding is
    /// incidental and never reported.
    pub fn is_function_or_class_declaration_used(&self, sem: &Semantic) -> (r: bool)
        requires
            sem.wf(),
            sem.sym_wf(*self),
            self.references == 0,
        ensures
            r == spec_function_or_class_declaration_used(*sem, *self),
    {
        match &sem.nodes[self.declaration].kind {
            NodeKind::Class { is_expression } => *is_expression,
            NodeKind::Function(f) => f.is_expression(),
            _ => false,
        }
    }

    /// The symbol is the loop binding of a for-in/for-of statement whose body
    /// returns immediately: such a binding is required for valid syntax even
    /// when its value is never read.
    pub fn is_declared_in_for_of_loop(&self, sem: &Semantic) -> (r: bool)
        requires
            sem.wf(),
            sem.sym_wf(*self),
            self.references == 0,
        ensures
            r == spec_declared_in_for_of_loop(*sem, *self),
    {
        proof {
            assert(crate::ast::node_wf(
                sem.nodes@[self.declaration as int],
                self.declaration as int,
                sem.patterns@.len() as int,
            ));
        }
        match sem.nodes[self.declaration].parent {
            Some(p) => for_of_walk(sem, p),
            None => false,
        }
    }

    /// The symbol is declared anywhere inside an ambient namespace/module
    /// declaration, found by walking its enclosing scopes outward and
    /// inspecting each scope's introducing node.
    pub fn is_in_declared_module(&self, sem: &Semantic) -> (r: bool)
        requires
            sem.wf(),
            sem.sym_wf(*self),
            self.references == 0,
        ensures
            r == spec_in_declared_module(*sem, *self),
    {
        declared_module_walk(sem, self.scope)
    }
}


/// Executable mirror of [`for_of_exempt_from`], recursing upward through the
/// node arena.
fn for_of_walk(sem: &Semantic, cur: usize) -> (r: bool)
    requires
        sem.wf(),
        (cur as int) < sem.nodes@.len(),
    ensures
        r == for_of_exempt_from(*sem, cur as int),
    decreases cur,
{
    proof {
        assert(crate::ast::node_wf(
            sem.nodes@[cur as int],
            cur as int,
            sem.patterns@.len() as int,
        ));
    }
    match &sem.nodes[cur].kind {
        NodeKind::Parenthesized
        | NodeKind::VariableDeclaration
        | NodeKind::BindingIdentifier
        | NodeKind::SimpleAssignmentTarget
        | NodeKind::AssignmentTarget => match sem.nodes[cur].parent {
            Some(p) => for_of_walk(sem, p),
            None => false,
        },
        NodeKind::ForIn { body } => body.is_early_return(),
        NodeKind::ForOf { body } => body.is_early_return(),
        _ => false,
    }
}

/// Executable mirror of [`in_declared_module_from`], recursing outward
/// through the scope arena.
fn declared_module_walk(sem: &Semantic, cur: usize) -> (r: bool)
    requires
        sem.wf(),
        (cur as int) < sem.scopes@.len(),
    ensures
        r == in_declared_module_from(*sem, cur as int),
    decreases cur,
{
    proof {
        assert(crate::semantic::scope_wf(
            sem.scopes@[cur as int],
            cur as int,
            sem.nodes@.len() as int,
        ));
    }
    let node_id = sem.scopes[cur].node;
    let ambient_here = match &sem.nodes[node_id].kind {
        NodeKind::ModuleDeclaration(m) => is_ambient_namespace(m),
        _ => false,
    };
    if ambient_here {
        true
    } else {
        match sem.scopes[cur].parent {
            Some(p) => declared_module_walk(sem, p),
            None => false,
        }
    }
}

/// Upward walk of the rest-element exemption: the first enclosing function
/// node decides; every other kind is skipped.
pub open spec fn rest_exempt_from(sem: Semantic, i: int) -> bool
    decreases i,
        when sem.wf() && 0 <= i < sem.nodes@.len()
{
    match sem.nodes@[i].kind {
        NodeKind::Function(f) => f.spec_is_typescript_syntax(),
        _ => match sem.nodes@[i].parent {
            Some(p) => rest_exempt_from(sem, p as int),
            None => false,
        },
    }
}

/// The rest element's enclosing function is a type-only function form.
pub open spec fn spec_allowed_binding_rest_element(sem: Semantic, sym: Symbol) -> bool {
    match sem.nodes@[sym.declaration as int].parent {
        Some(p) => rest_exempt_from(sem, p as int),
        None => false,
    }
}

/// The immediate parent of node `i` is a mapped-type construct.
pub open spec fn spec_allowed_type_parameter(sem: Semantic, i: int) -> bool {
    match sem.nodes@[i].parent {
        Some(p) => sem.nodes@[p as int].kind is MappedType,
        None => false,
    }
}

/// The unused-variable exemption: a root-scope `var` under the local-only
/// setting, or a for-in/for-of loop binding with an early-return body.
pub open spec fn spec_allowed_variable_declaration(
    opts: NoUnusedVars,
    sem: Semantic,
    sym: Symbol,
    kind: VarKind,
) -> bool {
    ||| (kind is Var && opts.vars is Local && sym.is_root)
    ||| spec_declared_in_for_of_loop(sem, sym)
}

/// The unused-namespace exemption: the namespace is itself ambient, or the
/// symbol sits inside an ambient namespace.
pub open spec fn spec_allowed_ts_namespace(
    sem: Semantic,
    sym: Symbol,
    namespace: ModuleDecl,
) -> bool {
    spec_ambient_namespace(namespace) || spec_in_declared_module(sem, sym)
}

/// Upward walk to the nearest enclosing formal-parameter list, starting at
/// node `i` (inclusive).
pub open spec fn nearest_params_from(sem: Semantic, i: int) -> Option<int>
    decreases i,
        when sem.wf() && 0 <= i < sem.nodes@.len()
{
    match sem.nodes@[i].kind {
        NodeKind::FormalParameters(_) => Some(i),
        _ => match sem.nodes@[i].parent {
            Some(p) => nearest_params_from(sem, p as int),
            None => None,
        },
    }
}

/// The nearest formal-parameter list enclosing the symbol's declaration.
pub open spec fn spec_nearest_params(sem: Semantic, sym: Symbol) -> Option<int> {
    match sem.nodes@[sym.declaration as int].parent {
        Some(p) => nearest_params_from(sem, p as int),
        None => None,
    }
}

/// The parameter list stored at node `pid` (empty if `pid` is not a
/// formal-parameter list).
pub open spec fn spec_params_list(sem: Semantic, pid: int) -> Seq<FormalParameter> {
    match sem.nodes@[pid].kind {
        NodeKind::FormalParameters(params) => params@,
        _ => Seq::empty(),
    }
}

/// The node is a `declare function` form.
pub open spec fn spec_is_declare_function(k: NodeKind) -> bool {
    match k {
        NodeKind::Function(f) => f.function_type is TSDeclareFunction,
        _ => false,
    }
}

/// The decision the method/overload shortcut takes from the construct
/// enclosing the parameter list's own parent: setters, overloads, overrides,
/// abstract methods, and (for a modifier-carrying parameter) constructors.
pub open spec fn spec_shortcut_by_kind(k: NodeKind, param_has_modifier: bool) -> bool {
    match k {
        NodeKind::MethodDefinition(m) => {
            if m.kind is Setter {
                true
            } else if m.value_type is TSEmptyBodyFunctionExpression || m.is_override {
                true
            } else if m.kind is Constructor {
                param_has_modifier
            } else if m.is_abstract {
                true
            } else {
                false
            }
        },
        NodeKind::ObjectProperty { kind } => kind is Setter,
        NodeKind::Function(f) => !f.has_body || f.function_type is TSDeclareFunction,
        _ => false,
    }
}

/// The method/overload shortcut of the argument exemption, looking at the
/// two ancestors of the formal-parameter list node `params_id`: the parameter
/// is required by the surrounding construct (setter, overload signature,
/// override, abstract method, or a constructor parameter property), so it is
/// allowed whatever the argument-checking mode.
pub open spec fn spec_method_shortcut(sem: Semantic, params_id: int, param_has_modifier: bool) -> bool {
    match sem.nodes@[params_id].parent {
        None => false,
        Some(p1) => {
            if spec_is_declare_function(sem.nodes@[p1 as int].kind) {
                true
            } else {
                match sem.nodes@[p1 as int].parent {
                    None => false,
                    Some(p2) => spec_shortcut_by_kind(
                        sem.nodes@[p2 as int].kind,
                        param_has_modifier,
                    ),
                }
            }
        },
    }
}

/// A later parameter counts as used for the after-used look-ahead: it
/// declares a class member (modifier), or some name in its pattern has a
/// read reference.
pub open spec fn spec_param_counts_used(sem: Semantic, p: FormalParameter) -> bool {
    p.has_modifier || spec_has_any_used_binding(sem, p.pattern as int)
}

/// First position at or after `k` whose parameter carries `id`.
pub open spec fn spec_position_from(list: Seq<FormalParameter>, id: u64, k: int) -> Option<int>
    decreases list.len() - k,
{
    if k < 0 || k >= list.len() {
        None
    } else if list[k].param_id == id {
        Some(k)
    } else {
        spec_position_from(list, id, k + 1)
    }
}

/// The whole argument exemption, by mode:
/// - `NoCheck`: always allowed.
/// - Otherwise find the enclosing parameter list (none: degrade to "not
///   allowed") and take the method/overload shortcut if it applies.
/// - `All`: nothing further is allowed.
/// - `AfterUsed`: a destructured parameter is never positionally exempt; a
///   positional parameter is allowed exactly when some later parameter in
///   the list counts as used.
pub open spec fn spec_allowed_argument(
    opts: NoUnusedVars,
    sem: Semantic,
    sym: Symbol,
    param: FormalParameter,
) -> bool {
    if opts.args is NoCheck {
        true
    } else {
        match spec_nearest_params(sem, sym) {
            None => false,
            Some(pid) => {
                if spec_method_shortcut(sem, pid, param.has_modifier) {
                    true
                } else if opts.args is All {
                    false
                } else if spec_is_destructuring(sem, param.pattern as int) {
                    false
                } else {
                    let list = spec_params_list(sem, pid);
                    match spec_position_from(list, param.param_id, 0) {
                        None => false,
                        Some(pos) => {
                            if pos == list.len() - 1 {
                                false
                            } else {
                                exists|j: int|
                                    pos < j < list.len() && spec_param_counts_used(
                                        sem,
                                        #[trigger] list[j],
                                    )
                            }
                        },
                    }
                }
            },
        }
    }
}

/// Executable mirror of [`rest_exempt_from`].
fn rest_walk(sem: &Semantic, cur: usize) -> (r: bool)
    requires
        sem.wf(),
        (cur as int) < sem.nodes@.len(),
    ensures
        r == rest_exempt_from(*sem, cur as int),
    decreases cur,
{
    proof {
        assert(node_wf(sem.nodes@[cur as int], cur as int, sem.patterns@.len() as int));
    }
    match &sem.nodes[cur].kind {
        NodeKind::Function(f) => f.is_typescript_syntax(),
        _ => match sem.nodes[cur].parent {
            Some(p) => rest_walk(sem, p),
            None => false,
        },
    }
}

/// Executable mirror of [`nearest_params_from`]. A returned index is in
/// range and holds a formal-parameter list.
fn nearest_params_walk(sem: &Semantic, cur: usize) -> (r: Option<usize>)
    requires
        sem.wf(),
        (cur as int) < sem.nodes@.len(),
    ensures
        (match r {
            Some(pid) => {
                &&& nearest_params_from(*sem, cur as int) == Some(pid as int)
                &&& pid <= cur
                &&& sem.nodes@[pid as int].kind is FormalParameters
            },
            None => nearest_params_from(*sem, cur as int) is None,
        }),
    decreases cur,
{
    proof {
        assert(node_wf(sem.nodes@[cur as int], cur as int, sem.patterns@.len() as int));
    }
    match &sem.nodes[cur].kind {
        NodeKind::FormalParameters(_) => Some(cur),
        _ => match sem.nodes[cur].parent {
            Some(p) => nearest_params_walk(sem, p),
            None => None,
        },
    }
}

/// First position in `list` whose parameter carries `id`.
fn find_position(list: &Vec<FormalParameter>, id: u64) -> (r: Option<usize>)
    ensures
        (match r {
            Some(pos) => {
                &&& spec_position_from(list@, id, 0) == Some(pos as int)
                &&& (pos as int) < list@.len()
            },
            None => spec_position_from(list@, id, 0) is None,
        }),
{
    let n = list.len();
    let mut k: usize = 0;
    while k < n
        invariant
            n == list@.len(),
            k <= n,
            spec_position_from(list@, id, 0) == spec_position_from(list@, id, k as int),
        decreases n - k,
    {
        if list[k].param_id == id {
            return Some(k);
        }
        k += 1;
    }
    None
}

/// Whether any parameter after position `pos` counts as used: carries a
/// modifier, or introduces a name with a read reference.
fn any_later_param_used(sem: &Semantic, list: &Vec<FormalParameter>, pos: usize) -> (r: bool)
    requires
        sem.wf(),
        (pos as int) < list@.len(),
        forall|j: int|
            0 <= j < list@.len() ==> ((#[trigger] list@[j]).pattern as int)
                < sem.patterns@.len(),
    ensures
        r == (exists|j: int|
            pos < j < list@.len() && spec_param_counts_used(*sem, #[trigger] list@[j])),
{
    let n = list.len();
    let mut k: usize = pos + 1;
    while k < n
        invariant
            sem.wf(),
            n == list@.len(),
            (pos as int) < k <= n,
            forall|j: int|
                0 <= j < list@.len() ==> ((#[trigger] list@[j]).pattern as int)
                    < sem.patterns@.len(),
            forall|j: int|
                (pos as int) < j < k ==> !spec_param_counts_used(*sem, #[trigger] list@[j]),
        decreases n - k,
    {
        let p = list[k];
        if p.has_modifier {
            return true;
        }
        if has_any_used_binding(sem, p.pattern) {
            return true;
        }
        k += 1;
    }
    false
}

impl NoUnusedVars {
    /// The unused-namespace exemption: an ambient namespace (or one nested
    /// inside an ambient declaration) describes external shape only, so its
    /// name is allowed to be unused.
    pub fn is_allowed_ts_namespace(
        &self,
        sem: &Semantic,
        symbol: &Symbol,
        namespace: &ModuleDecl,
    ) -> (r: bool)
        requires
            sem.wf(),
            sem.sym_wf(*symbol),
            symbol.references == 0,
        ensures
            r == spec_allowed_ts_namespace(*sem, *symbol, *namespace),
    {
        if is_ambient_namespace(namespace) {
            return true;
        }
        symbol.is_in_declared_module(sem)
    }

    /// The unused-variable exemption: a root-scope `var` under the
    /// local-only setting, or a loop binding that is required for valid
    /// syntax.
    pub fn is_allowed_variable_declaration(
        &self,
        sem: &Semantic,
        symbol: &Symbol,
        kind: VarKind,
    ) -> (r: bool)
        requires
            sem.wf(),
            sem.sym_wf(*symbol),
            symbol.references == 0,
        ensures
            r == spec_allowed_variable_declaration(*self, *sem, *symbol, kind),
    {
        if matches!(kind, VarKind::Var) && matches!(self.vars, VarsOption::Local)
            && symbol.is_root {
            return true;
        }
        symbol.is_declared_in_for_of_loop(sem)
    }

    /// The type-parameter exemption: a type parameter declared directly
    /// under a mapped-type construct is structurally required and
    /// conventionally unused.
    pub fn is_allowed_type_parameter(&self, sem: &Semantic, declaration_id: usize) -> (r: bool)
        requires
            sem.wf(),
            (declaration_id as int) < sem.nodes@.len(),
        ensures
            r == spec_allowed_type_parameter(*sem, declaration_id as int),
    {
        proof {
            assert(node_wf(
                sem.nodes@[declaration_id as int],
                declaration_id as int,
                sem.patterns@.len() as int,
            ));
        }
        match sem.nodes[declaration_id].parent {
            Some(p) => matches!(&sem.nodes[p].kind, NodeKind::MappedType),
            None => false,
        }
    }

    /// The rest-element exemption: a rest parameter of a type-only function
    /// form exists purely to satisfy a type signature.
    pub fn is_allowed_binding_rest_element(sem: &Semantic, symbol: &Symbol) -> (r: bool)
        requires
            sem.wf(),
            sem.sym_wf(*symbol),
            symbol.references == 0,
        ensures
            r == spec_allowed_binding_rest_element(*sem, *symbol),
    {
        proof {
            assert(node_wf(
                sem.nodes@[symbol.declaration as int],
                symbol.declaration as int,
                sem.patterns@.len() as int,
            ));
        }
        match sem.nodes[symbol.declaration].parent {
            Some(p) => rest_walk(sem, p),
            None => false,
        }
    }

    /// The method/overload shortcut: the parameter is required by the
    /// construct around its parameter list — a setter (removing the
    /// parameter would be a syntax error), an overload or ambient signature,
    /// an override, an abstract method, or a constructor parameter property
    /// (when the parameter carries a modifier).
    fn is_allowed_param_because_of_method(
        sem: &Semantic,
        param_has_modifier: bool,
        params_id: usize,
    ) -> (r: bool)
        requires
            sem.wf(),
            (params_id as int) < sem.nodes@.len(),
        ensures
            r == spec_method_shortcut(*sem, params_id as int, param_has_modifier),
    {
        proof {
            assert(node_wf(
                sem.nodes@[params_id as int],
                params_id as int,
                sem.patterns@.len() as int,
            ));
        }
        let p1 = match sem.nodes[params_id].parent {
            Some(p) => p,
            None => {
                return false;
            },
        };
        let declare_fn = match &sem.nodes[p1].kind {
            NodeKind::Function(f) => matches!(f.function_type, FunctionType::TSDeclareFunction),
            _ => false,
        };
        if declare_fn {
            return true;
        }
        proof {
            assert(node_wf(sem.nodes@[p1 as int], p1 as int, sem.patterns@.len() as int));
        }
        let p2 = match sem.nodes[p1].parent {
            Some(p) => p,
            None => {
                return false;
            },
        };
        match &sem.nodes[p2].kind {
            NodeKind::MethodDefinition(m) => {
                if matches!(m.kind, MethodKind::Setter) {
                    true
                } else if matches!(m.value_type, FunctionType::TSEmptyBodyFunctionExpression)
                    || m.is_override {
                    true
                } else if matches!(m.kind, MethodKind::Constructor) {
                    param_has_modifier
                } else if m.is_abstract {
                    true
                } else {
                    false
                }
            },
            NodeKind::ObjectProperty { kind } => matches!(kind, PropertyKind::Setter),
            NodeKind::Function(f) => {
                !f.has_body || matches!(f.function_type, FunctionType::TSDeclareFunction)
            },
            _ => false,
        }
    }

    /// The whole argument exemption (see [`spec_allowed_argument`]): mode
    /// shortcut, enclosing-list lookup, method/overload shortcut, and the
    /// after-used look-ahead across later parameters.
    pub fn is_allowed_argument(
        &self,
        sem: &Semantic,
        symbol: &Symbol,
        param: &FormalParameter,
    ) -> (r: bool)
        requires
            sem.wf(),
            sem.sym_wf(*symbol),
            symbol.references == 0,
            (param.pattern as int) < sem.patterns@.len(),
        ensures
            r == spec_allowed_argument(*self, *sem, *symbol, *param),
    {
        if matches!(self.args, ArgsOption::NoCheck) {
            return true;
        }
        proof {
            assert(node_wf(
                sem.nodes@[symbol.declaration as int],
                symbol.declaration as int,
                sem.patterns@.len() as int,
            ));
        }
        let start = match sem.nodes[symbol.declaration].parent {
            Some(p) => p,
            None => {
                return false;
            },
        };
        let params_id = match nearest_params_walk(sem, start) {
            Some(pid) => pid,
            None => {
                return false;
            },
        };
        if Self::is_allowed_param_because_of_method(sem, param.has_modifier, params_id) {
            return true;
        }
        if matches!(self.args, ArgsOption::All) {
            return false;
        }
        if is_destructuring_pattern(sem, param.pattern) {
            return false;
        }
        proof {
            assert(node_wf(
                sem.nodes@[params_id as int],
                params_id as int,
                sem.patterns@.len() as int,
            ));
        }
        let list = match &sem.nodes[params_id].kind {
            NodeKind::FormalParameters(params) => params,
            _ => {
                return false;
            },
        };
        proof {
            assert(match sem.nodes@[params_id as int].kind {
                NodeKind::FormalParameters(ps) => ps == *list,
                _ => false,
            });
            assert(match sem.nodes@[params_id as int].kind {
                NodeKind::FormalParameters(ps) => forall|j: int|
                    0 <= j < ps@.len() ==> ((#[trigger] ps@[j]).pattern as int)
                        < sem.patterns@.len(),
                _ => true,
            });
            assert(spec_params_list(*sem, params_id as int) == list@);
        }
        let pos = match find_position(list, param.param_id) {
            Some(pos) => pos,
            None => {
                return false;
            },
        };
        if pos == list.len() - 1 {
            return false;
        }
        any_later_param_used(sem, list, pos)
    }
}

/// Scope `a` lies on the chain from scope `s` outward (including `s` itself).
pub open spec fn scope_reaches(sem: Semantic, s: int, a: int) -> bool
    decreases s,
        when sem.wf() && 0 <= s < sem.scopes@.len()
{
    s == a || (match sem.scopes@[s].parent {
        Some(p) => scope_reaches(sem, p as int, a),
        None => false,
    })
}

/// Determinism of every decision. Each executable predicate's contract
/// equates its result with a spec-level decision computed from the symbol
/// and context alone, so any two invocations on the same inputs — here, any
/// two results bound by the same contract — agree.
pub proof fn lemma_decision_deterministic(r1: bool, r2: bool, decision: bool)
    requires
        r1 == decision,
        r2 == decision,
    ensures
        r1 == r2,
{
}

/// A function or class in expression position is always allowed, whatever
/// the symbol's reference count, scope or nesting: the decision reads only
/// the declaration node's kind, so every symbol sharing that declaration
/// node gets the same (allowing) answer.
pub proof fn lemma_expression_form_idempotent(sem: Semantic, sym: Symbol)
    requires
        sem.wf(),
        sem.sym_wf(sym),
        (match sem.nodes@[sym.declaration as int].kind {
            NodeKind::Class { is_expression } => is_expression,
            NodeKind::Function(f) => f.spec_is_expression(),
            _ => false,
        }),
    ensures
        spec_function_or_class_declaration_used(sem, sym),
        forall|other: Symbol|
            other.declaration == sym.declaration
                ==> #[trigger] spec_function_or_class_declaration_used(sem, other)
                == spec_function_or_class_declaration_used(sem, sym),
{
}

/// A symbol is inside a declared module exactly when some scope on its
/// outward chain was introduced by an ambient namespace/module declaration:
/// every binding under `declare namespace`/`global` is allowed, and one
/// under a plain namespace is not, unless that namespace is itself nested
/// inside an ambient declaration.
pub proof fn lemma_ambient_namespace(sem: Semantic, s: int)
    requires
        sem.wf(),
        0 <= s < sem.scopes@.len(),
    ensures
        in_declared_module_from(sem, s) <==> (exists|a: int|
            0 <= a < sem.scopes@.len() && #[trigger] scope_reaches(sem, s, a)
                && spec_ambient_module_node(sem, sem.scopes@[a].node as int)),
    decreases s,
{
    assert(crate::semantic::scope_wf(sem.scopes@[s], s, sem.nodes@.len() as int));
    if spec_ambient_module_node(sem, sem.scopes@[s].node as int) {
        assert(scope_reaches(sem, s, s));
    } else {
        match sem.scopes@[s].parent {
            Some(p) => {
                lemma_ambient_namespace(sem, p as int);
                if in_declared_module_from(sem, s) {
                    let a = choose|a: int|
                        0 <= a < sem.scopes@.len() && #[trigger] scope_reaches(sem, p as int, a)
                            && spec_ambient_module_node(sem, sem.scopes@[a].node as int);
                    assert(scope_reaches(sem, s, a));
                }
                if exists|a: int|
                    0 <= a < sem.scopes@.len() && #[trigger] scope_reaches(sem, s, a)
                        && spec_ambient_module_node(sem, sem.scopes@[a].node as int) {
                    let a = choose|a: int|
                        0 <= a < sem.scopes@.len() && #[trigger] scope_reaches(sem, s, a)
                            && spec_ambient_module_node(sem, sem.scopes@[a].node as int);
                    assert(scope_reaches(sem, p as int, a));
                }
            },
            None => {},
        }
    }
}

/// The after-used policy forgives an unused positional parameter that comes
/// before a used one: under the after-used mode, with no method/overload
/// shortcut, a non-destructured parameter is allowed whenever some later
/// parameter of its list counts as used.
pub proof fn lemma_after_used_forgives_earlier(
    opts: NoUnusedVars,
    sem: Semantic,
    sym: Symbol,
    param: FormalParameter,
    pid: int,
    pos: int,
)
    requires
        opts.args is AfterUsed,
        spec_nearest_params(sem, sym) == Some(pid),
        !spec_method_shortcut(sem, pid, param.has_modifier),
        !spec_is_destructuring(sem, param.pattern as int),
        spec_position_from(spec_params_list(sem, pid), param.param_id, 0) == Some(pos),
        exists|j: int|
            pos < j < spec_params_list(sem, pid).len() && spec_param_counts_used(
                sem,
                #[trigger] spec_params_list(sem, pid)[j],
            ),
    ensures
        spec_allowed_argument(opts, sem, sym, param),
{
    let j = choose|j: int|
        pos < j < spec_params_list(sem, pid).len() && spec_param_counts_used(
            sem,
            #[trigger] spec_params_list(sem, pid)[j],
        );
    assert(pos < spec_params_list(sem, pid).len() - 1);
}

/// The after-used policy reports the last parameter of its list: with no
/// method/overload shortcut, a non-destructured parameter in last position
/// has nothing after it that could count as used, so it is not allowed.
pub proof fn lemma_after_used_last_param_reported(
    opts: NoUnusedVars,
    sem: Semantic,
    sym: Symbol,
    param: FormalParameter,
    pid: int,
    pos: int,
)
    requires
        opts.args is AfterUsed,
        spec_nearest_params(sem, sym) == Some(pid),
        !spec_method_shortcut(sem, pid, param.has_modifier),
        !spec_is_destructuring(sem, param.pattern as int),
        spec_position_from(spec_params_list(sem, pid), param.param_id, 0) == Some(pos),
        pos == spec_params_list(sem, pid).len() - 1,
    ensures
        !spec_allowed_argument(opts, sem, sym, param),
{
}

/// A constructor parameter property is never reported: when the parameter
/// list's grandparent is a constructor definition and the parameter carries
/// an accessibility/readonly modifier, the method shortcut allows it — and a
/// modifier-carrying parameter also counts as used whenever a sibling's
/// after-used look-ahead scans it.
pub proof fn lemma_constructor_parameter_property(
    sem: Semantic,
    params_id: usize,
    p1: usize,
    p2: usize,
    m: crate::ast::MethodData,
)
    requires
        (params_id as int) < sem.nodes@.len(),
        sem.nodes@[params_id as int].parent == Some(p1),
        (p1 as int) < sem.nodes@.len(),
        sem.nodes@[p1 as int].parent == Some(p2),
        (p2 as int) < sem.nodes@.len(),
        sem.nodes@[p2 as int].kind == NodeKind::MethodDefinition(m),
        m.kind is Constructor,
    ensures
        spec_method_shortcut(sem, params_id as int, true),
        forall|p: FormalParameter|
            p.has_modifier ==> #[trigger] spec_param_counts_used(sem, p),
{
}

/// A destructured parameter is never positionally exempt: under the
/// after-used mode, with no method/overload shortcut, a parameter whose
/// pattern destructures is reported whatever its position.
pub proof fn lemma_destructured_param_always_checked(
    opts: NoUnusedVars,
    sem: Semantic,
    sym: Symbol,
    param: FormalParameter,
    pid: int,
)
    requires
        opts.args is AfterUsed,
        spec_nearest_params(sem, sym) == Some(pid),
        !spec_method_shortcut(sem, pid, param.has_modifier),
        spec_is_destructuring(sem, param.pattern as int),
    ensures
        !spec_allowed_argument(opts, sem, sym, param),
{
}

} // verus!