use no_unused_vars::allowed::is_ambient_namespace;
use no_unused_vars::ast::{
    ForBody, FormalParameter, FunctionData, FunctionType, MethodData, MethodKind, ModuleDecl,
    Node, NodeKind, PatternNode, PropertyKind, VarKind,
};
use no_unused_vars::binding_pattern::{has_any_used_binding, is_destructuring_pattern};
use no_unused_vars::options::{ArgsOption, NoUnusedVars, VarsOption};
use no_unused_vars::semantic::{Scope, Semantic, Symbol};

fn node(parent: Option<usize>, kind: NodeKind) -> Node {
    Node { parent, kind }
}

fn unused(declaration: usize, scope: usize) -> Symbol {
    Symbol { declaration, scope, is_root: false, references: 0, ignored: false }
}

fn used(declaration: usize, scope: usize) -> Symbol {
    Symbol { declaration, scope, is_root: false, references: 1, ignored: false }
}

fn function(function_type: FunctionType, has_body: bool) -> NodeKind {
    NodeKind::Function(FunctionData { function_type, has_body })
}

fn method(kind: MethodKind, is_abstract: bool, is_override: bool, value_type: FunctionType) -> NodeKind {
    NodeKind::MethodDefinition(MethodData { kind, is_abstract, is_override, value_type })
}

fn after_used() -> NoUnusedVars {
    NoUnusedVars { vars: VarsOption::All, args: ArgsOption::AfterUsed }
}

fn root_scope() -> Vec<Scope> {
    vec![Scope { parent: None, node: 0 }]
}

fn param(param_id: u64, has_modifier: bool, pattern: usize) -> FormalParameter {
    FormalParameter { param_id, has_modifier, pattern }
}

#[test]
fn expression_form_class_and_function_are_allowed() {
    let sem = Semantic {
        nodes: vec![
            node(None, NodeKind::Other),
            node(Some(0), NodeKind::Class { is_expression: true }),
            node(Some(0), function(FunctionType::Expression, true)),
            node(Some(0), NodeKind::Class { is_expression: false }),
            node(Some(0), function(FunctionType::Declaration, true)),
        ],
        patterns: vec![],
        scopes: root_scope(),
        symbols: vec![],
    };
    assert!(unused(1, 0).is_function_or_class_declaration_used(&sem));
    assert!(unused(2, 0).is_function_or_class_declaration_used(&sem));
    assert!(!unused(3, 0).is_function_or_class_declaration_used(&sem));
    assert!(!unused(4, 0).is_function_or_class_declaration_used(&sem));
    assert!(!unused(0, 0).is_function_or_class_declaration_used(&sem));
}

#[test]
fn predicates_are_deterministic() {
    let sem = Semantic {
        nodes: vec![node(None, NodeKind::Other), node(Some(0), NodeKind::Class { is_expression: true })],
        patterns: vec![],
        scopes: root_scope(),
        symbols: vec![],
    };
    let sym = unused(1, 0);
    let first = sym.is_function_or_class_declaration_used(&sem);
    let second = sym.is_function_or_class_declaration_used(&sem);
    assert_eq!(first, second);
}

fn for_loop_sem(loop_kind: NodeKind) -> Semantic {
    // root -> loop statement -> variable declaration -> declarator
    Semantic {
        nodes: vec![
            node(None, NodeKind::Other),
            node(Some(0), loop_kind),
            node(Some(1), NodeKind::VariableDeclaration),
            node(Some(2), NodeKind::VariableDeclarator { kind: VarKind::Const }),
        ],
        patterns: vec![],
        scopes: root_scope(),
        symbols: vec![],
    }
}

#[test]
fn for_of_with_direct_return_body_is_allowed() {
    let sem = for_loop_sem(NodeKind::ForOf { body: ForBody::Return });
    assert!(unused(3, 0).is_declared_in_for_of_loop(&sem));
}

#[test]
fn for_of_with_block_whose_first_statement_returns_is_allowed() {
    let sem = for_loop_sem(NodeKind::ForOf { body: ForBody::Block { first_is_return: true } });
    assert!(unused(3, 0).is_declared_in_for_of_loop(&sem));
}

#[test]
fn for_of_without_return_is_not_allowed() {
    let sem = for_loop_sem(NodeKind::ForOf { body: ForBody::Block { first_is_return: false } });
    assert!(!unused(3, 0).is_declared_in_for_of_loop(&sem));
    let sem = for_loop_sem(NodeKind::ForOf { body: ForBody::Other });
    assert!(!unused(3, 0).is_declared_in_for_of_loop(&sem));
}

#[test]
fn for_in_body_shapes_decide_like_for_of() {
    let sem = for_loop_sem(NodeKind::ForIn { body: ForBody::Return });
    assert!(unused(3, 0).is_declared_in_for_of_loop(&sem));
    let sem = for_loop_sem(NodeKind::ForIn { body: ForBody::Other });
    assert!(!unused(3, 0).is_declared_in_for_of_loop(&sem));
}

#[test]
fn declaration_outside_any_loop_is_not_allowed() {
    let sem = Semantic {
        nodes: vec![
            node(None, NodeKind::Other),
            node(Some(0), NodeKind::VariableDeclaration),
            node(Some(1), NodeKind::VariableDeclarator { kind: VarKind::Let }),
        ],
        patterns: vec![],
        scopes: root_scope(),
        symbols: vec![],
    };
    assert!(!unused(2, 0).is_declared_in_for_of_loop(&sem));
}

#[test]
fn root_var_is_allowed_only_under_local_setting() {
    let sem = for_loop_sem(NodeKind::ForOf { body: ForBody::Other });
    let local = NoUnusedVars { vars: VarsOption::Local, args: ArgsOption::AfterUsed };
    let all = NoUnusedVars { vars: VarsOption::All, args: ArgsOption::AfterUsed };
    let mut root_var = unused(3, 0);
    root_var.is_root = true;
    assert!(local.is_allowed_variable_declaration(&sem, &root_var, VarKind::Var));
    assert!(!all.is_allowed_variable_declaration(&sem, &root_var, VarKind::Var));
    assert!(!local.is_allowed_variable_declaration(&sem, &root_var, VarKind::Let));
    let non_root = unused(3, 0);
    assert!(!local.is_allowed_variable_declaration(&sem, &non_root, VarKind::Var));
}

#[test]
fn loop_binding_is_allowed_whatever_the_vars_setting() {
    let sem = for_loop_sem(NodeKind::ForOf { body: ForBody::Return });
    let all = NoUnusedVars { vars: VarsOption::All, args: ArgsOption::AfterUsed };
    assert!(all.is_allowed_variable_declaration(&sem, &unused(3, 0), VarKind::Const));
}

fn ambient_sem(declare: bool, is_global: bool) -> Semantic {
    // root -> namespace declaration introducing scope 1
    Semantic {
        nodes: vec![
            node(None, NodeKind::Other),
            node(Some(0), NodeKind::ModuleDeclaration(ModuleDecl { declare, is_global })),
            node(Some(1), NodeKind::VariableDeclarator { kind: VarKind::Const }),
        ],
        patterns: vec![],
        scopes: vec![Scope { parent: None, node: 0 }, Scope { parent: Some(0), node: 1 }],
        symbols: vec![],
    }
}

#[test]
fn bindings_inside_declared_namespace_are_allowed() {
    let sem = ambient_sem(true, false);
    assert!(unused(2, 1).is_in_declared_module(&sem));
    let opts = after_used();
    let ns = ModuleDecl { declare: false, is_global: false };
    assert!(opts.is_allowed_ts_namespace(&sem, &unused(2, 1), &ns));
}

#[test]
fn global_augmentation_counts_as_ambient() {
    let sem = ambient_sem(false, true);
    assert!(unused(2, 1).is_in_declared_module(&sem));
    assert!(is_ambient_namespace(&ModuleDecl { declare: false, is_global: true }));
}

#[test]
fn bindings_inside_plain_namespace_are_not_allowed() {
    let sem = ambient_sem(false, false);
    assert!(!unused(2, 1).is_in_declared_module(&sem));
    let opts = after_used();
    let ns = ModuleDecl { declare: false, is_global: false };
    assert!(!opts.is_allowed_ts_namespace(&sem, &unused(2, 1), &ns));
}

#[test]
fn plain_namespace_nested_in_ambient_one_is_allowed() {
    // root -> declare namespace (scope 1) -> namespace (scope 2)
    let sem = Semantic {
        nodes: vec![
            node(None, NodeKind::Other),
            node(Some(0), NodeKind::ModuleDeclaration(ModuleDecl { declare: true, is_global: false })),
            node(Some(1), NodeKind::ModuleDeclaration(ModuleDecl { declare: false, is_global: false })),
            node(Some(2), NodeKind::VariableDeclarator { kind: VarKind::Const }),
        ],
        patterns: vec![],
        scopes: vec![
            Scope { parent: None, node: 0 },
            Scope { parent: Some(0), node: 1 },
            Scope { parent: Some(1), node: 2 },
        ],
        symbols: vec![],
    };
    assert!(unused(3, 2).is_in_declared_module(&sem));
    let opts = after_used();
    let inner = ModuleDecl { declare: false, is_global: false };
    assert!(opts.is_allowed_ts_namespace(&sem, &unused(3, 2), &inner));
}

#[test]
fn ambient_namespace_is_allowed_directly() {
    let sem = ambient_sem(false, false);
    let opts = after_used();
    let ns = ModuleDecl { declare: true, is_global: false };
    assert!(opts.is_allowed_ts_namespace(&sem, &unused(1, 0), &ns));
}

#[test]
fn type_parameter_under_mapped_type_is_allowed() {
    let sem = Semantic {
        nodes: vec![
            node(None, NodeKind::Other),
            node(Some(0), NodeKind::MappedType),
            node(Some(1), NodeKind::Other),
            node(Some(0), NodeKind::Other),
        ],
        patterns: vec![],
        scopes: root_scope(),
        symbols: vec![],
    };
    let opts = after_used();
    assert!(opts.is_allowed_type_parameter(&sem, 2));
    assert!(!opts.is_allowed_type_parameter(&sem, 3));
    assert!(!opts.is_allowed_type_parameter(&sem, 0));
}

/// `function f(a, b, c)` where only `b` is read: nodes 0..=2 wrap the list,
/// nodes 3..=5 are the three parameter declarations, patterns 0..=2 their
/// names, symbols 0..=2 the bindings.
fn three_positional_params(function_kind: NodeKind) -> (Semantic, Vec<FormalParameter>) {
    let params = vec![param(1, false, 0), param(2, false, 1), param(3, false, 2)];
    let sem = Semantic {
        nodes: vec![
            node(None, NodeKind::Other),
            node(Some(0), function_kind),
            node(Some(1), NodeKind::FormalParameters(params.clone())),
            node(Some(2), NodeKind::Other),
            node(Some(2), NodeKind::Other),
            node(Some(2), NodeKind::Other),
        ],
        patterns: vec![
            PatternNode::Identifier { symbol: 0 },
            PatternNode::Identifier { symbol: 1 },
            PatternNode::Identifier { symbol: 2 },
        ],
        scopes: root_scope(),
        symbols: vec![unused(3, 0), used(4, 0), unused(5, 0)],
    };
    (sem, params)
}

#[test]
fn after_used_forgives_parameter_before_last_used_one() {
    let (sem, params) = three_positional_params(function(FunctionType::Declaration, true));
    let opts = after_used();
    // `a` comes before the used `b`
    assert!(opts.is_allowed_argument(&sem, &sem.symbols[0].clone(), &params[0]));
}

#[test]
fn after_used_reports_last_parameter() {
    let (sem, params) = three_positional_params(function(FunctionType::Declaration, true));
    let opts = after_used();
    // `c` is the last parameter: nothing after it can be used
    assert!(!opts.is_allowed_argument(&sem, &sem.symbols[2].clone(), &params[2]));
}

#[test]
fn all_mode_reports_every_plain_parameter() {
    let (sem, params) = three_positional_params(function(FunctionType::Declaration, true));
    let opts = NoUnusedVars { vars: VarsOption::All, args: ArgsOption::All };
    assert!(!opts.is_allowed_argument(&sem, &sem.symbols[0].clone(), &params[0]));
}

#[test]
fn none_mode_allows_every_parameter() {
    let (sem, params) = three_positional_params(function(FunctionType::Declaration, true));
    let opts = NoUnusedVars { vars: VarsOption::All, args: ArgsOption::NoCheck };
    assert!(opts.is_allowed_argument(&sem, &sem.symbols[2].clone(), &params[2]));
}

#[test]
fn overload_signature_allows_parameters_even_in_all_mode() {
    let (sem, params) = three_positional_params(function(FunctionType::TSDeclareFunction, false));
    let opts = NoUnusedVars { vars: VarsOption::All, args: ArgsOption::All };
    assert!(opts.is_allowed_argument(&sem, &sem.symbols[2].clone(), &params[2]));
}

#[test]
fn function_without_body_allows_parameters() {
    // the function node sits one level further out, as a method's value does
    let params = vec![param(1, false, 0)];
    let sem = Semantic {
        nodes: vec![
            node(None, NodeKind::Other),
            node(Some(0), function(FunctionType::Declaration, false)),
            node(Some(1), NodeKind::Other),
            node(Some(2), NodeKind::FormalParameters(params.clone())),
            node(Some(3), NodeKind::Other),
        ],
        patterns: vec![PatternNode::Identifier { symbol: 0 }],
        scopes: root_scope(),
        symbols: vec![unused(4, 0)],
    };
    let opts = NoUnusedVars { vars: VarsOption::All, args: ArgsOption::All };
    assert!(opts.is_allowed_argument(&sem, &sem.symbols[0].clone(), &params[0]));
}

/// A method shape: root -> method definition -> function value -> parameter
/// list -> parameter declarations.
fn method_params(
    method_kind: NodeKind,
    params: Vec<FormalParameter>,
    patterns: Vec<PatternNode>,
    symbols: Vec<Symbol>,
) -> Semantic {
    Semantic {
        nodes: vec![
            node(None, NodeKind::Other),
            node(Some(0), method_kind),
            node(Some(1), function(FunctionType::Expression, true)),
            node(Some(2), NodeKind::FormalParameters(params)),
            node(Some(3), NodeKind::Other),
            node(Some(3), NodeKind::Other),
        ],
        patterns,
        scopes: root_scope(),
        symbols,
    }
}

#[test]
fn setter_parameter_is_always_allowed() {
    let params = vec![param(1, false, 0)];
    let sem = method_params(
        method(MethodKind::Setter, false, false, FunctionType::Expression),
        params.clone(),
        vec![PatternNode::Identifier { symbol: 0 }],
        vec![unused(4, 0)],
    );
    let opts = NoUnusedVars { vars: VarsOption::All, args: ArgsOption::All };
    assert!(opts.is_allowed_argument(&sem, &sem.symbols[0].clone(), &params[0]));
}

#[test]
fn object_property_setter_parameter_is_always_allowed() {
    let params = vec![param(1, false, 0)];
    let sem = method_params(
        NodeKind::ObjectProperty { kind: PropertyKind::Setter },
        params.clone(),
        vec![PatternNode::Identifier { symbol: 0 }],
        vec![unused(4, 0)],
    );
    let opts = NoUnusedVars { vars: VarsOption::All, args: ArgsOption::All };
    assert!(opts.is_allowed_argument(&sem, &sem.symbols[0].clone(), &params[0]));
}

#[test]
fn object_property_getter_parameter_is_not_allowed() {
    let params = vec![param(1, false, 0)];
    let sem = method_params(
        NodeKind::ObjectProperty { kind: PropertyKind::Getter },
        params.clone(),
        vec![PatternNode::Identifier { symbol: 0 }],
        vec![unused(4, 0)],
    );
    let opts = NoUnusedVars { vars: VarsOption::All, args: ArgsOption::All };
    assert!(!opts.is_allowed_argument(&sem, &sem.symbols[0].clone(), &params[0]));
}

#[test]
fn override_and_abstract_methods_allow_parameters() {
    let params = vec![param(1, false, 0)];
    let patterns = vec![PatternNode::Identifier { symbol: 0 }];
    let opts = NoUnusedVars { vars: VarsOption::All, args: ArgsOption::All };

    let sem = method_params(
        method(MethodKind::Method, false, true, FunctionType::Expression),
        params.clone(),
        patterns.clone(),
        vec![unused(4, 0)],
    );
    assert!(opts.is_allowed_argument(&sem, &sem.symbols[0].clone(), &params[0]));

    let sem = method_params(
        method(MethodKind::Method, true, false, FunctionType::Expression),
        params.clone(),
        patterns.clone(),
        vec![unused(4, 0)],
    );
    assert!(opts.is_allowed_argument(&sem, &sem.symbols[0].clone(), &params[0]));

    let sem = method_params(
        method(MethodKind::Method, false, false, FunctionType::TSEmptyBodyFunctionExpression),
        params.clone(),
        patterns.clone(),
        vec![unused(4, 0)],
    );
    assert!(opts.is_allowed_argument(&sem, &sem.symbols[0].clone(), &params[0]));

    let sem = method_params(
        method(MethodKind::Method, false, false, FunctionType::Expression),
        params.clone(),
        patterns,
        vec![unused(4, 0)],
    );
    assert!(!opts.is_allowed_argument(&sem, &sem.symbols[0].clone(), &params[0]));
}

#[test]
fn constructor_parameter_property_is_allowed_and_plain_sibling_is_not() {
    // constructor(public x, y), neither read, after-used mode
    let params = vec![param(1, true, 0), param(2, false, 1)];
    let sem = method_params(
        method(MethodKind::Constructor, false, false, FunctionType::Expression),
        params.clone(),
        vec![PatternNode::Identifier { symbol: 0 }, PatternNode::Identifier { symbol: 1 }],
        vec![unused(4, 0), unused(5, 0)],
    );
    let opts = after_used();
    assert!(opts.is_allowed_argument(&sem, &sem.symbols[0].clone(), &params[0]));
    assert!(!opts.is_allowed_argument(&sem, &sem.symbols[1].clone(), &params[1]));
}

#[test]
fn modifier_on_later_parameter_counts_as_used() {
    // constructor(unused, public property): the earlier parameter is forgiven
    let params = vec![param(1, false, 0), param(2, true, 1)];
    let sem = method_params(
        method(MethodKind::Constructor, false, false, FunctionType::Expression),
        params.clone(),
        vec![PatternNode::Identifier { symbol: 0 }, PatternNode::Identifier { symbol: 1 }],
        vec![unused(4, 0), unused(5, 0)],
    );
    let opts = after_used();
    assert!(opts.is_allowed_argument(&sem, &sem.symbols[0].clone(), &params[0]));
}

#[test]
fn destructured_parameter_is_never_positionally_exempt() {
    // function f({ a }, b), both unused, after-used mode
    let params = vec![param(1, false, 1), param(2, false, 2)];
    let sem = Semantic {
        nodes: vec![
            node(None, NodeKind::Other),
            node(Some(0), function(FunctionType::Declaration, true)),
            node(Some(1), NodeKind::FormalParameters(params.clone())),
            node(Some(2), NodeKind::Other),
            node(Some(2), NodeKind::Other),
        ],
        patterns: vec![
            PatternNode::Identifier { symbol: 0 },
            PatternNode::Object { properties: vec![0], rest: None },
            PatternNode::Identifier { symbol: 1 },
        ],
        scopes: root_scope(),
        symbols: vec![unused(3, 0), unused(4, 0)],
    };
    let opts = after_used();
    assert!(is_destructuring_pattern(&sem, 1));
    assert!(!opts.is_allowed_argument(&sem, &sem.symbols[0].clone(), &params[0]));
    assert!(!opts.is_allowed_argument(&sem, &sem.symbols[1].clone(), &params[1]));
}

#[test]
fn nested_destructured_use_in_later_parameter_forgives_earlier_one() {
    // function f(a, { b: { c } }) where `c` is read
    let params = vec![param(1, false, 0), param(2, false, 3)];
    let sem = Semantic {
        nodes: vec![
            node(None, NodeKind::Other),
            node(Some(0), function(FunctionType::Declaration, true)),
            node(Some(1), NodeKind::FormalParameters(params.clone())),
            node(Some(2), NodeKind::Other),
            node(Some(2), NodeKind::Other),
        ],
        patterns: vec![
            PatternNode::Identifier { symbol: 0 },
            PatternNode::Identifier { symbol: 1 },
            PatternNode::Object { properties: vec![1], rest: None },
            PatternNode::Object { properties: vec![2], rest: None },
        ],
        scopes: root_scope(),
        symbols: vec![unused(3, 0), used(4, 0)],
    };
    let opts = after_used();
    assert!(opts.is_allowed_argument(&sem, &sem.symbols[0].clone(), &params[0]));
}

#[test]
fn ignored_names_do_not_count_as_used_in_the_look_ahead() {
    // function f(a, [ , d ]) where `d` is read but matches the configured
    // array-destructuring ignore pattern
    let mut ignored_d = used(4, 0);
    ignored_d.ignored = true;
    let params = vec![param(1, false, 0), param(2, false, 2)];
    let sem = Semantic {
        nodes: vec![
            node(None, NodeKind::Other),
            node(Some(0), function(FunctionType::Declaration, true)),
            node(Some(1), NodeKind::FormalParameters(params.clone())),
            node(Some(2), NodeKind::Other),
            node(Some(2), NodeKind::Other),
        ],
        patterns: vec![
            PatternNode::Identifier { symbol: 0 },
            PatternNode::Identifier { symbol: 1 },
            PatternNode::Array { elements: vec![None, Some(1)] },
        ],
        scopes: root_scope(),
        symbols: vec![unused(3, 0), ignored_d],
    };
    let opts = after_used();
    assert!(!has_any_used_binding(&sem, 2));
    assert!(!opts.is_allowed_argument(&sem, &sem.symbols[0].clone(), &params[0]));
}

#[test]
fn probe_sees_through_defaults_rests_and_array_holes() {
    let sem = Semantic {
        nodes: vec![node(None, NodeKind::Other)],
        patterns: vec![
            PatternNode::Identifier { symbol: 0 },
            PatternNode::Assignment { left: 0 },
            PatternNode::Object { properties: vec![], rest: Some(1) },
            PatternNode::Array { elements: vec![None, Some(2)] },
        ],
        scopes: root_scope(),
        symbols: vec![used(0, 0)],
    };
    assert!(has_any_used_binding(&sem, 3));

    let sem_unused = Semantic {
        nodes: vec![node(None, NodeKind::Other)],
        patterns: vec![
            PatternNode::Identifier { symbol: 0 },
            PatternNode::Assignment { left: 0 },
            PatternNode::Object { properties: vec![], rest: Some(1) },
            PatternNode::Array { elements: vec![None, Some(2)] },
        ],
        scopes: root_scope(),
        symbols: vec![unused(0, 0)],
    };
    assert!(!has_any_used_binding(&sem_unused, 3));
}

fn rest_element_sem(function_kind: NodeKind) -> Semantic {
    // root -> function -> parameter list -> rest element declaration
    Semantic {
        nodes: vec![
            node(None, NodeKind::Other),
            node(Some(0), function_kind),
            node(Some(1), NodeKind::FormalParameters(vec![])),
            node(Some(2), NodeKind::Other),
        ],
        patterns: vec![],
        scopes: root_scope(),
        symbols: vec![],
    }
}

#[test]
fn rest_element_of_type_only_function_is_allowed() {
    let sem = rest_element_sem(function(FunctionType::TSDeclareFunction, false));
    assert!(NoUnusedVars::is_allowed_binding_rest_element(&sem, &unused(3, 0)));
}

#[test]
fn rest_element_of_function_with_body_is_not_allowed() {
    let sem = rest_element_sem(function(FunctionType::Declaration, true));
    assert!(!NoUnusedVars::is_allowed_binding_rest_element(&sem, &unused(3, 0)));
}

#[test]
fn rest_element_without_enclosing_function_is_not_allowed() {
    let sem = Semantic {
        nodes: vec![node(None, NodeKind::Other), node(Some(0), NodeKind::Other)],
        patterns: vec![],
        scopes: root_scope(),
        symbols: vec![],
    };
    assert!(!NoUnusedVars::is_allowed_binding_rest_element(&sem, &unused(1, 0)));
}
