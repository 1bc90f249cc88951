//! The syntax-tree model the engine reads.
//!
//! Nodes live in a flat arena and are addressed by index. Each node knows its
//! parent, so the upward walks the exemption predicates need are plain arena
//! lookups. A well-formed arena stores every parent before its children
//! (`parent < child`), which bounds every upward walk.
//!
//! Only the node kinds the engine inspects are distinguished; every other
//! construct is `NodeKind::Other`, which every predicate treats uniformly as
//! "stop, no exemption".

use vstd::prelude::*;

verus! {

/// Whether a function node is a declaration, an expression, or one of the
/// type-only forms that carry no executable body.
#[derive(Clone, Copy, PartialEq, Eq, Structural, Debug)]
pub enum FunctionType {
    Declaration,
    Expression,
    /// `declare function f(...): T;` — a type-only declaration.
    TSDeclareFunction,
    /// An overload signature written as a function with an empty body.
    TSEmptyBodyFunctionExpression,
}

/// Payload of a function node.
#[derive(Clone, Copy, PartialEq, Eq, Structural, Debug)]
pub struct FunctionData {
    pub function_type: FunctionType,
    /// Whether the function has an executable body.
    pub has_body: bool,
}

impl FunctionData {
    /// A "type-only" function form: an overload or ambient signature with no
    /// executable body.
    pub open spec fn spec_is_typescript_syntax(self) -> bool {
        self.function_type is TSDeclareFunction
            || self.function_type is TSEmptyBodyFunctionExpression
            || !self.has_body
    }

    /// Whether the function appears in expression position.
    pub open spec fn spec_is_expression(self) -> bool {
        self.function_type is Expression
    }

    /// Executable mirror of [`Self::spec_is_typescript_syntax`].
    pub fn is_typescript_syntax(&self) -> (r: bool)
        ensures
            r == self.spec_is_typescript_syntax(),
    {
        matches!(
            self.function_type,
            FunctionType::TSDeclareFunction | FunctionType::TSEmptyBodyFunctionExpression
        ) || !self.has_body
    }

    /// Executable mirror of [`Self::spec_is_expression`].
    pub fn is_expression(&self) -> (r: bool)
        ensures
            r == self.spec_is_expression(),
    {
        matches!(self.function_type, FunctionType::Expression)
    }
}

/// What kind of member a method definition declares.
#[derive(Clone, Copy, PartialEq, Eq, Structural, Debug)]
pub enum MethodKind {
    Constructor,
    Method,
    Getter,
    Setter,
}

/// Payload of a class method definition.
#[derive(Clone, Copy, PartialEq, Eq, Structural, Debug)]
pub struct MethodData {
    pub kind: MethodKind,
    /// Declared on an abstract class member (no body, a contract for overriders).
    pub is_abstract: bool,
    /// Carries an `override` modifier.
    pub is_override: bool,
    /// The form of the function expression holding the method's body.
    pub value_type: FunctionType,
}

/// What kind of accessor an object property is.
#[derive(Clone, Copy, PartialEq, Eq, Structural, Debug)]
pub enum PropertyKind {
    Init,
    Getter,
    Setter,
}

/// Declaration keyword of a variable declarator.
#[derive(Clone, Copy, PartialEq, Eq, Structural, Debug)]
pub enum VarKind {
    Var,
    Let,
    Const,
}

/// Payload of a namespace/module declaration.
#[derive(Clone, Copy, PartialEq, Eq, Structural, Debug)]
pub struct ModuleDecl {
    /// Carries the `declare` keyword.
    pub declare: bool,
    /// A `global { ... }` augmentation block.
    pub is_global: bool,
}

/// Shape of a for-in/for-of loop body, as far as the early-return exemption
/// inspects it: the body statement's kind and, for a block, the kind of its
/// first statement.
#[derive(Clone, Copy, PartialEq, Eq, Structural, Debug)]
pub enum ForBody {
    /// The body is directly a return statement.
    Return,
    /// The body is a block; `first_is_return` reports whether its first
    /// statement is a return statement (false for an empty block).
    Block { first_is_return: bool },
    /// Any other statement.
    Other,
}

impl ForBody {
    /// The narrow early-return shape the for-of/for-in exemption accepts: the
    /// body is directly a return statement, or a block whose first statement
    /// is one.
    pub open spec fn spec_is_early_return(self) -> bool {
        match self {
            ForBody::Return => true,
            ForBody::Block { first_is_return } => first_is_return,
            ForBody::Other => false,
        }
    }

    /// Executable mirror of [`Self::spec_is_early_return`].
    pub fn is_early_return(&self) -> (r: bool)
        ensures
            r == self.spec_is_early_return(),
    {
        match self {
            ForBody::Return => true,
            ForBody::Block { first_is_return } => *first_is_return,
            ForBody::Other => false,
        }
    }
}

/// One formal parameter of a function-like node.
#[derive(Clone, Copy, PartialEq, Eq, Structural, Debug)]
pub struct FormalParameter {
    /// Stable identifier of the parameter (stands for its source span);
    /// unique within its parameter list.
    pub param_id: u64,
    /// Carries an accessibility/readonly modifier, i.e. is a constructor
    /// "parameter property" that declares a class member.
    pub has_modifier: bool,
    /// Index of the parameter's binding pattern in the pattern arena.
    pub pattern: usize,
}

/// One node of a (possibly nested) binding pattern, stored in a flat arena.
/// Children are pattern indices and always precede their parent.
#[derive(Clone, PartialEq, Eq, Debug)]
pub enum PatternNode {
    /// A simple name; `symbol` indexes the symbol table.
    Identifier { symbol: usize },
    /// `{ a, b, ...rest }`
    Object { properties: Vec<usize>, rest: Option<usize> },
    /// `[a, , b]` — holes are `None`.
    Array { elements: Vec<Option<usize>> },
    /// `pattern = default`
    Assignment { left: usize },
}

/// Kind tag of a syntax node, with the payload the engine reads.
#[derive(Clone, PartialEq, Eq, Debug)]
pub enum NodeKind {
    Class { is_expression: bool },
    Function(FunctionData),
    VariableDeclarator { kind: VarKind },
    /// `var`/`let`/`const` statement wrapping declarators.
    VariableDeclaration,
    BindingIdentifier,
    Parenthesized,
    SimpleAssignmentTarget,
    AssignmentTarget,
    ForIn { body: ForBody },
    ForOf { body: ForBody },
    ModuleDeclaration(ModuleDecl),
    /// `{ [K in keyof T]: ... }`
    MappedType,
    /// A function-like node's parameter list.
    FormalParameters(Vec<FormalParameter>),
    MethodDefinition(MethodData),
    ObjectProperty { kind: PropertyKind },
    /// Every construct the engine does not inspect.
    Other,
}

/// One syntax node: its kind and its parent in the arena (`None` for the root).
#[derive(Clone, PartialEq, Eq, Debug)]
pub struct Node {
    pub parent: Option<usize>,
    pub kind: NodeKind,
}

/// Well-formedness of one node at arena index `i`: the parent precedes it and
/// every pattern index it stores is in range.
pub open spec fn node_wf(n: Node, i: int, patterns_len: int) -> bool {
    &&& (match n.parent {
        Some(p) => (p as int) < i,
        None => true,
    })
    &&& (match n.kind {
        NodeKind::FormalParameters(params) => forall|j: int|
            0 <= j < params@.len() ==> ((#[trigger] params@[j]).pattern as int) < patterns_len,
        _ => true,
    })
}

/// Well-formedness of one pattern node at arena index `i`: children precede
/// it and a leaf's symbol index is in range.
pub open spec fn pattern_wf(p: PatternNode, i: int, symbols_len: int) -> bool {
    match p {
        PatternNode::Identifier { symbol } => (symbol as int) < symbols_len,
        PatternNode::Object { properties, rest } => {
            &&& forall|j: int|
                0 <= j < properties@.len() ==> ((#[trigger] properties@[j]) as int) < i
            &&& (match rest {
                Some(r) => (r as int) < i,
                None => true,
            })
        },
        PatternNode::Array { elements } => forall|j: int|
            0 <= j < elements@.len() ==> (match #[trigger] elements@[j] {
                Some(e) => (e as int) < i,
                None => true,
            }),
        PatternNode::Assignment { left } => (left as int) < i,
    }
}

} // verus!
