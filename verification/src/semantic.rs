//! The scope/symbol model the engine reads, bundled with the syntax tree.
//!
//! Scopes form a tree stored in a flat arena, parents before children, each
//! scope pointing at the syntax node that introduced it. A symbol records its
//! declaration node, its owning scope, whether it sits in the root scope, and
//! how many read references it has. All of it is produced once per file by an
//! external analyzer and is read-only here.

use vstd::prelude::*;

use crate::ast::{node_wf, pattern_wf, Node, PatternNode};

verus! {

/// One scope: its parent in the arena (`None` for the root scope) and the
/// syntax node that introduced it.
#[derive(Clone, Copy, PartialEq, Eq, Structural, Debug)]
pub struct Scope {
    pub parent: Option<usize>,
    /// Index of the introducing syntax node.
    pub node: usize,
}

/// One declared name, resolved by the analyzer.
#[derive(Clone, Copy, PartialEq, Eq, Structural, Debug)]
pub struct Symbol {
    /// Index of the declaration node (e.g. the variable declarator or formal
    /// parameter that introduced the name).
    pub declaration: usize,
    /// Index of the owning scope.
    pub scope: usize,
    /// Declared at the outermost (root/module) scope.
    pub is_root: bool,
    /// Number of read references. Zero is what brings a symbol before this
    /// engine in the first place.
    pub references: u64,
    /// The name matches a configured ignore pattern (destructured-sibling or
    /// array-destructuring ignoring). Pattern matching against the configured
    /// regular expressions is resolved by the analyzer that builds this model.
    pub ignored: bool,
}

/// The frozen per-file model: syntax nodes, binding patterns, scopes and
/// symbols, each in a flat arena addressed by index.
#[derive(Clone, PartialEq, Eq, Debug)]
pub struct Semantic {
    pub nodes: Vec<Node>,
    pub patterns: Vec<PatternNode>,
    pub scopes: Vec<Scope>,
    pub symbols: Vec<Symbol>,
}

/// Well-formedness of one scope at arena index `i`.
pub open spec fn scope_wf(s: Scope, i: int, nodes_len: int) -> bool {
    &&& (match s.parent {
        Some(p) => (p as int) < i,
        None => true,
    })
    &&& (s.node as int) < nodes_len
}

impl Semantic {
    /// Internal consistency of the whole model: every arena index stored in a
    /// node, pattern, scope or symbol is in range, and both trees store
    /// parents before children, so that every upward walk is bounded.
    pub open spec fn wf(self) -> bool {
        &&& forall|i: int|
            0 <= i < self.nodes@.len() ==> node_wf(
                #[trigger] self.nodes@[i],
                i,
                self.patterns@.len() as int,
            )
        &&& forall|i: int|
            0 <= i < self.patterns@.len() ==> pattern_wf(
                #[trigger] self.patterns@[i],
                i,
                self.symbols@.len() as int,
            )
        &&& forall|i: int|
            0 <= i < self.scopes@.len() ==> scope_wf(
                #[trigger] self.scopes@[i],
                i,
                self.nodes@.len() as int,
            )
        &&& forall|i: int|
            0 <= i < self.symbols@.len() ==> self.sym_wf(#[trigger] self.symbols@[i])
    }

    /// A symbol's indices are in range for this model.
    pub open spec fn sym_wf(self, s: Symbol) -> bool {
        &&& (s.declaration as int) < self.nodes@.len()
        &&& (s.scope as int) < self.scopes@.len()
    }
}

} // verus!
