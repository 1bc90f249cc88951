//! The any-used-binding probe over (possibly nested) binding patterns, and
//! the destructuring test.
//!
//! The probe asks: does this pattern introduce, at any depth, a name that has
//! a read reference? Names matched by a configured ignore pattern are
//! excluded. The argument exemption uses it to look ahead across a parameter
//! list; it reads the frozen model and nothing else.

use vstd::prelude::*;

use crate::ast::{pattern_wf, PatternNode};
use crate::semantic::{Semantic, Symbol};

verus! {

/// A name counts as used for the look-ahead: it has at least one read
/// reference and is not excluded by a configured ignore pattern.
pub open spec fn spec_counts_as_used(sym: Symbol) -> bool {
    sym.references > 0 && !sym.ignored
}

/// Some name introduced by pattern `pid`, at any depth, counts as used.
pub open spec fn spec_has_any_used_binding(sem: Semantic, pid: int) -> bool
    decreases pid,
        when sem.wf() && 0 <= pid < sem.patterns@.len()
{
    match sem.patterns@[pid] {
        PatternNode::Identifier { symbol } => spec_counts_as_used(sem.symbols@[symbol as int]),
        PatternNode::Object { properties, rest } => {
            ||| (exists|k: int|
                0 <= k < properties@.len() && spec_has_any_used_binding(
                    sem,
                    #[trigger] properties@[k] as int,
                ))
            ||| (match rest {
                Some(r) => spec_has_any_used_binding(sem, r as int),
                None => false,
            })
        },
        PatternNode::Array { elements } => exists|k: int|
            0 <= k < elements@.len() && (match #[trigger] elements@[k] {
                Some(e) => spec_has_any_used_binding(sem, e as int),
                None => false,
            }),
        PatternNode::Assignment { left } => spec_has_any_used_binding(sem, left as int),
    }
}

/// The pattern is a destructuring pattern (an object or array pattern,
/// possibly behind a default-value wrapper) rather than a simple name.
pub open spec fn spec_is_destructuring(sem: Semantic, pid: int) -> bool
    decreases pid,
        when sem.wf() && 0 <= pid < sem.patterns@.len()
{
    match sem.patterns@[pid] {
        PatternNode::Identifier { .. } => false,
        PatternNode::Object { .. } => true,
        PatternNode::Array { .. } => true,
        PatternNode::Assignment { left } => spec_is_destructuring(sem, left as int),
    }
}

/// Executable mirror of [`spec_has_any_used_binding`]: a pure recursive
/// traversal of the pattern, consulting the symbol table at each leaf.
pub fn has_any_used_binding(sem: &Semantic, pid: usize) -> (r: bool)
    requires
        sem.wf(),
        (pid as int) < sem.patterns@.len(),
    ensures
        r == spec_has_any_used_binding(*sem, pid as int),
    decreases pid,
{
    proof {
        assert(pattern_wf(sem.patterns@[pid as int], pid as int, sem.symbols@.len() as int));
    }
    match &sem.patterns[pid] {
        PatternNode::Identifier { symbol } => {
            let sym = &sem.symbols[*symbol];
            sym.references > 0 && !sym.ignored
        },
        PatternNode::Object { properties, rest } => {
            let n = properties.len();
            let mut k: usize = 0;
            while k < n
                invariant
                    sem.wf(),
                    (pid as int) < sem.patterns@.len(),
                    sem.patterns@[pid as int] == (PatternNode::Object {
                        properties: *properties,
                        rest: *rest,
                    }),
                    n == properties@.len(),
                    k <= n,
                    forall|j: int|
                        0 <= j < k ==> !spec_has_any_used_binding(
                            *sem,
                            #[trigger] properties@[j] as int,
                        ),
                decreases n - k,
            {
                proof {
                    assert(pattern_wf(
                        sem.patterns@[pid as int],
                        pid as int,
                        sem.symbols@.len() as int,
                    ));
                    assert(match sem.patterns@[pid as int] {
                        PatternNode::Object { properties: ps, rest: rs } => ps == *properties,
                        _ => false,
                    });
                    assert(match sem.patterns@[pid as int] {
                        PatternNode::Object { properties: ps, rest: rs } => forall|j: int|
                            0 <= j < ps@.len() ==> ((#[trigger] ps@[j]) as int) < pid as int,
                        _ => false,
                    });
                    assert((properties@[k as int] as int) < (pid as int));
                }
                if has_any_used_binding(sem, properties[k]) {
                    return true;
                }
                k += 1;
            }
            match rest {
                Some(r) => has_any_used_binding(sem, *r),
                None => false,
            }
        },
        PatternNode::Array { elements } => {
            let n = elements.len();
            let mut k: usize = 0;
            while k < n
                invariant
                    sem.wf(),
                    (pid as int) < sem.patterns@.len(),
                    sem.patterns@[pid as int] == (PatternNode::Array { elements: *elements }),
                    n == elements@.len(),
                    k <= n,
                    forall|j: int|
                        0 <= j < k ==> !(match #[trigger] elements@[j] {
                            Some(e) => spec_has_any_used_binding(*sem, e as int),
                            None => false,
                        }),
                decreases n - k,
            {
                proof {
                    assert(pattern_wf(
                        sem.patterns@[pid as int],
                        pid as int,
                        sem.symbols@.len() as int,
                    ));
                }
                match elements[k] {
                    Some(e) => {
                        if has_any_used_binding(sem, e) {
                            return true;
                        }
                    },
                    None => {},
                }
                k += 1;
            }
            false
        },
        PatternNode::Assignment { left } => has_any_used_binding(sem, *left),
    }
}

/// Executable mirror of [`spec_is_destructuring`].
pub fn is_destructuring_pattern(sem: &Semantic, pid: usize) -> (r: bool)
    requires
        sem.wf(),
        (pid as int) < sem.patterns@.len(),
    ensures
        r == spec_is_destructuring(*sem, pid as int),
    decreases pid,
{
    proof {
        assert(pattern_wf(sem.patterns@[pid as int], pid as int, sem.symbols@.len() as int));
    }
    match &sem.patterns[pid] {
        PatternNode::Identifier { .. } => false,
        PatternNode::Object { .. } => true,
        PatternNode::Array { .. } => true,
        PatternNode::Assignment { left } => is_destructuring_pattern(sem, *left),
    }
}

} // verus!
