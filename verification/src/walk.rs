//! The entry filter of the file walker: which directory entries are worth
//! linting.
//!
//! The traversal itself (gitignore handling, symlink following, the parallel
//! producer/aggregator hand-off) is I/O and lives outside this library; it
//! hands each entry's plain facts — is it a regular file, its file name, its
//! extension — to [`is_wanted_entry`], which decides.

use vstd::prelude::*;

verus! {

/// The needle occurs in `h` starting at position `i`.
pub open spec fn contains_at(h: Seq<char>, n: Seq<char>, i: int) -> bool {
    &&& 0 <= i
    &&& i + n.len() <= h.len()
    &&& h.subrange(i, i + n.len()) == n
}

/// The needle occurs somewhere in `h`.
pub open spec fn spec_contains(h: Seq<char>, n: Seq<char>) -> bool {
    exists|i: int| contains_at(h, n, i)
}

/// A file name that carries a minified-file marker: `.min.`, `-min.` or
/// `_min.` anywhere in the name.
pub open spec fn spec_minified_name(name: Seq<char>) -> bool {
    ||| spec_contains(name, ".min."@)
    ||| spec_contains(name, "-min."@)
    ||| spec_contains(name, "_min."@)
}

/// The needle matches `h` at position `i`.
fn matches_at(h: &str, n: &str, i: usize) -> (r: bool)
    requires
        i + n@.len() <= h@.len(),
    ensures
        r == contains_at(h@, n@, i as int),
{
    let hl = h.unicode_len();
    let nl = n.unicode_len();
    let mut k: usize = 0;
    while k < nl
        invariant
            hl == h@.len(),
            nl == n@.len(),
            i + nl <= hl,
            k <= nl,
            forall|j: int| 0 <= j < k ==> h@[i + j] == n@[j],
        decreases nl - k,
    {
        if h.get_char(i + k) != n.get_char(k) {
            proof {
                assert(h@.subrange(i as int, i + n@.len())[k as int] != n@[k as int]);
            }
            return false;
        }
        k += 1;
    }
    proof {
        assert(h@.subrange(i as int, i + n@.len()) =~= n@);
    }
    true
}

/// Executable mirror of [`spec_contains`]: naive substring search.
fn contains_str(h: &str, n: &str) -> (r: bool)
    ensures
        r == spec_contains(h@, n@),
{
    let hl = h.unicode_len();
    let nl = n.unicode_len();
    if nl > hl {
        return false;
    }
    if nl == 0 {
        proof {
            assert(h@.subrange(0, 0) =~= n@);
            assert(contains_at(h@, n@, 0));
        }
        return true;
    }
    let mut i: usize = 0;
    while i <= hl - nl
        invariant
            hl == h@.len(),
            nl == n@.len(),
            0 < nl <= hl,
            i <= hl - nl + 1,
            forall|j: int| 0 <= j < i ==> !contains_at(h@, n@, j),
        decreases hl - i,
    {
        if matches_at(h, n, i) {
            return true;
        }
        i += 1;
    }
    false
}

/// Executable mirror of [`spec_minified_name`].
pub fn is_minified_name(name: &str) -> (r: bool)
    ensures
        r == spec_minified_name(name@),
{
    contains_str(name, ".min.") || contains_str(name, "-min.") || contains_str(name, "_min.")
}

/// The file extensions to include during a traversal.
#[derive(Clone, Debug)]
pub struct Extensions(pub Vec<String>);

impl Extensions {
    /// The extension `e` is in this allow-list.
    pub open spec fn spec_has(self, e: Seq<char>) -> bool {
        exists|k: int| 0 <= k < self.0@.len() && (#[trigger] self.0@[k])@ == e
    }

    /// Executable mirror of [`Self::spec_has`].
    pub fn has(&self, e: &String) -> (r: bool)
        ensures
            r == self.spec_has(e@),
    {
        let n = self.0.len();
        let mut k: usize = 0;
        while k < n
            invariant
                n == self.0@.len(),
                k <= n,
                forall|j: int| 0 <= j < k ==> (#[trigger] self.0@[j])@ != e@,
            decreases n - k,
        {
            if e.eq(&self.0[k]) {
                return true;
            }
            k += 1;
        }
        false
    }
}

/// The lintable-extension allow-list used when none is configured.
impl Default for Extensions {
    fn default() -> (r: Self)
        ensures
            r.0@.len() == 11,
            r.0@[0]@ == "js"@,
            r.0@[1]@ == "mjs"@,
            r.0@[2]@ == "cjs"@,
            r.0@[3]@ == "jsx"@,
            r.0@[4]@ == "ts"@,
            r.0@[5]@ == "mts"@,
            r.0@[6]@ == "cts"@,
            r.0@[7]@ == "tsx"@,
            r.0@[8]@ == "vue"@,
            r.0@[9]@ == "astro"@,
            r.0@[10]@ == "svelte"@,
    {
        let mut v: Vec<String> = Vec::new();
        v.push("js".to_owned());
        v.push("mjs".to_owned());
        v.push("cjs".to_owned());
        v.push("jsx".to_owned());
        v.push("ts".to_owned());
        v.push("mts".to_owned());
        v.push("cts".to_owned());
        v.push("tsx".to_owned());
        v.push("vue".to_owned());
        v.push("astro".to_owned());
        v.push("svelte".to_owned());
        Extensions(v)
    }
}

/// What the walker keeps: a regular file (entries without a file type, and
/// directories, are skipped), whose name carries no minified-file marker,
/// and whose extension is in the allow-list.
pub open spec fn spec_wanted_entry(
    has_file_type: bool,
    is_dir: bool,
    file_name: Option<Seq<char>>,
    extension: Option<Seq<char>>,
    extensions: Extensions,
) -> bool {
    if !has_file_type {
        false
    } else if is_dir {
        false
    } else {
        match file_name {
            None => false,
            Some(name) => {
                if spec_minified_name(name) {
                    false
                } else {
                    match extension {
                        None => false,
                        Some(e) => extensions.spec_has(e),
                    }
                }
            },
        }
    }
}

/// Executable mirror of [`spec_wanted_entry`]. The walker extracts the
/// entry's file type, file name and extension and hands them in as plain
/// values.
pub fn is_wanted_entry(
    has_file_type: bool,
    is_dir: bool,
    file_name: Option<&String>,
    extension: Option<&String>,
    extensions: &Extensions,
) -> (r: bool)
    ensures
        r == spec_wanted_entry(
            has_file_type,
            is_dir,
            (match file_name {
                Some(n) => Some(n@),
                None => None,
            }),
            (match extension {
                Some(e) => Some(e@),
                None => None,
            }),
            *extensions,
        ),
{
    if !has_file_type {
        return false;
    }
    if is_dir {
        return false;
    }
    let name = match file_name {
        Some(n) => n,
        None => {
            return false;
        },
    };
    if is_minified_name(name.as_str()) {
        return false;
    }
    match extension {
        Some(e) => extensions.has(e),
        None => false,
    }
}

} // verus!
