//! Staging-file naming: deriving the unique scratchpad copy name and the
//! per-task output name from a source path, and the set of paths one
//! workflow run works with.

use vstd::prelude::*;

verus! {

/// True when no character of `s` is a path separator.
pub open spec fn no_slash(s: Seq<char>) -> bool {
    forall|j: int| 0 <= j < s.len() ==> s[j] != '/'
}

/// The index just after the last '/' of `path`, or 0 when there is none:
/// where the file name begins.
pub open spec fn base_name_index(path: Seq<char>) -> int
    decreases path.len(),
{
    if path.len() == 0 {
        0
    } else if path[path.len() - 1] == '/' {
        path.len() as int
    } else {
        base_name_index(path.drop_last())
    }
}

/// The file-name part of `path`: everything after the last '/'.
pub open spec fn base_name(path: Seq<char>) -> Seq<char> {
    path.subrange(base_name_index(path), path.len() as int)
}

pub proof fn lemma_base_name_index(path: Seq<char>)
    ensures
        0 <= base_name_index(path) <= path.len(),
        base_name_index(path) > 0 ==> path[base_name_index(path) - 1] == '/',
        forall|j: int| base_name_index(path) <= j < path.len() ==> path[j] != '/',
    decreases path.len(),
{
    if path.len() == 0 {
    } else if path[path.len() - 1] == '/' {
    } else {
        lemma_base_name_index(path.drop_last());
        assert forall|j: int| base_name_index(path) <= j < path.len() implies path[j] != '/' by {
            if j < path.len() - 1 {
                assert(path.drop_last()[j] == path[j]);
            }
        }
    }
}

/// The starting index of the file name is the only index that begins a
/// slash-free suffix right after a '/' (or at the very start).
pub proof fn lemma_base_name_index_unique(path: Seq<char>, i: int)
    requires
        0 <= i <= path.len(),
        i == 0 || path[i - 1] == '/',
        forall|j: int| i <= j < path.len() ==> path[j] != '/',
    ensures
        base_name_index(path) == i,
{
    lemma_base_name_index(path);
    let b = base_name_index(path);
    if b < i {
        assert(path[i - 1] == '/');
        assert(b <= i - 1 < path.len());
        assert(false);
    }
    if b > i {
        assert(path[b - 1] == '/');
        assert(i <= b - 1 < path.len());
        assert(false);
    }
}

/// Joining a slash-free name onto a directory leaves exactly that name as
/// the file-name part.
pub proof fn lemma_base_name_of_join(dir: Seq<char>, name: Seq<char>)
    requires
        no_slash(name),
    ensures
        base_name(dir + seq!['/'] + name) == name,
{
    let p = dir + seq!['/'] + name;
    assert(p[dir.len() as int] == '/');
    assert forall|j: int| dir.len() + 1 <= j < p.len() implies p[j] != '/' by {
        assert(p[j] == name[j - dir.len() - 1]);
    }
    lemma_base_name_index_unique(p, dir.len() + 1 as int);
    assert(p.subrange(dir.len() + 1 as int, p.len() as int) =~= name);
}

/// The index of the last '.' of a file name, or -1 when there is none.
pub open spec fn last_dot_index(name: Seq<char>) -> int
    decreases name.len(),
{
    if name.len() == 0 {
        -1
    } else if name[name.len() - 1] == '.' {
        name.len() - 1
    } else {
        last_dot_index(name.drop_last())
    }
}

/// A file name has an extension when its last '.' is neither absent nor the
/// leading character (a leading dot marks a hidden file, not an extension).
pub open spec fn has_extension(name: Seq<char>) -> bool {
    last_dot_index(name) > 0
}

/// The part of a file name before its last '.'.
pub open spec fn stem_of(name: Seq<char>) -> Seq<char> {
    name.subrange(0, last_dot_index(name))
}

/// The part of a file name after its last '.'.
pub open spec fn extension_of(name: Seq<char>) -> Seq<char> {
    name.subrange(last_dot_index(name) + 1, name.len() as int)
}

pub proof fn lemma_last_dot_index(name: Seq<char>)
    ensures
        -1 <= last_dot_index(name) < name.len(),
        last_dot_index(name) >= 0 ==> name[last_dot_index(name)] == '.',
        forall|j: int| last_dot_index(name) < j < name.len() ==> name[j] != '.',
    decreases name.len(),
{
    if name.len() == 0 {
    } else if name[name.len() - 1] == '.' {
    } else {
        lemma_last_dot_index(name.drop_last());
        assert forall|j: int| last_dot_index(name) < j < name.len() implies name[j] != '.' by {
            if j < name.len() - 1 {
                assert(name.drop_last()[j] == name[j]);
            }
        }
    }
}

/// The last '.' of a file name is the only '.' followed by no other.
pub proof fn lemma_last_dot_index_unique(name: Seq<char>, i: int)
    requires
        0 <= i < name.len(),
        name[i] == '.',
        forall|j: int| i < j < name.len() ==> name[j] != '.',
    ensures
        last_dot_index(name) == i,
{
    lemma_last_dot_index(name);
    let d = last_dot_index(name);
    if d < i {
        assert(name[i] == '.');
        assert(false);
    }
    if d > i {
        assert(name[d] == '.');
        assert(false);
    }
}

/// The file-name part of a path, as an owned string.
pub fn path_base_name(path: &str) -> (r: String)
    ensures
        r@ == base_name(path@),
{
    let len = path.unicode_len();
    match crate::text::last_index_of(path, '/') {
        Some(k) => {
            let r = path.substring_char(k + 1, len).to_owned();
            proof {
                lemma_base_name_index_unique(path@, k + 1);
            }
            r
        },
        None => {
            proof {
                lemma_base_name_index_unique(path@, 0);
                assert(path@.subrange(0, path@.len() as int) =~= path@);
            }
            path.to_owned()
        },
    }
}

/// Split a file name into its stem and extension.
fn split_name(name: &str) -> (r: (String, String))
    requires
        has_extension(name@),
    ensures
        r.0@ == stem_of(name@),
        r.1@ == extension_of(name@),
{
    proof {
        lemma_last_dot_index(name@);
    }
    let len = name.unicode_len();
    match crate::text::last_index_of(name, '.') {
        Some(k) => {
            proof {
                lemma_last_dot_index_unique(name@, k as int);
            }
            let stem = name.substring_char(0, k).to_owned();
            let ext = name.substring_char(k + 1, len).to_owned();
            (stem, ext)
        },
        None => {
            proof {
                assert(name@[last_dot_index(name@)] == '.');
                assert(false);
            }
            (String::new(), String::new())
        },
    }
}

/// Whether `c` may occur in a fresh staging suffix: a lowercase hexadecimal
/// digit or a hyphen.
pub open spec fn suffix_char(c: char) -> bool {
    c == '-' || ('0' <= c && c <= '9') || ('a' <= c && c <= 'f')
}

/// Relies on uuid::Uuid::new_v4 and on Uuid's Display implementation, which
/// uses the hyphenated encoding: 36 characters, lowercase hexadecimal
/// digits and hyphens. The value itself is random; nothing more is assumed
/// of it.
#[verifier::external_body]
fn fresh_staging_suffix() -> (r: String)
    ensures
        r@.len() == 36,
        forall|i: int| 0 <= i < r@.len() ==> suffix_char(r@[i]),
{
    uuid::Uuid::new_v4().to_string()
}

/// Derive the unique staging-copy name for a source file: the source file
/// name's stem, a fresh 36-character suffix, and the same extension.
pub fn generate_target_file(source_file_path: &str) -> (r: String)
    requires
        has_extension(base_name(source_file_path@)),
    ensures
        ({
            let name = base_name(source_file_path@);
            exists|u: Seq<char>|
                {
                    &&& u.len() == 36
                    &&& (forall|i: int| 0 <= i < u.len() ==> suffix_char(#[trigger] u[i]))
                    &&& r@ == stem_of(name) + seq!['-'] + u + seq!['.'] + extension_of(name)
                    &&& stem_of(r@) == stem_of(name) + seq!['-'] + u
                }
        }),
        has_extension(r@),
        extension_of(r@) == extension_of(base_name(source_file_path@)),
        r@.len() == base_name(source_file_path@).len() + 37,
        no_slash(r@),
{
    let name = path_base_name(source_file_path);
    let (stem, ext) = split_name(name.as_str());
    let suffix = fresh_staging_suffix();
    let mut r = crate::text::concat_strs(stem.as_str(), "-");
    r = crate::text::concat_strs(r.as_str(), suffix.as_str());
    r = crate::text::concat_strs(r.as_str(), ".");
    r = crate::text::concat_strs(r.as_str(), ext.as_str());
    proof {
        reveal_strlit("-");
        reveal_strlit(".");
        let n = name@;
        let u = suffix@;
        lemma_last_dot_index(n);
        lemma_base_name_index(source_file_path@);
        assert(r@ =~= stem_of(n) + seq!['-'] + u + seq!['.'] + extension_of(n));
        let dot = stem_of(n).len() + 1 + u.len();
        assert(r@[dot as int] == '.');
        assert forall|j: int| dot < j < r@.len() implies r@[j] != '.' by {
            assert(r@[j] == extension_of(n)[j - dot - 1]);
            assert(extension_of(n)[j - dot - 1] == n[j - dot + last_dot_index(n)]);
        }
        lemma_last_dot_index_unique(r@, dot as int);
        assert(stem_of(r@) =~= stem_of(n) + seq!['-'] + u);
        assert(extension_of(r@) =~= extension_of(n));
        assert forall|j: int| 0 <= j < r@.len() implies r@[j] != '/' by {
            if j < stem_of(n).len() {
                assert(r@[j] == n[j]);
            } else if j == stem_of(n).len() {
            } else if j < dot {
                assert(r@[j] == u[j - stem_of(n).len() - 1]);
                assert(suffix_char(u[j - stem_of(n).len() - 1]));
            } else if j == dot {
            } else {
                assert(r@[j] == n[j - dot + last_dot_index(n)]);
            }
        }
    }
    r
}

/// Derive the per-task output name from a staging name: same stem, an
/// `.out.` infix, same extension.
pub fn generate_output_file_name(target_file_name: &str) -> (r: String)
    requires
        has_extension(target_file_name@),
    ensures
        r@ == stem_of(target_file_name@) + ".out."@ + extension_of(target_file_name@),
        r@.len() == target_file_name@.len() + 4,
        no_slash(target_file_name@) ==> no_slash(r@),
{
    let (stem, ext) = split_name(target_file_name);
    let mut r = crate::text::concat_strs(stem.as_str(), ".out.");
    r = crate::text::concat_strs(r.as_str(), ext.as_str());
    proof {
        reveal_strlit(".out.");
        let n = target_file_name@;
        lemma_last_dot_index(n);
        assert(r@ =~= stem_of(n) + ".out."@ + extension_of(n));
        if no_slash(n) {
            assert forall|j: int| 0 <= j < r@.len() implies r@[j] != '/' by {
                if j < stem_of(n).len() {
                    assert(r@[j] == n[j]);
                } else if j < stem_of(n).len() + 5 {
                    assert(r@[j] == ".out."@[j - stem_of(n).len()]);
                } else {
                    assert(r@[j] == n[j - stem_of(n).len() - 5 + last_dot_index(n) + 1]);
                }
            }
        }
    }
    r
}

/// Join a file name onto a directory with a '/' separator.
pub fn join_path(directory: &str, name: &str) -> (r: String)
    ensures
        r@ == directory@ + seq!['/'] + name@,
{
    let mut r = crate::text::concat_strs(directory, "/");
    r = crate::text::concat_strs(r.as_str(), name);
    proof {
        reveal_strlit("/");
        assert(r@ =~= directory@ + seq!['/'] + name@);
    }
    r
}

/// The paths one workflow run works with: the original source file, and the
/// staged input and output files inside the scratchpad directory.
#[derive(Debug, Clone)]
pub struct RunPaths {
    pub scratchpad_directory: String,
    pub source_file: String,
    pub input_file: String,
    pub output_file: String,
}

impl RunPaths {
    /// The staged files live in the scratchpad under slash-free names whose
    /// lengths the staging scheme fixes: the input name is 37 characters
    /// longer than the source file name, the output name 4 longer still.
    pub open spec fn wf(&self) -> bool {
        exists|in_name: Seq<char>, out_name: Seq<char>|
            {
                &&& no_slash(in_name)
                &&& no_slash(out_name)
                &&& in_name.len() == base_name(self.source_file@).len() + 37
                &&& out_name.len() == in_name.len() + 4
                &&& self.input_file@ == self.scratchpad_directory@ + seq!['/'] + in_name
                &&& self.output_file@ == self.scratchpad_directory@ + seq!['/'] + out_name
            }
    }
}

/// The three paths of a run are pairwise distinct: the staged names are
/// strictly longer than the source file name, and the output name longer
/// than the input name, so no rename can ever hit the wrong file.
pub proof fn lemma_staged_paths_distinct(p: RunPaths)
    requires
        p.wf(),
    ensures
        p.input_file@ != p.source_file@,
        p.output_file@ != p.source_file@,
        p.input_file@ != p.output_file@,
{
    let (in_name, out_name) = choose|in_name: Seq<char>, out_name: Seq<char>|
        {
            &&& no_slash(in_name)
            &&& no_slash(out_name)
            &&& in_name.len() == base_name(p.source_file@).len() + 37
            &&& out_name.len() == in_name.len() + 4
            &&& p.input_file@ == p.scratchpad_directory@ + seq!['/'] + in_name
            &&& p.output_file@ == p.scratchpad_directory@ + seq!['/'] + out_name
        };
    lemma_base_name_of_join(p.scratchpad_directory@, in_name);
    lemma_base_name_of_join(p.scratchpad_directory@, out_name);
    assert(base_name(p.input_file@).len() == base_name(p.source_file@).len() + 37);
    assert(base_name(p.output_file@).len() == base_name(p.source_file@).len() + 41);
    assert(p.input_file@.len() != p.output_file@.len());
}

/// Derive the full set of run paths for one workflow run.
pub fn derive_run_paths(scratchpad_directory: &str, source_file: &str) -> (r: RunPaths)
    requires
        has_extension(base_name(source_file@)),
    ensures
        r.wf(),
        r.scratchpad_directory@ == scratchpad_directory@,
        r.source_file@ == source_file@,
        ({
            let name = base_name(source_file@);
            exists|u: Seq<char>|
                {
                    &&& u.len() == 36
                    &&& r.input_file@ == scratchpad_directory@ + seq!['/'] + (stem_of(name)
                        + seq!['-'] + u + seq!['.'] + extension_of(name))
                    &&& r.output_file@ == scratchpad_directory@ + seq!['/'] + (stem_of(name)
                        + seq!['-'] + u + ".out."@ + extension_of(name))
                }
        }),
{
    let target_name = generate_target_file(source_file);
    let output_name = generate_output_file_name(target_name.as_str());
    let input_file = join_path(scratchpad_directory, target_name.as_str());
    let output_file = join_path(scratchpad_directory, output_name.as_str());
    let r = RunPaths {
        scratchpad_directory: scratchpad_directory.to_owned(),
        source_file: source_file.to_owned(),
        input_file,
        output_file,
    };
    proof {
        let name = base_name(source_file@);
        let u = choose|u: Seq<char>|
            {
                &&& u.len() == 36
                &&& (forall|i: int| 0 <= i < u.len() ==> suffix_char(#[trigger] u[i]))
                &&& target_name@ == stem_of(name) + seq!['-'] + u + seq!['.'] + extension_of(name)
                &&& stem_of(target_name@) == stem_of(name) + seq!['-'] + u
            };
        assert(output_name@ =~= stem_of(name) + seq!['-'] + u + ".out."@ + extension_of(name));
        assert(r.wf()) by {
            assert(no_slash(target_name@) && no_slash(output_name@) && target_name@.len()
                == base_name(r.source_file@).len() + 37 && output_name@.len() == target_name@.len()
                + 4 && r.input_file@ == r.scratchpad_directory@ + seq!['/'] + target_name@
                && r.output_file@ == r.scratchpad_directory@ + seq!['/'] + output_name@);
        }
    }
    r
}

} // verus!
