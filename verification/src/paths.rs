//! Path conventions.
//!
//! Paths are plain strings. Joining inserts a single `/`; a path counts as
//! absolute when it starts with a path separator or with a drive letter
//! followed by `:` and a separator. Both `/` and `\` are accepted as
//! separators in manifest-supplied paths.

use vstd::prelude::*;

verus! {

/// Vendor directory name under the host's program-data root.
pub const VENDOR_DIR: &'static str = "XiaoHaiAssistant";

/// True for the two accepted path separator characters.
pub open spec fn is_sep(c: char) -> bool {
    c == '/' || c == '\\'
}

/// True when `c` is an ASCII letter.
pub open spec fn is_ascii_alpha(c: char) -> bool {
    ('a' as u32 <= c as u32 && c as u32 <= 'z' as u32) || ('A' as u32 <= c as u32 && c as u32
        <= 'Z' as u32)
}

/// A path is absolute when it starts with a separator, or with a drive
/// letter, a colon and a separator.
pub open spec fn is_absolute(p: Seq<char>) -> bool {
    ||| (p.len() >= 1 && is_sep(p[0]))
    ||| (p.len() >= 3 && is_ascii_alpha(p[0]) && p[1] == ':' && is_sep(p[2]))
}

/// `base` followed by a single `/` and `rel`.
pub open spec fn join_seq(base: Seq<char>, rel: Seq<char>) -> Seq<char> {
    base + seq!['/'] + rel
}

/// True when `p` lies strictly below the directory `dir`: `dir` is a proper
/// prefix of `p` and a separator follows it.
pub open spec fn under(dir: Seq<char>, p: Seq<char>) -> bool {
    &&& p.len() > dir.len()
    &&& p.subrange(0, dir.len() as int) == dir
    &&& is_sep(p[dir.len() as int])
}

/// True when `p` is `dir` itself or lies below it.
pub open spec fn under_or_eq(dir: Seq<char>, p: Seq<char>) -> bool {
    p == dir || under(dir, p)
}

/// Joins `rel` onto `base` with a single separator.
pub fn join_path(base: &String, rel: &String) -> (r: String)
    ensures
        r@ == join_seq(base@, rel@),
{
    proof {
        reveal_strlit("/");
    }
    let mut s = base.clone();
    s.append("/");
    s.append(rel.as_str());
    assert(s@ =~= join_seq(base@, rel@));
    s
}

/// Whether the path string is absolute under this crate's rule.
pub fn is_absolute_path(p: &String) -> (r: bool)
    ensures
        r == is_absolute(p@),
{
    let n = p.as_str().unicode_len();
    if n >= 1 {
        let c0 = p.as_str().get_char(0);
        if c0 == '/' || c0 == '\\' {
            return true;
        }
        if n >= 3 {
            let u0 = c0 as u32;
            let alpha = (97 <= u0 && u0 <= 122) || (65 <= u0 && u0 <= 90);
            let c1 = p.as_str().get_char(1);
            let c2 = p.as_str().get_char(2);
            if alpha && c1 == ':' && (c2 == '/' || c2 == '\\') {
                return true;
            }
        }
    }
    false
}

/// Whether `p` lies strictly below the directory `dir`.
pub fn is_under(dir: &String, p: &String) -> (r: bool)
    ensures
        r == under(dir@, p@),
{
    let dn = dir.as_str().unicode_len();
    let pn = p.as_str().unicode_len();
    if pn <= dn {
        return false;
    }
    let c = p.as_str().get_char(dn);
    if !(c == '/' || c == '\\') {
        return false;
    }
    let mut i: usize = 0;
    while i < dn
        invariant
            0 <= i <= dn,
            dn < pn,
            dn == dir@.len(),
            pn == p@.len(),
            forall|j: int| 0 <= j < i ==> p@[j] == dir@[j],
        decreases dn - i,
    {
        if p.as_str().get_char(i) != dir.as_str().get_char(i) {
            assert(p@.subrange(0, dn as int)[i as int] != dir@[i as int]);
            return false;
        }
        i = i + 1;
    }
    assert(p@.subrange(0, dn as int) =~= dir@);
    true
}

/// Whether `p` is the directory `dir` itself or lies below it.
pub fn is_under_or_eq(dir: &String, p: &String) -> (r: bool)
    ensures
        r == under_or_eq(dir@, p@),
{
    if *dir == *p {
        assert(dir@ == p@);
        true
    } else {
        is_under(dir, p)
    }
}

/// Error of path resolution.
#[derive(Debug)]
pub enum PathError {
    /// The manifest supplied an empty path.
    Empty,
}

/// What `resolve_path` yields: an error on an empty path, the path itself
/// when absolute, the join onto `base` otherwise.
pub open spec fn resolve_spec(base: Seq<char>, raw: Seq<char>) -> Result<Seq<char>, PathError> {
    if raw.len() == 0 {
        Err(PathError::Empty)
    } else if is_absolute(raw) {
        Ok(raw)
    } else {
        Ok(join_seq(base, raw))
    }
}

/// Resolves a manifest path against a base directory. An empty path is
/// rejected; an absolute path is returned as is; a relative path is joined
/// onto the base.
pub fn resolve_path(base: &String, raw: &String) -> (r: Result<String, PathError>)
    ensures
        match r {
            Ok(p) => resolve_spec(base@, raw@) == Ok::<Seq<char>, PathError>(p@),
            Err(e) => resolve_spec(base@, raw@) == Err::<Seq<char>, PathError>(e),
        },
{
    if raw.as_str().unicode_len() == 0 {
        return Err(PathError::Empty);
    }
    if is_absolute_path(raw) {
        Ok(raw.clone())
    } else {
        Ok(join_path(base, raw))
    }
}

/// What `resolve_under_install_root` yields: the path itself when absolute,
/// the join onto the install root otherwise.
pub open spec fn resolve_under_spec(root: Seq<char>, raw: Seq<char>) -> Seq<char> {
    if is_absolute(raw) {
        raw
    } else {
        join_seq(root, raw)
    }
}

/// Resolves a launcher path against the install root; absolute paths pass
/// through unchanged.
pub fn resolve_under_install_root(install_root: &String, raw: &String) -> (r: String)
    ensures
        r@ == resolve_under_spec(install_root@, raw@),
{
    if is_absolute_path(raw) {
        raw.clone()
    } else {
        join_path(install_root, raw)
    }
}

/// The vendor directory under the host's program-data root.
pub open spec fn program_data_dir_spec(program_data: Seq<char>) -> Seq<char> {
    join_seq(program_data, VENDOR_DIR@)
}

/// Returns the vendor directory under the given program-data root.
pub fn program_data_dir(program_data: &String) -> (r: String)
    ensures
        r@ == program_data_dir_spec(program_data@),
{
    let vendor = VENDOR_DIR.to_owned();
    join_path(program_data, &vendor)
}

/// The default data root below the vendor directory.
pub open spec fn data_root_spec(program_data: Seq<char>) -> Seq<char> {
    join_seq(program_data_dir_spec(program_data), "data"@)
}

/// Returns the default data root below the vendor directory.
pub fn default_data_root(program_data: &String) -> (r: String)
    ensures
        r@ == data_root_spec(program_data@),
{
    let base = program_data_dir(program_data);
    let leaf = "data".to_owned();
    join_path(&base, &leaf)
}

/// The default plugin directory below the vendor directory.
pub open spec fn plugin_dir_spec(program_data: Seq<char>) -> Seq<char> {
    join_seq(program_data_dir_spec(program_data), "plugins"@)
}

/// Returns the default plugin directory below the vendor directory.
pub fn default_plugin_dir(program_data: &String) -> (r: String)
    ensures
        r@ == plugin_dir_spec(program_data@),
{
    let base = program_data_dir(program_data);
    let leaf = "plugins".to_owned();
    join_path(&base, &leaf)
}

/// The default state-document path below the vendor directory.
pub open spec fn state_file_spec(program_data: Seq<char>) -> Seq<char> {
    join_seq(program_data_dir_spec(program_data), "install-state.json"@)
}

/// Returns the default state-document path below the vendor directory.
pub fn default_state_file(program_data: &String) -> (r: String)
    ensures
        r@ == state_file_spec(program_data@),
{
    let base = program_data_dir(program_data);
    let leaf = "install-state.json".to_owned();
    join_path(&base, &leaf)
}

} // verus!
