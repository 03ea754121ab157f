//! Process-presence detection for the launcher.
//!
//! A running application is recognised by its executable file name,
//! compared case-insensitively against the names of the processes running
//! now. The name comparison and the file-name extraction are exact; what
//! processes run is the machine's business.

use vstd::prelude::*;

use crate::paths::is_sep;
use crate::state::seq_views;

verus! {

/// Whether two characters are the same letter up to ASCII case.
pub open spec fn same_char_ci(a: char, b: char) -> bool {
    ||| a == b
    ||| (crate::paths::is_ascii_alpha(a) && crate::paths::is_ascii_alpha(b) && (a as u32 == b
        as u32 + 32 || b as u32 == a as u32 + 32))
}

/// Whether two texts agree character by character up to ASCII case.
pub open spec fn eq_ignore_ascii_case(x: Seq<char>, y: Seq<char>) -> bool {
    x.len() == y.len() && (forall|i: int| 0 <= i < x.len() ==> same_char_ci(x[i], #[trigger] y[i]))
}

/// Compares two texts up to ASCII case.
pub fn str_eq_ignore_case(x: &String, y: &String) -> (r: bool)
    ensures
        r == eq_ignore_ascii_case(x@, y@),
{
    let n = x.as_str().unicode_len();
    if n != y.as_str().unicode_len() {
        return false;
    }
    let mut i: usize = 0;
    while i < n
        invariant
            0 <= i <= n,
            n == x@.len(),
            n == y@.len(),
            forall|j: int| 0 <= j < i ==> same_char_ci(x@[j], #[trigger] y@[j]),
        decreases n - i,
    {
        let a = x.as_str().get_char(i) as u32;
        let b = y.as_str().get_char(i) as u32;
        let a_alpha = (97 <= a && a <= 122) || (65 <= a && a <= 90);
        let b_alpha = (97 <= b && b <= 122) || (65 <= b && b <= 90);
        let same = a == b || (a_alpha && b_alpha && (a == b + 32 || b == a + 32));
        if !same {
            assert(!same_char_ci(x@[i as int], y@[i as int]));
            return false;
        }
        i = i + 1;
    }
    true
}

/// The file name of a path: everything after the last separator.
pub open spec fn file_name_of(p: Seq<char>) -> Seq<char>
    decreases p.len(),
{
    if p.len() == 0 {
        p
    } else if is_sep(p.last()) {
        Seq::<char>::empty()
    } else {
        file_name_of(p.drop_last()).push(p.last())
    }
}

/// The file name is the separator-free suffix of the path.
proof fn lemma_file_name_suffix(p: Seq<char>, k: int)
    requires
        0 <= k <= p.len(),
        forall|j: int| k <= j < p.len() ==> !is_sep(#[trigger] p[j]),
        k > 0 ==> is_sep(p[k - 1]),
    ensures
        file_name_of(p) == p.skip(k),
    decreases p.len(),
{
    if p.len() == k {
        if k == 0 {
            assert(p.skip(0) =~= p);
        } else {
            assert(is_sep(p.last()));
            assert(p.skip(k) =~= Seq::<char>::empty());
        }
    } else {
        assert(!is_sep(p.last()));
        lemma_file_name_suffix(p.drop_last(), k);
        assert(file_name_of(p) == p.drop_last().skip(k).push(p.last()));
        assert(p.drop_last().skip(k).push(p.last()) =~= p.skip(k));
    }
}

/// Extracts a path's file name.
pub fn file_name(p: &String) -> (r: String)
    ensures
        r@ == file_name_of(p@),
{
    let n = p.as_str().unicode_len();
    let mut k: usize = n;
    while k > 0
        invariant_except_break
            0 <= k <= n,
            n == p@.len(),
            forall|j: int| k <= j < n ==> !is_sep(#[trigger] p@[j]),
        ensures
            0 <= k <= n,
            n == p@.len(),
            forall|j: int| k <= j < n ==> !is_sep(#[trigger] p@[j]),
            k > 0 ==> is_sep(p@[k - 1]),
        decreases k,
    {
        let c = p.as_str().get_char(k - 1);
        if c == '/' || c == '\\' {
            break ;
        }
        k = k - 1;
    }
    proof {
        lemma_file_name_suffix(p@, k as int);
    }
    let r = p.as_str().substring_char(k, n).to_owned();
    proof {
        assert(r@ =~= p@.skip(k as int));
    }
    r
}

/// Whether the name list holds an entry equal, up to ASCII case, to the
/// executable file name of the path; an empty file name matches nothing.
pub open spec fn process_listed(names: Seq<Seq<char>>, exe_path: Seq<char>) -> bool {
    &&& file_name_of(exe_path).len() > 0
    &&& (exists|i: int|
        0 <= i < names.len() && eq_ignore_ascii_case(#[trigger] names[i], file_name_of(exe_path)))
}

/// Decides whether a process list holds the executable's file name.
pub fn process_name_listed(names: &Vec<String>, exe_path: &String) -> (r: bool)
    ensures
        r == process_listed(seq_views(names@), exe_path@),
{
    let needle = file_name(exe_path);
    if needle.as_str().unicode_len() == 0 {
        return false;
    }
    let mut i: usize = 0;
    while i < names.len()
        invariant
            0 <= i <= names@.len(),
            needle@ == file_name_of(exe_path@),
            needle@.len() > 0,
            forall|j: int|
                0 <= j < i ==> !eq_ignore_ascii_case(
                    #[trigger] seq_views(names@)[j],
                    file_name_of(exe_path@),
                ),
        decreases names@.len() - i,
    {
        if str_eq_ignore_case(&names[i], &needle) {
            assert(seq_views(names@)[i as int] == names@[i as int]@);
            return true;
        }
        i = i + 1;
    }
    false
}

/// Relies on sysinfo's System: the names of the processes running now.
/// Nothing is assumed of the list; what follows from it is decided by
/// `process_name_listed`.
#[verifier::external_body]
fn running_process_names() -> (r: Vec<String>) {
    let system = sysinfo::System::new_all();
    system.processes().values().map(|p| p.name().to_string_lossy().to_string()).collect()
}

/// Whether a process whose name matches the executable's file name, up to
/// ASCII case, is running now. The outcome depends on the machine; the
/// decision over any given process list is `process_name_listed`.
pub fn is_process_running_by_exe(exe_path: &String) -> (r: Result<bool, ()>) {
    let names = running_process_names();
    Ok(process_name_listed(&names, exe_path))
}

} // verus!
