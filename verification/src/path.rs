//! Paths as text, joined by the Unix rules, and the name of the lock file.

use vstd::prelude::*;
use vstd::string::*;
use crate::decimal::{decimal, lemma_decimal_injective, push_decimal};

verus! {

/// Whether the path `p` starts at the root.
pub open spec fn is_absolute(p: Seq<char>) -> bool {
    p.len() > 0 && p[0] == '/'
}

/// The path `name` as seen from the directory `base`: an absolute `name`
/// stands for itself; any other follows `base`, after one `/` unless `base` is
/// empty or ends in one already.
pub open spec fn joined(base: Seq<char>, name: Seq<char>) -> Seq<char> {
    if is_absolute(name) {
        name
    } else if base.len() > 0 && base.last() != '/' {
        base + seq!['/'] + name
    } else {
        base + name
    }
}

/// The name of the lock file of the server on `port`: `server-`, the port in
/// decimal, `.pid`.
pub open spec fn lock_file_name(port: u16) -> Seq<char> {
    "server-"@ + decimal(port as nat) + ".pid"@
}

/// The path of the lock file for `port` under the base directory `base_dir`.
pub open spec fn lock_path(base_dir: Seq<char>, port: u16) -> Seq<char> {
    joined(base_dir, lock_file_name(port))
}

/// The lock file's name is a relative path.
pub proof fn lemma_lock_file_name_relative(port: u16)
    ensures
        !is_absolute(lock_file_name(port)),
{
    reveal_strlit("server-");
    assert(lock_file_name(port)[0] == 's');
}

/// Distinct ports have distinct lock-file names.
pub proof fn lemma_lock_file_names_distinct(port_a: u16, port_b: u16)
    requires
        port_a != port_b,
    ensures
        lock_file_name(port_a) != lock_file_name(port_b),
{
    let pre = "server-"@;
    let post = ".pid"@;
    let digits_a = decimal(port_a as nat);
    let digits_b = decimal(port_b as nat);
    let name_a = lock_file_name(port_a);
    let name_b = lock_file_name(port_b);
    if name_a == name_b {
        assert(name_a.len() == pre.len() + digits_a.len() + post.len());
        assert(name_b.len() == pre.len() + digits_b.len() + post.len());
        assert(name_a.subrange(pre.len() as int, (pre.len() + digits_a.len()) as int) =~= digits_a);
        assert(name_b.subrange(pre.len() as int, (pre.len() + digits_b.len()) as int) =~= digits_b);
        lemma_decimal_injective(port_a as nat, port_b as nat);
    }
}

/// Within one directory, distinct relative names are distinct paths.
pub proof fn lemma_joined_injective(base: Seq<char>, a: Seq<char>, b: Seq<char>)
    requires
        !is_absolute(a),
        !is_absolute(b),
        a != b,
    ensures
        joined(base, a) != joined(base, b),
{
    let ja = joined(base, a);
    let jb = joined(base, b);
    if ja == jb {
        let k = ja.len() - a.len();
        assert(jb.len() - b.len() == k);
        assert(ja.subrange(k, ja.len() as int) =~= a);
        assert(jb.subrange(k, jb.len() as int) =~= b);
    }
}

/// Within one base directory, the servers on two distinct ports have two
/// distinct lock files.
pub proof fn lemma_lock_paths_distinct(base_dir: Seq<char>, port_a: u16, port_b: u16)
    requires
        port_a != port_b,
    ensures
        lock_path(base_dir, port_a) != lock_path(base_dir, port_b),
{
    lemma_lock_file_name_relative(port_a);
    lemma_lock_file_name_relative(port_b);
    lemma_lock_file_names_distinct(port_a, port_b);
    lemma_joined_injective(base_dir, lock_file_name(port_a), lock_file_name(port_b));
}

/// Joins `name` onto `base`.
pub fn join(base: &str, name: &str) -> (path: String)
    ensures
        path@ == joined(base@, name@),
{
    let name_len: usize = name.unicode_len();
    if name_len > 0 && name.get_char(0) == '/' {
        return String::from_str(name);
    }
    let mut path = String::from_str(base);
    let base_len: usize = base.unicode_len();
    if base_len > 0 && base.get_char(base_len - 1) != '/' {
        proof {
            reveal_strlit("/");
        }
        path.append("/");
        assert("/"@ =~= seq!['/']);
    }
    path.append(name);
    path
}

/// The lock file's name for `port`, as a string.
pub fn lock_file_name_string(port: u16) -> (name: String)
    ensures
        name@ == lock_file_name(port),
{
    let mut name = String::from_str("server-");
    push_decimal(&mut name, port as u32);
    name.append(".pid");
    name
}

/// The path of the lock file for `port` under the base directory `base_dir`.
pub fn path_for(base_dir: &str, port: u16) -> (path: String)
    ensures
        path@ == lock_path(base_dir@, port),
{
    let name = lock_file_name_string(port);
    join(base_dir, name.as_str())
}

} // verus!
