//! Resolution of the target directory path, once at start-up.
//!
//! An optional positional argument names the directory; without one a fixed
//! subdirectory name is used. A relative choice is joined onto the working
//! directory; an absolute one (leading `/`) stands alone. Paths are treated
//! in POSIX form: only a leading `/` marks the choice as absolute, so on a
//! platform whose absolute paths begin otherwise (a drive letter) an
//! absolute argument is still joined under the working directory.

use vstd::prelude::*;

verus! {

/// The directory name a run of the program works with: the argument when
/// one was given, otherwise the fixed default `screens`.
pub open spec fn chosen_dir(arg: Option<String>) -> Seq<char> {
    match arg {
        Option::Some(a) => a@,
        Option::None => "screens"@,
    }
}

/// The resolved target path: the chosen directory itself when it is
/// absolute (leading `/`), otherwise the base (the working directory at
/// start-up) with exactly one `/` and the chosen directory appended.
pub open spec fn resolve_spec(base: Seq<char>, arg: Option<String>) -> Seq<char> {
    let d = chosen_dir(arg);
    if d.len() > 0 && d[0] == '/' {
        d
    } else if base.len() > 0 && base.last() == '/' {
        base + d
    } else {
        base + seq!['/'] + d
    }
}

/// Resolves the target directory from the working directory at start-up
/// and the optional positional argument. Resolution happens once; the
/// result is held for the process lifetime.
pub fn resolve_target(base: &str, arg: Option<String>) -> (r: String)
    ensures
        r@ == resolve_spec(base@, arg),
{
    proof {
        reveal_strlit("screens");
    }
    let dir: String = match arg {
        Some(a) => a,
        None => String::from_str("screens"),
    };
    if dir.as_str().unicode_len() > 0 && dir.as_str().get_char(0) == '/' {
        return dir;
    }
    let mut out = base.to_owned();
    if base.unicode_len() > 0 && base.get_char(base.unicode_len() - 1) == '/' {
        out.append(dir.as_str());
        return out;
    }
    crate::filename::push_char(&mut out, '/');
    out.append(dir.as_str());
    proof {
        assert(out@ =~= resolve_spec(base@, arg));
    }
    out
}

} // verus!
