//! Which files of the provider's archive the identity libraries are.
use vstd::prelude::*;
use crate::text::{chars_of, extend_chars, matches_at, slice_of, starts_at, string_of};

verus! {

/// The directory of the archive that holds the libraries for a processor
/// architecture, for the architectures that have one.
pub open spec fn arch_directory(arch: Seq<char>) -> Option<Seq<char>> {
    if arch == "x86_64"@ {
        Some("x86_64"@)
    } else if arch == "x86"@ {
        Some("x86"@)
    } else if arch == "aarch64"@ {
        Some("arm64-v8a"@)
    } else if arch == "arm"@ {
        Some("armeabi-v7a"@)
    } else {
        None
    }
}

fn same(a: &[char], b: &[char]) -> (r: bool)
    ensures
        r == (a@ == b@),
{
    if a.len() != b.len() {
        return false;
    }
    let r = starts_at(a, b, 0);
    proof {
        assert(a@.subrange(0, a@.len() as int) =~= a@);
    }
    r
}

/// Names the archive directory for a processor architecture.
pub fn arch_dir(arch: &str) -> (r: Option<String>)
    ensures
        match r {
            Some(dir) => arch_directory(arch@) == Some(dir@),
            None => arch_directory(arch@) is None,
        },
{
    let a = chars_of(arch);
    if same(a.as_slice(), chars_of("x86_64").as_slice()) {
        Some("x86_64".to_owned())
    } else if same(a.as_slice(), chars_of("x86").as_slice()) {
        Some("x86".to_owned())
    } else if same(a.as_slice(), chars_of("aarch64").as_slice()) {
        Some("arm64-v8a".to_owned())
    } else if same(a.as_slice(), chars_of("arm").as_slice()) {
        Some("armeabi-v7a".to_owned())
    } else {
        None
    }
}

/// Where the last component of a path begins: behind its last `/` before
/// `hi`, or at the start.
pub open spec fn component_start(path: Seq<char>, hi: int) -> int
    decreases hi,
{
    if hi <= 0 || hi > path.len() {
        0
    } else if path[hi - 1] == '/' {
        hi
    } else {
        component_start(path, hi - 1)
    }
}

/// The last component of a path.
pub open spec fn file_name(path: Seq<char>) -> Seq<char> {
    path.skip(component_start(path, path.len() as int))
}

/// `s` ends with `suffix`.
pub open spec fn ends_with(s: Seq<char>, suffix: Seq<char>) -> bool {
    matches_at(s, suffix, s.len() - suffix.len())
}

/// One of the two identity libraries.
pub open spec fn is_library(name: Seq<char>) -> bool {
    name == "libstoreservicescore.so"@ || name == "libCoreADI.so"@
}

/// The name under which an entry of the archive is to be stored: the entry
/// lies under the directory of the architecture, is a shared object, and its
/// file name is that of one of the two libraries.
pub open spec fn wanted(entry: Seq<char>, dir: Seq<char>) -> Option<Seq<char>> {
    if matches_at(entry, "lib/"@ + dir + "/"@, 0) && ends_with(entry, ".so"@) && is_library(
        file_name(entry),
    ) {
        Some(file_name(entry))
    } else {
        None
    }
}

/// Decides whether an entry of the archive is to be unpacked, and under
/// which file name.
pub fn wanted_library(entry: &str, dir: &str) -> (r: Option<String>)
    ensures
        match r {
            Some(name) => wanted(entry@, dir@) == Some(name@),
            None => wanted(entry@, dir@) is None,
        },
{
    let path = chars_of(entry);
    let mut prefix = chars_of("lib/");
    extend_chars(&mut prefix, chars_of(dir).as_slice());
    extend_chars(&mut prefix, chars_of("/").as_slice());
    if !starts_at(path.as_slice(), prefix.as_slice(), 0) {
        return None;
    }
    let suffix = chars_of(".so");
    if suffix.len() > path.len() || !starts_at(
        path.as_slice(),
        suffix.as_slice(),
        path.len() - suffix.len(),
    ) {
        return None;
    }
    let mut start: usize = path.len();
    while start > 0 && path[start - 1] != '/'
        invariant
            start <= path.len(),
            component_start(path@, path@.len() as int) == component_start(path@, start as int),
        decreases start,
    {
        start -= 1;
    }
    let name = slice_of(path.as_slice(), start, path.len());
    assert(name@ =~= file_name(path@));
    if same(name.as_slice(), chars_of("libstoreservicescore.so").as_slice()) || same(
        name.as_slice(),
        chars_of("libCoreADI.so").as_slice(),
    ) {
        Some(string_of(name.as_slice()))
    } else {
        None
    }
}

/// Tells whether the libraries have to be fetched: they do unless both are
/// in place.
pub fn needs_provisioning(has_store_services: bool, has_core_adi: bool) -> (r: bool)
    ensures
        r == !(has_store_services && has_core_adi),
{
    !has_store_services || !has_core_adi
}

} // verus!
