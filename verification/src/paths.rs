//! Recognising Rust source files by the extension of their path.

use crate::scanner::{BACKSLASH, SLASH};
use crate::text::{ascii_lower, to_ascii_lower};
use vstd::prelude::*;
use vstd::string::*;

verus! {

pub const DOT: u8 = 46;

pub const COLON: u8 = 58;

/// `path` holds no backslash and no colon, and does not begin with `//`.
///
/// Such a path is split into components at `/` alone wherever `/` separates,
/// with no drive, share or device in front; and where `/` does not separate
/// it is one component.
pub open spec fn is_plain_path(path: Seq<u8>) -> bool {
    &&& forall|i: int|
        0 <= i < path.len() ==> #[trigger] path[i] != BACKSLASH && path[i] != COLON
    &&& !(path.len() >= 2 && path[0] == SLASH && path[1] == SLASH)
}

/// The last component of `path` starts at `start` and runs to the end of
/// `path`; `dot` is the last `.` in it and not its first byte; and the
/// component is not `..`.
pub open spec fn extension_dot(path: Seq<u8>, start: int, dot: int) -> bool {
    &&& 0 <= start < dot < path.len()
    &&& (start == 0 || path[start - 1] == SLASH)
    &&& forall|i: int| start <= i < path.len() ==> #[trigger] path[i] != SLASH
    &&& path[dot] == DOT
    &&& forall|i: int| dot < i < path.len() ==> #[trigger] path[i] != DOT
    &&& !(dot == start + 1 && path[start] == DOT && dot + 1 == path.len())
}

/// The bytes of `path` behind the position `dot`.
pub open spec fn after_dot(path: Seq<u8>, dot: int) -> Seq<u8> {
    path.subrange(dot + 1, path.len() as int)
}

/// The bytes of `ext` stand in `path` right behind a `.`.
pub open spec fn follows_dot(path: Seq<u8>, ext: Seq<u8>) -> bool {
    exists|i: int|
        0 <= i && i + 1 + ext.len() <= path.len() && #[trigger] path[i] == DOT && path.subrange(
            i + 1,
            i + 1 + ext.len(),
        ) == ext
}

/// `ext` is `rs`, in capitals or not.
pub open spec fn is_rs(ext: Seq<u8>) -> bool {
    ext.len() == 2 && ascii_lower(ext[0]) == 114 && ascii_lower(ext[1]) == 115
}

/// `.rs` stands at `i`, in capitals or not.
pub open spec fn dot_rs_at(path: Seq<u8>, i: int) -> bool {
    &&& 0 <= i
    &&& i + 2 < path.len()
    &&& path[i] == DOT
    &&& ascii_lower(path[i + 1]) == 114
    &&& ascii_lower(path[i + 2]) == 115
}

/// `.rs` stands somewhere in `path`, in capitals or not.
pub open spec fn mentions_rs_extension(path: Seq<u8>) -> bool {
    exists|i: int| dot_rs_at(path, i)
}

/// `README.md` holds no `.rs`, so it is no Rust file.
pub proof fn lemma_readme_has_no_rs_extension()
    ensures
        !mentions_rs_extension("README.md".spec_bytes()),
{
    reveal_strlit("README.md");
    let path = "README.md";
    assert(is_ascii(path)) by {
        assert(path@.len() == 9);
        assert forall|i: int| 0 <= i < path@.len() implies (path@[i] as u32) < 128 by {}
    }
    is_ascii_spec_bytes(path);
    let bytes = path.spec_bytes();
    assert(bytes.len() == 9);
    assert forall|i: int| !dot_rs_at(bytes, i) by {
        if 0 <= i && i + 2 < 9 {
            assert(bytes[i] == path@[i] as u8);
            assert(bytes[i + 1] == path@[i + 1] as u8);
        }
    }
}

/// `src/main.rs` is a plain path whose last component starts at 4 and has its
/// last `.` at 8, with `rs` behind it.
pub proof fn lemma_src_main_rs_has_rs_extension()
    ensures
        is_plain_path("src/main.rs".spec_bytes()),
        extension_dot("src/main.rs".spec_bytes(), 4, 8),
        is_rs(after_dot("src/main.rs".spec_bytes(), 8)),
{
    reveal_strlit("src/main.rs");
    let path = "src/main.rs";
    assert(is_ascii(path)) by {
        assert forall|i: int| 0 <= i < path@.len() implies (path@[i] as u32) < 128 by {}
    }
    is_ascii_spec_bytes(path);
    let bytes = path.spec_bytes();
    assert(bytes.len() == 11);
    assert(bytes[3] == SLASH && bytes[8] == DOT);
    assert(after_dot(bytes, 8).len() == 2);
    assert(after_dot(bytes, 8)[0] == bytes[9]);
    assert(after_dot(bytes, 8)[1] == bytes[10]);
}

/// The extension of `path` as `std::path::Path::extension` gives it, where it
/// is text.
///
/// Believed, not proved, of every platform:
/// - An extension is the part of the file name behind its last `.`, so its
///   bytes stand in `path` right behind a `.`.
/// - The file name is the last component of the path, and it has an
///   extension unless it is `..`, holds no `.`, or holds its only `.` as its
///   first byte. So where a plain path ends in a component with a `.` behind
///   its first byte, the extension is there, and is what follows the last
///   `.`.
///
/// Of other paths nothing more is said: which part of them is the file name
/// depends on the platform's separators and prefixes.
#[verifier::external_body]
fn path_extension<'a>(path: &'a str) -> (ext: Option<&'a str>)
    ensures
        ext matches Some(e) ==> follows_dot(path.spec_bytes(), e.spec_bytes()),
        forall|start: int, dot: int|
            is_plain_path(path.spec_bytes()) && #[trigger] extension_dot(
                path.spec_bytes(),
                start,
                dot,
            ) ==> ext is Some && ext->Some_0.spec_bytes() == after_dot(path.spec_bytes(), dot),
{
    std::path::Path::new(path).extension().and_then(|e| e.to_str())
}

/// Tells whether `ext` is the extension of a Rust source file: `rs`, in
/// capitals or not.
pub fn extension_is_rust(ext: &str) -> (rust: bool)
    ensures
        rust == is_rs(ext.spec_bytes()),
{
    let bytes = ext.as_bytes();
    bytes.len() == 2 && to_ascii_lower(bytes[0]) == 114 && to_ascii_lower(bytes[1]) == 115
}

/// What is made of the extension that was found for a path, if one was
/// found: a Rust source file has the extension `rs`, in capitals or not.
pub open spec fn rust_extension(ext: Option<&str>) -> bool {
    ext matches Some(e) && is_rs(e.spec_bytes())
}

/// Tells whether the extension found for a path, if one was found, is that
/// of a Rust source file.
pub fn has_rust_extension(ext: Option<&str>) -> (rust: bool)
    ensures
        rust == rust_extension(ext),
{
    match ext {
        Some(e) => extension_is_rust(e),
        None => false,
    }
}

/// Tells whether `file_path` names a Rust source file, by its extension.
///
/// The extension is found by the standard library. For a plain path that
/// ends in a component with a `.` behind its first byte, the answer is
/// whether `rs` follows the last `.`, in capitals or not. For other paths the
/// platform decides which part is the file name, and the contract says what
/// holds of every answer: a path without `.rs` in it is no Rust file.
pub fn is_rust_file(file_path: &str) -> (rust: bool)
    ensures
        rust ==> mentions_rs_extension(file_path.spec_bytes()),
        forall|start: int, dot: int|
            is_plain_path(file_path.spec_bytes()) && #[trigger] extension_dot(
                file_path.spec_bytes(),
                start,
                dot,
            ) ==> rust == is_rs(after_dot(file_path.spec_bytes(), dot)),
{
    let found = path_extension(file_path);
    let rust = has_rust_extension(found);
    proof {
        if rust {
            let path = file_path.spec_bytes();
            let e = found->Some_0.spec_bytes();
            let i = choose|i: int|
                0 <= i && i + 1 + e.len() <= path.len() && #[trigger] path[i] == DOT
                    && path.subrange(i + 1, i + 1 + e.len()) == e;
            assert(path[i + 1] == e[0]);
            assert(path[i + 2] == e[1]);
            assert(dot_rs_at(path, i));
        }
    }
    rust
}

} // verus!
