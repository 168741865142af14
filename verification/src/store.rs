//! Names of the files of an artifact.
//!
//! An artifact is a set of sibling files in the store directory that share
//! the content key as their stem and differ by extension only.

use vstd::prelude::*;
use vstd::string::StringExecFns;

verus! {

/// The files that make up an artifact.
#[derive(Debug, Clone, Copy, PartialEq, Eq, Structural)]
pub enum FileKind {
    /// The source document.
    Source,
    /// The device-independent output of the compiler.
    Intermediate,
    /// The final vector graphic.
    Vector,
}

impl FileKind {
    /// The extension of files of this kind.
    pub open spec fn extension(self) -> Seq<char> {
        match self {
            FileKind::Source => "tex"@,
            FileKind::Intermediate => "dvi"@,
            FileKind::Vector => "svg"@,
        }
    }

    /// The extension of files of this kind.
    pub fn ext(self) -> (e: &'static str)
        ensures
            e@ == self.extension(),
    {
        match self {
            FileKind::Source => "tex",
            FileKind::Intermediate => "dvi",
            FileKind::Vector => "svg",
        }
    }
}

/// The name of one file of an artifact: `<key>.<ext>`.
pub open spec fn file_name(key: Seq<char>, kind: FileKind) -> Seq<char> {
    key + "."@ + kind.extension()
}

/// The location of one file of an artifact: `<store>/<key>.<ext>`.
pub open spec fn artifact_path(store: Seq<char>, key: Seq<char>, kind: FileKind) -> Seq<char> {
    store + "/"@ + file_name(key, kind)
}

/// The name of the file of kind `kind` of the artifact `key`.
pub fn artifact_file_name(key: &str, kind: FileKind) -> (name: String)
    ensures
        name@ == file_name(key@, kind),
{
    let mut name = String::from_str(key);
    name.append(".");
    name.append(kind.ext());
    name
}

/// The location of the file of kind `kind` of the artifact `key` in `store`.
pub fn artifact_location(store: &str, key: &str, kind: FileKind) -> (path: String)
    ensures
        path@ == artifact_path(store@, key@, kind),
{
    let mut path = String::from_str(store);
    path.append("/");
    path.append(key);
    path.append(".");
    path.append(kind.ext());
    assert(path@ == artifact_path(store@, key@, kind));
    path
}

/// The files of one artifact lie at different locations, so the presence of
/// one says nothing of another.
pub proof fn lemma_kinds_have_distinct_paths(
    store: Seq<char>,
    key: Seq<char>,
    a: FileKind,
    b: FileKind,
)
    requires
        a != b,
    ensures
        file_name(key, a) != file_name(key, b),
        artifact_path(store, key, a) != artifact_path(store, key, b),
{
    reveal_strlit("tex");
    reveal_strlit("dvi");
    reveal_strlit("svg");
    assert(a.extension().len() == 3 && b.extension().len() == 3);
    assert(a.extension().last() != b.extension().last());
    assert(file_name(key, a).last() == a.extension().last());
    assert(file_name(key, b).last() == b.extension().last());
    assert(artifact_path(store, key, a).last() == a.extension().last());
    assert(artifact_path(store, key, b).last() == b.extension().last());
}

/// Artifacts with different keys share no file.
pub proof fn lemma_keys_have_distinct_paths(
    store: Seq<char>,
    a: Seq<char>,
    b: Seq<char>,
    kind: FileKind,
)
    requires
        a != b,
    ensures
        artifact_path(store, a, kind) != artifact_path(store, b, kind),
{
    let pa = artifact_path(store, a, kind);
    let pb = artifact_path(store, b, kind);
    let offset = (store + "/"@).len();
    if pa == pb {
        assert(pa.len() == offset + a.len() + "."@.len() + kind.extension().len());
        assert(pb.len() == offset + b.len() + "."@.len() + kind.extension().len());
        assert forall|i: int| 0 <= i < a.len() implies a[i] == b[i] by {
            assert(pa[offset + i] == a[i]);
            assert(pb[offset + i] == b[i]);
        }
        assert(a =~= b);
    }
}

} // verus!
