use texcache::store::{artifact_file_name, artifact_location, FileKind};

#[test]
fn file_names_share_the_stem() {
    assert_eq!(artifact_file_name("0123456789abcdef01234567", FileKind::Source), "0123456789abcdef01234567.tex");
    assert_eq!(artifact_file_name("0123456789abcdef01234567", FileKind::Intermediate), "0123456789abcdef01234567.dvi");
    assert_eq!(artifact_file_name("0123456789abcdef01234567", FileKind::Vector), "0123456789abcdef01234567.svg");
}

#[test]
fn locations_lie_in_the_store() {
    assert_eq!(artifact_location("/tmp/arts", "abc", FileKind::Source), "/tmp/arts/abc.tex");
    assert_eq!(artifact_location("/tmp/arts", "abc", FileKind::Intermediate), "/tmp/arts/abc.dvi");
    assert_eq!(artifact_location("/tmp/arts", "abc", FileKind::Vector), "/tmp/arts/abc.svg");
    assert_eq!(artifact_location("rel/dir", "k", FileKind::Vector), "rel/dir/k.svg");
}

#[test]
fn extensions() {
    assert_eq!(FileKind::Source.ext(), "tex");
    assert_eq!(FileKind::Intermediate.ext(), "dvi");
    assert_eq!(FileKind::Vector.ext(), "svg");
}
