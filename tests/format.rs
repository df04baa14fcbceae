use archiver::format::ends_with;
use archiver::{ArchiveError, Format};

fn unsupported(path: &str) -> ArchiveError {
    ArchiveError::UnsupportedFormat { path: path.to_string() }
}

#[test]
fn resolves_zip() {
    assert_eq!(Format::try_from("a.zip"), Ok(Format::Zip));
}

#[test]
fn resolves_tar() {
    assert_eq!(Format::try_from("a.tar"), Ok(Format::Tar));
}

#[test]
fn resolves_tar_gz_not_tar() {
    assert_eq!(Format::try_from("a.tar.gz"), Ok(Format::TarGz));
    assert_ne!(Format::try_from("a.tar.gz"), Ok(Format::Tar));
}

#[test]
fn bare_gzip_is_unsupported() {
    assert_eq!(Format::try_from("a.gz"), Err(unsupported("a.gz")));
}

#[test]
fn no_extension_is_unsupported() {
    assert_eq!(Format::try_from("a"), Err(unsupported("a")));
}

#[test]
fn empty_name_is_unsupported() {
    assert_eq!(Format::try_from(""), Err(unsupported("")));
}

#[test]
fn tgz_alias_is_unsupported() {
    assert_eq!(Format::try_from("a.tgz"), Err(unsupported("a.tgz")));
}

#[test]
fn suffix_match_is_case_sensitive() {
    assert_eq!(Format::try_from("a.ZIP"), Err(unsupported("a.ZIP")));
    assert_eq!(Format::try_from("a.Tar.gz"), Err(unsupported("a.Tar.gz")));
}

#[test]
fn bare_suffix_resolves() {
    assert_eq!(Format::try_from(".zip"), Ok(Format::Zip));
    assert_eq!(Format::try_from(".tar.gz"), Ok(Format::TarGz));
}

#[test]
fn whole_path_is_matched() {
    assert_eq!(Format::try_from("dir.zip/inner.tar"), Ok(Format::Tar));
    assert_eq!(Format::try_from("dir.tar/inner"), Err(unsupported("dir.tar/inner")));
    assert_eq!(Format::try_from("foo.x.tar.gz"), Ok(Format::TarGz));
}

#[test]
fn non_ascii_names_resolve() {
    assert_eq!(Format::try_from("übersicht.zip"), Ok(Format::Zip));
    assert_eq!(Format::try_from("données.tar.gz"), Ok(Format::TarGz));
}

#[test]
fn resolution_is_repeatable() {
    for p in ["a.zip", "b.tar", "c.tar.gz", "d.gz", "e"] {
        assert_eq!(Format::try_from(p), Format::try_from(p));
    }
}

#[test]
fn names_with_same_ending_resolve_alike() {
    assert_eq!(Format::try_from("one/x.tar.gz"), Format::try_from("other/y.tar.gz"));
    assert_eq!(Format::try_from("short.tar"), Format::try_from("a/much/longer.tar"));
}

#[test]
fn ends_with_compares_characters() {
    assert!(ends_with("abc", "bc"));
    assert!(ends_with("abc", ""));
    assert!(ends_with("abc", "abc"));
    assert!(!ends_with("bc", "abc"));
    assert!(!ends_with("abc", "bd"));
    assert!(ends_with("naïve", "ïve"));
}
