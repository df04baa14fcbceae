use vstd::prelude::*;

use crate::error::{is_unsupported, ArchiveError};

verus! {

/// The archive formats that can be handled.
#[derive(Clone, Copy, Debug, PartialEq, Eq, Structural)]
pub enum Format {
    Tar,
    TarGz,
    Zip,
}

/// `s` ends with `suffix`.
pub open spec fn has_suffix(s: Seq<char>, suffix: Seq<char>) -> bool {
    suffix.len() <= s.len() && s.subrange(s.len() - suffix.len(), s.len() as int) == suffix
}

/// The format that an archive name selects, tested suffix by suffix in a fixed order.
pub open spec fn format_of(path: Seq<char>) -> Option<Format> {
    if has_suffix(path, ".zip"@) {
        Some(Format::Zip)
    } else if has_suffix(path, ".tar"@) {
        Some(Format::Tar)
    } else if has_suffix(path, ".tar.gz"@) {
        Some(Format::TarGz)
    } else {
        None
    }
}

/// The suffix by which a format is recognised.
pub open spec fn extension_of(f: Format) -> Seq<char> {
    match f {
        Format::Zip => ".zip"@,
        Format::Tar => ".tar"@,
        Format::TarGz => ".tar.gz"@,
    }
}

/// Whether `s` ends with `suffix`, compared character by character.
pub fn ends_with(s: &str, suffix: &str) -> (r: bool)
    ensures
        r == has_suffix(s@, suffix@),
{
    let n = s.unicode_len();
    let m = suffix.unicode_len();
    if m > n {
        return false;
    }
    let start = n - m;
    let mut i: usize = 0;
    while i < m
        invariant
            n == s@.len(),
            m == suffix@.len(),
            start == n - m,
            i <= m,
            forall|j: int| 0 <= j < i ==> s@[start + j] == suffix@[j],
        decreases m - i,
    {
        if s.get_char(start + i) != suffix.get_char(i) {
            assert(s@.subrange(start as int, n as int)[i as int] != suffix@[i as int]);
            return false;
        }
        i = i + 1;
    }
    assert(s@.subrange(start as int, n as int) =~= suffix@);
    true
}

impl Format {
    /// Resolves the format of an archive from the suffix of its name.
    pub fn try_from(path: &str) -> (r: Result<Format, ArchiveError>)
        ensures
            match format_of(path@) {
                Some(f) => r == Ok::<Format, ArchiveError>(f),
                None => r matches Err(e) && is_unsupported(e, path@),
            },
    {
        if ends_with(path, ".zip") {
            Ok(Format::Zip)
        } else if ends_with(path, ".tar") {
            Ok(Format::Tar)
        } else if ends_with(path, ".tar.gz") {
            Ok(Format::TarGz)
        } else {
            Err(ArchiveError::UnsupportedFormat { path: path.to_owned() })
        }
    }
}

/// The last `n` characters of `s`, or all of `s` when it is shorter.
pub open spec fn tail(s: Seq<char>, n: nat) -> Seq<char> {
    if s.len() <= n {
        s
    } else {
        s.subrange(s.len() - n, s.len() as int)
    }
}

proof fn lemma_suffix_within_tail(s: Seq<char>, suffix: Seq<char>, n: nat)
    requires
        suffix.len() <= n,
    ensures
        has_suffix(s, suffix) == has_suffix(tail(s, n), suffix),
{
    if s.len() > n {
        let t = tail(s, n);
        assert(t.subrange(t.len() - suffix.len(), t.len() as int) =~= s.subrange(
            s.len() - suffix.len(),
            s.len() as int,
        ));
    }
}

/// Format resolution depends on nothing but the last seven characters of the name:
/// two names that agree there resolve alike.
pub proof fn lemma_format_depends_on_suffix(p: Seq<char>, q: Seq<char>)
    requires
        tail(p, 7) == tail(q, 7),
    ensures
        format_of(p) == format_of(q),
{
    reveal_strlit(".zip");
    reveal_strlit(".tar");
    reveal_strlit(".tar.gz");
    lemma_suffix_within_tail(p, ".zip"@, 7);
    lemma_suffix_within_tail(q, ".zip"@, 7);
    lemma_suffix_within_tail(p, ".tar"@, 7);
    lemma_suffix_within_tail(q, ".tar"@, 7);
    lemma_suffix_within_tail(p, ".tar.gz"@, 7);
    lemma_suffix_within_tail(q, ".tar.gz"@, 7);
}

/// The directory an archive is extracted to when none is given: the name with its
/// format suffix replaced by `.extracted`.
pub open spec fn implicit_destination(archive: Seq<char>, f: Format) -> Seq<char> {
    archive.subrange(0, archive.len() - extension_of(f).len()) + ".extracted"@
}

/// The literal suffix of a format.
fn extension(f: Format) -> (r: &'static str)
    ensures
        r@ == extension_of(f),
{
    match f {
        Format::Zip => ".zip",
        Format::Tar => ".tar",
        Format::TarGz => ".tar.gz",
    }
}

/// Builds the implicit extraction directory of an archive of format `f`.
pub fn implicit_destination_of(archive: &str, f: Format) -> (r: String)
    requires
        format_of(archive@) == Some(f),
    ensures
        r@ == implicit_destination(archive@, f),
{
    let ext = extension(f);
    let n = archive.unicode_len();
    let m = ext.unicode_len();
    let stem = archive.substring_char(0, n - m);
    let mut dir = String::from_str(stem);
    dir.append(".extracted");
    dir
}

} // verus!
