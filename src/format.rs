use vstd::prelude::*;

verus! {

/// The archive encodings the pipeline can unpack.
#[derive(Clone, Copy, Debug, PartialEq, Eq, Structural)]
pub enum FormatTag {
    GzipTar,
    XzTar,
}

/// An identifier whose suffix names no supported encoding; it carries the
/// identifier as it was given.
#[derive(Clone, Debug)]
pub struct UnsupportedFormat {
    pub identifier: String,
}

/// What `str::to_lowercase` makes of a string.
pub uninterp spec fn lower_of(s: Seq<char>) -> Seq<char>;

/// Relies on `str::to_lowercase`: its result depends on the characters alone,
/// and an empty string stays empty.
#[verifier::external_body]
fn lowercase(s: &str) -> (r: String)
    ensures
        r@ == lower_of(s@),
        s@.len() == 0 ==> r@.len() == 0,
{
    s.to_lowercase()
}

pub open spec fn has_suffix(s: Seq<char>, suffix: Seq<char>) -> bool {
    suffix.len() <= s.len() && s.subrange(s.len() - suffix.len(), s.len() as int) == suffix
}

/// The encoding that an already lowercased identifier names: `.tar.gz` is
/// tried first, then `.tar.xz`.
pub open spec fn format_of(lower: Seq<char>) -> Option<FormatTag> {
    if has_suffix(lower, ".tar.gz"@) {
        Some(FormatTag::GzipTar)
    } else if has_suffix(lower, ".tar.xz"@) {
        Some(FormatTag::XzTar)
    } else {
        None
    }
}

/// Whether `s` ends with `suffix`, character by character.
pub fn ends_with(s: &str, suffix: &str) -> (r: bool)
    ensures
        r == has_suffix(s@, suffix@),
{
    let n = s.unicode_len();
    let m = suffix.unicode_len();
    if m > n {
        return false;
    }
    let start = n - m;
    let mut i: usize = 0;
    while i < m
        invariant
            n == s@.len(),
            m == suffix@.len(),
            start == n - m,
            i <= m,
            forall|k: int| 0 <= k < i ==> s@[start + k] == suffix@[k],
        decreases m - i,
    {
        if s.get_char(start + i) != suffix.get_char(i) {
            assert(s@.subrange(start as int, n as int)[i as int] != suffix@[i as int]);
            return false;
        }
        i += 1;
    }
    assert(s@.subrange(start as int, n as int) =~= suffix@);
    true
}

/// Picks the encoding from an identifier that is already lowercase.
pub fn format_of_lowered(lower: &str) -> (r: Option<FormatTag>)
    ensures
        r == format_of(lower@),
{
    if ends_with(lower, ".tar.gz") {
        Some(FormatTag::GzipTar)
    } else if ends_with(lower, ".tar.xz") {
        Some(FormatTag::XzTar)
    } else {
        None
    }
}

/// Picks the encoding from the suffix of an identifier (a URL or a file
/// name), ignoring case. Only the identifier is looked at: no byte of the
/// archive is needed to decide.
pub fn select_format(identifier: &str) -> (r: Result<FormatTag, UnsupportedFormat>)
    ensures
        r matches Ok(tag) ==> format_of(lower_of(identifier@)) == Some(tag),
        r matches Err(e) ==> format_of(lower_of(identifier@)) is None && e.identifier@ == identifier@,
{
    let lower = lowercase(identifier);
    match format_of_lowered(lower.as_str()) {
        Some(tag) => Ok(tag),
        None => Err(UnsupportedFormat { identifier: String::from_str(identifier) }),
    }
}

/// Two identifiers that lowercase alike select the same encoding, or are
/// both refused: selection does not depend on case.
pub proof fn lemma_selection_ignores_case(a: Seq<char>, b: Seq<char>)
    requires
        lower_of(a) == lower_of(b),
    ensures
        format_of(lower_of(a)) == format_of(lower_of(b)),
{
}

} // verus!
