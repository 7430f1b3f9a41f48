//! Recognising project files by name, and telling a project archive from a
//! sprite archive.
use vstd::prelude::*;

verus! {

/// A project file and the format version its extension names.
#[derive(Clone, Debug, PartialEq, Eq)]
pub struct ProjectPath {
    pub path: String,
    pub version: u32,
}

/// Why a path does not name a project file.
#[derive(Clone, Debug, PartialEq, Eq)]
pub enum Error {
    NoPathGiven,
    NoExtension,
    /// The extension is not valid UTF-8; a path given as text never has
    /// such an extension.
    NotUtf8Extension(String),
    NotScratchFileExtension(String),
    InvalidScratchVersion(String),
}

/// The extension of the file name of `path`, as `std::path::Path` finds it.
pub uninterp spec fn extension_of(path: Seq<char>) -> Option<Seq<char>>;

/// Relies on `std::path::Path::extension`: the text after the last `.` of
/// the path's file name, if there is one. `OsStr::to_str` only converts the
/// result back to text.
#[verifier::external_body]
fn path_extension(path: &str) -> (r: Option<&str>)
    ensures
        r matches Some(e) ==> extension_of(path@) == Some(e@),
        r is None ==> extension_of(path@) is None,
{
    match std::path::Path::new(path).extension() {
        Some(e) => e.to_str(),
        None => None,
    }
}

pub open spec fn starts_with(s: Seq<char>, prefix: Seq<char>) -> bool {
    prefix.len() <= s.len() && s.subrange(0, prefix.len() as int) == prefix
}

/// Relies on `str::strip_prefix`: what follows `prefix` in `s` when `s`
/// starts with it.
#[verifier::external_body]
fn strip_prefix<'a>(s: &'a str, prefix: &str) -> (r: Option<&'a str>)
    ensures
        r matches Some(rest) ==> s@ == prefix@ + rest@,
        r is None ==> !starts_with(s@, prefix@),
{
    s.strip_prefix(prefix)
}

pub open spec fn is_digit(c: char) -> bool {
    '0' <= c <= '9'
}

/// The number that a string of decimal digits denotes.
pub open spec fn digits_value(s: Seq<char>) -> nat
    decreases s.len(),
{
    if s.len() == 0 {
        0
    } else {
        digits_value(s.drop_last()) * 10 + ((s.last() as u32) - 48) as nat
    }
}

/// The digits of `s`, after an optional leading `+`.
pub open spec fn unsigned_digits(s: Seq<char>) -> Seq<char> {
    if s.len() > 0 && s[0] == '+' {
        s.drop_first()
    } else {
        s
    }
}

/// The value of `s` read as a `u32` in decimal: an optional `+` and at least
/// one digit, denoting at most `u32::MAX`.
pub open spec fn decimal_u32(s: Seq<char>) -> Option<u32> {
    let d = unsigned_digits(s);
    if d.len() > 0 && (forall|i: int| 0 <= i < d.len() ==> is_digit(#[trigger] d[i])) && digits_value(d)
        <= u32::MAX {
        Some(digits_value(d) as u32)
    } else {
        None
    }
}

proof fn lemma_digits_prefix(s: Seq<char>, k: int)
    requires
        0 <= k <= s.len(),
        forall|i: int| 0 <= i < s.len() ==> is_digit(#[trigger] s[i]),
    ensures
        digits_value(s.subrange(0, k)) <= digits_value(s),
    decreases s.len(),
{
    if k < s.len() {
        assert(s.drop_last().subrange(0, k) =~= s.subrange(0, k));
        assert forall|i: int| 0 <= i < s.drop_last().len() implies is_digit(#[trigger] s.drop_last()[i]) by {
            assert(s.drop_last()[i] == s[i]);
        }
        lemma_digits_prefix(s.drop_last(), k);
    } else {
        assert(s.subrange(0, k) =~= s);
    }
}

/// Reads a `u32` written in decimal, as `u32::from_str` does.
pub fn parse_u32(s: &str) -> (r: Option<u32>)
    ensures
        r == decimal_u32(s@),
{
    if !s.is_ascii() {
        proof {
            let d = unsigned_digits(s@);
            if decimal_u32(s@) is Some {
                assert forall|i: int| 0 <= i < s@.len() implies '\0' <= #[trigger] s@[i] <= '\u{7f}' by {
                    if s@[0] == '+' {
                        if i > 0 {
                            assert(d[i - 1] == s@[i]);
                        }
                    } else {
                        assert(d[i] == s@[i]);
                    }
                }
            }
        }
        return None;
    }
    let bytes = s.as_bytes();
    proof {
        vstd::string::is_ascii_spec_bytes(s);
    }
    let n = bytes.len();
    let mut start: usize = 0;
    if n > 0 && bytes[0] == 43u8 {
        start = 1;
    }
    let ghost d = unsigned_digits(s@);
    assert(d =~= s@.subrange(start as int, n as int));
    if start == n {
        return None;
    }
    let mut acc: u64 = 0;
    let mut i: usize = start;
    while i < n
        invariant
            start <= i <= n,
            n == s@.len(),
            bytes@.len() == n,
            forall|j: int| 0 <= j < n ==> bytes@[j] == s@[j] as u8,
            vstd::string::is_ascii(s),
            d == s@.subrange(start as int, n as int),
            d == unsigned_digits(s@),
            forall|j: int| 0 <= j < i - start ==> is_digit(#[trigger] d[j]),
            acc == digits_value(d.subrange(0, i - start)),
            acc <= u32::MAX,
        decreases n - i,
    {
        let c = bytes[i];
        assert(d[i - start] == s@[i as int]);
        assert('\0' <= s@[i as int] <= '\u{7f}');
        assert(c as u32 == s@[i as int] as u32);
        if c < 48u8 || c > 57u8 {
            assert(!is_digit(d[i - start]));
            return None;
        }
        let next = acc * 10 + (c - 48u8) as u64;
        assert(d.subrange(0, i + 1 - start).drop_last() =~= d.subrange(0, i - start));
        assert(digits_value(d.subrange(0, i + 1 - start)) == next);
        if next > 4294967295u64 {
            proof {
                if forall|j: int| 0 <= j < d.len() ==> is_digit(#[trigger] d[j]) {
                    lemma_digits_prefix(d, i + 1 - start);
                }
            }
            return None;
        }
        acc = next;
        i = i + 1;
    }
    assert(d.subrange(0, n - start) =~= d);
    Some(acc as u32)
}

/// `r` is what the project file `path` with extension `ext` yields: the
/// version that follows `sb`, or the error saying which part is wrong.
pub open spec fn extension_outcome(path: Seq<char>, ext: Seq<char>, r: Result<ProjectPath, Error>) -> bool {
    if !starts_with(ext, seq!['s', 'b']) {
        r matches Err(Error::NotScratchFileExtension(e)) && e@ == ext
    } else {
        match decimal_u32(ext.skip(2)) {
            None => r matches Err(Error::InvalidScratchVersion(v)) && v@ == ext.skip(2),
            Some(n) => r matches Ok(p) && p.path@ == path && p.version == n,
        }
    }
}

impl ProjectPath {
    /// The project file `path` whose extension is `ext`: `ext` must be `sb`
    /// followed by a version number.
    pub fn from_extension(path: &str, ext: &str) -> (r: Result<ProjectPath, Error>)
        ensures
            extension_outcome(path@, ext@, r),
    {
        let sb = "sb";
        proof {
            reveal_strlit("sb");
        }
        assert(sb@ =~= seq!['s', 'b']);
        match strip_prefix(ext, sb) {
            None => Err(Error::NotScratchFileExtension(ext.to_owned())),
            Some(version) => {
                assert(ext@.skip(2) =~= version@);
                assert(ext@.subrange(0, 2) =~= seq!['s', 'b']);
                match parse_u32(version) {
                    Some(v) => Ok(ProjectPath { path: path.to_owned(), version: v }),
                    None => Err(Error::InvalidScratchVersion(version.to_owned())),
                }
            },
        }
    }

    /// The project file `path`: its extension must be `sb` followed by a
    /// version number.
    pub fn from_path(path: &str) -> (r: Result<ProjectPath, Error>)
        ensures
            match extension_of(path@) {
                None => r == Err::<ProjectPath, Error>(Error::NoExtension),
                Some(ext) => extension_outcome(path@, ext, r),
            },
    {
        match path_extension(path) {
            None => Err(Error::NoExtension),
            Some(ext) => ProjectPath::from_extension(path, ext),
        }
    }
}

/// Whether an archive holds a sprite rather than a project, from which of
/// the two manifests it contains; `None` when it holds neither.
pub fn is_sprite(has_project_json: bool, has_sprite_json: bool) -> (r: Option<bool>)
    ensures
        r == if has_project_json {
            Some(false)
        } else if has_sprite_json {
            Some(true)
        } else {
            None
        },
{
    if has_project_json {
        return Some(false);
    }
    if has_sprite_json {
        return Some(true);
    }
    None
}

} // verus!
