//! Languages with a known comment syntax, and their detection from a path.

use vstd::prelude::*;
use vstd::string::StrSliceExecFns;

verus! {

/// A programming language with a known comment syntax, or the wildcard
/// [`Language::All`], which only has a meaning in a filter and is never the
/// result of a detection.
#[derive(Clone, Copy, PartialEq, Eq, Debug, Structural)]
pub enum Language {
    Python,
    Rust,
    Java,
    All,
}

/// The language that a file extension stands for. Extensions are matched as
/// they are written, in lower case.
pub open spec fn language_of_extension(ext: Seq<char>) -> Option<Language> {
    if ext == "py"@ {
        Some(Language::Python)
    } else if ext == "rs"@ {
        Some(Language::Rust)
    } else if ext == "java"@ {
        Some(Language::Java)
    } else {
        None
    }
}

/// The language detected from what a file name has as its extension, if it
/// has one.
pub open spec fn language_of(ext: Option<Seq<char>>) -> Option<Language> {
    match ext {
        Some(e) => language_of_extension(e),
        None => None,
    }
}

/// The place of the final dot in a file name, and `-1` where the name holds
/// no dot.
pub open spec fn last_dot(name: Seq<char>) -> int
    decreases name.len(),
{
    if name.len() == 0 {
        -1
    } else if name.last() == '.' {
        name.len() - 1
    } else {
        last_dot(name.drop_last())
    }
}

/// The extension of a file name: the text after its final dot, and `None`
/// where the name holds no dot. A dot at the start of the name counts like
/// any other, and a name that ends with a dot has the empty extension.
pub open spec fn extension_in(name: Seq<char>) -> Option<Seq<char>> {
    if last_dot(name) < 0 {
        None
    } else {
        Some(name.subrange(last_dot(name) + 1, name.len() as int))
    }
}

/// The language detected from the file name of a path, if the path has one.
pub open spec fn detected_in(file_name: Option<Seq<char>>) -> Option<Language> {
    match file_name {
        Some(name) => language_of(extension_in(name)),
        None => None,
    }
}

/// The file name of a path as `std::path::Path::file_name` finds it: the
/// final segment of the path, and `None` where the path ends in `..` or has
/// no segment at all. The segments of a path are told apart by the path
/// syntax that the standard library was built for.
pub uninterp spec fn path_file_name(path: Seq<char>) -> Option<Seq<char>>;

/// The characters of an optional string slice.
pub open spec fn text_of(s: Option<&str>) -> Option<Seq<char>> {
    match s {
        Some(t) => Some(t@),
        None => None,
    }
}

/// Trusted: `==` of the standard library on string slices holds exactly when
/// both have the same characters.
pub assume_specification[ <str as PartialEq>::eq ](a: &str, b: &str) -> (same: bool)
    ensures
        same == (a@ == b@),
;

/// Trusted: calls `std::path::Path::file_name` on the path made of `path`
/// and hands back the file name as text. Nothing is proved of the call; the
/// contract only gives its result the name [`path_file_name`].
#[verifier::external_body]
fn file_name_of<'a>(path: &'a str) -> (name: Option<&'a str>)
    ensures
        text_of(name) == path_file_name(path@),
{
    match std::path::Path::new(path).file_name() {
        Some(n) => n.to_str(),
        None => None,
    }
}

/// The final dot of a name is a dot, and no dot comes after it.
pub proof fn last_dot_is_final(name: Seq<char>)
    ensures
        -1 <= last_dot(name) < name.len(),
        last_dot(name) >= 0 ==> name[last_dot(name)] == '.',
        forall|j: int| last_dot(name) < j < name.len() ==> name[j] != '.',
    decreases name.len(),
{
    if name.len() > 0 && name.last() != '.' {
        let front = name.drop_last();
        last_dot_is_final(front);
        assert forall|j: int| last_dot(name) < j < name.len() implies name[j] != '.' by {
            if j < front.len() {
                assert(front[j] == name[j]);
            }
        }
    }
}

/// Finds the extension of a file name: the text after its final dot.
pub fn extension_of_name<'a>(name: &'a str) -> (ext: Option<&'a str>)
    ensures
        text_of(ext) == extension_in(name@),
        ext is Some <==> name@.contains('.'),
{
    let n: usize = name.unicode_len();
    let mut i: usize = n;
    while i > 0
        invariant
            i <= n,
            n == name@.len(),
            forall|j: int| i <= j < n ==> name@[j] != '.',
        decreases i,
    {
        if name.get_char(i - 1) == '.' {
            proof {
                last_dot_is_final(name@);
                assert(name@[i - 1] == '.');
                assert(last_dot(name@) == i - 1);
            }
            return Some(name.substring_char(i, n));
        }
        i -= 1;
    }
    proof {
        last_dot_is_final(name@);
    }
    None
}

/// Maps a file extension to its language: `py`, `rs` and `java` are known,
/// every other extension is not.
pub fn classify_extension(ext: &str) -> (language: Option<Language>)
    ensures
        language == language_of_extension(ext@),
        language != Some(Language::All),
{
    if ext.eq("py") {
        Some(Language::Python)
    } else if ext.eq("rs") {
        Some(Language::Rust)
    } else if ext.eq("java") {
        Some(Language::Java)
    } else {
        None
    }
}

/// Detects the language of a file from its name alone: `Some` where the file
/// name has a dot and the text after its final dot stands for a known
/// language, else `None`.
pub fn detect_in_file_name(name: &str) -> (language: Option<Language>)
    ensures
        language == language_of(extension_in(name@)),
        language != Some(Language::All),
{
    match extension_of_name(name) {
        Some(ext) => classify_extension(ext),
        None => None,
    }
}

/// Detects the language of a file from the extension of its path. The path
/// is only read as text: no file needs to exist there. A path without a file
/// name, a file name without an extension, and an extension that stands for
/// no known language all give `None`.
pub fn detect_language(path: &str) -> (language: Option<Language>)
    ensures
        language == detected_in(path_file_name(path@)),
        language != Some(Language::All),
{
    match file_name_of(path) {
        Some(name) => detect_in_file_name(name),
        None => None,
    }
}

/// Detection yields each language for its own extension and for no other,
/// nothing where the extension is another or is missing, and never the
/// wildcard.
pub proof fn detection_is_by_extension(ext: Option<Seq<char>>)
    ensures
        language_of(ext) != Some(Language::All),
        language_of(ext) == Some(Language::Python) <==> ext == Some("py"@),
        language_of(ext) == Some(Language::Rust) <==> ext == Some("rs"@),
        language_of(ext) == Some(Language::Java) <==> ext == Some("java"@),
        language_of(ext) is None <==> ext != Some("py"@) && ext != Some("rs"@) && ext != Some(
            "java"@,
        ),
{
    reveal_strlit("py");
    reveal_strlit("rs");
    reveal_strlit("java");
    assert("py"@.len() == 2 && "rs"@.len() == 2 && "java"@.len() == 4);
    assert("py"@[0] == 'p' && "rs"@[0] == 'r');
}

/// The extension of a name is the text after a dot after which no dot
/// comes, and a name has no extension exactly when it holds no dot.
pub proof fn extension_is_text_after_final_dot(stem: Seq<char>, ext: Seq<char>)
    ensures
        !ext.contains('.') ==> extension_in(stem + seq!['.'] + ext) == Some(ext),
        extension_in(stem) is None <==> !stem.contains('.'),
{
    last_dot_is_final(stem);
    if !ext.contains('.') {
        let name = stem + seq!['.'] + ext;
        last_dot_is_final(name);
        assert(name[stem.len() as int] == '.');
        assert forall|j: int| stem.len() < j < name.len() implies name[j] != '.' by {
            assert(name[j] == ext[j - stem.len() - 1]);
        }
        assert(last_dot(name) == stem.len());
        assert(name.subrange(stem.len() as int + 1, name.len() as int) =~= ext);
    }
}

/// Every file name that ends in `.py`, `.rs` or `.java` is detected as
/// Python, Rust or Java, whatever stands before the dot, nothing included.
pub proof fn known_extensions_are_detected(stem: Seq<char>)
    ensures
        language_of(extension_in(stem + ".py"@)) == Some(Language::Python),
        language_of(extension_in(stem + ".rs"@)) == Some(Language::Rust),
        language_of(extension_in(stem + ".java"@)) == Some(Language::Java),
{
    reveal_strlit(".py");
    reveal_strlit(".rs");
    reveal_strlit(".java");
    reveal_strlit("py");
    reveal_strlit("rs");
    reveal_strlit("java");
    assert(".py"@ =~= seq!['.'] + "py"@);
    assert(".rs"@ =~= seq!['.'] + "rs"@);
    assert(".java"@ =~= seq!['.'] + "java"@);
    assert(stem + ".py"@ =~= stem + seq!['.'] + "py"@);
    assert(stem + ".rs"@ =~= stem + seq!['.'] + "rs"@);
    assert(stem + ".java"@ =~= stem + seq!['.'] + "java"@);
    assert(!"py"@.contains('.'));
    assert(!"rs"@.contains('.'));
    assert(!"java"@.contains('.'));
    extension_is_text_after_final_dot(stem, "py"@);
    extension_is_text_after_final_dot(stem, "rs"@);
    extension_is_text_after_final_dot(stem, "java"@);
    detection_is_by_extension(Some("py"@));
    detection_is_by_extension(Some("rs"@));
    detection_is_by_extension(Some("java"@));
}

} // verus!
