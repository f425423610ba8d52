//! Rendering of the attribution header in the comment syntax of a language.

use vstd::prelude::*;
use vstd::string::StringExecFns;
use crate::language::Language;
use crate::source_info::{SourceInfo, SourceInfoView};

verus! {

/// The token that opens the header's comment: the line prefix of Python and
/// Rust, the start of a block comment in Java.
pub open spec fn opening(language: Language) -> Seq<char> {
    match language {
        Language::Python => "# "@,
        Language::Rust => "// "@,
        Language::Java => "/* "@,
        Language::All => Seq::empty(),
    }
}

/// The token in front of the header's second and third line.
pub open spec fn continuation(language: Language) -> Seq<char> {
    match language {
        Language::Python => "# "@,
        Language::Rust => "// "@,
        Language::Java => " * "@,
        Language::All => Seq::empty(),
    }
}

/// The token that closes the comment at the end of the header's last line;
/// empty where each line is a comment of its own.
pub open spec fn closing(language: Language) -> Seq<char> {
    match language {
        Language::Java => " */"@,
        _ => Seq::empty(),
    }
}

/// The parts in their order, with `sep` between each two neighbours.
pub open spec fn joined(parts: Seq<Seq<char>>, sep: Seq<char>) -> Seq<char>
    decreases parts.len(),
{
    if parts.len() == 0 {
        Seq::empty()
    } else if parts.len() == 1 {
        parts[0]
    } else {
        joined(parts.drop_last(), sep) + sep + parts.last()
    }
}

/// The header for `language`: three lines that name the project and its URL,
/// the authors and the license, inside the language's comment tokens, and
/// then one empty line. The wildcard has no comment syntax and no header.
pub open spec fn header_text(language: Language, info: SourceInfoView) -> Seq<char> {
    if language == Language::All {
        Seq::empty()
    } else {
        opening(language) + "Copied from "@ + info.project_name + " ("@ + info.project_url + ")\n"@
            + continuation(language) + "Original authors: "@ + joined(info.authors, ", "@) + "\n"@
            + continuation(language) + "License: "@ + info.license + closing(language) + "\n\n"@
    }
}

/// The comment tokens of a language: opening, continuation and closing.
fn comment_tokens(language: Language) -> (tokens: (&'static str, &'static str, &'static str))
    ensures
        tokens.0@ == opening(language),
        tokens.1@ == continuation(language),
        tokens.2@ == closing(language),
{
    proof {
        reveal_strlit("");
    }
    match language {
        Language::Python => ("# ", "# ", ""),
        Language::Rust => ("// ", "// ", ""),
        Language::Java => ("/* ", " * ", " */"),
        Language::All => ("", "", ""),
    }
}

/// Joins the names in their order, with `", "` between each two.
pub fn join_authors(authors: &Vec<String>) -> (line: String)
    ensures
        line@ == joined(authors@.map_values(|a: String| a@), ", "@),
{
    let ghost names = authors@.map_values(|a: String| a@);
    let mut line = String::new();
    let n: usize = authors.len();
    let mut i: usize = 0;
    while i < n
        invariant
            n == authors.len(),
            i <= n,
            names == authors@.map_values(|a: String| a@),
            line@ == joined(names.take(i as int), ", "@),
        decreases n - i,
    {
        if i > 0 {
            line.append(", ");
        }
        line.append(authors[i].as_str());
        proof {
            let before = names.take(i as int);
            let after = names.take(i + 1);
            assert(after.drop_last() =~= before);
            assert(after.last() == authors[i as int]@);
            if i == 0 {
                assert(line@ =~= after[0]);
            }
        }
        i += 1;
    }
    proof {
        assert(names.take(n as int) =~= names);
    }
    line
}

/// Renders the attribution header for `language` from `source_info`. For the
/// wildcard, which has no comment syntax, the header is empty.
pub fn generate_comment(language: &Language, source_info: &SourceInfo) -> (comment: String)
    ensures
        comment@ == header_text(*language, source_info@),
        *language == Language::All ==> comment@.len() == 0,
{
    let mut comment = String::new();
    if let Language::All = *language {
        return comment;
    }
    let (open, cont, close) = comment_tokens(*language);
    let authors = join_authors(&source_info.authors);
    comment.append(open);
    comment.append("Copied from ");
    comment.append(source_info.project_name.as_str());
    comment.append(" (");
    comment.append(source_info.project_url.as_str());
    comment.append(")\n");
    comment.append(cont);
    comment.append("Original authors: ");
    comment.append(authors.as_str());
    comment.append("\n");
    comment.append(cont);
    comment.append("License: ");
    comment.append(source_info.license.as_str());
    comment.append(close);
    comment.append("\n\n");
    comment
}

/// The header of a language with a comment syntax begins with that
/// language's opening token and ends with a line break and an empty line.
pub proof fn header_is_framed(language: Language, info: SourceInfoView)
    requires
        language != Language::All,
    ensures
        opening(language).is_prefix_of(header_text(language, info)),
        "\n\n"@.is_suffix_of(header_text(language, info)),
        language == Language::Python ==> opening(language) == seq!['#', ' '],
        language == Language::Rust ==> opening(language) == seq!['/', '/', ' '],
        language == Language::Java ==> opening(language) == seq!['/', '*', ' '],
{
    let text = header_text(language, info);
    reveal_strlit("# ");
    reveal_strlit("// ");
    reveal_strlit("/* ");
    assert(text.subrange(0, opening(language).len() as int) =~= opening(language));
    assert(text.subrange(text.len() - "\n\n"@.len(), text.len() as int) =~= "\n\n"@);
    assert("# "@ =~= seq!['#', ' ']);
    assert("// "@ =~= seq!['/', '/', ' ']);
    assert("/* "@ =~= seq!['/', '*', ' ']);
}

/// The header ends with exactly one empty line: its last two characters are
/// line breaks and the one before them is not. This holds of every Java
/// header, and of a Python or Rust header unless the license text itself
/// ends with a line break.
pub proof fn header_ends_with_one_empty_line(language: Language, info: SourceInfoView)
    requires
        language != Language::All,
        language == Language::Java || info.license.len() == 0 || info.license.last() != '\n',
    ensures
        header_text(language, info).len() >= 3,
        header_text(language, info)[header_text(language, info).len() - 1] == '\n',
        header_text(language, info)[header_text(language, info).len() - 2] == '\n',
        header_text(language, info)[header_text(language, info).len() - 3] != '\n',
{
    reveal_strlit("\n\n");
    reveal_strlit("License: ");
    reveal_strlit(" */");
    let text = header_text(language, info);
    let line = "License: "@ + info.license + closing(language);
    assert(line.len() >= 9);
    assert(line.last() != '\n') by {
        if language == Language::Java {
            assert(line.last() == " */"@[2]);
        } else if info.license.len() == 0 {
            assert(line.last() == "License: "@[8]);
        } else {
            assert(line.last() == info.license.last());
        }
    }
    let front = opening(language) + "Copied from "@ + info.project_name + " ("@ + info.project_url
        + ")\n"@ + continuation(language) + "Original authors: "@ + joined(info.authors, ", "@)
        + "\n"@ + continuation(language);
    assert(text =~= front + line + "\n\n"@);
}

/// The header depends on nothing but the language and the text of the
/// record: two records with the same text have the same header.
pub proof fn header_is_determined_by_text(language: Language, a: SourceInfo, b: SourceInfo)
    requires
        a@ == b@,
    ensures
        header_text(language, a@) == header_text(language, b@),
{
}

/// The wildcard has no header, whatever the record holds.
pub proof fn wildcard_has_no_header(info: SourceInfoView)
    ensures
        header_text(Language::All, info) == Seq::<char>::empty(),
{
}

} // verus!
