//! The rules of a run: which files a filter selects, and what an annotated
//! file holds.

use vstd::prelude::*;
use vstd::string::StringExecFns;
use crate::header::{generate_comment, header_text};
use crate::language::{detect_language, detected_in, language_of, path_file_name, Language};
use crate::source_info::SourceInfo;

verus! {

/// Why a run leaves a file as it is. Neither is a failure.
#[derive(Clone, Copy, PartialEq, Eq, Debug, Structural)]
pub enum Skip {
    /// The path has no extension, or one that stands for no known language.
    UndetectedLanguage,
    /// The language was detected, but the caller did not ask for it.
    FilteredOut,
}

/// Whether a filter lets a language through: it names the language, or it
/// holds the wildcard, which lets every language through.
pub open spec fn accepts(filters: Seq<Language>, language: Language) -> bool {
    filters.contains(Language::All) || filters.contains(language)
}

/// What a run does with a file, given what was detected for it: annotate it
/// in the detected language, or skip it and why.
pub open spec fn selection(detected: Option<Language>, filters: Seq<Language>) -> Result<
    Language,
    Skip,
> {
    match detected {
        None => Err(Skip::UndetectedLanguage),
        Some(language) => if accepts(filters, language) {
            Ok(language)
        } else {
            Err(Skip::FilteredOut)
        },
    }
}

fn contains_language(filters: &[Language], wanted: Language) -> (found: bool)
    ensures
        found == filters@.contains(wanted),
{
    let mut i: usize = 0;
    while i < filters.len()
        invariant
            i <= filters.len(),
            forall|j: int| 0 <= j < i ==> filters@[j] != wanted,
        decreases filters.len() - i,
    {
        if filters[i] == wanted {
            return true;
        }
        i += 1;
    }
    false
}

/// Says whether `filters` lets `language` through.
pub fn is_selected(filters: &[Language], language: Language) -> (selected: bool)
    ensures
        selected == accepts(filters@, language),
{
    contains_language(filters, Language::All) || contains_language(filters, language)
}

/// Decides what a run does with a file for which `detected` was detected:
/// `Ok` with the language where one was detected and the filter lets it
/// through, else the reason for which the file is skipped.
pub fn select(detected: Option<Language>, filters: &[Language]) -> (choice: Result<Language, Skip>)
    ensures
        choice == selection(detected, filters@),
        choice is Ok <==> detected is Some && accepts(filters@, detected->Some_0),
        choice == Err::<Language, Skip>(Skip::UndetectedLanguage) <==> detected is None,
        choice == Err::<Language, Skip>(Skip::FilteredOut) <==> detected is Some && !accepts(
            filters@,
            detected->Some_0,
        ),
{
    match detected {
        None => Err(Skip::UndetectedLanguage),
        Some(language) => if is_selected(filters, language) {
            Ok(language)
        } else {
            Err(Skip::FilteredOut)
        },
    }
}

/// Decides what a run does with the file at `path`: detects its language
/// from the path and applies the filter.
pub fn select_file(path: &str, filters: &[Language]) -> (choice: Result<Language, Skip>)
    ensures
        choice == selection(detected_in(path_file_name(path@)), filters@),
        choice != Ok::<Language, Skip>(Language::All),
{
    select(detect_language(path), filters)
}

/// The new content of a file: the header for `language`, then the old
/// content as it was, with nothing between them.
pub fn annotate(language: &Language, source_info: &SourceInfo, content: &str) -> (annotated: String)
    ensures
        annotated@ == header_text(*language, source_info@) + content@,
{
    let mut annotated = generate_comment(language, source_info);
    annotated.append(content);
    annotated
}

/// A file that a run annotates has a detected language that the filter lets
/// through, and a filter without the wildcard lets through only what it
/// names.
pub proof fn selected_files_pass_the_filter(detected: Option<Language>, filters: Seq<Language>)
    ensures
        selection(detected, filters) is Ok ==> detected == Some(selection(detected, filters)->Ok_0),
        selection(detected, filters) is Ok && !filters.contains(Language::All) ==> filters.contains(
            selection(detected, filters)->Ok_0,
        ),
        filters.contains(Language::All) && detected is Some ==> selection(detected, filters) is Ok,
{
}

/// A file that a run selects is changed by its annotation: the language it
/// is annotated in is never the wildcard, so the header is not empty, and
/// the new content differs from the old.
pub proof fn selected_files_get_a_header(
    ext: Option<Seq<char>>,
    filters: Seq<Language>,
    source_info: SourceInfo,
    content: Seq<char>,
)
    requires
        selection(language_of(ext), filters) is Ok,
    ensures
        selection(language_of(ext), filters)->Ok_0 != Language::All,
        header_text(selection(language_of(ext), filters)->Ok_0, source_info@).len() > 0,
        header_text(selection(language_of(ext), filters)->Ok_0, source_info@) + content != content,
{
    let header = header_text(selection(language_of(ext), filters)->Ok_0, source_info@);
    reveal_strlit("\n\n");
    assert(header.len() > 0);
    assert((header + content).len() == header.len() + content.len());
}

} // verus!
