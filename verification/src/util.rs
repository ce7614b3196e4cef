//! Telling a submission's language from its file name, and finding the
//! question code written in a comment on the first line of the code.

use vstd::prelude::*;
use crate::submit::{SubmissionCode, SubmissionLanguage};
use crate::text::{
    after_prefix, before_suffix, contains_text, has_suffix, is_trimmed, lemma_trim_is_trimmed, first_line, first_line_of, strip_prefix_str,
    strip_suffix_str, trim, trim_str,
};

verus! {

/// The file extension that stands for a language.
pub open spec fn extension_text(l: SubmissionLanguage) -> Seq<char> {
    match l {
        SubmissionLanguage::C => "c"@,
        SubmissionLanguage::Cpp => "cpp"@,
        SubmissionLanguage::Python => "python"@,
        SubmissionLanguage::CSharp => "cs"@,
        SubmissionLanguage::Java => "java"@,
    }
}

/// The language a file extension stands for, if any.
pub open spec fn language_of_extension(e: Seq<char>) -> Option<SubmissionLanguage> {
    if e == "c"@ {
        Some(SubmissionLanguage::C)
    } else if e == "cpp"@ {
        Some(SubmissionLanguage::Cpp)
    } else if e == "python"@ {
        Some(SubmissionLanguage::Python)
    } else if e == "cs"@ {
        Some(SubmissionLanguage::CSharp)
    } else if e == "java"@ {
        Some(SubmissionLanguage::Java)
    } else {
        None
    }
}

/// The path holds a dot followed by the extension of language `l`.
pub open spec fn names_language(path: Seq<char>, l: SubmissionLanguage) -> bool {
    contains_text(path, seq!['.'] + extension_text(l))
}

/// The language a file extension stands for.
pub fn language_for_extension(ext: &str) -> (r: Option<SubmissionLanguage>)
    ensures
        r == language_of_extension(ext@),
{
    if crate::text::same_text(ext, "c") {
        Some(SubmissionLanguage::C)
    } else if crate::text::same_text(ext, "cpp") {
        Some(SubmissionLanguage::Cpp)
    } else if crate::text::same_text(ext, "python") {
        Some(SubmissionLanguage::Python)
    } else if crate::text::same_text(ext, "cs") {
        Some(SubmissionLanguage::CSharp)
    } else if crate::text::same_text(ext, "java") {
        Some(SubmissionLanguage::Java)
    } else {
        None
    }
}

/// Each language's extension stands for that language, and an extension
/// stands for a language only when it is that language's extension.
pub proof fn lemma_extension_round_trip(l: SubmissionLanguage, e: Seq<char>)
    ensures
        language_of_extension(extension_text(l)) == Some(l),
        language_of_extension(e) == Some(l) ==> e == extension_text(l),
{
    reveal_strlit("c");
    reveal_strlit("cpp");
    reveal_strlit("python");
    reveal_strlit("cs");
    reveal_strlit("java");
    assert("c"@.len() == 1 && "cpp"@.len() == 3 && "cs"@.len() == 2);
    assert("c"@[0] == 'c' && "python"@[0] == 'p' && "java"@[0] == 'j');
}

/// The position of the last `c` in `s`, or -1 when `s` holds none.
pub open spec fn last_index_of(s: Seq<char>, c: char) -> int
    decreases s.len(),
{
    if s.len() == 0 {
        -1
    } else if s.last() == c {
        s.len() - 1
    } else {
        last_index_of(s.drop_last(), c)
    }
}

/// The final component of a path written with `/`: the text after its last `/`.
pub open spec fn last_component(path: Seq<char>) -> Seq<char> {
    path.subrange(last_index_of(path, '/') + 1, path.len() as int)
}

/// `path` without the `/` characters at its end.
pub open spec fn without_trailing_slashes(path: Seq<char>) -> Seq<char>
    decreases path.len(),
{
    if path.len() > 0 && path.last() == '/' {
        without_trailing_slashes(path.drop_last())
    } else {
        path
    }
}

/// The file name of a path written with `/`: its final component, after any
/// `/` at its end is set aside.
pub open spec fn file_name_of(path: Seq<char>) -> Seq<char> {
    last_component(without_trailing_slashes(path))
}

/// A path whose file name is, on every platform, `file_name_of(path)`: it
/// holds no `\\`; a drive prefix (a `:` as second character) is followed by
/// `/` and by more than that `/`; it does not begin with `//`; and its file
/// name is neither empty nor `.` nor `..`.
pub open spec fn has_plain_file_name(path: Seq<char>) -> bool {
    &&& forall|i: int| 0 <= i < path.len() ==> #[trigger] path[i] != '\\'
    &&& (path.len() >= 2 && path[1] == ':') ==> (path.len() >= 3 && path[2] == '/'
        && without_trailing_slashes(path).len() > 3)
    &&& !(path.len() >= 2 && path[0] == '/' && path[1] == '/')
    &&& file_name_of(path).len() > 0
    &&& file_name_of(path) != seq!['.']
    &&& file_name_of(path) != seq!['.', '.']
}

/// The extension of a file name as std documents it: the part after its
/// final dot, or none when it holds no dot or only a leading one.
pub open spec fn extension_of_name(name: Seq<char>) -> Option<Seq<char>> {
    let k = last_index_of(name, '.');
    if k > 0 {
        Some(name.subrange(k + 1, name.len() as int))
    } else {
        None
    }
}

/// The stem of a file name as std documents it: the part before its final
/// dot, or the whole name when it holds no dot or only a leading one.
pub open spec fn stem_of_name(name: Seq<char>) -> Seq<char> {
    let k = last_index_of(name, '.');
    if k > 0 {
        name.subrange(0, k)
    } else {
        name
    }
}

/// The language of a path with a plain file name: the one its extension
/// stands for.
pub open spec fn language_of_path(path: Seq<char>) -> Option<SubmissionLanguage> {
    match extension_of_name(file_name_of(path)) {
        Some(e) => language_of_extension(e),
        None => None,
    }
}

/// `c` separates path components on some platform.
pub open spec fn is_separator(c: char) -> bool {
    c == '/' || c == '\\'
}

/// The text after the last dot of `path`.
pub open spec fn trailing_extension(path: Seq<char>) -> Seq<char> {
    path.subrange(last_index_of(path, '.') + 1, path.len() as int)
}

/// A path whose extension is, on every platform, the text after its last
/// dot: that dot is not the first character, no separator follows it, the
/// character before it is neither a separator nor `:`, and the path does not
/// begin with two separators.
pub open spec fn has_clean_extension(path: Seq<char>) -> bool {
    let k = last_index_of(path, '.');
    &&& k >= 1
    &&& forall|i: int| k < i < path.len() ==> !is_separator(#[trigger] path[i])
    &&& !is_separator(path[k - 1])
    &&& path[k - 1] != ':'
    &&& !(path.len() >= 2 && is_separator(path[0]) && is_separator(path[1]))
}

proof fn lemma_last_index_facts(s: Seq<char>, c: char)
    ensures
        -1 <= last_index_of(s, c) < s.len(),
        last_index_of(s, c) >= 0 ==> s[last_index_of(s, c)] == c,
        forall|i: int| last_index_of(s, c) < i < s.len() ==> s[i] != c,
    decreases s.len(),
{
    if s.len() > 0 && s.last() != c {
        lemma_last_index_facts(s.drop_last(), c);
        assert forall|i: int| last_index_of(s, c) < i < s.len() implies s[i] != c by {
            if i < s.len() - 1 {
                assert(s[i] == s.drop_last()[i]);
            }
        }
    }
}

proof fn lemma_last_index_at(s: Seq<char>, c: char, k: int)
    requires
        0 <= k < s.len(),
        s[k] == c,
        forall|i: int| k < i < s.len() ==> s[i] != c,
    ensures
        last_index_of(s, c) == k,
    decreases s.len(),
{
    if s.last() != c {
        lemma_last_index_at(s.drop_last(), c, k);
    }
}

/// The judge's extensions are read as the languages they name: `c` is C,
/// `cpp` C++, `python` Python, `cs` C#, `java` Java, and no other text names
/// a language.
pub proof fn lemma_extension_names(e: Seq<char>)
    ensures
        language_of_extension("c"@) == Some(SubmissionLanguage::C),
        language_of_extension("cpp"@) == Some(SubmissionLanguage::Cpp),
        language_of_extension("python"@) == Some(SubmissionLanguage::Python),
        language_of_extension("cs"@) == Some(SubmissionLanguage::CSharp),
        language_of_extension("java"@) == Some(SubmissionLanguage::Java),
        extension_text(SubmissionLanguage::C) == "c"@,
        extension_text(SubmissionLanguage::Cpp) == "cpp"@,
        extension_text(SubmissionLanguage::Python) == "python"@,
        extension_text(SubmissionLanguage::CSharp) == "cs"@,
        extension_text(SubmissionLanguage::Java) == "java"@,
        language_of_extension(e) is Some ==> e == "c"@ || e == "cpp"@ || e == "python"@ || e
            == "cs"@ || e == "java"@,
{
    lemma_extension_round_trip(SubmissionLanguage::C, e);
    lemma_extension_round_trip(SubmissionLanguage::Cpp, e);
    lemma_extension_round_trip(SubmissionLanguage::Python, e);
    lemma_extension_round_trip(SubmissionLanguage::CSharp, e);
    lemma_extension_round_trip(SubmissionLanguage::Java, e);
}

/// A path that ends in a dot and a language's extension, with something other
/// than a separator or a drive prefix before that dot and not beginning with
/// two separators, has that language, whatever its directories hold and on
/// every platform.
pub proof fn lemma_typed_extension_gives_language(path: Seq<char>, l: SubmissionLanguage)
    requires
        path.len() > extension_text(l).len() + 1,
        has_suffix(path, seq!['.'] + extension_text(l)),
        !is_separator(path[path.len() - extension_text(l).len() - 2]),
        path[path.len() - extension_text(l).len() - 2] != ':',
        !(is_separator(path[0]) && is_separator(path[1])),
    ensures
        has_clean_extension(path),
        trailing_extension(path) == extension_text(l),
        language_of_extension(trailing_extension(path)) == Some(l),
{
    reveal_strlit("c");
    reveal_strlit("cpp");
    reveal_strlit("python");
    reveal_strlit("cs");
    reveal_strlit("java");
    let e = extension_text(l);
    let k = path.len() - e.len() - 1;
    let tail = path.subrange(k, path.len() as int);
    assert(tail == seq!['.'] + e);
    assert(path[k] == tail[0]);
    assert forall|i: int| k < i < path.len() implies path[i] != '.' && !is_separator(path[i]) by {
        assert(path[i] == tail[i - k]);
        assert(tail[i - k] == e[i - k - 1]);
    }
    lemma_last_index_at(path, '.', k);
    assert(trailing_extension(path) =~= e) by {
        assert forall|i: int| 0 <= i < e.len() implies trailing_extension(path)[i] == e[i] by {
            assert(path[k + 1 + i] == tail[i + 1]);
        }
    }
    lemma_extension_round_trip(l, e);
}

/// The file name of a path with a plain file name is a non-empty final piece
/// of the path, free of `/`; when it has an extension it is its stem, a dot
/// and that extension, with a non-empty stem and a dot-free extension; when it
/// has none, its stem is the whole name.
pub proof fn lemma_file_name_parts(path: Seq<char>)
    requires
        has_plain_file_name(path),
    ensures
        file_name_of(path).len() > 0,
        !file_name_of(path).contains('/'),
        has_suffix(without_trailing_slashes(path), file_name_of(path)),
        match extension_of_name(file_name_of(path)) {
            Some(e) => file_name_of(path) == stem_of_name(file_name_of(path)) + seq!['.'] + e
                && stem_of_name(file_name_of(path)).len() > 0 && !e.contains('.'),
            None => stem_of_name(file_name_of(path)) == file_name_of(path),
        },
{
    let w = without_trailing_slashes(path);
    let f = file_name_of(path);
    lemma_last_index_facts(w, '/');
    let j = last_index_of(w, '/');
    assert forall|i: int| 0 <= i < f.len() implies f[i] != '/' by {
        assert(f[i] == w[j + 1 + i]);
    }
    assert(w.subrange(w.len() - f.len(), w.len() as int) =~= f);
    lemma_last_index_facts(f, '.');
    let k = last_index_of(f, '.');
    if k > 0 {
        let e = f.subrange(k + 1, f.len() as int);
        assert(f =~= f.subrange(0, k) + seq!['.'] + e);
        assert forall|i: int| 0 <= i < e.len() implies e[i] != '.' by {
            assert(e[i] == f[k + 1 + i]);
        }
    }
}

/// Calls `std::path::Path::extension` on `path`. The standard library
/// documents the extension as the part of the file name after its final
/// dot, and as absent when the file name holds no dot or begins with its only
/// dot. The contract states that a returned extension, preceded by a dot, is
/// a piece of the path and holds no dot; that a path without a dot has no
/// extension; for a path whose final component ends in a dot and a text
/// free of separators, with something other than a separator or a drive
/// prefix before that dot, that the text is the extension; and, for a path
/// whose file name is `file_name_of(path)` on every platform, what that
/// extension is. Which component is the file name
/// of other paths depends on the platform and is left unsaid.
#[verifier::external_body]
fn path_extension(path: &str) -> (r: Option<String>)
    ensures
        r matches Some(e) ==> contains_text(path@, seq!['.'] + e@) && !e@.contains('.'),
        !path@.contains('.') ==> r is None,
        has_plain_file_name(path@) ==> r.deep_view() == extension_of_name(file_name_of(path@)),
        has_clean_extension(path@) ==> r.deep_view() == Some(trailing_extension(path@)),
{
    let ext = std::path::Path::new(path).extension()?;
    Some(ext.to_str()?.to_string())
}

/// Calls `std::path::Path::file_stem` on `path`. The standard library
/// documents the stem as the file name before its final dot, or the whole
/// file name when it holds no dot or begins with its only dot, and gives none
/// when there is no file name: for the empty path and for a path that ends in
/// `..`. The contract states that a returned stem is a piece of the path; that
/// the empty path and a path whose text after its last `/` is `..` have none;
/// and, for a path whose file name is `file_name_of(path)` on every platform,
/// what that stem is. Which component is the file name of other paths
/// depends on the platform and is left unsaid.
#[verifier::external_body]
fn path_file_stem(path: &str) -> (r: Option<String>)
    ensures
        r matches Some(stem) ==> contains_text(path@, stem@),
        path@.len() == 0 || last_component(path@) == seq!['.', '.'] ==> r is None,
        has_plain_file_name(path@) ==> r.deep_view() == Some(stem_of_name(file_name_of(path@))),
{
    match std::path::Path::new(path).file_stem() {
        Some(stem) => stem.to_str().map(|s| s.to_string()),
        None => None,
    }
}

/// The language of a code file, told by the extension of its name: none for
/// a path without a dot, and for a path with a plain file name the language
/// that the extension of that name stands for.
pub fn language(path: &str) -> (r: Option<SubmissionLanguage>)
    ensures
        r matches Some(l) ==> names_language(path@, l),
        !path@.contains('.') ==> r is None,
        has_plain_file_name(path@) ==> r == language_of_path(path@),
        has_clean_extension(path@) ==> r == language_of_extension(trailing_extension(path@)),
{
    match path_extension(path) {
        Some(ext) => {
            let r: Option<SubmissionLanguage> = language_for_extension(ext.as_str());
            proof {
                if let Some(l) = r {
                    lemma_extension_round_trip(l, ext@);
                }
            }
            r
        },
        None => None,
    }
}

/// The marker that opens a line comment in the language.
pub open spec fn line_comment(l: SubmissionLanguage) -> Seq<char> {
    if l == SubmissionLanguage::Python {
        "#"@
    } else {
        "//"@
    }
}

/// The marker that opens a block comment in the language.
pub open spec fn block_open(l: SubmissionLanguage) -> Seq<char> {
    if l == SubmissionLanguage::Python {
        "\"\"\""@
    } else {
        "/*"@
    }
}

/// The marker that closes a block comment in the language.
pub open spec fn block_close(l: SubmissionLanguage) -> Seq<char> {
    if l == SubmissionLanguage::Python {
        "\"\"\""@
    } else {
        "*/"@
    }
}

/// The question code that a line holds in a comment: the trimmed rest of the
/// trimmed line after a line-comment marker, or else the trimmed text between
/// a block-comment opener at the very start of the line and a closer at its
/// very end.
pub open spec fn code_in_comment(l: SubmissionLanguage, line: Seq<char>) -> Option<Seq<char>> {
    match after_prefix(trim(line), line_comment(l)) {
        Some(rest) => Some(trim(rest)),
        None => match after_prefix(line, block_open(l)) {
            Some(rest) => match before_suffix(rest, block_close(l)) {
                Some(inner) => Some(trim(inner)),
                None => None,
            },
            None => None,
        },
    }
}

/// A question code found in a comment neither begins nor ends with whitespace.
pub proof fn lemma_code_in_comment_is_trimmed(l: SubmissionLanguage, line: Seq<char>)
    ensures
        code_in_comment(l, line) matches Some(c) ==> is_trimmed(c),
{
    match after_prefix(trim(line), line_comment(l)) {
        Some(rest) => lemma_trim_is_trimmed(rest),
        None => match after_prefix(line, block_open(l)) {
            Some(rest) => match before_suffix(rest, block_close(l)) {
                Some(inner) => lemma_trim_is_trimmed(inner),
                None => {},
            },
            None => {},
        },
    }
}

/// All languages but Python mark comments alike, so they find the same
/// question code on a line.
pub proof fn lemma_non_python_languages_agree(
    l1: SubmissionLanguage,
    l2: SubmissionLanguage,
    line: Seq<char>,
    fallback: Option<Seq<char>>,
)
    requires
        l1 != SubmissionLanguage::Python,
        l2 != SubmissionLanguage::Python,
    ensures
        code_in_comment(l1, line) == code_in_comment(l2, line),
        question_code_of(l1, line, fallback) == question_code_of(l2, line, fallback),
{
}

/// Only the final component of a path decides its language: two paths with
/// plain file names that end in the same component have the same language.
pub proof fn lemma_only_final_component_counts(p1: Seq<char>, p2: Seq<char>)
    requires
        has_plain_file_name(p1),
        has_plain_file_name(p2),
        file_name_of(p1) == file_name_of(p2),
    ensures
        language_of_path(p1) == language_of_path(p2),
{
}

/// The question code for a line: the one in its comment, else `fallback`.
pub open spec fn question_code_of(
    l: SubmissionLanguage,
    line: Seq<char>,
    fallback: Option<Seq<char>>,
) -> Option<Seq<char>> {
    match code_in_comment(l, line) {
        Some(c) => Some(c),
        None => fallback,
    }
}

/// Finds the question code in a comment on `line`, else gives `fallback`.
pub fn question_code_from_line(
    language: &SubmissionLanguage,
    line: &str,
    fallback: Option<String>,
) -> (r: Option<String>)
    ensures
        r.deep_view() == question_code_of(*language, line@, fallback.deep_view()),
{
    let python: bool = match language {
        SubmissionLanguage::Python => true,
        _ => false,
    };
    let line_marker: &str = if python {
        "#"
    } else {
        "//"
    };
    let open_marker: &str = if python {
        "\"\"\""
    } else {
        "/*"
    };
    let close_marker: &str = if python {
        "\"\"\""
    } else {
        "*/"
    };
    let trimmed: String = trim_str(line);
    match strip_prefix_str(trimmed.as_str(), line_marker) {
        Some(rest) => {
            return Some(trim_str(rest.as_str()));
        },
        None => {},
    }
    match strip_prefix_str(line, open_marker) {
        Some(rest) => match strip_suffix_str(rest.as_str(), close_marker) {
            Some(inner) => {
                return Some(trim_str(inner.as_str()));
            },
            None => {},
        },
        None => {},
    }
    fallback
}

/// The question code of a submission's code. For source text it is read
/// from the first line of the text, with no fallback. For a file,
/// `file_first_line` is the first line as read from it, and the fallback is
/// the stem of the file's name, or the empty text when the path has no file
/// name.
pub fn question_code(
    language: &SubmissionLanguage,
    code: &SubmissionCode,
    file_first_line: &str,
) -> (r: Option<String>)
    ensures
        match code {
            SubmissionCode::Source(source) => r.deep_view() == question_code_of(
                *language,
                first_line(source@),
                None,
            ),
            SubmissionCode::File(path) => match code_in_comment(*language, file_first_line@) {
                Some(c) => r.deep_view() == Some(c),
                None => r matches Some(stem) && contains_text(path@, stem@) && (has_plain_file_name(
                    path@,
                ) ==> stem@ == stem_of_name(file_name_of(path@))),
            },
        },
        code matches SubmissionCode::File(path) && code_in_comment(*language, file_first_line@)
            is None && (path@.len() == 0 || last_component(path@) == seq!['.', '.']) ==> r.deep_view()
            == Some(Seq::<char>::empty()),
{
    match code {
        SubmissionCode::File(path) => {
            let stem: String = match path_file_stem(path.as_str()) {
                Some(stem) => stem,
                None => {
                    assert(path@.subrange(0, 0) =~= Seq::<char>::empty());
                    String::new()
                },
            };
            question_code_from_line(language, file_first_line, Some(stem))
        },
        SubmissionCode::Source(source) => {
            let line: String = first_line_of(source.as_str());
            question_code_from_line(language, line.as_str(), None)
        },
    }
}

} // verus!
