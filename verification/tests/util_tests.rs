use codeptit::submit::{SubmissionCode, SubmissionLanguage};
use codeptit::util::{language, language_for_extension, question_code, question_code_from_line};

#[test]
fn languages_by_extension() {
    assert_eq!(language_for_extension("c"), Some(SubmissionLanguage::C));
    assert_eq!(language_for_extension("cpp"), Some(SubmissionLanguage::Cpp));
    assert_eq!(language_for_extension("python"), Some(SubmissionLanguage::Python));
    assert_eq!(language_for_extension("cs"), Some(SubmissionLanguage::CSharp));
    assert_eq!(language_for_extension("java"), Some(SubmissionLanguage::Java));
    assert_eq!(language_for_extension("py"), None);
    assert_eq!(language_for_extension("CPP"), None);
    assert_eq!(language_for_extension(""), None);
}

#[test]
fn languages_by_path() {
    assert_eq!(language("solutions/DSA001.cpp"), Some(SubmissionLanguage::Cpp));
    assert_eq!(language("Main.java"), Some(SubmissionLanguage::Java));
    assert_eq!(language("a.b.c"), Some(SubmissionLanguage::C));
    assert_eq!(language("script.py"), None);
    assert_eq!(language("Makefile"), None);
    assert_eq!(language(".c"), None);
}

#[test]
fn line_comment_question_code() {
    let c = SubmissionLanguage::C;
    assert_eq!(question_code_from_line(&c, "// DSA01001 ", None), Some("DSA01001".to_string()));
    assert_eq!(question_code_from_line(&c, "   //CPP0101\n", None), Some("CPP0101".to_string()));
    assert_eq!(question_code_from_line(&c, "# X", None), None);
    assert_eq!(
        question_code_from_line(&c, "#include <stdio.h>", Some("stem".to_string())),
        Some("stem".to_string())
    );
}

#[test]
fn block_comment_question_code() {
    let c = SubmissionLanguage::Cpp;
    assert_eq!(question_code_from_line(&c, "/* CPP0202 */", None), Some("CPP0202".to_string()));
    assert_eq!(question_code_from_line(&c, " /* CPP0202 */", None), None);
    assert_eq!(question_code_from_line(&c, "/* CPP0202 */\n", None), None);
    let py = SubmissionLanguage::Python;
    assert_eq!(question_code_from_line(&py, "# PY01", None), Some("PY01".to_string()));
    assert_eq!(question_code_from_line(&py, "\"\"\" PY02 \"\"\"", None), Some("PY02".to_string()));
    assert_eq!(question_code_from_line(&py, "// PY03", None), None);
}

#[test]
fn question_code_of_source_and_file() {
    let java = SubmissionLanguage::Java;
    let source = SubmissionCode::Source("// J001\r\nclass Main {}".to_string());
    assert_eq!(question_code(&java, &source, ""), Some("J001".to_string()));
    let plain = SubmissionCode::Source("class Main {}".to_string());
    assert_eq!(question_code(&java, &plain, "// ignored"), None);
    let file = SubmissionCode::File("work/ABC123.java".to_string());
    assert_eq!(question_code(&java, &file, "// XYZ\n"), Some("XYZ".to_string()));
    assert_eq!(question_code(&java, &file, "class Main {}\n"), Some("ABC123".to_string()));
}

#[test]
fn languages_of_plain_file_names() {
    assert_eq!(language("main.cpp"), Some(SubmissionLanguage::Cpp));
    assert_eq!(language("a.java.c"), Some(SubmissionLanguage::C));
    assert_eq!(language("notes.c."), None);
    assert_eq!(language("nodot"), None);
}

#[test]
fn languages_of_paths_with_directories() {
    assert_eq!(language("src/main.cpp"), Some(SubmissionLanguage::Cpp));
    assert_eq!(language("./main.cpp"), Some(SubmissionLanguage::Cpp));
    assert_eq!(language("../x/y/Main.java"), Some(SubmissionLanguage::Java));
    assert_eq!(language(".java"), None);
    assert_eq!(language("dir/.java"), None);
    assert_eq!(language("src.c/readme"), None);
    assert_eq!(language("a/readme"), language("b.c/readme"));
    assert_eq!(language("one/x.cs"), language("two/three/x.cs"));
}

#[test]
fn file_stem_fallback() {
    let cpp = SubmissionLanguage::Cpp;
    let file = SubmissionCode::File("work/B01.cpp".to_string());
    assert_eq!(question_code(&cpp, &file, "int main() {}\n"), Some("B01".to_string()));
    assert_eq!(question_code(&cpp, &file, ""), Some("B01".to_string()));
    let c = SubmissionLanguage::C;
    assert_eq!(question_code(&c, &file, "int main() {}\n"), question_code(&cpp, &file, "int main() {}\n"));
    let dotted = SubmissionCode::File("a.b/x.y.c".to_string());
    assert_eq!(question_code(&c, &dotted, ""), Some("x.y".to_string()));
}

#[test]
fn paths_with_trailing_slashes_and_colons() {
    assert_eq!(language("work/main.cpp/"), Some(SubmissionLanguage::Cpp));
    assert_eq!(language(":x.c"), Some(SubmissionLanguage::C));
    assert_eq!(language("dir:1/x.java"), Some(SubmissionLanguage::Java));
    let c = SubmissionLanguage::C;
    let trailing = SubmissionCode::File("work/B02.c//".to_string());
    assert_eq!(question_code(&c, &trailing, ""), Some("B02".to_string()));
}

#[test]
fn empty_fallback_without_file_name() {
    let c = SubmissionLanguage::C;
    let empty = SubmissionCode::File(String::new());
    assert_eq!(question_code(&c, &empty, "int x;"), Some(String::new()));
    let parent = SubmissionCode::File("work/..".to_string());
    assert_eq!(question_code(&c, &parent, "int x;"), Some(String::new()));
    assert_eq!(question_code(&c, &parent, "// Q9"), Some("Q9".to_string()));
}
