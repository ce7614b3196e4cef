use codeptit::config::Config;
use codeptit::submit::{
    plan_code, submission_course, submission_question, CodeOrigin, FormPart, SubmissionCode,
    SubmissionLanguage, SubmissionSendRequest, SubmissionStatusRequest, SubmissionVerdict,
    SubmitError,
};

fn text(p: &FormPart) -> (String, String) {
    match p {
        FormPart::Text { name, value } => (name.clone(), value.clone()),
        FormPart::File { .. } => panic!("expected a text part"),
    }
}

#[test]
fn compiler_numbers() {
    assert_eq!(SubmissionLanguage::C.compiler_id(), 1);
    assert_eq!(SubmissionLanguage::Cpp.compiler_id(), 2);
    assert_eq!(SubmissionLanguage::Python.compiler_id(), 3);
    assert_eq!(SubmissionLanguage::CSharp.compiler_id(), 4);
    assert_eq!(SubmissionLanguage::Java.compiler_id(), 5);
}

#[test]
fn form_parts_for_source() {
    let req = SubmissionSendRequest {
        course_id: 321,
        question_code: "DSA01001".to_string(),
        language: SubmissionLanguage::Java,
        code: SubmissionCode::Source("class A {}".to_string()),
    };
    let parts = req.form_parts();
    assert_eq!(parts.len(), 4);
    assert_eq!(text(&parts[0]), ("course_id".to_string(), "321".to_string()));
    assert_eq!(text(&parts[1]), ("question".to_string(), "DSA01001".to_string()));
    assert_eq!(text(&parts[2]), ("compiler".to_string(), "5".to_string()));
    assert_eq!(text(&parts[3]), ("source_code".to_string(), "class A {}".to_string()));
}

#[test]
fn form_parts_for_file() {
    let req = SubmissionSendRequest {
        course_id: 7,
        question_code: "Q".to_string(),
        language: SubmissionLanguage::Cpp,
        code: SubmissionCode::File("/tmp/a.cpp".to_string()),
    };
    let parts = req.form_parts();
    assert_eq!(text(&parts[2]), ("compiler".to_string(), "2".to_string()));
    match &parts[3] {
        FormPart::File { name, path } => {
            assert_eq!(name, "code_file");
            assert_eq!(path, "/tmp/a.cpp");
        }
        FormPart::Text { .. } => panic!("expected a file part"),
    }
}

#[test]
fn verdict_codes_round_trip() {
    let all = [
        SubmissionVerdict::Accepted,
        SubmissionVerdict::WrongAnswer,
        SubmissionVerdict::TimeLimitExceeded,
        SubmissionVerdict::MemoryLimitExceeded,
        SubmissionVerdict::RuntimeError,
        SubmissionVerdict::CompilationError,
    ];
    for v in all {
        assert_eq!(SubmissionVerdict::from_code(v.code()), Some(v));
    }
    assert_eq!(SubmissionVerdict::Accepted.code(), "AC");
    assert_eq!(SubmissionVerdict::TimeLimitExceeded.code(), "TLE");
    assert_eq!(SubmissionVerdict::from_code("CE"), Some(SubmissionVerdict::CompilationError));
    assert_eq!(SubmissionVerdict::from_code("ac"), None);
    assert_eq!(SubmissionVerdict::from_code(""), None);
}

#[test]
fn verdict_messages() {
    assert_eq!(SubmissionVerdict::Accepted.message(), "✓ Accepted!");
    assert_eq!(SubmissionVerdict::WrongAnswer.message(), "✗ Wrong Answer!");
    assert_eq!(SubmissionVerdict::MemoryLimitExceeded.message(), "✗ Memory Limit Exceeded!");
    assert_eq!(SubmissionVerdict::CompilationError.message(), "✗ Compilation Error!");
}

#[test]
fn status_endpoint() {
    assert_eq!(SubmissionStatusRequest { submission_id: 98765 }.endpoint(), "/solutions/98765");
    assert_eq!(SubmissionStatusRequest { submission_id: 0 }.endpoint(), "/solutions/0");
}

#[test]
fn course_of_a_submission() {
    let mut config = Config::default();
    assert_eq!(submission_course(None, &config), Err(SubmitError::NoCourseSelected));
    assert_eq!(submission_course(Some(4), &config), Ok(4));
    config.select_course(9);
    assert_eq!(submission_course(None, &config), Ok(9));
    assert_eq!(submission_course(Some(4), &config), Ok(4));
}

#[test]
fn question_of_a_submission() {
    assert_eq!(
        submission_question(Some("A".to_string()), Some("B".to_string())),
        Ok("A".to_string())
    );
    assert_eq!(submission_question(None, Some("B".to_string())), Ok("B".to_string()));
    assert_eq!(submission_question(None, None), Err(SubmitError::NoQuestionCode));
}

#[test]
fn code_plans() {
    match plan_code(true, None, Some(SubmissionLanguage::Python)) {
        Ok((SubmissionLanguage::Python, CodeOrigin::Stdin)) => {}
        _ => panic!("stdin with a language"),
    }
    assert!(matches!(plan_code(true, None, None), Err(SubmitError::NoLanguage)));
    assert!(matches!(plan_code(false, None, Some(SubmissionLanguage::C)), Err(SubmitError::NoCode)));
    match plan_code(false, Some("src/main.cpp".to_string()), Some(SubmissionLanguage::Java)) {
        Ok((SubmissionLanguage::Cpp, CodeOrigin::File(p))) => assert_eq!(p, "src/main.cpp"),
        _ => panic!("the file's extension decides the language"),
    }
    assert!(matches!(
        plan_code(false, Some("main.rs".to_string()), Some(SubmissionLanguage::C)),
        Err(SubmitError::NoLanguage)
    ));
}

#[test]
fn submit_error_messages() {
    assert_eq!(SubmitError::NoCourseSelected.message(), "No courses selected");
    assert_eq!(SubmitError::NoCode.message(), "Please send your code");
    assert_eq!(SubmitError::NoLanguage.message(), "No language selected");
    assert_eq!(SubmitError::NoQuestionCode.message(), "No question_code found");
}

#[test]
fn status_reports() {
    let s = codeptit::submit::status_from_report("WA", 1_500_000, 1024, 3, 10).unwrap();
    assert_eq!(s.verdict, SubmissionVerdict::WrongAnswer);
    assert_eq!(s.runtime_ns, 1_500_000);
    assert_eq!(s.memory_kb, 1024);
    assert_eq!(s.passed_test, 3);
    assert_eq!(s.total_test, 10);
    assert!(codeptit::submit::status_from_report("PENDING", 0, 0, 0, 0).is_none());
    assert!(codeptit::submit::status_from_report("", 0, 0, 0, 0).is_none());
}

#[test]
fn code_plans_for_paths_with_directories() {
    match plan_code(false, Some("work/B01.java".to_string()), None) {
        Ok((SubmissionLanguage::Java, CodeOrigin::File(p))) => assert_eq!(p, "work/B01.java"),
        _ => panic!("the extension names Java"),
    }
    assert!(matches!(
        plan_code(false, Some("src.c/readme".to_string()), None),
        Err(SubmitError::NoLanguage)
    ));
}
