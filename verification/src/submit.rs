//! Submissions: languages, source code, the form sent to the judge, the
//! verdicts it answers with, and the decisions taken before a submission.

use vstd::prelude::*;
use crate::config::{logged_in_with, logged_out, with_course, Config};
use crate::text::{decimal, decimal_string, same_text};

verus! {

/// A programming language the judge compiles.
#[derive(Clone, Copy, Debug, PartialEq, Eq, Structural)]
pub enum SubmissionLanguage {
    C,
    Cpp,
    Python,
    CSharp,
    Java,
}

impl SubmissionLanguage {
    /// The judge's compiler number for the language.
    pub open spec fn compiler_number(self) -> u8 {
        match self {
            SubmissionLanguage::C => 1,
            SubmissionLanguage::Cpp => 2,
            SubmissionLanguage::Python => 3,
            SubmissionLanguage::CSharp => 4,
            SubmissionLanguage::Java => 5,
        }
    }

    /// The judge's compiler number for the language.
    pub fn compiler_id(&self) -> (r: u8)
        ensures
            r == self.compiler_number(),
    {
        match self {
            SubmissionLanguage::C => 1,
            SubmissionLanguage::Cpp => 2,
            SubmissionLanguage::Python => 3,
            SubmissionLanguage::CSharp => 4,
            SubmissionLanguage::Java => 5,
        }
    }
}

/// The code of a submission: a file to upload, or source text.
pub enum SubmissionCode {
    File(String),
    Source(String),
}

/// A submission to send to the judge.
pub struct SubmissionSendRequest {
    pub course_id: u32,
    pub question_code: String,
    pub language: SubmissionLanguage,
    pub code: SubmissionCode,
}

/// One part of the multipart form that carries a submission.
pub enum FormPart {
    Text { name: String, value: String },
    File { name: String, path: String },
}

/// `p` is a text part with this name and value.
pub open spec fn is_text_part(p: FormPart, name: Seq<char>, value: Seq<char>) -> bool {
    p matches FormPart::Text { name: n, value: v } && n@ == name && v@ == value
}

/// `p` is a file part with this name and path.
pub open spec fn is_file_part(p: FormPart, name: Seq<char>, path: Seq<char>) -> bool {
    p matches FormPart::File { name: n, path: f } && n@ == name && f@ == path
}

impl SubmissionSendRequest {
    /// The form parts of the submission, in the order the judge receives them:
    /// the course, the question, the compiler number, then the code as a file
    /// upload or as source text.
    pub fn form_parts(self) -> (r: Vec<FormPart>)
        ensures
            r@.len() == 4,
            is_text_part(r@[0], "course_id"@, decimal(self.course_id as nat)),
            is_text_part(r@[1], "question"@, self.question_code@),
            is_text_part(r@[2], "compiler"@, decimal(self.language.compiler_number() as nat)),
            match self.code {
                SubmissionCode::File(path) => is_file_part(r@[3], "code_file"@, path@),
                SubmissionCode::Source(source) => is_text_part(r@[3], "source_code"@, source@),
            },
    {
        let mut parts: Vec<FormPart> = Vec::new();
        parts.push(
            FormPart::Text {
                name: String::from_str("course_id"),
                value: decimal_string(self.course_id as u64),
            },
        );
        parts.push(FormPart::Text { name: String::from_str("question"), value: self.question_code });
        let compiler: u8 = self.language.compiler_id();
        parts.push(
            FormPart::Text { name: String::from_str("compiler"), value: decimal_string(compiler as u64) },
        );
        match self.code {
            SubmissionCode::File(path) => {
                parts.push(FormPart::File { name: String::from_str("code_file"), path: path });
            },
            SubmissionCode::Source(source) => {
                parts.push(FormPart::Text { name: String::from_str("source_code"), value: source });
            },
        }
        parts
    }
}

/// The judge's answer to a submission.
pub struct SubmissionSendResponse {
    pub submission_id: u32,
}

/// The verdict of the judge on a submission.
#[derive(Clone, Copy, Debug, PartialEq, Eq, Structural)]
pub enum SubmissionVerdict {
    Accepted,
    WrongAnswer,
    TimeLimitExceeded,
    MemoryLimitExceeded,
    RuntimeError,
    CompilationError,
}

impl SubmissionVerdict {
    /// The code by which the judge reports the verdict.
    pub open spec fn code_text(self) -> Seq<char> {
        match self {
            SubmissionVerdict::Accepted => "AC"@,
            SubmissionVerdict::WrongAnswer => "WA"@,
            SubmissionVerdict::TimeLimitExceeded => "TLE"@,
            SubmissionVerdict::MemoryLimitExceeded => "MLE"@,
            SubmissionVerdict::RuntimeError => "RE"@,
            SubmissionVerdict::CompilationError => "CE"@,
        }
    }

    /// The verdict that the judge's code `s` stands for, if any.
    pub open spec fn of_code_text(s: Seq<char>) -> Option<SubmissionVerdict> {
        if s == "AC"@ {
            Some(SubmissionVerdict::Accepted)
        } else if s == "WA"@ {
            Some(SubmissionVerdict::WrongAnswer)
        } else if s == "TLE"@ {
            Some(SubmissionVerdict::TimeLimitExceeded)
        } else if s == "MLE"@ {
            Some(SubmissionVerdict::MemoryLimitExceeded)
        } else if s == "RE"@ {
            Some(SubmissionVerdict::RuntimeError)
        } else if s == "CE"@ {
            Some(SubmissionVerdict::CompilationError)
        } else {
            None
        }
    }

    /// The line shown to the user for the verdict.
    pub open spec fn message_text(self) -> Seq<char> {
        match self {
            SubmissionVerdict::Accepted => "\u{2713} Accepted!"@,
            SubmissionVerdict::WrongAnswer => "\u{2717} Wrong Answer!"@,
            SubmissionVerdict::TimeLimitExceeded => "\u{2717} Time Limit Exceeded!"@,
            SubmissionVerdict::MemoryLimitExceeded => "\u{2717} Memory Limit Exceeded!"@,
            SubmissionVerdict::RuntimeError => "\u{2717} Runtime Error!"@,
            SubmissionVerdict::CompilationError => "\u{2717} Compilation Error!"@,
        }
    }

    /// The code by which the judge reports the verdict.
    pub fn code(&self) -> (r: &'static str)
        ensures
            r@ == self.code_text(),
    {
        match self {
            SubmissionVerdict::Accepted => "AC",
            SubmissionVerdict::WrongAnswer => "WA",
            SubmissionVerdict::TimeLimitExceeded => "TLE",
            SubmissionVerdict::MemoryLimitExceeded => "MLE",
            SubmissionVerdict::RuntimeError => "RE",
            SubmissionVerdict::CompilationError => "CE",
        }
    }

    /// Reads the judge's verdict code.
    pub fn from_code(s: &str) -> (r: Option<SubmissionVerdict>)
        ensures
            r == Self::of_code_text(s@),
    {
        if same_text(s, "AC") {
            Some(SubmissionVerdict::Accepted)
        } else if same_text(s, "WA") {
            Some(SubmissionVerdict::WrongAnswer)
        } else if same_text(s, "TLE") {
            Some(SubmissionVerdict::TimeLimitExceeded)
        } else if same_text(s, "MLE") {
            Some(SubmissionVerdict::MemoryLimitExceeded)
        } else if same_text(s, "RE") {
            Some(SubmissionVerdict::RuntimeError)
        } else if same_text(s, "CE") {
            Some(SubmissionVerdict::CompilationError)
        } else {
            None
        }
    }

    /// The line shown to the user for the verdict.
    pub fn message(&self) -> (r: &'static str)
        ensures
            r@ == self.message_text(),
    {
        match self {
            SubmissionVerdict::Accepted => "\u{2713} Accepted!",
            SubmissionVerdict::WrongAnswer => "\u{2717} Wrong Answer!",
            SubmissionVerdict::TimeLimitExceeded => "\u{2717} Time Limit Exceeded!",
            SubmissionVerdict::MemoryLimitExceeded => "\u{2717} Memory Limit Exceeded!",
            SubmissionVerdict::RuntimeError => "\u{2717} Runtime Error!",
            SubmissionVerdict::CompilationError => "\u{2717} Compilation Error!",
        }
    }
}

/// Reading a verdict's own code gives back that verdict, and a code is read as
/// a verdict only when it is that verdict's code.
pub proof fn lemma_verdict_code_round_trip(v: SubmissionVerdict, s: Seq<char>)
    ensures
        SubmissionVerdict::of_code_text(v.code_text()) == Some(v),
        SubmissionVerdict::of_code_text(s) == Some(v) ==> s == v.code_text(),
{
    reveal_strlit("AC");
    reveal_strlit("WA");
    reveal_strlit("TLE");
    reveal_strlit("MLE");
    reveal_strlit("RE");
    reveal_strlit("CE");
    assert("AC"@[0] == 'A' && "WA"@[0] == 'W' && "TLE"@[0] == 'T');
    assert("MLE"@[0] == 'M' && "RE"@[0] == 'R' && "CE"@[0] == 'C');
}

/// The judge's codes are read as the verdicts they stand for: `AC` accepted,
/// `WA` wrong answer, `TLE` time limit exceeded, `MLE` memory limit exceeded,
/// `RE` runtime error, `CE` compilation error; each verdict is reported by
/// its own code; and no other text is read as a verdict.
pub proof fn lemma_verdict_codes(s: Seq<char>)
    ensures
        SubmissionVerdict::of_code_text("AC"@) == Some(SubmissionVerdict::Accepted),
        SubmissionVerdict::of_code_text("WA"@) == Some(SubmissionVerdict::WrongAnswer),
        SubmissionVerdict::of_code_text("TLE"@) == Some(SubmissionVerdict::TimeLimitExceeded),
        SubmissionVerdict::of_code_text("MLE"@) == Some(SubmissionVerdict::MemoryLimitExceeded),
        SubmissionVerdict::of_code_text("RE"@) == Some(SubmissionVerdict::RuntimeError),
        SubmissionVerdict::of_code_text("CE"@) == Some(SubmissionVerdict::CompilationError),
        SubmissionVerdict::Accepted.code_text() == "AC"@,
        SubmissionVerdict::WrongAnswer.code_text() == "WA"@,
        SubmissionVerdict::TimeLimitExceeded.code_text() == "TLE"@,
        SubmissionVerdict::MemoryLimitExceeded.code_text() == "MLE"@,
        SubmissionVerdict::RuntimeError.code_text() == "RE"@,
        SubmissionVerdict::CompilationError.code_text() == "CE"@,
        SubmissionVerdict::of_code_text(s) is Some ==> s == "AC"@ || s == "WA"@ || s == "TLE"@
            || s == "MLE"@ || s == "RE"@ || s == "CE"@,
{
    reveal_strlit("AC");
    reveal_strlit("WA");
    reveal_strlit("TLE");
    reveal_strlit("MLE");
    reveal_strlit("RE");
    reveal_strlit("CE");
    assert("AC"@[0] == 'A' && "WA"@[0] == 'W' && "TLE"@[0] == 'T');
    assert("MLE"@[0] == 'M' && "RE"@[0] == 'R' && "CE"@[0] == 'C');
}

/// Each verdict is shown to the user by a line that names it, and distinct
/// verdicts are shown by distinct lines.
pub proof fn lemma_verdict_messages(v: SubmissionVerdict, w: SubmissionVerdict)
    ensures
        SubmissionVerdict::Accepted.message_text() == "\u{2713} Accepted!"@,
        SubmissionVerdict::WrongAnswer.message_text() == "\u{2717} Wrong Answer!"@,
        SubmissionVerdict::TimeLimitExceeded.message_text() == "\u{2717} Time Limit Exceeded!"@,
        SubmissionVerdict::MemoryLimitExceeded.message_text()
            == "\u{2717} Memory Limit Exceeded!"@,
        SubmissionVerdict::RuntimeError.message_text() == "\u{2717} Runtime Error!"@,
        SubmissionVerdict::CompilationError.message_text() == "\u{2717} Compilation Error!"@,
        v != w ==> v.message_text() != w.message_text(),
{
    reveal_strlit("\u{2713} Accepted!");
    reveal_strlit("\u{2717} Wrong Answer!");
    reveal_strlit("\u{2717} Time Limit Exceeded!");
    reveal_strlit("\u{2717} Memory Limit Exceeded!");
    reveal_strlit("\u{2717} Runtime Error!");
    reveal_strlit("\u{2717} Compilation Error!");
    assert("\u{2713} Accepted!"@[2] == 'A');
    assert("\u{2717} Wrong Answer!"@[2] == 'W');
    assert("\u{2717} Time Limit Exceeded!"@[2] == 'T');
    assert("\u{2717} Memory Limit Exceeded!"@[2] == 'M');
    assert("\u{2717} Runtime Error!"@[2] == 'R');
    assert("\u{2717} Compilation Error!"@[2] == 'C');
}

/// The state of a judged submission.
pub struct SubmissionStatus {
    pub verdict: SubmissionVerdict,
    /// The run time in nanoseconds.
    pub runtime_ns: u64,
    pub memory_kb: u32,
    pub passed_test: u32,
    pub total_test: u32,
}

/// The state of a submission as the judge reports it, when its verdict code
/// names a known verdict; a report with any other code (a submission still
/// being judged, for one) counts as a failed attempt to read the state.
pub fn status_from_report(
    verdict_code: &str,
    runtime_ns: u64,
    memory_kb: u32,
    passed_test: u32,
    total_test: u32,
) -> (r: Option<SubmissionStatus>)
    ensures
        match SubmissionVerdict::of_code_text(verdict_code@) {
            Some(v) => r == Some(
                SubmissionStatus { verdict: v, runtime_ns, memory_kb, passed_test, total_test },
            ),
            None => r is None,
        },
{
    match SubmissionVerdict::from_code(verdict_code) {
        Some(verdict) => Some(
            SubmissionStatus { verdict, runtime_ns, memory_kb, passed_test, total_test },
        ),
        None => None,
    }
}

/// A request for the state of a submission.
pub struct SubmissionStatusRequest {
    pub submission_id: u32,
}

impl SubmissionStatusRequest {
    /// The path under which the judge reports the submission's state.
    pub fn endpoint(&self) -> (r: String)
        ensures
            r@ == "/solutions/"@ + decimal(self.submission_id as nat),
    {
        let mut path: String = String::from_str("/solutions/");
        let id: String = decimal_string(self.submission_id as u64);
        path.append(id.as_str());
        path
    }
}

/// The judge's answer to a status request.
pub struct SubmissionStatusResponse {
    pub status: SubmissionStatus,
}

/// Why a submission cannot be made.
#[derive(Clone, Copy, Debug, PartialEq, Eq, Structural)]
pub enum SubmitError {
    NoCourseSelected,
    NoCode,
    NoLanguage,
    NoQuestionCode,
}

impl SubmitError {
    /// The message shown to the user.
    pub open spec fn message_text(self) -> Seq<char> {
        match self {
            SubmitError::NoCourseSelected => "No courses selected"@,
            SubmitError::NoCode => "Please send your code"@,
            SubmitError::NoLanguage => "No language selected"@,
            SubmitError::NoQuestionCode => "No question_code found"@,
        }
    }

    /// The message shown to the user.
    pub fn message(&self) -> (r: &'static str)
        ensures
            r@ == self.message_text(),
    {
        match self {
            SubmitError::NoCourseSelected => "No courses selected",
            SubmitError::NoCode => "Please send your code",
            SubmitError::NoLanguage => "No language selected",
            SubmitError::NoQuestionCode => "No question_code found",
        }
    }
}

/// The course a submission goes to: the one given for it, else the saved one.
pub open spec fn course_for_submission(requested: Option<u32>, saved: Option<u32>) -> Result<
    u32,
    SubmitError,
> {
    match requested {
        Some(c) => Ok(c),
        None => match saved {
            Some(c) => Ok(c),
            None => Err(SubmitError::NoCourseSelected),
        },
    }
}

/// The course a submission goes to: the one given for it, else the saved one.
pub fn submission_course(requested: Option<u32>, config: &Config) -> (r: Result<u32, SubmitError>)
    ensures
        r == course_for_submission(requested, config.course_id),
{
    match requested {
        Some(c) => Ok(c),
        None => match config.course_id {
            Some(c) => Ok(c),
            None => Err(SubmitError::NoCourseSelected),
        },
    }
}

/// Once a course is chosen, a submission that names no course goes to it,
/// and a submission that names a course goes to the named one.
pub proof fn lemma_chosen_course_is_used(config: Config, chosen: u32, named: u32)
    ensures
        course_for_submission(None, with_course(config, chosen).course_id) == Ok::<
            u32,
            SubmitError,
        >(chosen),
        course_for_submission(Some(named), with_course(config, chosen).course_id) == Ok::<
            u32,
            SubmitError,
        >(named),
{
}

/// Logging in or out forgets the chosen course, so that a submission must
/// then name its course.
pub proof fn lemma_login_change_forgets_course(config: Config, token: String)
    ensures
        course_for_submission(None, logged_out(config).course_id) == Err::<u32, SubmitError>(
            SubmitError::NoCourseSelected,
        ),
        course_for_submission(None, logged_in_with(config, token).course_id) == Err::<
            u32,
            SubmitError,
        >(SubmitError::NoCourseSelected),
{
}

/// The question a submission answers: the one given for it, else the one
/// found in the code.
pub fn submission_question(requested: Option<String>, detected: Option<String>) -> (r: Result<
    String,
    SubmitError,
>)
    ensures
        match requested {
            Some(q) => r matches Ok(s) && s@ == q@,
            None => match detected {
                Some(q) => r matches Ok(s) && s@ == q@,
                None => r == Err::<String, SubmitError>(SubmitError::NoQuestionCode),
            },
        },
{
    match requested {
        Some(q) => Ok(q),
        None => match detected {
            Some(q) => Ok(q),
            None => Err(SubmitError::NoQuestionCode),
        },
    }
}

/// Where the code of a submission comes from.
pub enum CodeOrigin {
    Stdin,
    File(String),
}

/// Decides where the code comes from and in which language it is: standard
/// input in the language given for it, or a file whose language its
/// extension tells (a language given for it is then not used).
pub fn plan_code(stdin: bool, file: Option<String>, language: Option<SubmissionLanguage>) -> (r:
    Result<(SubmissionLanguage, CodeOrigin), SubmitError>)
    ensures
        stdin ==> match language {
            Some(l) => r matches Ok((k, CodeOrigin::Stdin)) && k == l,
            None => r == Err::<(SubmissionLanguage, CodeOrigin), SubmitError>(
                SubmitError::NoLanguage,
            ),
        },
        !stdin && file is None ==> r == Err::<(SubmissionLanguage, CodeOrigin), SubmitError>(
            SubmitError::NoCode,
        ),
        !stdin && file is Some && crate::util::has_plain_file_name(file->0@) ==> match
            crate::util::language_of_path(file->0@) {
            Some(l) => r matches Ok((k, CodeOrigin::File(q))) && k == l && q@ == file->0@,
            None => r == Err::<(SubmissionLanguage, CodeOrigin), SubmitError>(
                SubmitError::NoLanguage,
            ),
        },
        !stdin && file is Some && crate::util::has_clean_extension(file->0@) ==> match
            crate::util::language_of_extension(crate::util::trailing_extension(file->0@)) {
            Some(l) => r matches Ok((k, CodeOrigin::File(q))) && k == l && q@ == file->0@,
            None => r == Err::<(SubmissionLanguage, CodeOrigin), SubmitError>(
                SubmitError::NoLanguage,
            ),
        },
        !stdin && file is Some ==> match r {
            Ok((l, CodeOrigin::File(p))) => p@ == file->0@ && crate::util::names_language(
                p@,
                l,
            ),
            Ok((_, CodeOrigin::Stdin)) => false,
            Err(e) => e == SubmitError::NoLanguage,
        },
{
    if stdin {
        match language {
            Some(l) => Ok((l, CodeOrigin::Stdin)),
            None => Err(SubmitError::NoLanguage),
        }
    } else {
        match file {
            Some(path) => match crate::util::language(path.as_str()) {
                Some(l) => Ok((l, CodeOrigin::File(path))),
                None => Err(SubmitError::NoLanguage),
            },
            None => Err(SubmitError::NoCode),
        }
    }
}

} // verus!
