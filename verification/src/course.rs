//! Courses the user studies, how they are shown, and how one is chosen.

use vstd::prelude::*;
use crate::text::{decimal, decimal_string};

verus! {

/// The subject a course teaches.
pub struct CourseSubject {
    pub code: String,
    pub name: String,
}

/// A course the user studies.
pub struct Course {
    pub id: u32,
    pub subject: CourseSubject,
}

/// The judge's list of the user's courses.
pub struct CourseResponse {
    pub courses: Vec<Course>,
}

/// How a course is shown in the list to choose from: `[id] code - name`.
pub open spec fn course_label_text(c: Course) -> Seq<char> {
    "["@ + decimal(c.id as nat) + "] "@ + c.subject.code@ + " - "@ + c.subject.name@
}

/// How a course is shown in the list to choose from.
pub fn course_label(course: &Course) -> (r: String)
    ensures
        r@ == course_label_text(*course),
{
    let mut label: String = String::from_str("[");
    let id: String = decimal_string(course.id as u64);
    label.append(id.as_str());
    label.append("] ");
    label.append(course.subject.code.as_str());
    label.append(" - ");
    label.append(course.subject.name.as_str());
    label
}

/// Some course of the list has this id.
pub open spec fn lists_course(courses: Seq<Course>, id: u32) -> bool {
    exists|i: int| 0 <= i < courses.len() && #[trigger] courses[i].id == id
}

/// `i` is the position of the first course of the list with this id.
pub open spec fn first_position(courses: Seq<Course>, id: u32, i: int) -> bool {
    &&& 0 <= i < courses.len()
    &&& courses[i].id == id
    &&& forall|j: int| 0 <= j < i ==> courses[j].id != id
}

/// The position of the first course with this id, if any.
pub fn course_position(courses: &Vec<Course>, id: u32) -> (r: Option<usize>)
    ensures
        match r {
            Some(i) => first_position(courses@, id, i as int),
            None => !lists_course(courses@, id),
        },
{
    let n: usize = courses.len();
    let mut i: usize = 0;
    while i < n
        invariant
            n == courses@.len(),
            i <= n,
            forall|j: int| 0 <= j < i ==> courses@[j].id != id,
        decreases n - i,
    {
        if courses[i].id == id {
            return Some(i);
        }
        i = i + 1;
    }
    None
}

/// Why no course can be chosen.
#[derive(Clone, Copy, Debug, PartialEq, Eq, Structural)]
pub enum CourseError {
    NotLoggedIn,
    NoCourses,
    InvalidCourse(u32),
}

impl CourseError {
    /// The message shown to the user, when it does not depend on a course id.
    pub open spec fn fixed_message_text(self) -> Seq<char> {
        match self {
            CourseError::NotLoggedIn => "Please login first"@,
            CourseError::NoCourses => "No courses to select"@,
            CourseError::InvalidCourse(_) => "Invalid course ID ["@,
        }
    }

    /// The message shown to the user.
    pub fn message(&self) -> (r: String)
        ensures
            match self {
                CourseError::InvalidCourse(id) => r@ == "Invalid course ID ["@ + decimal(
                    id as nat,
                ) + "]"@,
                _ => r@ == self.fixed_message_text(),
            },
    {
        match self {
            CourseError::NotLoggedIn => String::from_str("Please login first"),
            CourseError::NoCourses => String::from_str("No courses to select"),
            CourseError::InvalidCourse(id) => {
                let mut m: String = String::from_str("Invalid course ID [");
                let digits: String = decimal_string(*id as u64);
                m.append(digits.as_str());
                m.append("]");
                m
            },
        }
    }
}

/// The outcome of choosing a course: the course was named, or the user is to
/// be asked to pick one of the labelled courses, with the saved course, if
/// listed, picked beforehand.
pub enum CourseSelection {
    Chosen(u32),
    Prompt { labels: Vec<String>, default: Option<usize> },
}

/// Decides how the course is chosen among the user's courses: a requested
/// course must be listed; without one, the user is asked, starting from the
/// saved course.
pub fn plan_course_selection(
    courses: &Vec<Course>,
    requested: Option<u32>,
    saved: Option<u32>,
) -> (r: Result<CourseSelection, CourseError>)
    ensures
        courses@.len() == 0 ==> r matches Err(CourseError::NoCourses),
        courses@.len() > 0 ==> match requested {
            Some(id) => if lists_course(courses@, id) {
                r matches Ok(CourseSelection::Chosen(c)) && c == id
            } else {
                r matches Err(CourseError::InvalidCourse(c)) && c == id
            },
            None => r matches Ok(CourseSelection::Prompt { labels, default }) && labels@.len()
                == courses@.len() && (forall|i: int|
                0 <= i < courses@.len() ==> #[trigger] labels@[i]@ == course_label_text(
                    courses@[i],
                )) && match default {
                Some(i) => saved matches Some(id) && first_position(courses@, id, i as int),
                None => saved matches Some(id) ==> !lists_course(courses@, id),
            },
        },
{
    if courses.len() == 0 {
        return Err(CourseError::NoCourses);
    }
    match requested {
        Some(id) => {
            match course_position(courses, id) {
                Some(_) => Ok(CourseSelection::Chosen(id)),
                None => Err(CourseError::InvalidCourse(id)),
            }
        },
        None => {
            let n: usize = courses.len();
            let mut labels: Vec<String> = Vec::new();
            let mut i: usize = 0;
            while i < n
                invariant
                    n == courses@.len(),
                    i <= n,
                    labels@.len() == i,
                    forall|j: int|
                        0 <= j < i ==> #[trigger] labels@[j]@ == course_label_text(courses@[j]),
                decreases n - i,
            {
                labels.push(course_label(&courses[i]));
                i = i + 1;
            }
            let default: Option<usize> = match saved {
                Some(id) => course_position(courses, id),
                None => None,
            };
            Ok(CourseSelection::Prompt { labels, default })
        },
    }
}

} // verus!
