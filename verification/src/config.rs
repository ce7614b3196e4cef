//! The saved configuration of the client and the changes that logging in,
//! logging out and choosing a course make to it.

use vstd::prelude::*;

verus! {

/// The client's configuration. Durations are in milliseconds, the unit in
/// which the configuration file stores them.
pub struct Config {
    pub access_token: Option<String>,
    pub timeout: u64,
    pub poll_interval: u64,
    pub max_retries: u32,
    pub course_id: Option<u32>,
}

impl Default for Config {
    /// No login, no course, a 5 s timeout, a 1 s poll interval and 5 retries.
    fn default() -> (r: Self)
        ensures
            r.access_token is None,
            r.timeout == 5000,
            r.poll_interval == 1000,
            r.max_retries == 5,
            r.course_id is None,
    {
        Config {
            access_token: None,
            timeout: 5000,
            poll_interval: 1000,
            max_retries: 5,
            course_id: None,
        }
    }
}

impl Config {
    /// Whether an access token is saved.
    pub fn is_logged_in(&self) -> (r: bool)
        ensures
            r == self.access_token is Some,
    {
        self.access_token.is_some()
    }

    /// Forgets the access token and the chosen course.
    pub fn logout(&mut self)
        ensures
            *final(self) == logged_out(*old(self)),
    {
        self.access_token = None;
        self.course_id = None;
    }

    /// Saves the access token of a new login; the chosen course is forgotten.
    pub fn record_login(&mut self, access_token: String)
        ensures
            *final(self) == logged_in_with(*old(self), access_token),
    {
        self.access_token = Some(access_token);
        self.course_id = None;
    }

    /// Saves the chosen course.
    pub fn select_course(&mut self, course_id: u32)
        ensures
            *final(self) == with_course(*old(self), course_id),
    {
        self.course_id = Some(course_id);
    }
}

/// The configuration after logging out: no token and no chosen course.
pub open spec fn logged_out(c: Config) -> Config {
    Config {
        access_token: None,
        timeout: c.timeout,
        poll_interval: c.poll_interval,
        max_retries: c.max_retries,
        course_id: None,
    }
}

/// The configuration after logging in with `token`: the token is saved and
/// the chosen course forgotten.
pub open spec fn logged_in_with(c: Config, token: String) -> Config {
    Config {
        access_token: Some(token),
        timeout: c.timeout,
        poll_interval: c.poll_interval,
        max_retries: c.max_retries,
        course_id: None,
    }
}

/// The configuration after choosing course `id`.
pub open spec fn with_course(c: Config, id: u32) -> Config {
    Config {
        access_token: c.access_token,
        timeout: c.timeout,
        poll_interval: c.poll_interval,
        max_retries: c.max_retries,
        course_id: Some(id),
    }
}

/// Logging out leaves the client logged out; logging in leaves it logged in
/// with the new token; choosing a course keeps the login as it was.
pub proof fn lemma_login_state(c: Config, token: String, id: u32)
    ensures
        logged_out(c).access_token is None,
        logged_in_with(c, token).access_token == Some(token),
        with_course(c, id).access_token == c.access_token,
        with_course(logged_in_with(c, token), id).access_token == Some(token),
{
}

} // verus!
