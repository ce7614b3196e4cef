use codeptit::api::{plan_request, HttpMethod, PollStep, Poller, COURSES_PATH, LOGIN_PATH, SOLUTIONS_PATH};
use codeptit::config::Config;

#[test]
fn default_config() {
    let c = Config::default();
    assert_eq!(c.access_token, None);
    assert_eq!(c.timeout, 5000);
    assert_eq!(c.poll_interval, 1000);
    assert_eq!(c.max_retries, 5);
    assert_eq!(c.course_id, None);
    assert!(!c.is_logged_in());
}

#[test]
fn login_logout_and_course() {
    let mut c = Config::default();
    c.select_course(3);
    c.record_login("token".to_string());
    assert!(c.is_logged_in());
    assert_eq!(c.access_token.as_deref(), Some("token"));
    assert_eq!(c.course_id, None);
    c.select_course(8);
    assert_eq!(c.course_id, Some(8));
    assert!(c.is_logged_in());
    c.logout();
    assert!(!c.is_logged_in());
    assert_eq!(c.course_id, None);
    assert_eq!(c.timeout, 5000);
}

#[test]
fn request_plans() {
    let mut c = Config::default();
    let plan = plan_request(&c, "https://judge.example", HttpMethod::Get, COURSES_PATH);
    assert_eq!(plan.url, "https://judge.example/courses/studying");
    assert_eq!(plan.method, HttpMethod::Get);
    assert_eq!(plan.timeout_ms, 5000);
    assert_eq!(plan.bearer_token, None);
    c.record_login("abc".to_string());
    c.timeout = 250;
    let plan = plan_request(&c, "http://h", HttpMethod::Post, LOGIN_PATH);
    assert_eq!(plan.url, "http://h/auth/login");
    assert_eq!(plan.timeout_ms, 250);
    assert_eq!(plan.bearer_token.as_deref(), Some("abc"));
    assert_eq!(SOLUTIONS_PATH, "/solutions");
}

#[test]
fn poller_gives_up_after_all_attempts() {
    for retries in [0u32, 1, 5] {
        let mut p = Poller::new(retries);
        let mut attempts = 0u64;
        loop {
            attempts += 1;
            match p.record_failure() {
                PollStep::RetryAfterPause => continue,
                PollStep::GiveUpAfterPause => break,
            }
        }
        assert_eq!(attempts, retries as u64 + 1);
        assert_eq!(p.failures(), retries as u64 + 1);
    }
}
