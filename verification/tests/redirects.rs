//! Decisions of the plain-HTTP to HTTPS redirect.

use itty_core::http_to_https_redirect::{
    redirect_path_and_query, redirect_response_status, HttpToHttpsError, HTTPS_REDIRECT_PORT,
};

#[test]
fn redirects_keep_the_requested_path() {
    assert_eq!(redirect_path_and_query(Some("/a?b=c".to_string())), "/a?b=c");
    assert_eq!(redirect_path_and_query(None), "/");
    assert_eq!(HTTPS_REDIRECT_PORT, 3000);
}

#[test]
fn only_a_successful_rewrite_redirects() {
    assert_eq!(redirect_response_status(&Ok("https://example.com:3000/".to_string())), 308);
    assert_eq!(redirect_response_status(&Err(HttpToHttpsError::InvalidUri)), 400);
    assert_eq!(redirect_response_status(&Err(HttpToHttpsError::Scheme)), 400);
}
