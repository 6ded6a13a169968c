use edu_governance::{
    execute_governance_parameter_change, generate_certification_id, generate_course_id,
    generate_discussion_id, generate_learning_path_id, generate_lesson_id, is_valid_email,
    is_valid_username, ApiError, GovernanceConfig,
};

#[test]
fn ids_count_up_in_decimal() {
    let mut counter = 0u64;
    assert_eq!(generate_course_id(&mut counter), "course_1");
    assert_eq!(generate_course_id(&mut counter), "course_2");
    assert_eq!(counter, 2);
    let mut big = 1233u64;
    assert_eq!(generate_certification_id(&mut big), "cert_1234");
    let mut c = 9u64;
    assert_eq!(generate_lesson_id(&mut c), "lesson_10");
    let mut d = 0u64;
    assert_eq!(generate_discussion_id(&mut d), "discussion_1");
    let mut e = 41u64;
    assert_eq!(generate_learning_path_id(&mut e), "learning_path_42");
}

#[test]
fn email_rules() {
    assert!(is_valid_email("a@b.io"));
    assert!(!is_valid_email("a@b.i"));
    assert!(!is_valid_email("ab.cdef"));
    assert!(!is_valid_email("ab@cdef"));
    assert!(!is_valid_email(""));
}

#[test]
fn username_rules() {
    assert!(is_valid_username("john_doe"));
    assert!(is_valid_username("abc"));
    assert!(!is_valid_username("ab"));
    assert!(!is_valid_username("bad name"));
    assert!(!is_valid_username("dash-ed"));
    assert!(is_valid_username("jos\u{e9}1"));
    assert!(is_valid_username(&"a".repeat(50)));
    assert!(!is_valid_username(&"a".repeat(51)));
}

#[test]
fn error_messages() {
    assert_eq!(ApiError::NotFound("Proposal not found".to_string()).message(), "Not found: Proposal not found");
    assert_eq!(ApiError::InvalidInput("x".to_string()).message(), "Invalid input: x");
    assert_eq!(ApiError::InsufficientPermissions.message(), "Insufficient permissions");
    assert_eq!(ApiError::AlreadyExists("y".to_string()).message(), "Already exists: y");
    assert_eq!(ApiError::InternalError("z".to_string()).message(), "Internal error: z");
}

#[test]
fn parameter_change_on_config() {
    let mut c = GovernanceConfig::default();
    assert!(execute_governance_parameter_change(&mut c, &"minimum_proposal_threshold".to_string(), &"250".to_string()));
    assert_eq!(c.minimum_proposal_threshold, 250);
    assert!(!execute_governance_parameter_change(&mut c, &"minimum_proposal_threshold".to_string(), &"-1".to_string()));
    assert!(!execute_governance_parameter_change(&mut c, &"voting_period_days".to_string(), &" 3".to_string()));
    assert!(!execute_governance_parameter_change(&mut c, &"voting_period_days".to_string(), &"18446744073709551616".to_string()));
    assert!(execute_governance_parameter_change(&mut c, &"voting_period_days".to_string(), &"18446744073709551615".to_string()));
    assert_eq!(c.voting_period_days, u64::MAX);
    assert_eq!(c.minimum_proposal_threshold, 250);
}
