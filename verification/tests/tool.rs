use dns_failover::tool::{arguments, program, result_file};

#[test]
fn tool_is_started_with_its_fixed_arguments() {
    assert_eq!(program(), "./CloudflareST");
    assert_eq!(arguments(), vec!["-dn", "20", "-tl", "250"]);
}

#[test]
fn result_is_left_in_result_csv() {
    assert_eq!(result_file(), "result.csv");
}
