use webhook_runner::adapter::ExecutionContext;
use webhook_runner::executor::{child_env, shell_invocation};
use webhook_runner::hex::hex_decode;
use webhook_runner::sockets::{check_socket_count, ConfigError};
use webhook_runner::MAX_SOCKETS;

#[test]
fn zero_sockets_is_fatal() {
    assert_eq!(check_socket_count(0), Err(ConfigError::NoSockets));
}

#[test]
fn eleven_sockets_is_fatal() {
    assert_eq!(check_socket_count(11), Err(ConfigError::TooManySockets));
}

#[test]
fn one_to_ten_sockets_accepted() {
    for n in 1..=MAX_SOCKETS {
        assert_eq!(check_socket_count(n), Ok(()));
    }
}

#[test]
fn child_env_with_context_sets_exactly_two_variables() {
    let ctx = ExecutionContext {
        ref_field: "refs/heads/main".to_string(),
        url: "git://x/y".to_string(),
    };
    let env = child_env(&Some(ctx));
    assert_eq!(env.len(), 2);
    assert_eq!(env[0], ("RUN_REF".to_string(), "refs/heads/main".to_string()));
    assert_eq!(env[1], ("RUN_URL".to_string(), "git://x/y".to_string()));
}

#[test]
fn child_env_without_context_sets_none() {
    let env = child_env(&None);
    assert!(env.is_empty());
}

#[test]
fn shell_invocation_runs_template_through_command_flag() {
    let args = shell_invocation(&"echo hello".to_string());
    assert_eq!(args, vec!["-c".to_string(), "echo hello".to_string()]);
}

#[test]
fn hex_decode_reads_lowercase_pairs() {
    assert_eq!(hex_decode("00ff10"), Some(vec![0x00, 0xff, 0x10]));
    assert_eq!(hex_decode(""), Some(vec![]));
}

#[test]
fn hex_decode_rejects_odd_length() {
    assert_eq!(hex_decode("abc"), None);
    assert_eq!(hex_decode("0"), None);
}

#[test]
fn hex_decode_rejects_non_digits() {
    assert_eq!(hex_decode("zz"), None);
    assert_eq!(hex_decode("0g"), None);
}

#[test]
fn hex_decode_rejects_uppercase() {
    assert_eq!(hex_decode("AB"), None);
    assert_eq!(hex_decode("aB"), None);
}
