use sysguard::command::{complete_command, plan_command};
use sysguard::errors::ErrorKind;

#[test]
fn rejects_names_outside_allow_list() {
    for name in ["curl", "echo", "bash", "sudo", "Killall", "/bin/ls", ""] {
        let r = plan_command(name, Vec::new());
        match r {
            Ok(_) => panic!("{name} must be rejected"),
            Err(e) => {
                assert_eq!(e.kind, ErrorKind::PolicyViolation);
                assert_eq!(e.message, format!("Command '{name}' is not allowed"));
            }
        }
    }
}

#[test]
fn allow_listed_names_get_literal_plans() {
    for name in ["killall", "ps", "ls", "cat", "mkdir", "rm", "pgrep", "open"] {
        let args = vec![String::from("-a"), String::from("x y")];
        let plan = plan_command(name, args.clone()).expect("allow-listed name");
        let (program, out_args) = plan.into_parts();
        assert_eq!(program, name);
        assert_eq!(out_args, args);
    }
}

#[test]
fn rm_plan_carries_arguments_verbatim() {
    let args = vec![String::from("-rf"), String::from("/tmp/test123")];
    let plan = plan_command("rm", args.clone()).expect("rm is allow-listed");
    let (program, out_args) = plan.into_parts();
    assert_eq!(program, "rm");
    assert_eq!(out_args, args);
}

#[test]
fn curl_is_refused_with_a_telling_message() {
    let r = plan_command("curl", vec![String::from("https://example.com")]);
    let e = r.err().expect("curl is not allow-listed");
    assert_eq!(e.kind, ErrorKind::PolicyViolation);
    assert!(e.message.contains("curl"));
    assert!(e.message.contains("not allowed"));
}

#[test]
fn success_mirrors_exit_code_zero() {
    assert!(complete_command(Vec::new(), Vec::new(), Some(0)).success);
    assert!(!complete_command(Vec::new(), Vec::new(), Some(1)).success);
    assert!(!complete_command(Vec::new(), Vec::new(), Some(-9)).success);
    assert!(!complete_command(Vec::new(), Vec::new(), None).success);
}

#[test]
fn output_streams_are_decoded() {
    let r = complete_command(b"out text".to_vec(), b"err text".to_vec(), Some(0));
    assert_eq!(r.stdout, "out text");
    assert_eq!(r.stderr, "err text");
}

#[test]
fn invalid_bytes_are_replaced_not_fatal() {
    let r = complete_command(vec![0x66, 0x6f, 0xff], vec![0xc3, 0x28], Some(1));
    assert_eq!(r.stdout, "fo\u{fffd}");
    assert_eq!(r.stderr, "\u{fffd}(");
    assert!(!r.success);
}
