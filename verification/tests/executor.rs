use rs_ansible::verify_binary;
use rs_ansible::AnsiblePlaybookCmd;
use rs_ansible::DefaultExecutor;

#[test]
fn missing_binary_is_a_resolution_error() {
    match verify_binary("non-existing-binary") {
        Ok(_) => panic!("lookup of a missing binary succeeded"),
        Err(err) => {
            let msg = err.message();
            assert!(msg.starts_with("Binary file 'non-existing-binary' does not exists: ("));
            assert!(msg.ends_with(")"));
        },
    }
}

#[test]
fn executor_rejects_a_command_with_a_missing_binary() {
    let executor = DefaultExecutor {};
    let command = vec!["non-existing-binary".to_string(), "-i".to_string(), "127.0.0.1,".to_string()];
    assert!(executor.verify_command(&command).is_err());
}

#[test]
fn run_against_a_missing_binary_resolves_to_an_error() {
    let playbook_cmd = AnsiblePlaybookCmd {
        binary: "non-existing-binary".into(),
        playbooks: vec!["site.yml".into()],
        ..Default::default()
    };
    match playbook_cmd.resolved_command() {
        Ok(_) => panic!("resolution of a missing binary succeeded"),
        Err(err) => {
            assert!(err
                .message()
                .starts_with("Binary file 'non-existing-binary' does not exists: ("));
        },
    }
}

#[test]
fn resolved_command_builds_the_full_vector_for_a_real_binary() {
    let playbook_cmd = AnsiblePlaybookCmd {
        binary: "sh".into(),
        playbooks: vec!["site.yml".into()],
        ..Default::default()
    };
    match playbook_cmd.resolved_command() {
        Ok(cmd) => assert_eq!(cmd, vec!["sh", "site.yml"]),
        Err(err) => panic!("{}", err.message()),
    }
}
