use rs_ansible::AnsibleConnectionOptions;
use rs_ansible::AnsiblePlaybookCmd;
use rs_ansible::AnsiblePlaybookOptions;
use rs_ansible::AnsiblePrivilegeEscalationOptions;
use rs_ansible::VarsValue;

#[test]
fn playbook_generate_connection_options() {
    let options = AnsibleConnectionOptions {
        connection: "local".into(),
        ..Default::default()
    };
    let expected = vec!["--connection", "local"];

    match options.gen_conn_opts() {
        Ok(res) => assert_eq!(res, expected),
        _ => panic!("Generate connection options"),
    }
}

#[test]
fn generate_playbook_options() {
    let options = AnsiblePlaybookOptions {
        ..Default::default()
    };
    let expected: Vec<&str> = vec![];
    match options.gen_opts() {
        Ok(res) => assert_eq!(res, expected),
        _ => panic!("Empty AnsiblePlaybookOptions definition"),
    }

    let options = AnsiblePlaybookOptions {
        flush_cache: true,
        force_handlers: true,
        list_tags: true,
        list_tasks: true,
        skip_tags: "tagN".into(),
        start_at_task: "second".into(),
        step: true,
        tags: "tags".into(),
        ..Default::default()
    };
    let expected = vec![
        "--flush-cache",
        "--force-handlers",
        "--list-tags",
        "--list-tasks",
        "--skip-tags",
        "tagN",
        "--start-at-task",
        "second",
        "--step",
        "--tags",
        "tags",
    ];
    match options.gen_opts() {
        Ok(res) => assert_eq!(res, expected),
        _ => panic!("AnsiblePlaybookOptions except extra vars"),
    }

    let options = AnsiblePlaybookOptions {
        extra_vars: VarsValue::Obj(vec![(
            "extra".to_string(),
            VarsValue::Str("var".to_string()),
        )]),
        extra_vars_file: vec!["@test.yml".into()],
        flush_cache: true,
        inventory: "inventory".into(),
        limit: "limit".into(),
        list_hosts: true,
        list_tags: true,
        list_tasks: true,
        tags: "tags".into(),
        ..Default::default()
    };
    let expected = vec![
        "--extra-vars",
        "{\"extra\":\"var\"}",
        "--extra-vars",
        "@test.yml",
        "--flush-cache",
        "--inventory",
        "inventory",
        "--limit",
        "limit",
        "--list-hosts",
        "--list-tags",
        "--list-tasks",
        "--tags",
        "tags",
    ];
    match options.gen_opts() {
        Ok(res) => assert_eq!(res, expected),
        _ => panic!("AnsiblePlaybookOptions with extra vars"),
    }
}

#[test]
fn generate_command() {
    let playbook_cmd = AnsiblePlaybookCmd {
        playbooks: vec!["test/ansible/site.yml".into()],
        connection_options: AnsibleConnectionOptions {
            ask_pass: true,
            connection: "local".into(),
            private_key: "pk".into(),
            timeout: 10,
            user: "apenella".into(),
            ..Default::default()
        },
        options: AnsiblePlaybookOptions {
            ask_vault_password: true,
            check: true,
            diff: true,
            forks: "10".into(),
            list_hosts: true,
            modules_path: "/dev/null".into(),
            syntax_check: true,
            vault_id: "asdf".into(),
            vault_password_file: "/dev/null".into(),
            verbose: true,
            version: true,

            inventory: "test/ansible/inventory/all".into(),
            limit: "myhost".into(),
            extra_vars: VarsValue::Obj(vec![(
                "var1".to_string(),
                VarsValue::Str("value1".to_string()),
            )]),
            flush_cache: true,
            tags: "tag1".into(),
            ..Default::default()
        },
        privilege_escalation_options: AnsiblePrivilegeEscalationOptions {
            do_become: true,
            become_method: "sudo".into(),
            become_user: "apenella".into(),
            ask_become_pass: true,
        },
        ..Default::default()
    };

    let expected = vec![
        "ansible-playbook",
        "--ask-vault-password",
        "--check",
        "--diff",
        "--extra-vars",
        "{\"var1\":\"value1\"}",
        "--flush-cache",
        "--forks",
        "10",
        "--inventory",
        "test/ansible/inventory/all",
        "--limit",
        "myhost",
        "--list-hosts",
        "--module-path",
        "/dev/null",
        "--syntax-check",
        "--tags",
        "tag1",
        "--vault-id",
        "asdf",
        "--vault-password-file",
        "/dev/null",
        "-vvvv",
        "--version",
        "--ask-pass",
        "--connection",
        "local",
        "--private-key",
        "pk",
        "--timeout",
        "10",
        "--user",
        "apenella",
        "--ask-become-pass",
        "--become",
        "--become-method",
        "sudo",
        "--become-user",
        "apenella",
        "test/ansible/site.yml",
    ];

    match playbook_cmd.command() {
        Ok(res) => assert_eq!(res, expected),
        _ => panic!("generate AnsiblePlaybookCmd command"),
    }
}

#[test]
fn flush_cache_and_tags_compile_in_group_order() {
    let options = AnsiblePlaybookOptions {
        flush_cache: true,
        tags: "tags".into(),
        ..Default::default()
    };
    let expected = vec!["--flush-cache", "--tags", "tags"];
    assert_eq!(options.gen_opts().unwrap(), expected);
}

#[test]
fn verbosity_level_one_wins_over_level_three() {
    let options = AnsiblePlaybookOptions {
        verbose_v: true,
        verbose_vvv: true,
        ..Default::default()
    };
    let res = options.gen_opts().unwrap();
    assert_eq!(res, vec!["-v"]);
    assert!(!res.contains(&"-vvv".to_string()));
}

#[test]
fn inline_extra_vars_come_before_file_entries() {
    let options = AnsiblePlaybookOptions {
        extra_vars: VarsValue::Obj(vec![(
            "key".to_string(),
            VarsValue::Str("value".to_string()),
        )]),
        extra_vars_file: vec!["@first.yml".into(), "@second.yml".into()],
        ..Default::default()
    };
    let expected = vec![
        "--extra-vars",
        "{\"key\":\"value\"}",
        "--extra-vars",
        "@first.yml",
        "--extra-vars",
        "@second.yml",
    ];
    assert_eq!(options.gen_opts().unwrap(), expected);
}

#[test]
fn full_command_for_connection_and_privilege_scenario() {
    let playbook_cmd = AnsiblePlaybookCmd {
        binary: "ansible-playbook".into(),
        playbooks: vec!["site.yml".into()],
        connection_options: AnsibleConnectionOptions {
            connection: "local".into(),
            timeout: 10,
            ..Default::default()
        },
        privilege_escalation_options: AnsiblePrivilegeEscalationOptions {
            do_become: true,
            become_method: "sudo".into(),
            ..Default::default()
        },
        ..Default::default()
    };
    let expected = vec![
        "ansible-playbook",
        "--connection",
        "local",
        "--timeout",
        "10",
        "--become",
        "--become-method",
        "sudo",
        "site.yml",
    ];
    assert_eq!(playbook_cmd.command().unwrap(), expected);
}

#[test]
fn command_to_string_joins_tokens_with_spaces() {
    let playbook_cmd = AnsiblePlaybookCmd {
        playbooks: vec!["site.yml".into()],
        connection_options: AnsibleConnectionOptions {
            connection: "local".into(),
            ..Default::default()
        },
        ..Default::default()
    };
    assert_eq!(
        playbook_cmd.to_string().unwrap(),
        "ansible-playbook --connection local site.yml"
    );
}

#[test]
fn default_command_is_just_the_binary() {
    let playbook_cmd = AnsiblePlaybookCmd {
        ..Default::default()
    };
    assert_eq!(playbook_cmd.command().unwrap(), vec!["ansible-playbook"]);
}

#[test]
fn building_the_command_twice_yields_identical_output() {
    let playbook_cmd = AnsiblePlaybookCmd {
        playbooks: vec!["a.yml".into(), "b.yml".into()],
        options: AnsiblePlaybookOptions {
            check: true,
            verbose_vv: true,
            ..Default::default()
        },
        ..Default::default()
    };
    assert_eq!(
        playbook_cmd.command().unwrap(),
        playbook_cmd.command().unwrap()
    );
}

#[test]
fn targets_are_kept_verbatim_and_in_order() {
    let playbook_cmd = AnsiblePlaybookCmd {
        playbooks: vec!["z.yml".into(), "a.yml".into(), "z.yml".into()],
        ..Default::default()
    };
    assert_eq!(
        playbook_cmd.command().unwrap(),
        vec!["ansible-playbook", "z.yml", "a.yml", "z.yml"]
    );
}
