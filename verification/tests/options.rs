use rs_ansible::AnsibleConnectionOptions;
use rs_ansible::AnsiblePrivilegeEscalationOptions;

#[test]
fn options_generate_connection_options() {
    let options = AnsibleConnectionOptions {
        ask_pass: true,
        connection: "local".into(),
        private_key: "pk".into(),
        scp_extra_args: "scp-extra-args".into(),
        sftp_extra_args: "sftp-extra-args".into(),
        ssh_common_args: "ssh-common-args".into(),
        ssh_extra_args: "ssh-extra-args".into(),
        timeout: 10,
        user: "user".into(),
    };

    let expected = vec![
        "--ask-pass",
        "--connection",
        "local",
        "--private-key",
        "pk",
        "--scp-extra-args",
        "scp-extra-args",
        "--sftp-extra-args",
        "sftp-extra-args",
        "--ssh-common-args",
        "ssh-common-args",
        "--ssh-extra-args",
        "ssh-extra-args",
        "--timeout",
        "10",
        "--user",
        "user",
    ];

    match options.gen_conn_opts() {
        Ok(res) => assert_eq!(res, expected),
        _ => panic!("Err"),
    }
}

#[test]
fn generate_connection_string() {
    let options = AnsibleConnectionOptions {
        ask_pass: true,
        connection: "local".into(),
        private_key: "pk".into(),
        scp_extra_args: "scp-extra-args".into(),
        sftp_extra_args: "sftp-extra-args".into(),
        ssh_common_args: "ssh-common-args".into(),
        ssh_extra_args: "ssh-extra-args".into(),
        timeout: 10,
        user: "user".into(),
    };

    let expected = " --ask-pass --connection local --private-key pk --scp-extra-args scp-extra-args --sftp-extra-args sftp-extra-args --ssh-common-args ssh-common-args --ssh-extra-args ssh-extra-args --timeout 10 --user user";

    assert_eq!(options.to_string(), expected);
}

#[test]
fn generate_privesc_options() {
    let options = AnsiblePrivilegeEscalationOptions {
        do_become: true,
        become_method: "become-method".into(),
        become_user: "become-user".into(),
        ask_become_pass: true,
    };

    let expected = vec![
        "--ask-become-pass",
        "--become",
        "--become-method",
        "become-method",
        "--become-user",
        "become-user",
    ];

    match options.gen_cmd_privesc_opts() {
        Ok(res) => assert_eq!(res, expected),
        _ => panic!("Err"),
    }
}

#[test]
fn generate_privesc_string() {
    let options = AnsiblePrivilegeEscalationOptions {
        do_become: true,
        become_method: "become-method".into(),
        become_user: "become-user".into(),
        ask_become_pass: true,
    };

    let expected =
        " --ask-become-pass --become --become-method become-method --become-user become-user";

    assert_eq!(options.to_string(), expected);
}

#[test]
fn default_connection_options_compile_to_nothing() {
    let options = AnsibleConnectionOptions {
        ..Default::default()
    };
    let empty: Vec<String> = Vec::new();
    assert_eq!(options.gen_conn_opts().unwrap(), empty);
    assert_eq!(options.to_string(), " ");
}

#[test]
fn default_privesc_options_compile_to_nothing() {
    let options = AnsiblePrivilegeEscalationOptions {
        ..Default::default()
    };
    let empty: Vec<String> = Vec::new();
    assert_eq!(options.gen_cmd_privesc_opts().unwrap(), empty);
    assert_eq!(options.to_string(), " ");
}

#[test]
fn compiling_twice_yields_identical_output() {
    let options = AnsibleConnectionOptions {
        ask_pass: true,
        connection: "ssh".into(),
        timeout: 42,
        ..Default::default()
    };
    let first = options.gen_conn_opts().unwrap();
    let second = options.gen_conn_opts().unwrap();
    assert_eq!(first, second);
}

#[test]
fn toggling_ask_pass_adds_exactly_its_flag() {
    let without = AnsibleConnectionOptions {
        connection: "local".into(),
        user: "user".into(),
        ..Default::default()
    };
    let with = AnsibleConnectionOptions {
        ask_pass: true,
        connection: "local".into(),
        user: "user".into(),
        ..Default::default()
    };
    let mut expected = vec!["--ask-pass".to_string()];
    expected.extend(without.gen_conn_opts().unwrap());
    assert_eq!(with.gen_conn_opts().unwrap(), expected);
}

#[test]
fn setting_a_string_field_adds_flag_and_value() {
    let without = AnsiblePrivilegeEscalationOptions {
        do_become: true,
        ..Default::default()
    };
    let with = AnsiblePrivilegeEscalationOptions {
        do_become: true,
        become_user: "operator".into(),
        ..Default::default()
    };
    assert_eq!(without.gen_cmd_privesc_opts().unwrap(), vec!["--become"]);
    assert_eq!(
        with.gen_cmd_privesc_opts().unwrap(),
        vec!["--become", "--become-user", "operator"]
    );
}

#[test]
fn non_positive_timeout_is_unset() {
    let zero = AnsibleConnectionOptions {
        timeout: 0,
        ..Default::default()
    };
    let negative = AnsibleConnectionOptions {
        timeout: -1,
        ..Default::default()
    };
    let empty: Vec<String> = Vec::new();
    assert_eq!(zero.gen_conn_opts().unwrap(), empty);
    assert_eq!(negative.gen_conn_opts().unwrap(), empty);
}
