//! Connection and privilege-escalation option groups.
//!
//! Each group is a plain configuration record with one operation: compile
//! to an ordered fragment of command-line tokens. A field contributes its
//! tokens exactly when it is set (a true boolean, a non-empty string, a
//! positive timeout), and the fields are visited in one fixed declaration
//! order.

use vstd::prelude::*;

use crate::text::cat_from;
use crate::text::cat_upto;
use crate::text::dec_rep;
use crate::text::emit_bool_flag;
use crate::text::emit_string_flag;
use crate::text::join_spaced;
use crate::text::join_with_space;
use crate::text::lemma_cat_from_congruent;
use crate::text::lemma_cat_from_empty;
use crate::text::lemma_cat_split;
use crate::text::lemma_cat_split_three;
use crate::text::lemma_cat_upto_congruent;
use crate::text::push_char;
use crate::text::push_flag_owned;
use crate::text::u64_to_decimal;
use crate::error::AnsibleError;

verus! {

/// The parameters of the `Connection Options` section of ansible-playbook's
/// man page: how to connect to the target hosts. Empty strings, a false
/// boolean and a non-positive timeout mean "unset" and emit nothing.
#[derive(Debug, Clone)]
pub struct AnsibleConnectionOptions {
    pub ask_pass: bool,
    pub connection: String,
    pub private_key: String,
    pub scp_extra_args: String,
    pub sftp_extra_args: String,
    pub ssh_common_args: String,
    pub ssh_extra_args: String,
    pub timeout: i32,
    pub user: String,
}

/// Every connection field is unset.
pub open spec fn conn_is_default(o: AnsibleConnectionOptions) -> bool {
    &&& !o.ask_pass
    &&& o.connection@.len() == 0
    &&& o.private_key@.len() == 0
    &&& o.scp_extra_args@.len() == 0
    &&& o.sftp_extra_args@.len() == 0
    &&& o.ssh_common_args@.len() == 0
    &&& o.ssh_extra_args@.len() == 0
    &&& o.timeout <= 0
    &&& o.user@.len() == 0
}

/// One token list per connection field, in the fixed declaration order.
/// An unset field's segment is empty; a set boolean contributes its flag
/// token alone, a set string its flag token followed by the value.
pub open spec fn conn_segments(o: AnsibleConnectionOptions) -> Seq<Seq<Seq<char>>> {
    seq![
        if o.ask_pass {
            seq!["--ask-pass"@]
        } else {
            Seq::<Seq<char>>::empty()
        },
        if o.connection@.len() > 0 {
            seq!["--connection"@, o.connection@]
        } else {
            Seq::<Seq<char>>::empty()
        },
        if o.private_key@.len() > 0 {
            seq!["--private-key"@, o.private_key@]
        } else {
            Seq::<Seq<char>>::empty()
        },
        if o.scp_extra_args@.len() > 0 {
            seq!["--scp-extra-args"@, o.scp_extra_args@]
        } else {
            Seq::<Seq<char>>::empty()
        },
        if o.sftp_extra_args@.len() > 0 {
            seq!["--sftp-extra-args"@, o.sftp_extra_args@]
        } else {
            Seq::<Seq<char>>::empty()
        },
        if o.ssh_common_args@.len() > 0 {
            seq!["--ssh-common-args"@, o.ssh_common_args@]
        } else {
            Seq::<Seq<char>>::empty()
        },
        if o.ssh_extra_args@.len() > 0 {
            seq!["--ssh-extra-args"@, o.ssh_extra_args@]
        } else {
            Seq::<Seq<char>>::empty()
        },
        if o.timeout > 0 {
            seq!["--timeout"@, dec_rep(o.timeout as nat)]
        } else {
            Seq::<Seq<char>>::empty()
        },
        if o.user@.len() > 0 {
            seq!["--user"@, o.user@]
        } else {
            Seq::<Seq<char>>::empty()
        },
    ]
}

/// The compiled connection fragment: the segments of all nine fields,
/// concatenated in order.
pub open spec fn conn_fragment(o: AnsibleConnectionOptions) -> Seq<Seq<char>> {
    cat_from(conn_segments(o), 0)
}

impl Default for AnsibleConnectionOptions {
    /// All fields unset; the timeout carries the `-1` sentinel.
    fn default() -> (r: Self)
        ensures
            conn_is_default(r),
            r.timeout == -1,
    {
        AnsibleConnectionOptions {
            ask_pass: false,
            connection: String::new(),
            private_key: String::new(),
            scp_extra_args: String::new(),
            sftp_extra_args: String::new(),
            ssh_common_args: String::new(),
            ssh_extra_args: String::new(),
            timeout: -1,
            user: String::new(),
        }
    }
}

impl AnsibleConnectionOptions {
    /// Compiles the connection options to their ordered flag fragment.
    /// Compilation is total: the result is always `Ok`.
    pub fn gen_conn_opts(&self) -> (r: Result<Vec<String>, AnsibleError>)
        ensures
            r matches Ok(cmd) && cmd.deep_view() == conn_fragment(*self),
    {
        let ghost segs = conn_segments(*self);
        let mut cmd: Vec<String> = Vec::new();

        proof {
            assert(cat_upto(segs, 0) == Seq::<Seq<char>>::empty());
            assert(cmd.deep_view() =~= cat_upto(segs, 0));
        }

        emit_bool_flag(&mut cmd, self.ask_pass, "--ask-pass");
        proof {
            assert(cmd.deep_view() == cat_upto(segs, 1));
        }

        emit_string_flag(&mut cmd, &self.connection, "--connection");
        proof {
            assert(cmd.deep_view() == cat_upto(segs, 2));
        }

        emit_string_flag(&mut cmd, &self.private_key, "--private-key");
        proof {
            assert(cmd.deep_view() == cat_upto(segs, 3));
        }

        emit_string_flag(&mut cmd, &self.scp_extra_args, "--scp-extra-args");
        proof {
            assert(cmd.deep_view() == cat_upto(segs, 4));
        }

        emit_string_flag(&mut cmd, &self.sftp_extra_args, "--sftp-extra-args");
        proof {
            assert(cmd.deep_view() == cat_upto(segs, 5));
        }

        emit_string_flag(&mut cmd, &self.ssh_common_args, "--ssh-common-args");
        proof {
            assert(cmd.deep_view() == cat_upto(segs, 6));
        }

        emit_string_flag(&mut cmd, &self.ssh_extra_args, "--ssh-extra-args");
        proof {
            assert(cmd.deep_view() == cat_upto(segs, 7));
        }

        if self.timeout > 0 {
            push_flag_owned(&mut cmd, "--timeout", u64_to_decimal(self.timeout as u64));
        }
        proof {
            assert(cmd.deep_view() == cat_upto(segs, 8));
        }

        emit_string_flag(&mut cmd, &self.user, "--user");
        proof {
            assert(cmd.deep_view() == cat_upto(segs, 9));
            lemma_cat_split(segs, 9);
            assert(cat_from(segs, 9) == Seq::<Seq<char>>::empty());
            assert(conn_fragment(*self) == cmd.deep_view());
        }

        Ok(cmd)
    }

    /// The connection fragment rendered as one string: a leading space,
    /// and the tokens joined by single spaces.
    pub fn to_string(&self) -> (r: String)
        ensures
            r@ == seq![' '] + join_spaced(conn_fragment(*self)),
    {
        let opts = match self.gen_conn_opts() {
            Ok(v) => v,
            Err(_) => Vec::new(),
        };
        let joined = join_with_space(&opts);
        let mut r = String::new();
        push_char(&mut r, ' ');
        r.append(joined.as_str());
        proof {
            assert(r@ =~= seq![' '] + join_spaced(conn_fragment(*self)));
        }
        r
    }
}

/// Compiling connection options is a pure function of the record: the same
/// configuration always yields the same fragment.
pub proof fn lemma_conn_compile_deterministic(
    o: AnsibleConnectionOptions,
    r1: Seq<Seq<char>>,
    r2: Seq<Seq<char>>,
)
    requires
        r1 == conn_fragment(o),
        r2 == conn_fragment(o),
    ensures
        r1 == r2,
{
}

/// An all-default connection record compiles to the empty fragment.
pub proof fn lemma_conn_default_empty(o: AnsibleConnectionOptions)
    requires
        conn_is_default(o),
    ensures
        conn_fragment(o) == Seq::<Seq<char>>::empty(),
{
    let segs = conn_segments(o);
    assert forall|j: int| 0 <= j < segs.len() implies segs[j] == Seq::<Seq<char>>::empty() by {
    }
    lemma_cat_from_empty(segs, 0);
}

/// Flag emission is monotonic per field: two connection records that agree
/// on every field but one compile to the same prefix and the same suffix,
/// and differ exactly in that field's own segment, at its fixed position.
pub proof fn lemma_conn_monotonic(
    o1: AnsibleConnectionOptions,
    o2: AnsibleConnectionOptions,
    i: int,
)
    requires
        0 <= i < 9,
        forall|j: int| 0 <= j < 9 && j != i ==> conn_segments(o1)[j] == conn_segments(o2)[j],
    ensures
        conn_fragment(o1) == cat_upto(conn_segments(o1), i) + conn_segments(o1)[i] + cat_from(
            conn_segments(o1),
            i + 1,
        ),
        conn_fragment(o2) == cat_upto(conn_segments(o1), i) + conn_segments(o2)[i] + cat_from(
            conn_segments(o1),
            i + 1,
        ),
{
    let s1 = conn_segments(o1);
    let s2 = conn_segments(o2);
    lemma_cat_split_three(s1, i);
    lemma_cat_split_three(s2, i);
    lemma_cat_upto_congruent(s2, s1, i);
    lemma_cat_from_congruent(s2, s1, i + 1);
}

/// Toggling `ask_pass` from false to true adds exactly the `--ask-pass`
/// token, at the front of the fragment, and changes nothing else.
pub proof fn lemma_conn_ask_pass_adds_one_token(
    o1: AnsibleConnectionOptions,
    o2: AnsibleConnectionOptions,
)
    requires
        !o1.ask_pass,
        o2.ask_pass,
        o2.connection@ == o1.connection@,
        o2.private_key@ == o1.private_key@,
        o2.scp_extra_args@ == o1.scp_extra_args@,
        o2.sftp_extra_args@ == o1.sftp_extra_args@,
        o2.ssh_common_args@ == o1.ssh_common_args@,
        o2.ssh_extra_args@ == o1.ssh_extra_args@,
        o2.timeout == o1.timeout,
        o2.user@ == o1.user@,
    ensures
        conn_fragment(o2) == seq!["--ask-pass"@] + conn_fragment(o1),
{
    lemma_conn_monotonic(o1, o2, 0);
    assert(conn_fragment(o2) =~= seq!["--ask-pass"@] + conn_fragment(o1));
}

/// Setting `connection` from empty to non-empty adds exactly the
/// `--connection` token followed by the value, at the field's fixed
/// position, and changes nothing else.
pub proof fn lemma_conn_connection_adds_tokens(
    o1: AnsibleConnectionOptions,
    o2: AnsibleConnectionOptions,
)
    requires
        o1.connection@.len() == 0,
        o2.connection@.len() > 0,
        o2.ask_pass == o1.ask_pass,
        o2.private_key@ == o1.private_key@,
        o2.scp_extra_args@ == o1.scp_extra_args@,
        o2.sftp_extra_args@ == o1.sftp_extra_args@,
        o2.ssh_common_args@ == o1.ssh_common_args@,
        o2.ssh_extra_args@ == o1.ssh_extra_args@,
        o2.timeout == o1.timeout,
        o2.user@ == o1.user@,
    ensures
        conn_fragment(o1) == cat_upto(conn_segments(o1), 1) + cat_from(conn_segments(o1), 2),
        conn_fragment(o2) == cat_upto(conn_segments(o1), 1) + seq![
            "--connection"@,
            o2.connection@,
        ] + cat_from(conn_segments(o1), 2),
{
    lemma_conn_monotonic(o1, o2, 1);
    assert(conn_fragment(o1) =~= cat_upto(conn_segments(o1), 1) + cat_from(conn_segments(o1), 2));
}

/// The parameters of the `Privilege Escalation Options` section of
/// ansible-playbook's man page: how and which user to become on the target
/// hosts. The escalation method is an opaque pass-through string (sudo, su,
/// doas, runas, and the like).
#[derive(Debug, Clone)]
pub struct AnsiblePrivilegeEscalationOptions {
    pub ask_become_pass: bool,
    pub do_become: bool,
    pub become_method: String,
    pub become_user: String,
}

/// Every privilege-escalation field is unset.
pub open spec fn privesc_is_default(o: AnsiblePrivilegeEscalationOptions) -> bool {
    &&& !o.ask_become_pass
    &&& !o.do_become
    &&& o.become_method@.len() == 0
    &&& o.become_user@.len() == 0
}

/// One token list per privilege-escalation field, in the fixed declaration
/// order.
pub open spec fn privesc_segments(o: AnsiblePrivilegeEscalationOptions) -> Seq<Seq<Seq<char>>> {
    seq![
        if o.ask_become_pass {
            seq!["--ask-become-pass"@]
        } else {
            Seq::<Seq<char>>::empty()
        },
        if o.do_become {
            seq!["--become"@]
        } else {
            Seq::<Seq<char>>::empty()
        },
        if o.become_method@.len() > 0 {
            seq!["--become-method"@, o.become_method@]
        } else {
            Seq::<Seq<char>>::empty()
        },
        if o.become_user@.len() > 0 {
            seq!["--become-user"@, o.become_user@]
        } else {
            Seq::<Seq<char>>::empty()
        },
    ]
}

/// The compiled privilege-escalation fragment: the segments of all four
/// fields, concatenated in order.
pub open spec fn privesc_fragment(o: AnsiblePrivilegeEscalationOptions) -> Seq<Seq<char>> {
    cat_from(privesc_segments(o), 0)
}

impl Default for AnsiblePrivilegeEscalationOptions {
    /// All fields unset.
    fn default() -> (r: Self)
        ensures
            privesc_is_default(r),
    {
        AnsiblePrivilegeEscalationOptions {
            ask_become_pass: false,
            do_become: false,
            become_method: String::new(),
            become_user: String::new(),
        }
    }
}

impl AnsiblePrivilegeEscalationOptions {
    /// Compiles the privilege-escalation options to their ordered flag
    /// fragment. Compilation is total: the result is always `Ok`.
    pub fn gen_cmd_privesc_opts(&self) -> (r: Result<Vec<String>, AnsibleError>)
        ensures
            r matches Ok(cmd) && cmd.deep_view() == privesc_fragment(*self),
    {
        let ghost segs = privesc_segments(*self);
        let mut cmd: Vec<String> = Vec::new();

        proof {
            assert(cat_upto(segs, 0) == Seq::<Seq<char>>::empty());
            assert(cmd.deep_view() =~= cat_upto(segs, 0));
        }

        emit_bool_flag(&mut cmd, self.ask_become_pass, "--ask-become-pass");
        proof {
            assert(cmd.deep_view() == cat_upto(segs, 1));
        }

        emit_bool_flag(&mut cmd, self.do_become, "--become");
        proof {
            assert(cmd.deep_view() == cat_upto(segs, 2));
        }

        emit_string_flag(&mut cmd, &self.become_method, "--become-method");
        proof {
            assert(cmd.deep_view() == cat_upto(segs, 3));
        }

        emit_string_flag(&mut cmd, &self.become_user, "--become-user");
        proof {
            assert(cmd.deep_view() == cat_upto(segs, 4));
            lemma_cat_split(segs, 4);
            assert(cat_from(segs, 4) == Seq::<Seq<char>>::empty());
            assert(privesc_fragment(*self) == cmd.deep_view());
        }

        Ok(cmd)
    }

    /// The privilege-escalation fragment rendered as one string: a leading
    /// space, and the tokens joined by single spaces.
    pub fn to_string(&self) -> (r: String)
        ensures
            r@ == seq![' '] + join_spaced(privesc_fragment(*self)),
    {
        let opts = match self.gen_cmd_privesc_opts() {
            Ok(v) => v,
            Err(_) => Vec::new(),
        };
        let joined = join_with_space(&opts);
        let mut r = String::new();
        push_char(&mut r, ' ');
        r.append(joined.as_str());
        proof {
            assert(r@ =~= seq![' '] + join_spaced(privesc_fragment(*self)));
        }
        r
    }
}

/// Compiling privilege-escalation options is a pure function of the record.
pub proof fn lemma_privesc_compile_deterministic(
    o: AnsiblePrivilegeEscalationOptions,
    r1: Seq<Seq<char>>,
    r2: Seq<Seq<char>>,
)
    requires
        r1 == privesc_fragment(o),
        r2 == privesc_fragment(o),
    ensures
        r1 == r2,
{
}

/// An all-default privilege-escalation record compiles to the empty
/// fragment.
pub proof fn lemma_privesc_default_empty(o: AnsiblePrivilegeEscalationOptions)
    requires
        privesc_is_default(o),
    ensures
        privesc_fragment(o) == Seq::<Seq<char>>::empty(),
{
    let segs = privesc_segments(o);
    assert forall|j: int| 0 <= j < segs.len() implies segs[j] == Seq::<Seq<char>>::empty() by {
    }
    lemma_cat_from_empty(segs, 0);
}

/// Flag emission is monotonic per field, as for the connection group: a
/// change confined to one field moves only that field's segment.
pub proof fn lemma_privesc_monotonic(
    o1: AnsiblePrivilegeEscalationOptions,
    o2: AnsiblePrivilegeEscalationOptions,
    i: int,
)
    requires
        0 <= i < 4,
        forall|j: int| 0 <= j < 4 && j != i ==> privesc_segments(o1)[j] == privesc_segments(o2)[j],
    ensures
        privesc_fragment(o1) == cat_upto(privesc_segments(o1), i) + privesc_segments(o1)[i]
            + cat_from(privesc_segments(o1), i + 1),
        privesc_fragment(o2) == cat_upto(privesc_segments(o1), i) + privesc_segments(o2)[i]
            + cat_from(privesc_segments(o1), i + 1),
{
    let s1 = privesc_segments(o1);
    let s2 = privesc_segments(o2);
    lemma_cat_split_three(s1, i);
    lemma_cat_split_three(s2, i);
    lemma_cat_upto_congruent(s2, s1, i);
    lemma_cat_from_congruent(s2, s1, i + 1);
}

/// Toggling `do_become` from false to true adds exactly the `--become`
/// token at its fixed position, and changes nothing else.
pub proof fn lemma_privesc_become_adds_one_token(
    o1: AnsiblePrivilegeEscalationOptions,
    o2: AnsiblePrivilegeEscalationOptions,
)
    requires
        !o1.do_become,
        o2.do_become,
        o2.ask_become_pass == o1.ask_become_pass,
        o2.become_method@ == o1.become_method@,
        o2.become_user@ == o1.become_user@,
    ensures
        privesc_fragment(o1) == cat_upto(privesc_segments(o1), 1) + cat_from(
            privesc_segments(o1),
            2,
        ),
        privesc_fragment(o2) == cat_upto(privesc_segments(o1), 1) + seq!["--become"@] + cat_from(
            privesc_segments(o1),
            2,
        ),
{
    lemma_privesc_monotonic(o1, o2, 1);
    assert(privesc_fragment(o1) =~= cat_upto(privesc_segments(o1), 1) + cat_from(
        privesc_segments(o1),
        2,
    ));
}

} // verus!
