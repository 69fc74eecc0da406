//! Playbook options and the playbook command.
//!
//! The playbook option group compiles to its flag fragment in one fixed
//! order; the command composes the binary name, the three group fragments
//! and the target list into the final argument vector.

use vstd::prelude::*;

use crate::error::AnsibleError;
use crate::executor::verify_binary;
use crate::executor::DefaultExecutor;
use crate::options::conn_fragment;
use crate::options::conn_is_default;
use crate::options::AnsibleConnectionOptions;
use crate::options::privesc_fragment;
use crate::options::privesc_is_default;
use crate::options::AnsiblePrivilegeEscalationOptions;
use crate::text::cat_from;
use crate::text::cat_upto;
use crate::text::join_spaced;
use crate::text::join_with_space;
use crate::text::lemma_cat_from_congruent;
use crate::text::lemma_cat_from_empty;
use crate::text::lemma_cat_split;
use crate::text::lemma_cat_split_three;
use crate::text::lemma_cat_upto_congruent;
use crate::text::emit_bool_flag;
use crate::text::emit_string_flag;
use crate::text::emit_token_if_nonempty;
use crate::text::push_flag_owned;
use crate::text::push_flag_value;
use crate::vars::json_chars;
use crate::vars::VarsValue;

verus! {

/// The parameters of the `Options` section of ansible-playbook's man page:
/// the execution-mode behavior of one playbook run. Empty strings, false
/// booleans, a `Null` extra-variables value and an empty file list mean
/// "unset" and emit nothing.
pub struct AnsiblePlaybookOptions {
    pub ask_vault_password: bool,
    pub check: bool,
    pub diff: bool,
    pub extra_vars: VarsValue,
    pub extra_vars_file: Vec<String>,
    pub flush_cache: bool,
    pub force_handlers: bool,
    pub forks: String,
    pub inventory: String,
    pub limit: String,
    pub list_hosts: bool,
    pub list_tags: bool,
    pub list_tasks: bool,
    pub modules_path: String,
    pub skip_tags: String,
    pub start_at_task: String,
    pub step: bool,
    pub syntax_check: bool,
    pub tags: String,
    pub vault_id: String,
    pub vault_password_file: String,
    pub verbose: bool,
    pub verbose_v: bool,
    pub verbose_vv: bool,
    pub verbose_vvv: bool,
    pub verbose_vvvv: bool,
    pub version: bool,
}

/// Every playbook field is unset.
pub open spec fn playbook_is_default(o: AnsiblePlaybookOptions) -> bool {
    &&& !o.ask_vault_password
    &&& !o.check
    &&& !o.diff
    &&& o.extra_vars is Null
    &&& o.extra_vars_file@.len() == 0
    &&& !o.flush_cache
    &&& !o.force_handlers
    &&& o.forks@.len() == 0
    &&& o.inventory@.len() == 0
    &&& o.limit@.len() == 0
    &&& !o.list_hosts
    &&& !o.list_tags
    &&& !o.list_tasks
    &&& o.modules_path@.len() == 0
    &&& o.skip_tags@.len() == 0
    &&& o.start_at_task@.len() == 0
    &&& !o.step
    &&& !o.syntax_check
    &&& o.tags@.len() == 0
    &&& o.vault_id@.len() == 0
    &&& o.vault_password_file@.len() == 0
    &&& !o.verbose
    &&& !o.verbose_v
    &&& !o.verbose_vv
    &&& !o.verbose_vvv
    &&& !o.verbose_vvvv
    &&& !o.version
}

/// The single verbosity token. The five toggles act as one five-way
/// discriminant, checked from level one upward: the lowest level set wins
/// and the others are ignored. Levels four and five both emit the literal
/// `-vvvv` token; the duplicate text is kept on purpose, as a verbatim
/// compatibility contract with the emitted flag grammar.
pub open spec fn verbosity_rep(o: AnsiblePlaybookOptions) -> Seq<char> {
    if o.verbose_v {
        "-v"@
    } else if o.verbose_vv {
        "-vv"@
    } else if o.verbose_vvv {
        "-vvv"@
    } else if o.verbose_vvvv {
        "-vvvv"@
    } else if o.verbose {
        "-vvvv"@
    } else {
        Seq::empty()
    }
}

/// One `--extra-vars <path>` pair per file, in list order.
pub open spec fn files_tokens(files: Seq<Seq<char>>) -> Seq<Seq<char>>
    decreases files.len(),
{
    if files.len() == 0 {
        Seq::empty()
    } else {
        files_tokens(files.drop_last()) + seq!["--extra-vars"@, files.last()]
    }
}

/// The `--ask-vault-password` segment.
pub open spec fn pb_seg_ask_vault_password(o: AnsiblePlaybookOptions) -> Seq<Seq<char>> {
    if o.ask_vault_password {
        seq!["--ask-vault-password"@]
    } else {
        Seq::<Seq<char>>::empty()
    }
}

/// The `--check` segment.
pub open spec fn pb_seg_check(o: AnsiblePlaybookOptions) -> Seq<Seq<char>> {
    if o.check {
        seq!["--check"@]
    } else {
        Seq::<Seq<char>>::empty()
    }
}

/// The `--diff` segment.
pub open spec fn pb_seg_diff(o: AnsiblePlaybookOptions) -> Seq<Seq<char>> {
    if o.diff {
        seq!["--diff"@]
    } else {
        Seq::<Seq<char>>::empty()
    }
}

/// The inline extra-variables segment: the flag and the serialized JSON
/// text, when the value is set.
pub open spec fn pb_seg_extra_vars(o: AnsiblePlaybookOptions) -> Seq<Seq<char>> {
    if !(o.extra_vars is Null) {
        seq!["--extra-vars"@, json_chars(o.extra_vars)]
    } else {
        Seq::<Seq<char>>::empty()
    }
}

/// The extra-variables files segment: one flag pair per file, in list
/// order.
pub open spec fn pb_seg_extra_vars_file(o: AnsiblePlaybookOptions) -> Seq<Seq<char>> {
    files_tokens(o.extra_vars_file.deep_view())
}

/// The `--flush-cache` segment.
pub open spec fn pb_seg_flush_cache(o: AnsiblePlaybookOptions) -> Seq<Seq<char>> {
    if o.flush_cache {
        seq!["--flush-cache"@]
    } else {
        Seq::<Seq<char>>::empty()
    }
}

/// The `--force-handlers` segment.
pub open spec fn pb_seg_force_handlers(o: AnsiblePlaybookOptions) -> Seq<Seq<char>> {
    if o.force_handlers {
        seq!["--force-handlers"@]
    } else {
        Seq::<Seq<char>>::empty()
    }
}

/// The `--forks` segment.
pub open spec fn pb_seg_forks(o: AnsiblePlaybookOptions) -> Seq<Seq<char>> {
    if o.forks@.len() > 0 {
        seq!["--forks"@, o.forks@]
    } else {
        Seq::<Seq<char>>::empty()
    }
}

/// The `--inventory` segment.
pub open spec fn pb_seg_inventory(o: AnsiblePlaybookOptions) -> Seq<Seq<char>> {
    if o.inventory@.len() > 0 {
        seq!["--inventory"@, o.inventory@]
    } else {
        Seq::<Seq<char>>::empty()
    }
}

/// The `--limit` segment.
pub open spec fn pb_seg_limit(o: AnsiblePlaybookOptions) -> Seq<Seq<char>> {
    if o.limit@.len() > 0 {
        seq!["--limit"@, o.limit@]
    } else {
        Seq::<Seq<char>>::empty()
    }
}

/// The `--list-hosts` segment.
pub open spec fn pb_seg_list_hosts(o: AnsiblePlaybookOptions) -> Seq<Seq<char>> {
    if o.list_hosts {
        seq!["--list-hosts"@]
    } else {
        Seq::<Seq<char>>::empty()
    }
}

/// The `--list-tags` segment.
pub open spec fn pb_seg_list_tags(o: AnsiblePlaybookOptions) -> Seq<Seq<char>> {
    if o.list_tags {
        seq!["--list-tags"@]
    } else {
        Seq::<Seq<char>>::empty()
    }
}

/// The `--list-tasks` segment.
pub open spec fn pb_seg_list_tasks(o: AnsiblePlaybookOptions) -> Seq<Seq<char>> {
    if o.list_tasks {
        seq!["--list-tasks"@]
    } else {
        Seq::<Seq<char>>::empty()
    }
}

/// The `--module-path` segment.
pub open spec fn pb_seg_modules_path(o: AnsiblePlaybookOptions) -> Seq<Seq<char>> {
    if o.modules_path@.len() > 0 {
        seq!["--module-path"@, o.modules_path@]
    } else {
        Seq::<Seq<char>>::empty()
    }
}

/// The `--skip-tags` segment.
pub open spec fn pb_seg_skip_tags(o: AnsiblePlaybookOptions) -> Seq<Seq<char>> {
    if o.skip_tags@.len() > 0 {
        seq!["--skip-tags"@, o.skip_tags@]
    } else {
        Seq::<Seq<char>>::empty()
    }
}

/// The `--start-at-task` segment.
pub open spec fn pb_seg_start_at_task(o: AnsiblePlaybookOptions) -> Seq<Seq<char>> {
    if o.start_at_task@.len() > 0 {
        seq!["--start-at-task"@, o.start_at_task@]
    } else {
        Seq::<Seq<char>>::empty()
    }
}

/// The `--step` segment.
pub open spec fn pb_seg_step(o: AnsiblePlaybookOptions) -> Seq<Seq<char>> {
    if o.step {
        seq!["--step"@]
    } else {
        Seq::<Seq<char>>::empty()
    }
}

/// The `--syntax-check` segment.
pub open spec fn pb_seg_syntax_check(o: AnsiblePlaybookOptions) -> Seq<Seq<char>> {
    if o.syntax_check {
        seq!["--syntax-check"@]
    } else {
        Seq::<Seq<char>>::empty()
    }
}

/// The `--tags` segment.
pub open spec fn pb_seg_tags(o: AnsiblePlaybookOptions) -> Seq<Seq<char>> {
    if o.tags@.len() > 0 {
        seq!["--tags"@, o.tags@]
    } else {
        Seq::<Seq<char>>::empty()
    }
}

/// The `--vault-id` segment.
pub open spec fn pb_seg_vault_id(o: AnsiblePlaybookOptions) -> Seq<Seq<char>> {
    if o.vault_id@.len() > 0 {
        seq!["--vault-id"@, o.vault_id@]
    } else {
        Seq::<Seq<char>>::empty()
    }
}

/// The `--vault-password-file` segment.
pub open spec fn pb_seg_vault_password_file(o: AnsiblePlaybookOptions) -> Seq<Seq<char>> {
    if o.vault_password_file@.len() > 0 {
        seq!["--vault-password-file"@, o.vault_password_file@]
    } else {
        Seq::<Seq<char>>::empty()
    }
}

/// The verbosity segment: the single winning token, when a level is set.
pub open spec fn pb_seg_verbosity(o: AnsiblePlaybookOptions) -> Seq<Seq<char>> {
    if verbosity_rep(o).len() > 0 {
        seq![verbosity_rep(o)]
    } else {
        Seq::<Seq<char>>::empty()
    }
}

/// The `--version` segment.
pub open spec fn pb_seg_version(o: AnsiblePlaybookOptions) -> Seq<Seq<char>> {
    if o.version {
        seq!["--version"@]
    } else {
        Seq::<Seq<char>>::empty()
    }
}

/// One token list per playbook field, in the fixed emission order. The
/// inline extra-variables value stands immediately before the
/// extra-variables files, which follow in list order.
pub open spec fn playbook_segments(o: AnsiblePlaybookOptions) -> Seq<Seq<Seq<char>>> {
    seq![
        pb_seg_ask_vault_password(o),
        pb_seg_check(o),
        pb_seg_diff(o),
        pb_seg_extra_vars(o),
        pb_seg_extra_vars_file(o),
        pb_seg_flush_cache(o),
        pb_seg_force_handlers(o),
        pb_seg_forks(o),
        pb_seg_inventory(o),
        pb_seg_limit(o),
        pb_seg_list_hosts(o),
        pb_seg_list_tags(o),
        pb_seg_list_tasks(o),
        pb_seg_modules_path(o),
        pb_seg_skip_tags(o),
        pb_seg_start_at_task(o),
        pb_seg_step(o),
        pb_seg_syntax_check(o),
        pb_seg_tags(o),
        pb_seg_vault_id(o),
        pb_seg_vault_password_file(o),
        pb_seg_verbosity(o),
        pb_seg_version(o),
    ]
}

/// The compiled playbook fragment: the segments of all fields,
/// concatenated in the fixed order.
pub open spec fn playbook_fragment(o: AnsiblePlaybookOptions) -> Seq<Seq<char>> {
    cat_from(playbook_segments(o), 0)
}

impl Default for AnsiblePlaybookOptions {
    /// All fields unset.
    fn default() -> (r: Self)
        ensures
            playbook_is_default(r),
    {
        AnsiblePlaybookOptions {
            ask_vault_password: false,
            check: false,
            diff: false,
            extra_vars: VarsValue::Null,
            extra_vars_file: Vec::new(),
            flush_cache: false,
            force_handlers: false,
            forks: String::new(),
            inventory: String::new(),
            limit: String::new(),
            list_hosts: false,
            list_tags: false,
            list_tasks: false,
            modules_path: String::new(),
            skip_tags: String::new(),
            start_at_task: String::new(),
            step: false,
            syntax_check: false,
            tags: String::new(),
            vault_id: String::new(),
            vault_password_file: String::new(),
            verbose: false,
            verbose_v: false,
            verbose_vv: false,
            verbose_vvv: false,
            verbose_vvvv: false,
            version: false,
        }
    }
}

impl AnsiblePlaybookOptions {
    /// The single verbosity flag, or the empty string when no level is
    /// set. Levels are checked from one upward; the lowest set level wins.
    fn gen_verbosity(&self) -> (r: &str)
        ensures
            r@ == verbosity_rep(*self),
    {
        proof {
            reveal_strlit("");
            assert(""@ =~= Seq::<char>::empty());
        }
        if self.verbose_v {
            "-v"
        } else if self.verbose_vv {
            "-vv"
        } else if self.verbose_vvv {
            "-vvv"
        } else if self.verbose_vvvv {
            "-vvvv"
        } else if self.verbose {
            "-vvvv"
        } else {
            ""
        }
    }

    /// The inline extra variables, serialized to their compact JSON text.
    fn gen_extra_args(&self) -> (r: String)
        ensures
            r@ == json_chars(self.extra_vars),
    {
        self.extra_vars.to_json()
    }

    /// Compiles the playbook options to their ordered flag fragment.
    /// Compilation is total: the result is always `Ok`.
    #[verifier::rlimit(100)]
    pub fn gen_opts(&self) -> (r: Result<Vec<String>, AnsibleError>)
        ensures
            r matches Ok(cmd) && cmd.deep_view() == playbook_fragment(*self),
    {
        let ghost segs = playbook_segments(*self);
        let mut cmd: Vec<String> = Vec::new();
        proof {
            assert(cat_upto(segs, 0) == Seq::<Seq<char>>::empty());
            assert(cmd.deep_view() =~= cat_upto(segs, 0));
        }

        emit_bool_flag(&mut cmd, self.ask_vault_password, "--ask-vault-password");
        proof {
            assert(cmd.deep_view() == cat_upto(segs, 1));
        }

        emit_bool_flag(&mut cmd, self.check, "--check");
        proof {
            assert(cmd.deep_view() == cat_upto(segs, 2));
        }

        emit_bool_flag(&mut cmd, self.diff, "--diff");
        proof {
            assert(cmd.deep_view() == cat_upto(segs, 3));
        }

        if !self.extra_vars.is_null() {
            push_flag_owned(&mut cmd, "--extra-vars", self.gen_extra_args());
        }
        proof {
            assert(cmd.deep_view() == cat_upto(segs, 4));
        }

        let ghost files = self.extra_vars_file.deep_view();
        proof {
            assert(files_tokens(files.take(0)) == Seq::<Seq<char>>::empty());
        }
        let mut i: usize = 0;
        while i < self.extra_vars_file.len()
            invariant
                0 <= i <= self.extra_vars_file.len(),
                segs == playbook_segments(*self),
                files == self.extra_vars_file.deep_view(),
                files.len() == self.extra_vars_file.len(),
                cmd.deep_view() == cat_upto(segs, 4) + files_tokens(files.take(i as int)),
            decreases self.extra_vars_file.len() - i,
        {
            push_flag_value(&mut cmd, "--extra-vars", &self.extra_vars_file[i]);
            proof {
                let prefix = files.take(i + 1 as int);
                assert(prefix.drop_last() =~= files.take(i as int));
                assert(prefix.last() == files[i as int]);
                assert(files[i as int] == self.extra_vars_file@[i as int]@);
                assert(cmd.deep_view() =~= cat_upto(segs, 4) + files_tokens(prefix));
            }
            i = i + 1;
        }
        proof {
            assert(files.take(files.len() as int) =~= files);
            assert(cmd.deep_view() == cat_upto(segs, 5));
        }

        emit_bool_flag(&mut cmd, self.flush_cache, "--flush-cache");
        proof {
            assert(cmd.deep_view() == cat_upto(segs, 6));
        }

        emit_bool_flag(&mut cmd, self.force_handlers, "--force-handlers");
        proof {
            assert(cmd.deep_view() == cat_upto(segs, 7));
        }

        emit_string_flag(&mut cmd, &self.forks, "--forks");
        proof {
            assert(cmd.deep_view() == cat_upto(segs, 8));
        }

        emit_string_flag(&mut cmd, &self.inventory, "--inventory");
        proof {
            assert(cmd.deep_view() == cat_upto(segs, 9));
        }

        emit_string_flag(&mut cmd, &self.limit, "--limit");
        proof {
            assert(cmd.deep_view() == cat_upto(segs, 10));
        }

        emit_bool_flag(&mut cmd, self.list_hosts, "--list-hosts");
        proof {
            assert(cmd.deep_view() == cat_upto(segs, 11));
        }

        emit_bool_flag(&mut cmd, self.list_tags, "--list-tags");
        proof {
            assert(cmd.deep_view() == cat_upto(segs, 12));
        }

        emit_bool_flag(&mut cmd, self.list_tasks, "--list-tasks");
        proof {
            assert(cmd.deep_view() == cat_upto(segs, 13));
        }

        emit_string_flag(&mut cmd, &self.modules_path, "--module-path");
        proof {
            assert(cmd.deep_view() == cat_upto(segs, 14));
        }

        emit_string_flag(&mut cmd, &self.skip_tags, "--skip-tags");
        proof {
            assert(cmd.deep_view() == cat_upto(segs, 15));
        }

        emit_string_flag(&mut cmd, &self.start_at_task, "--start-at-task");
        proof {
            assert(cmd.deep_view() == cat_upto(segs, 16));
        }

        emit_bool_flag(&mut cmd, self.step, "--step");
        proof {
            assert(cmd.deep_view() == cat_upto(segs, 17));
        }

        emit_bool_flag(&mut cmd, self.syntax_check, "--syntax-check");
        proof {
            assert(cmd.deep_view() == cat_upto(segs, 18));
        }

        emit_string_flag(&mut cmd, &self.tags, "--tags");
        proof {
            assert(cmd.deep_view() == cat_upto(segs, 19));
        }

        emit_string_flag(&mut cmd, &self.vault_id, "--vault-id");
        proof {
            assert(cmd.deep_view() == cat_upto(segs, 20));
        }

        emit_string_flag(&mut cmd, &self.vault_password_file, "--vault-password-file");
        proof {
            assert(cmd.deep_view() == cat_upto(segs, 21));
        }

        let verbose_flag = self.gen_verbosity();
        emit_token_if_nonempty(&mut cmd, verbose_flag);
        proof {
            assert(cmd.deep_view() == cat_upto(segs, 22));
        }

        emit_bool_flag(&mut cmd, self.version, "--version");
        proof {
            assert(cmd.deep_view() == cat_upto(segs, 23));
            lemma_cat_split(segs, 23);
            assert(cat_from(segs, 23) == Seq::<Seq<char>>::empty());
            assert(playbook_fragment(*self) == cmd.deep_view());
        }

        Ok(cmd)
    }
}

/// Compiling playbook options is a pure function of the record.
pub proof fn lemma_playbook_compile_deterministic(
    o: AnsiblePlaybookOptions,
    r1: Seq<Seq<char>>,
    r2: Seq<Seq<char>>,
)
    requires
        r1 == playbook_fragment(o),
        r2 == playbook_fragment(o),
    ensures
        r1 == r2,
{
}

/// An all-default playbook record compiles to the empty fragment.
pub proof fn lemma_playbook_default_empty(o: AnsiblePlaybookOptions)
    requires
        playbook_is_default(o),
    ensures
        playbook_fragment(o) == Seq::<Seq<char>>::empty(),
{
    let segs = playbook_segments(o);
    assert(o.extra_vars_file.deep_view() =~= Seq::<Seq<char>>::empty());
    assert(files_tokens(o.extra_vars_file.deep_view()) == Seq::<Seq<char>>::empty());
    assert forall|j: int| 0 <= j < segs.len() implies segs[j] == Seq::<Seq<char>>::empty() by {
    }
    lemma_cat_from_empty(segs, 0);
}

/// Flag emission is monotonic per field: two playbook records that agree
/// on every field but one compile to the same prefix and the same suffix,
/// and differ exactly in that field's own segment, at its fixed position.
pub proof fn lemma_playbook_monotonic(
    o1: AnsiblePlaybookOptions,
    o2: AnsiblePlaybookOptions,
    i: int,
)
    requires
        0 <= i < 23,
        forall|j: int| 0 <= j < 23 && j != i ==> playbook_segments(o1)[j] == playbook_segments(
            o2,
        )[j],
    ensures
        playbook_fragment(o1) == cat_upto(playbook_segments(o1), i) + playbook_segments(o1)[i]
            + cat_from(playbook_segments(o1), i + 1),
        playbook_fragment(o2) == cat_upto(playbook_segments(o1), i) + playbook_segments(o2)[i]
            + cat_from(playbook_segments(o1), i + 1),
{
    let s1 = playbook_segments(o1);
    let s2 = playbook_segments(o2);
    lemma_cat_split_three(s1, i);
    lemma_cat_split_three(s2, i);
    lemma_cat_upto_congruent(s2, s1, i);
    lemma_cat_from_congruent(s2, s1, i + 1);
}

/// Toggling `flush_cache` from false to true adds exactly the
/// `--flush-cache` token at its fixed position, and changes nothing else.
#[verifier::rlimit(100)]
pub proof fn lemma_playbook_flush_cache_adds_one_token(
    o1: AnsiblePlaybookOptions,
    o2: AnsiblePlaybookOptions,
)
    requires
        !o1.flush_cache,
        o2 == (AnsiblePlaybookOptions { flush_cache: true, ..o1 }),
    ensures
        playbook_fragment(o1) == cat_upto(playbook_segments(o1), 5) + cat_from(
            playbook_segments(o1),
            6,
        ),
        playbook_fragment(o2) == cat_upto(playbook_segments(o1), 5) + seq!["--flush-cache"@]
            + cat_from(playbook_segments(o1), 6),
{
    assert(forall|j: int|
        0 <= j < 23 && j != 5 ==> playbook_segments(o1)[j] == playbook_segments(o2)[j]);
    lemma_playbook_monotonic(o1, o2, 5);
    assert(playbook_fragment(o1) =~= cat_upto(playbook_segments(o1), 5) + cat_from(
        playbook_segments(o1),
        6,
    ));
}

/// Verbosity precedence: when levels one and three are both set, the one
/// verbosity token emitted is `-v`, not `-vvv`.
pub proof fn lemma_verbosity_level_one_wins(o: AnsiblePlaybookOptions)
    requires
        o.verbose_v,
        o.verbose_vvv,
    ensures
        verbosity_rep(o) == "-v"@,
        verbosity_rep(o) != "-vvv"@,
        playbook_fragment(o) == cat_upto(playbook_segments(o), 21) + seq!["-v"@] + cat_from(
            playbook_segments(o),
            22,
        ),
{
    assert("-v"@.len() == 2 && "-vvv"@.len() == 4) by {
        reveal_strlit("-v");
        reveal_strlit("-vvv");
    }
    lemma_cat_split_three(playbook_segments(o), 21);
}

/// Extra-variables ordering: the inline value's flag and serialized text
/// stand immediately before the per-file flag pairs, which follow the
/// file list in order.
pub proof fn lemma_extra_vars_order(o: AnsiblePlaybookOptions)
    requires
        !(o.extra_vars is Null),
    ensures
        playbook_fragment(o) == cat_upto(playbook_segments(o), 3) + seq![
            "--extra-vars"@,
            json_chars(o.extra_vars),
        ] + files_tokens(o.extra_vars_file.deep_view()) + cat_from(playbook_segments(o), 5),
{
    let segs = playbook_segments(o);
    lemma_cat_split_three(segs, 3);
    assert(cat_from(segs, 4) == segs[4] + cat_from(segs, 5));
    assert(cat_upto(segs, 3) + segs[3] + (segs[4] + cat_from(segs, 5)) =~= cat_upto(segs, 3)
        + segs[3] + segs[4] + cat_from(segs, 5));
}

/// The ansible-playbook command: a binary name, the three option groups,
/// and the ordered target list.
pub struct AnsiblePlaybookCmd {
    pub binary: String,
    pub executor: DefaultExecutor,
    pub playbooks: Vec<String>,
    pub options: AnsiblePlaybookOptions,
    pub connection_options: AnsibleConnectionOptions,
    pub privilege_escalation_options: AnsiblePrivilegeEscalationOptions,
}

/// The full argument vector: the binary name first, the playbook fragment,
/// the connection fragment, the privilege-escalation fragment, and the
/// targets verbatim, in that order.
pub open spec fn command_tokens(c: AnsiblePlaybookCmd) -> Seq<Seq<char>> {
    seq![c.binary@] + playbook_fragment(c.options) + conn_fragment(c.connection_options)
        + privesc_fragment(c.privilege_escalation_options) + c.playbooks.deep_view()
}

impl Default for AnsiblePlaybookCmd {
    /// The well-known binary name, no targets, and all-default groups.
    fn default() -> (r: Self)
        ensures
            r.binary@ == "ansible-playbook"@,
            r.playbooks@.len() == 0,
            playbook_is_default(r.options),
            conn_is_default(r.connection_options),
            privesc_is_default(r.privilege_escalation_options),
    {
        AnsiblePlaybookCmd {
            binary: "ansible-playbook".to_owned(),
            executor: DefaultExecutor {},
            playbooks: Vec::new(),
            options: Default::default(),
            connection_options: Default::default(),
            privilege_escalation_options: Default::default(),
        }
    }
}

impl AnsiblePlaybookCmd {
    /// Builds the full argument vector. Composition performs no I/O and
    /// cannot fail; the error side is kept for forward compatibility.
    pub fn command(&self) -> (r: Result<Vec<String>, AnsibleError>)
        ensures
            r matches Ok(cmd) && cmd.deep_view() == command_tokens(*self),
    {
        let mut cmd: Vec<String> = Vec::new();
        cmd.push(self.binary.clone());
        proof {
            assert(cmd.deep_view() =~= seq![self.binary@]);
        }

        let mut opts = self.options.gen_opts().unwrap();
        cmd.append(&mut opts);
        proof {
            assert(cmd.deep_view() =~= seq![self.binary@] + playbook_fragment(self.options));
        }

        let mut conn = self.connection_options.gen_conn_opts().unwrap();
        cmd.append(&mut conn);
        proof {
            assert(cmd.deep_view() =~= seq![self.binary@] + playbook_fragment(self.options)
                + conn_fragment(self.connection_options));
        }

        let mut privesc = self.privilege_escalation_options.gen_cmd_privesc_opts().unwrap();
        cmd.append(&mut privesc);
        proof {
            assert(cmd.deep_view() =~= seq![self.binary@] + playbook_fragment(self.options)
                + conn_fragment(self.connection_options) + privesc_fragment(
                self.privilege_escalation_options,
            ));
        }

        let mut targets = self.playbooks.clone();
        cmd.append(&mut targets);
        proof {
            assert(cmd.deep_view() =~= command_tokens(*self));
        }

        Ok(cmd)
    }

    /// The decision half of `run`: resolve the binary first, and only on
    /// success build the argument vector. A resolution failure is returned
    /// as data, naming the binary, before any spawn could be attempted;
    /// the launcher that owns the process side spawns only an `Ok` result.
    pub fn resolved_command(&self) -> (r: Result<Vec<String>, AnsibleError>)
        ensures
            r matches Ok(cmd) ==> cmd.deep_view() == command_tokens(*self),
            r matches Err(e) ==> (e matches AnsibleError::Resolution { binary: b, .. } && b@
                == self.binary@),
    {
        match verify_binary(self.binary.as_str()) {
            Ok(_) => self.command(),
            Err(e) => Err(e),
        }
    }

    /// The full command rendered as one human-readable line: the tokens
    /// joined by single spaces.
    pub fn to_string(&self) -> (r: Result<String, AnsibleError>)
        ensures
            r matches Ok(s) && s@ == join_spaced(command_tokens(*self)),
    {
        let cmd = self.command().unwrap();
        Ok(join_with_space(&cmd))
    }
}

/// Building the command is a pure function of the configuration.
pub proof fn lemma_command_deterministic(
    c: AnsiblePlaybookCmd,
    r1: Seq<Seq<char>>,
    r2: Seq<Seq<char>>,
)
    requires
        r1 == command_tokens(c),
        r2 == command_tokens(c),
    ensures
        r1 == r2,
{
}

} // verus!
