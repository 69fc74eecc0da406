//! Build `ansible-playbook` invocations from typed option records.
//!
//! Each option group compiles to an ordered list of command-line tokens;
//! the playbook command composes the groups, resolves the binary on the
//! search path, and hands the final argument vector to the caller.

pub mod error;
pub mod executor;
pub mod options;
pub mod playbook;
pub mod text;
pub mod vars;

pub use error::AnsibleError;
pub use executor::verify_binary;
pub use executor::DefaultExecutor;
pub use options::AnsibleConnectionOptions;
pub use options::AnsiblePrivilegeEscalationOptions;
pub use playbook::AnsiblePlaybookCmd;
pub use playbook::AnsiblePlaybookOptions;
pub use vars::VarsValue;
