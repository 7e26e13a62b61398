//! The configuration files of the dotfiles repository that the Configs tab
//! lists, previews and opens in an editor.
use vstd::prelude::*;
use crate::text::{cat3, join, path_join};

verus! {

/// One file of the repository: its display name and its path relative to the
/// repository root.
#[derive(Debug, Clone, Copy)]
pub struct ConfigFile {
    pub name: &'static str,
    pub rel: &'static str,
}

/// How many configuration files there are.
pub const CONFIG_COUNT: usize = 12;

/// The repository-relative path of the `i`-th configuration file (display
/// names equal these paths).
pub open spec fn config_rel(i: int) -> Seq<char> {
    if i == 0 {
        ".zshrc"@
    } else if i == 1 {
        ".tmux.conf"@
    } else if i == 2 {
        "install.sh"@
    } else if i == 3 {
        "symlink.sh"@
    } else if i == 4 {
        ".zsh_history_ignore"@
    } else if i == 5 {
        "light-colors.zsh-theme"@
    } else if i == 6 {
        "fzf-theme-dark.zsh"@
    } else if i == 7 {
        "fzf-theme-light.zsh"@
    } else if i == 8 {
        "get_distro_icon.sh"@
    } else if i == 9 {
        "get_process_icon.sh"@
    } else if i == 10 {
        "get_project_root.sh"@
    } else {
        "tmux-grid.sh"@
    }
}

fn entry(s: &'static str) -> (r: ConfigFile)
    ensures
        r.name@ == s@,
        r.rel@ == s@,
{
    ConfigFile { name: s, rel: s }
}

/// The `i`-th configuration file.
pub fn config_file(i: usize) -> (r: ConfigFile)
    requires
        i < CONFIG_COUNT,
    ensures
        r.rel@ == config_rel(i as int),
        r.name@ == config_rel(i as int),
{
    if i == 0 {
        entry(".zshrc")
    } else if i == 1 {
        entry(".tmux.conf")
    } else if i == 2 {
        entry("install.sh")
    } else if i == 3 {
        entry("symlink.sh")
    } else if i == 4 {
        entry(".zsh_history_ignore")
    } else if i == 5 {
        entry("light-colors.zsh-theme")
    } else if i == 6 {
        entry("fzf-theme-dark.zsh")
    } else if i == 7 {
        entry("fzf-theme-light.zsh")
    } else if i == 8 {
        entry("get_distro_icon.sh")
    } else if i == 9 {
        entry("get_process_icon.sh")
    } else if i == 10 {
        entry("get_project_root.sh")
    } else {
        entry("tmux-grid.sh")
    }
}

/// The absolute path of a configuration file inside the repository at
/// `dotfiles`.
pub fn path(cf: &ConfigFile, dotfiles: &str) -> (r: String)
    ensures
        r@ == path_join(dotfiles@, cf.rel@),
{
    join(dotfiles, cf.rel)
}

/// The message for a configuration file that could not be read.
pub open spec fn read_error_text(rel: Seq<char>, err: Seq<char>) -> Seq<char> {
    "read "@ + rel + ": "@ + err
}

/// The contents of a configuration file, given what reading it from disk
/// gave (`raw`: the text, or the reason it could not be read); a failure is
/// reported with the file's relative path.
pub fn read(cf: &ConfigFile, raw: Result<String, String>) -> (r: Result<String, String>)
    ensures
        match raw {
            Ok(t) => r == Ok::<String, String>(t),
            Err(e) => r matches Err(m) && m@ == read_error_text(cf.rel@, e@),
        },
{
    match raw {
        Ok(t) => Ok(t),
        Err(e) => {
            let mut m = cat3("read ", cf.rel, ": ");
            m.append(e.as_str());
            Err(m)
        },
    }
}

} // verus!
