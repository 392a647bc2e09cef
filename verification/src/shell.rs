//! Command shell identification and initialization.

use crate::env::Env;
use crate::segment::paths::{component_views, components, path_parts, Component, ComponentView};
use crate::text::str_eq;
use vstd::prelude::*;

verus! {

/// The command shell that runs the prompt.
#[derive(Copy, Clone, Debug, PartialEq, Eq, Structural)]
pub enum Shell {
    Bash,
}

/// Why no shell was identified.
#[derive(Copy, Clone, Debug, PartialEq, Eq, Structural)]
pub enum ShellError {
    /// The environment names no shell, or what it names has no file name.
    Undetermined,
    /// The shell is not one that the prompt works with.
    Incompatible,
}

/// The shell that the program at `path` is, by the file name of the path:
/// its last component, where that is a name.
pub open spec fn shell_at(path: Seq<char>) -> Result<Shell, ShellError> {
    let parts = path_parts(path);
    if parts.len() == 0 {
        Err(ShellError::Undetermined)
    } else {
        match parts.last() {
            ComponentView::Normal(name) => if name == "bash"@ {
                Ok(Shell::Bash)
            } else {
                Err(ShellError::Incompatible)
            },
            _ => Err(ShellError::Undetermined),
        }
    }
}

/// The shell that the environment names: the one in `PROMPTR_SHELL`, or the
/// one in `SHELL` where that is not set.
pub open spec fn current_shell(env: &Env) -> Result<Shell, ShellError> {
    match env.lookup("PROMPTR_SHELL"@) {
        Some(path) => shell_at(path),
        None => match env.lookup("SHELL"@) {
            Some(path) => shell_at(path),
            None => Err(ShellError::Undetermined),
        },
    }
}

/// The commands that load the prompt into an interactive bash and save a
/// default configuration where there is none; `exe` is the program that
/// computes the prompt.
pub open spec fn bash_init(exe: Seq<char>) -> Seq<char> {
    "if [[ $- == *i* ]]; then\n"@
        + "    promptr_conf_dir=$("@
        + exe
        + " location)\n"@
        + "    promptr_conf_file=\"${promptr_conf_dir}/promptr.json\"\n"@
        + "\n"@
        + "    if [ ! -d \"${promptr_conf_dir}\" ]; then\n"@
        + "        echo \"Creating default configuration directory\"\n"@
        + "        mkdir \"${promptr_conf_dir}\"\n"@
        + "    fi\n"@
        + "\n"@
        + "    if [ ! -f \"${promptr_conf_file}\" ]; then\n"@
        + "        echo \"Saving default configuration to ${promptr_conf_file}\"\n"@
        + "        "@
        + exe
        + " current-config > \"${promptr_conf_file}\"\n"@
        + "    else\n"@
        + "        echo \"Found an existing configuration at ${promptr_conf_file}\"\n"@
        + "    fi\n"@
        + "\n"@
        + "    unset promptr_conf_dir\n"@
        + "    unset promptr_conf_file\n"@
        + "\n"@
        + "    PROMPT_COMMAND=promptr_prompt\n"@
        + "    promptr_prompt() {\n"@
        + "        PS1=\"$(hostname=$HOSTNAME code=$? jobs=$(jobs -p | wc -l) "@
        + exe
        + " prompt)\"\n"@
        + "    }\n"@
        + "else\n"@
        + "    echo \"*** promptr must be run from an interactive shell ***\"\n"@
        + "fi\n"@
}

/// The commands that load the prompt into an interactive bash; `exe` is the
/// program that computes the prompt.
pub open spec fn bash_loader(exe: Seq<char>) -> Seq<char> {
    "if [[ $- == *i* ]]; then\n"@
        + "    promptr_conf_dir=$("@
        + exe
        + " location)\n"@
        + "    promptr_conf_file=\"${promptr_conf_dir}/promptr.json\"\n"@
        + "\n"@
        + "    if [ ! -f \"${promptr_conf_file}\" ]; then\n"@
        + "        echo \"Couldn't find an existing configuration file, using the defaults\"\n"@
        + "    fi\n"@
        + "\n"@
        + "    unset promptr_conf_dir\n"@
        + "    unset promptr_conf_file\n"@
        + "\n"@
        + "    PROMPT_COMMAND=promptr_prompt\n"@
        + "    promptr_prompt() {\n"@
        + "        PS1=\"$(hostname=$HOSTNAME code=$? jobs=$(jobs -p | wc -l) "@
        + exe
        + " prompt)\"\n"@
        + "    }\n"@
        + "fi\n"@
}

impl Shell {
    /// The shell that the program at `path` is.
    pub fn from_path(path: &str) -> (shell: Result<Shell, ShellError>)
        ensures
            shell == shell_at(path@),
    {
        let parts = components(path);
        if parts.len() == 0 {
            return Err(ShellError::Undetermined);
        }
        assert(component_views(parts@).last() == parts@[parts@.len() - 1]@);
        match &parts[parts.len() - 1] {
            Component::Normal(name) => if str_eq(name.as_str(), "bash") {
                Ok(Shell::Bash)
            } else {
                Err(ShellError::Incompatible)
            },
            _ => Err(ShellError::Undetermined),
        }
    }

    /// The shell that runs the prompt, as the environment names it.
    pub fn get_current_shell(env: &Env) -> (shell: Result<Shell, ShellError>)
        ensures
            shell == current_shell(env),
    {
        match env.get("PROMPTR_SHELL") {
            Some(path) => Shell::from_path(path.as_str()),
            None => match env.get("SHELL") {
                Some(path) => Shell::from_path(path.as_str()),
                None => Err(ShellError::Undetermined),
            },
        }
    }

    /// The initialization code for the shell.
    pub fn generate_init(&self, self_exe: &str) -> (script: String)
        ensures
            script@ == bash_init(self_exe@),
    {
        match self {
            Shell::Bash => {
                let mut script = String::new();
                script.append("if [[ $- == *i* ]]; then\n");
                script.append("    promptr_conf_dir=$(");
                script.append(self_exe);
                script.append(" location)\n");
                script.append("    promptr_conf_file=\"${promptr_conf_dir}/promptr.json\"\n");
                script.append("\n");
                script.append("    if [ ! -d \"${promptr_conf_dir}\" ]; then\n");
                script.append("        echo \"Creating default configuration directory\"\n");
                script.append("        mkdir \"${promptr_conf_dir}\"\n");
                script.append("    fi\n");
                script.append("\n");
                script.append("    if [ ! -f \"${promptr_conf_file}\" ]; then\n");
                script.append("        echo \"Saving default configuration to ${promptr_conf_file}\"\n");
                script.append("        ");
                script.append(self_exe);
                script.append(" current-config > \"${promptr_conf_file}\"\n");
                script.append("    else\n");
                script.append("        echo \"Found an existing configuration at ${promptr_conf_file}\"\n");
                script.append("    fi\n");
                script.append("\n");
                script.append("    unset promptr_conf_dir\n");
                script.append("    unset promptr_conf_file\n");
                script.append("\n");
                script.append("    PROMPT_COMMAND=promptr_prompt\n");
                script.append("    promptr_prompt() {\n");
                script.append("        PS1=\"$(hostname=$HOSTNAME code=$? jobs=$(jobs -p | wc -l) ");
                script.append(self_exe);
                script.append(" prompt)\"\n");
                script.append("    }\n");
                script.append("else\n");
                script.append("    echo \"*** promptr must be run from an interactive shell ***\"\n");
                script.append("fi\n");
                assert(script@ =~= bash_init(self_exe@));
                script
            },
        }
    }

    /// The initialization code for the shell, without saving a default
    /// configuration.
    pub fn generate_loader(&self, self_exe: &str) -> (script: String)
        ensures
            script@ == bash_loader(self_exe@),
    {
        match self {
            Shell::Bash => {
                let mut script = String::new();
                script.append("if [[ $- == *i* ]]; then\n");
                script.append("    promptr_conf_dir=$(");
                script.append(self_exe);
                script.append(" location)\n");
                script.append("    promptr_conf_file=\"${promptr_conf_dir}/promptr.json\"\n");
                script.append("\n");
                script.append("    if [ ! -f \"${promptr_conf_file}\" ]; then\n");
                script.append("        echo \"Couldn't find an existing configuration file, using the defaults\"\n");
                script.append("    fi\n");
                script.append("\n");
                script.append("    unset promptr_conf_dir\n");
                script.append("    unset promptr_conf_file\n");
                script.append("\n");
                script.append("    PROMPT_COMMAND=promptr_prompt\n");
                script.append("    promptr_prompt() {\n");
                script.append("        PS1=\"$(hostname=$HOSTNAME code=$? jobs=$(jobs -p | wc -l) ");
                script.append(self_exe);
                script.append(" prompt)\"\n");
                script.append("    }\n");
                script.append("fi\n");
                assert(script@ =~= bash_loader(self_exe@));
                script
            },
        }
    }
}

} // verus!
