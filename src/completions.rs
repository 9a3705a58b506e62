//! The instructions printed above a shell completion script.

use vstd::prelude::*;

use crate::doctor::lines_view;
use crate::text::{join2, join3, owned, str_eq};

verus! {

/// How to enable completions in the shell named `shell`, for program `bin`.
pub open spec fn setup_lines(bin: Seq<char>, shell: Seq<char>) -> Seq<Seq<char>> {
    if shell == "bash"@ {
        seq!["# For bash (~/.bashrc):"@, "#   source <("@ + bin + " completions bash)"@]
    } else if shell == "zsh"@ {
        seq![
            "# For zsh (~/.zshrc):"@,
            "#   "@ + bin + " completions zsh > ~/.zsh/completions/_"@ + bin,
            "#   # Ensure fpath includes ~/.zsh/completions"@,
        ]
    } else if shell == "fish"@ {
        seq!["# For fish (~/.config/fish/config.fish):"@, "#   "@ + bin + " completions fish | source"@]
    } else {
        seq![
            "# For "@ + shell + ":"@,
            "#   "@ + bin + " completions "@ + shell + " > /path/to/completions/_"@ + bin,
        ]
    }
}

/// The comment block above a completion script: a title, how to enable it
/// in the given shell, and a blank line.
pub open spec fn instructions_of(bin: Seq<char>, shell: Seq<char>) -> Seq<Seq<char>> {
    seq![
        "# Shell completion for "@ + bin,
        "#"@,
        "# To enable completions, add this to your shell config:"@,
        "#"@,
    ] + setup_lines(bin, shell) + seq![Seq::<char>::empty()]
}

/// The comment block above the completion script of program `bin_name` for
/// the shell named `shell` (`bash`, `zsh`, `fish`, `elvish`, `powershell`).
pub fn completion_instructions(bin_name: &str, shell: &str) -> (r: Vec<String>)
    ensures
        lines_view(r@) == instructions_of(bin_name@, shell@),
{
    let mut r: Vec<String> = Vec::new();
    r.push(join2("# Shell completion for ", bin_name));
    r.push(owned("#"));
    r.push(owned("# To enable completions, add this to your shell config:"));
    r.push(owned("#"));
    if str_eq(shell, "bash") {
        r.push(owned("# For bash (~/.bashrc):"));
        r.push(join3("#   source <(", bin_name, " completions bash)"));
    } else if str_eq(shell, "zsh") {
        r.push(owned("# For zsh (~/.zshrc):"));
        let mut l = join3("#   ", bin_name, " completions zsh > ~/.zsh/completions/_");
        l.append(bin_name);
        r.push(l);
        r.push(owned("#   # Ensure fpath includes ~/.zsh/completions"));
    } else if str_eq(shell, "fish") {
        r.push(owned("# For fish (~/.config/fish/config.fish):"));
        r.push(join3("#   ", bin_name, " completions fish | source"));
    } else {
        r.push(join3("# For ", shell, ":"));
        let mut l = join3("#   ", bin_name, " completions ");
        l.append(shell);
        l.append(" > /path/to/completions/_");
        l.append(bin_name);
        r.push(l);
    }
    r.push(String::new());
    assert(lines_view(r@) =~= instructions_of(bin_name@, shell@));
    r
}

} // verus!
