//! Rendering the zsh environment file.

use vstd::prelude::*;
use vstd::string::*;

verus! {

/// The content of the generated environment file: a header, then one export
/// per directory the environment uses; the shell directories live below the
/// dotfiles checkout.
pub open spec fn zshenv_content_spec(
    dot_dir: Seq<char>,
    code_dir: Seq<char>,
    local_dir: Seq<char>,
    bin_dir: Seq<char>,
) -> Seq<char> {
    "# AUTO GENERATED FILE. DO NOT EDIT\n\n"@ + "export DOTDIR="@ + dot_dir + "\n"@
        + "export CODEDIR="@ + code_dir + "\n"@ + "export LOCALDIR="@ + local_dir + "\n"@
        + "export BINDIR="@ + bin_dir + "\n"@ + "export SHDIR="@ + dot_dir + "/shell/common"@
        + "\n"@ + "export ZDOTDIR="@ + dot_dir + "/shell/zsh"@ + "\n"@
}

/// Where the environment file goes and what it holds.
#[derive(Debug)]
pub struct ZshenvPlan {
    pub path: String,
    pub content: String,
}

/// Renders the zsh environment file for the given directories; it is written
/// into the prefix under the custom rc file name, or under `.zshenv`.
pub fn generate_zshenv(
    prefix_dir: &str,
    dot_dir: &str,
    code_dir: &str,
    local_dir: &str,
    bin_dir: &str,
    rc_file: Option<&str>,
) -> (r: ZshenvPlan)
    ensures
        r.path@ == prefix_dir@ + "/"@ + (match rc_file {
            Some(f) => f@,
            None => ".zshenv"@,
        }),
        r.content@ == zshenv_content_spec(dot_dir@, code_dir@, local_dir@, bin_dir@),
{
    let mut path = String::from_str(prefix_dir);
    path.append("/");
    match rc_file {
        Some(f) => path.append(f),
        None => path.append(".zshenv"),
    }
    let mut content = String::from_str("# AUTO GENERATED FILE. DO NOT EDIT\n\n");
    content.append("export DOTDIR=");
    content.append(dot_dir);
    content.append("\n");
    content.append("export CODEDIR=");
    content.append(code_dir);
    content.append("\n");
    content.append("export LOCALDIR=");
    content.append(local_dir);
    content.append("\n");
    content.append("export BINDIR=");
    content.append(bin_dir);
    content.append("\n");
    content.append("export SHDIR=");
    content.append(dot_dir);
    content.append("/shell/common");
    content.append("\n");
    content.append("export ZDOTDIR=");
    content.append(dot_dir);
    content.append("/shell/zsh");
    content.append("\n");
    ZshenvPlan { path, content }
}

} // verus!
