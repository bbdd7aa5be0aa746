//! What depends on the platform the worker runs on.

use vstd::prelude::*;

verus! {

/// The command that starts the Python runtime.
pub open spec fn python_command(on_windows: bool) -> Seq<char> {
    if on_windows {
        "python"@
    } else {
        "python3"@
    }
}

/// The command that starts the Python runtime: `python` on Windows, `python3` elsewhere.
pub fn get_python_command(on_windows: bool) -> (r: String)
    ensures
        r@ == python_command(on_windows),
{
    if on_windows {
        String::from_str("python")
    } else {
        String::from_str("python3")
    }
}

/// The system description shown to the user.
pub open spec fn system_info_text(os: Seq<char>, arch: Seq<char>, on_windows: bool) -> Seq<char> {
    "Sistema Operativo: "@ + os + "\nArquitectura: "@ + arch + "\nComando Python: "@ + python_command(
        on_windows,
    )
}

/// Describes the operating system `os`, the architecture `arch` and the Python command.
pub fn system_info(os: &str, arch: &str, on_windows: bool) -> (r: String)
    ensures
        r@ == system_info_text(os@, arch@, on_windows),
{
    let mut r = String::from_str("Sistema Operativo: ");
    r.append(os);
    r.append("\nArquitectura: ");
    r.append(arch);
    r.append("\nComando Python: ");
    let cmd = get_python_command(on_windows);
    r.append(cmd.as_str());
    r
}

} // verus!
