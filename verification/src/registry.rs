//! The installer's registry plan: which registry values installation
//! writes and which subkeys uninstallation deletes, computed from the
//! installation paths as plain data.  Applying the plan to the real
//! registry is the platform shell's job, outside this library.

use vstd::prelude::*;
use vstd::string::StringExecFns;

verus! {

/// The registry hive a plan entry lives under.
#[derive(Clone, Copy, Debug, PartialEq, Eq, Structural)]
pub enum RegistryHive {
    LocalMachine,
    CurrentUser,
}

/// One registry value to write: `name` under `subkey` of `hive` is
/// set to `value`.  An empty `name` denotes the subkey's default
/// value.
pub struct RegistryValue {
    pub hive: RegistryHive,
    pub subkey: String,
    pub name: String,
    pub value: String,
}

/// The values installation writes under the application's own subkey:
/// the paths of the three executables and the installation directory.
pub fn installation_registry_values(
    executable_path: &str,
    cli_path: &str,
    daemon_path: &str,
    installation_directory: &str,
) -> (r: Vec<RegistryValue>)
    ensures
        r@.len() == 4,
        forall|i: int|
            0 <= i < 4 ==> (#[trigger] r@[i]).hive is LocalMachine && r@[i].subkey@
                == "Frogworks"@,
        r@[0].name@ == "MainExecutablePath"@ && r@[0].value@ == executable_path@,
        r@[1].name@ == "CLIPath"@ && r@[1].value@ == cli_path@,
        r@[2].name@ == "DaemonPath"@ && r@[2].value@ == daemon_path@,
        r@[3].name@ == "InstallationPath"@ && r@[3].value@ == installation_directory@,
{
    let mut r: Vec<RegistryValue> = Vec::new();
    r.push(
        RegistryValue {
            hive: RegistryHive::LocalMachine,
            subkey: String::from_str("Frogworks"),
            name: String::from_str("MainExecutablePath"),
            value: executable_path.to_owned(),
        },
    );
    r.push(
        RegistryValue {
            hive: RegistryHive::LocalMachine,
            subkey: String::from_str("Frogworks"),
            name: String::from_str("CLIPath"),
            value: cli_path.to_owned(),
        },
    );
    r.push(
        RegistryValue {
            hive: RegistryHive::LocalMachine,
            subkey: String::from_str("Frogworks"),
            name: String::from_str("DaemonPath"),
            value: daemon_path.to_owned(),
        },
    );
    r.push(
        RegistryValue {
            hive: RegistryHive::LocalMachine,
            subkey: String::from_str("Frogworks"),
            name: String::from_str("InstallationPath"),
            value: installation_directory.to_owned(),
        },
    );
    r
}

/// The command line registered for the URI scheme: the daemon's path,
/// quoted, with the activating URI passed as its one argument.
pub open spec fn scheme_command_line(daemon_path: Seq<char>) -> Seq<char> {
    "\""@ + daemon_path + "\" \"%1\""@
}

/// The values that register the `frogworks:` URI scheme: the scheme
/// class with its protocol marker, and the open command pointing at
/// the daemon executable.
pub fn uri_scheme_registry_values(daemon_path: &str) -> (r: Vec<RegistryValue>)
    ensures
        r@.len() == 3,
        forall|i: int| 0 <= i < 3 ==> (#[trigger] r@[i]).hive is LocalMachine,
        r@[0].subkey@ == "Software\\Classes\\frogworks"@ && r@[0].name@ == ""@ && r@[0].value@
            == "URL:frogworks Protocol"@,
        r@[1].subkey@ == "Software\\Classes\\frogworks"@ && r@[1].name@ == "URL Protocol"@
            && r@[1].value@ == ""@,
        r@[2].subkey@ == "Software\\Classes\\frogworks\\shell\\open\\command"@ && r@[2].name@
            == ""@ && r@[2].value@ == scheme_command_line(daemon_path@),
{
    let mut r: Vec<RegistryValue> = Vec::new();
    r.push(
        RegistryValue {
            hive: RegistryHive::LocalMachine,
            subkey: String::from_str("Software\\Classes\\frogworks"),
            name: String::from_str(""),
            value: String::from_str("URL:frogworks Protocol"),
        },
    );
    r.push(
        RegistryValue {
            hive: RegistryHive::LocalMachine,
            subkey: String::from_str("Software\\Classes\\frogworks"),
            name: String::from_str("URL Protocol"),
            value: String::from_str(""),
        },
    );
    let command = String::from_str("\"").concat(daemon_path).concat("\" \"%1\"");
    r.push(
        RegistryValue {
            hive: RegistryHive::LocalMachine,
            subkey: String::from_str("Software\\Classes\\frogworks\\shell\\open\\command"),
            name: String::from_str(""),
            value: command,
        },
    );
    r
}

/// The subkeys uninstallation deletes, in order: the application's
/// own subkey, then the URI scheme class.
pub fn uninstall_registry_keys() -> (r: Vec<String>)
    ensures
        r@.len() == 2,
        r@[0]@ == "Software\\Frogworks"@,
        r@[1]@ == "Software\\Classes\\frogworks"@,
{
    let mut r: Vec<String> = Vec::new();
    r.push(String::from_str("Software\\Frogworks"));
    r.push(String::from_str("Software\\Classes\\frogworks"));
    r
}

} // verus!
