//! Names under which a watcher runs as a service of the user's service
//! manager.

use vstd::prelude::*;

verus! {

/// The unit of the watcher `name`: an instance of the `watchers@` template.
pub open spec fn unit_name(name: Seq<char>) -> Seq<char> {
    "watchers@"@ + name + ".service"@
}

/// Where the template unit lies below the configuration directory
/// `config_dir`.
pub open spec fn unit_path(config_dir: Seq<char>) -> Seq<char> {
    config_dir + "/systemd/user/watchers@.service"@
}

/// The name of the unit that runs the watcher `name`.
pub fn get_unit_name(name: &str) -> (unit: String)
    ensures
        unit@ == unit_name(name@),
{
    let mut unit = String::from_str("watchers@");
    unit.append(name);
    unit.append(".service");
    unit
}

/// The path of the template unit below the configuration directory
/// `config_dir`.
pub fn get_systemd_unit_path(config_dir: &str) -> (path: String)
    ensures
        path@ == unit_path(config_dir@),
{
    let mut path = String::from_str(config_dir);
    path.append("/systemd/user/watchers@.service");
    path
}

/// The executable that the template unit starts: the running one where
/// its path is known as text, else the usual place of installation.
pub fn get_unit_executable(current_exe: Option<&str>) -> (exe: String)
    ensures
        exe@ == match current_exe {
            Some(path) => path@,
            None => "/usr/bin/local/watchers"@,
        },
{
    match current_exe {
        Some(path) => String::from_str(path),
        None => String::from_str("/usr/bin/local/watchers"),
    }
}

} // verus!
