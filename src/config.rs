//! The monitor's own settings and the paths derived from them.
use vstd::prelude::*;

use crate::text::{chars_of, string_of, trim_end_char, trim_end_matches};

verus! {

/// The monitor's settings.
pub struct Config {
    pub systemd_service_name: String,
    pub syncthing_config_dir: String,
    pub disable_syncthing_installer: bool,
}

/// The service name used when the settings give none.
pub fn default_service_name() -> (r: String)
    ensures
        r@ == "syncthing.service"@,
{
    String::from_str("syncthing.service")
}

/// The daemon's configuration directory used when the settings give none.
pub fn default_config_dir() -> (r: String)
    ensures
        r@ == "/home/root/.config/syncthing"@,
{
    String::from_str("/home/root/.config/syncthing")
}

impl Default for Config {
    fn default() -> (r: Config)
        ensures
            r.systemd_service_name@ == "syncthing.service"@,
            r.syncthing_config_dir@ == "/home/root/.config/syncthing"@,
            !r.disable_syncthing_installer,
    {
        Config {
            systemd_service_name: default_service_name(),
            syncthing_config_dir: default_config_dir(),
            disable_syncthing_installer: false,
        }
    }
}

/// `dir` and `name` joined as a path: `name` alone under an empty
/// directory, no second slash after one that ends it.
pub open spec fn join_path_spec(dir: Seq<char>, name: Seq<char>) -> Seq<char> {
    if dir.len() == 0 {
        name
    } else if dir.last() == '/' {
        dir + name
    } else {
        dir + seq!['/'] + name
    }
}

fn append_chars(v: &mut Vec<char>, tail: &Vec<char>)
    ensures
        final(v)@ == old(v)@ + tail@,
{
    let ghost head = v@;
    let mut i: usize = 0;
    while i < tail.len()
        invariant
            i <= tail@.len(),
            v@ == head + tail@.subrange(0, i as int),
        decreases tail.len() - i,
    {
        v.push(tail[i]);
        i = i + 1;
        assert(v@ =~= head + tail@.subrange(0, i as int));
    }
    assert(tail@.subrange(0, tail@.len() as int) =~= tail@);
}

impl Config {
    /// The daemon's configuration file, inside its configuration directory.
    pub fn syncthing_config_xml_path(&self) -> (r: String)
        ensures
            r@ == trim_end_char(self.syncthing_config_dir@, '/') + "/config.xml"@,
    {
        let mut v = trim_end_matches(&chars_of(self.syncthing_config_dir.as_str()), '/');
        append_chars(&mut v, &chars_of("/config.xml"));
        string_of(v.as_slice())
    }

    /// The daemon's executable, inside the application's root directory.
    pub fn syncthing_binary_path(&self, app_root: &str) -> (r: String)
        ensures
            r@ == join_path_spec(app_root@, "syncthing"@),
    {
        let mut v = chars_of(app_root);
        let name = chars_of("syncthing");
        if v.len() > 0 && v[v.len() - 1] != '/' {
            v.push('/');
        }
        append_chars(&mut v, &name);
        string_of(v.as_slice())
    }

    /// Settings read from a file that may not mention the installer: without
    /// that key, the installer is disabled.
    pub fn with_installer_default(self, installer_key_present: bool) -> (r: Config)
        ensures
            r.systemd_service_name == self.systemd_service_name,
            r.syncthing_config_dir == self.syncthing_config_dir,
            r.disable_syncthing_installer == (!installer_key_present || self.disable_syncthing_installer),
    {
        if installer_key_present {
            self
        } else {
            Config { disable_syncthing_installer: true, ..self }
        }
    }
}

} // verus!
