//! Configuration data and the path arithmetic of the configuration layout.
//! Reading and writing the files themselves is I/O and lives with the
//! collaborators; only the values and the path construction are here.

use vstd::prelude::*;
use vstd::string::StringExecFns;

verus! {

/// One namespace of the vault: where its master key lives, and its name.
#[derive(Debug, Clone)]
pub struct NamespaceConfig {
    pub private_key_path: String,
    pub name: String,
}

/// The main configuration: the known namespaces and which one is the
/// default.
#[derive(Debug, Clone)]
pub struct Configuration {
    pub configurations: Vec<String>,
    pub default: String,
}

impl Configuration {
    /// The path of a namespace's configuration file:
    /// `<base>/.<name>.config.toml`.
    pub fn get_namespace_config_path(base_path: &str, name: &str) -> (r: String)
        ensures
            r@ == base_path@ + "/."@ + name@ + ".config.toml"@,
    {
        let mut s = String::new();
        s.append(base_path);
        s.append("/.");
        s.append(name);
        s.append(".config.toml");
        proof {
            assert(s@ =~= base_path@ + "/."@ + name@ + ".config.toml"@);
        }
        s
    }

    /// The path of the main configuration file: `<base>/.config.toml`.
    pub fn get_main_config_path(base_path: &str) -> (r: String)
        ensures
            r@ == base_path@ + "/.config.toml"@,
    {
        let mut s = String::new();
        s.append(base_path);
        s.append("/.config.toml");
        proof {
            assert(s@ =~= base_path@ + "/.config.toml"@);
        }
        s
    }

    /// The namespace configuration written on first use: the default
    /// namespace name, with the master key beside the configuration files.
    pub fn default_namespace_config(base_path: &str) -> (r: NamespaceConfig)
        ensures
            r.private_key_path@ == base_path@ + "/.private_1"@,
            r.name@ == "default"@,
    {
        let mut key_path = String::new();
        key_path.append(base_path);
        key_path.append("/.private_1");
        proof {
            assert(key_path@ =~= base_path@ + "/.private_1"@);
        }
        NamespaceConfig { private_key_path: key_path, name: "default".to_owned() }
    }
}

} // verus!
