//! The command line and environment the child is started with.

use crate::paths::{normalize_path, normalized, DataDirectory, OsFamily, ServerResources};
use crate::text::{decimal, port_text};
use vstd::prelude::*;
use vstd::string::*;

verus! {

/// Name of the bundled runtime, as the shell knows it.
pub const SIDECAR_NAME: &'static str = "panini-server";

/// First argument: the runtime's verb for running a program.
pub const RUN_VERB: &'static str = "run";

/// Flag before the port to listen on.
pub const PORT_FLAG: &'static str = "--port";

/// Flag before the host to bind to.
pub const HOST_FLAG: &'static str = "--host";

/// Flag before the remote platform's URL.
pub const PLATFORM_URL_FLAG: &'static str = "--platform-url";

/// Variable that makes the runtime verify TLS against the system's
/// certificate store.
pub const ENV_SYSTEM_CA: &'static str = "NODE_USE_SYSTEM_CA";

/// Value that switches the system's certificate store on.
pub const SYSTEM_CA_ON: &'static str = "1";

/// Variable that selects the mode the server runs in.
pub const ENV_MODE: &'static str = "NODE_ENV";

/// The mode the bundled server always runs in.
pub const MODE_PRODUCTION: &'static str = "production";

/// Variable that carries the data directory.
pub const ENV_DATA_DIR: &'static str = "PANINI_DATA_DIR";

/// Variable that carries the directory of the bundled runtimes.
pub const ENV_RUNTIME_DIR: &'static str = "PANINI_RUNTIME_DIR";

/// Variable that carries the resource root.
pub const ENV_RESOURCE_ROOT: &'static str = "PANINI_RESOURCE_ROOT";

/// Environment variable the remote platform's URL is read from.
pub const ENV_PLATFORM_URL: &'static str = "PANINI_PLATFORM_URL";

/// Everything needed to start the child. Built anew for every launch.
pub struct LaunchSpec {
    pub executable: String,
    pub args: Vec<String>,
    pub env: Vec<(String, String)>,
    pub working_dir: String,
}

/// Mathematical view of a [`LaunchSpec`].
pub struct LaunchSpecView {
    pub executable: Seq<char>,
    pub args: Seq<Seq<char>>,
    pub env: Seq<(Seq<char>, Seq<char>)>,
    pub working_dir: Seq<char>,
}

impl View for LaunchSpec {
    type V = LaunchSpecView;

    open spec fn view(&self) -> LaunchSpecView {
        LaunchSpecView {
            executable: self.executable@,
            args: self.args.deep_view(),
            env: self.env.deep_view(),
            working_dir: self.working_dir@,
        }
    }
}

/// A platform URL that is set and not empty.
pub open spec fn usable_url(url: Option<String>) -> Option<Seq<char>> {
    match url {
        Some(u) => if u@.len() > 0 {
            Some(u@)
        } else {
            None
        },
        None => None,
    }
}

/// The child's arguments: the verb, the entry point, the port, the host,
/// and the platform URL where one is given.
pub open spec fn launch_args(
    entry_point: Seq<char>,
    host: Seq<char>,
    port: u16,
    platform_url: Option<Seq<char>>,
) -> Seq<Seq<char>> {
    let fixed = seq![RUN_VERB@, entry_point, PORT_FLAG@, decimal(port as nat), HOST_FLAG@, host];
    match platform_url {
        Some(url) => fixed + seq![PLATFORM_URL_FLAG@, url],
        None => fixed,
    }
}

/// The variables set for the child, in the order they are set.
pub open spec fn launch_env(
    data_dir: Seq<char>,
    runtime_dir: Seq<char>,
    resource_root: Seq<char>,
) -> Seq<(Seq<char>, Seq<char>)> {
    seq![
        (ENV_SYSTEM_CA@, SYSTEM_CA_ON@),
        (ENV_MODE@, MODE_PRODUCTION@),
        (ENV_DATA_DIR@, data_dir),
        (ENV_RUNTIME_DIR@, runtime_dir),
        (ENV_RESOURCE_ROOT@, resource_root),
    ]
}

/// The launch that the resolved paths and the address lead to.
pub open spec fn launch_spec_for(
    entry_point: Seq<char>,
    resource_root: Seq<char>,
    data_dir: Seq<char>,
    runtime_dir: Seq<char>,
    host: Seq<char>,
    port: u16,
    platform_url: Option<String>,
    family: OsFamily,
) -> LaunchSpecView {
    LaunchSpecView {
        executable: SIDECAR_NAME@,
        args: launch_args(entry_point, host, port, usable_url(platform_url)),
        env: launch_env(data_dir, normalized(runtime_dir, family), resource_root),
        working_dir: data_dir,
    }
}

fn pair(name: &str, value: &str) -> (entry: (String, String))
    ensures
        entry.deep_view() == (name@, value@),
{
    (String::from_str(name), String::from_str(value))
}

/// Assembles the launch: the bundled runtime is run on the entry point with
/// the port and host, and with the platform URL if one is set and not empty.
/// The environment selects the system certificate store and production mode,
/// and carries the data directory, the directory of the bundled runtimes
/// (normalized) and the resource root. The child works in the data
/// directory.
pub fn build_launch_spec(
    resources: &ServerResources,
    data_dir: &DataDirectory,
    runtime_dir: &str,
    host: &str,
    port: u16,
    platform_url: &Option<String>,
    family: OsFamily,
) -> (spec: LaunchSpec)
    ensures
        spec@ == launch_spec_for(
            resources.entry_point@,
            resources.resource_root@,
            data_dir.path@,
            runtime_dir@,
            host@,
            port,
            *platform_url,
            family,
        ),
{
    let mut args: Vec<String> = Vec::new();
    args.push(String::from_str(RUN_VERB));
    args.push(resources.entry_point.clone());
    args.push(String::from_str(PORT_FLAG));
    args.push(port_text(port));
    args.push(String::from_str(HOST_FLAG));
    args.push(String::from_str(host));
    match platform_url {
        Some(url) => {
            if url.as_str().unicode_len() > 0 {
                args.push(String::from_str(PLATFORM_URL_FLAG));
                args.push(url.clone());
            }
        },
        None => {},
    }
    let runtime = normalize_path(runtime_dir, family);
    let mut env: Vec<(String, String)> = Vec::new();
    env.push(pair(ENV_SYSTEM_CA, SYSTEM_CA_ON));
    env.push(pair(ENV_MODE, MODE_PRODUCTION));
    env.push(pair(ENV_DATA_DIR, data_dir.path.as_str()));
    env.push(pair(ENV_RUNTIME_DIR, runtime.as_str()));
    env.push(pair(ENV_RESOURCE_ROOT, resources.resource_root.as_str()));
    let spec = LaunchSpec {
        executable: String::from_str(SIDECAR_NAME),
        args,
        env,
        working_dir: data_dir.path.clone(),
    };
    proof {
        let want = launch_spec_for(
            resources.entry_point@,
            resources.resource_root@,
            data_dir.path@,
            runtime_dir@,
            host@,
            port,
            *platform_url,
            family,
        );
        assert(spec@.args =~= want.args);
        assert(spec@.env =~= want.env);
    }
    spec
}

/// The environment is a mapping: no variable is set twice.
pub proof fn lemma_env_names_are_distinct(
    data_dir: Seq<char>,
    runtime_dir: Seq<char>,
    resource_root: Seq<char>,
)
    ensures
        forall|i: int, j: int|
            0 <= i < j < launch_env(data_dir, runtime_dir, resource_root).len() ==> launch_env(
                data_dir,
                runtime_dir,
                resource_root,
            )[i].0 != launch_env(data_dir, runtime_dir, resource_root)[j].0,
{
    reveal_strlit("NODE_USE_SYSTEM_CA");
    reveal_strlit("NODE_ENV");
    reveal_strlit("PANINI_DATA_DIR");
    reveal_strlit("PANINI_RUNTIME_DIR");
    reveal_strlit("PANINI_RESOURCE_ROOT");
    let env = launch_env(data_dir, runtime_dir, resource_root);
    assert(env[0].0.len() == 18 && env[0].0[0] == 'N');
    assert(env[1].0.len() == 8);
    assert(env[2].0.len() == 15);
    assert(env[3].0.len() == 18 && env[3].0[0] == 'P');
    assert(env[4].0.len() == 20);
}

} // verus!
