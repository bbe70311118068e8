use vstd::prelude::*;
use vstd::string::StringExecFns;

verus! {

/// The path prefix of the named pipe of each environment.
pub open spec fn pipe_prefix() -> Seq<char> {
    "\\\\.\\pipe\\simprint_"@
}

/// The name used for environment `env_id` where named pipes do not exist.
pub open spec fn plain_pipe_name(env_id: Seq<char>) -> Seq<char> {
    "simprint_"@ + env_id
}

/// The named pipe that the browser of environment `env_id` connects to, on
/// Windows, where the event bus runs.
pub fn get_pipe_path(env_id: &str) -> (p: String)
    ensures
        p@ == pipe_prefix() + env_id@,
{
    String::from_str("\\\\.\\pipe\\simprint_").concat(env_id)
}

/// The pipe name of environment `env_id` on the platform at hand: the
/// named pipe on Windows (`windows`), else the plain name.
pub fn pipe_path_on(env_id: &str, windows: bool) -> (p: String)
    ensures
        windows ==> p@ == pipe_prefix() + env_id@,
        !windows ==> p@ == plain_pipe_name(env_id@),
{
    if windows {
        get_pipe_path(env_id)
    } else {
        String::from_str("simprint_").concat(env_id)
    }
}

/// The listening end of one environment's named pipe.
pub struct PipeServer {
    env_id: String,
    pipe_path: String,
}

impl PipeServer {
    pub closed spec fn spec_env_id(&self) -> Seq<char> {
        self.env_id@
    }

    pub closed spec fn spec_pipe_path(&self) -> Seq<char> {
        self.pipe_path@
    }

    /// The server for environment `env_id`, on that environment's pipe.
    pub fn new(env_id: &str) -> (s: PipeServer)
        ensures
            s.spec_env_id() == env_id@,
            s.spec_pipe_path() == pipe_prefix() + env_id@,
    {
        PipeServer { env_id: String::from_str(env_id), pipe_path: get_pipe_path(env_id) }
    }

    /// The server for environment `env_id`, on that environment's pipe
    /// name for the platform at hand (`windows` or not).
    pub fn on_platform(env_id: &str, windows: bool) -> (s: PipeServer)
        ensures
            s.spec_env_id() == env_id@,
            windows ==> s.spec_pipe_path() == pipe_prefix() + env_id@,
            !windows ==> s.spec_pipe_path() == plain_pipe_name(env_id@),
    {
        PipeServer { env_id: String::from_str(env_id), pipe_path: pipe_path_on(env_id, windows) }
    }

    /// The environment this server serves.
    pub fn env_id(&self) -> (s: &str)
        ensures
            s@ == self.spec_env_id(),
    {
        self.env_id.as_str()
    }

    /// The pipe this server listens on.
    pub fn pipe_path(&self) -> (s: &str)
        ensures
            s@ == self.spec_pipe_path(),
    {
        self.pipe_path.as_str()
    }
}

} // verus!
