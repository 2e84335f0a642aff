use vstd::prelude::*;
use crate::arch::{ArchTag, tag_name};
use crate::text::push_text;

verus! {

/// The presence of the two artifacts on the remote host, which is all that
/// decides what an install run does.
#[derive(Clone, Copy, Debug, PartialEq, Eq, Structural)]
pub struct CacheState {
    /// The downloaded release archive is present.
    pub archive: bool,
    /// The unpacked server directory is present.
    pub unpacked: bool,
}

/// The work one install run performs.
#[derive(Clone, Copy, Debug, PartialEq, Eq, Structural)]
pub struct InstallSteps {
    /// Both artifacts are removed first.
    pub clear: bool,
    /// The release archive is downloaded.
    pub download: bool,
    /// The archive is unpacked into the server directory.
    pub extract: bool,
}

/// The steps the install script takes on a host in state `s`: each one is
/// skipped when its result is already present, unless the cache is cleared.
pub open spec fn planned_steps(s: CacheState, clear_cache: bool) -> InstallSteps {
    InstallSteps {
        clear: clear_cache,
        download: clear_cache || !s.archive,
        extract: clear_cache || !s.unpacked,
    }
}

/// The state a successful run with `steps` leaves behind.
pub open spec fn state_after(s: CacheState, steps: InstallSteps) -> CacheState {
    CacheState {
        archive: (s.archive && !steps.clear) || steps.download,
        unpacked: (s.unpacked && !steps.clear) || steps.extract,
    }
}

impl InstallSteps {
    /// Whether the run does anything beyond its presence checks.
    pub open spec fn is_noop(self) -> bool {
        !self.clear && !self.download && !self.extract
    }
}

/// The steps an install run takes from `s`.
pub fn plan_install(s: CacheState, clear_cache: bool) -> (r: InstallSteps)
    ensures
        r == planned_steps(s, clear_cache),
{
    InstallSteps { clear: clear_cache, download: clear_cache || !s.archive, extract: clear_cache || !s.unpacked }
}

/// The state a successful run with `steps` leaves on a host in state `s`.
pub fn apply_install(s: CacheState, steps: InstallSteps) -> (r: CacheState)
    ensures
        r == state_after(s, steps),
{
    CacheState {
        archive: (s.archive && !steps.clear) || steps.download,
        unpacked: (s.unpacked && !steps.clear) || steps.extract,
    }
}

/// A successful run leaves both artifacts present, and a second run without
/// clearing the cache only checks for them and changes nothing; the first run
/// downloads and unpacks exactly what was missing.
pub proof fn lemma_install_idempotent(s: CacheState, clear_cache: bool)
    ensures
        state_after(s, planned_steps(s, clear_cache)) == (CacheState { archive: true, unpacked: true }),
        planned_steps(state_after(s, planned_steps(s, clear_cache)), false).is_noop(),
        state_after(
            state_after(s, planned_steps(s, clear_cache)),
            planned_steps(state_after(s, planned_steps(s, clear_cache)), false),
        ) == state_after(s, planned_steps(s, clear_cache)),
        !clear_cache ==> (planned_steps(s, clear_cache).download <==> !s.archive),
        !clear_cache ==> (planned_steps(s, clear_cache).extract <==> !s.unpacked),
{
}

/// Clearing the cache makes a run download and unpack, whatever was present.
pub proof fn lemma_clear_cache_reinstalls(s: CacheState)
    ensures
        planned_steps(s, true).clear,
        planned_steps(s, true).download,
        planned_steps(s, true).extract,
        state_after(s, planned_steps(s, true)) == (CacheState { archive: true, unpacked: true }),
{
}

/// The directory on the remote host that holds the artifacts.
pub open spec fn cache_dir_spec() -> Seq<char> {
    "~/.socratic-shell/theoldswitcheroo/"@
}

/// The name of the directory the release archive unpacks to.
pub open spec fn release_dir_spec(t: ArchTag) -> Seq<char> {
    "openvscode-server-v1.103.1-"@ + tag_name(t)
}

/// Where the release archive for `t` is downloaded from.
pub open spec fn download_url_spec(t: ArchTag) -> Seq<char> {
    "https://github.com/gitpod-io/openvscode-server/releases/download/openvscode-server-v1.103.1/"@
        + release_dir_spec(t) + ".tar.gz"@
}

/// The line that clears the cache, when asked for.
pub open spec fn clear_line_spec(clear_cache: bool) -> Seq<char> {
    if clear_cache {
        "rm -rf openvscode-server.tar.gz openvscode-server\n"@
    } else {
        Seq::empty()
    }
}

/// The install script. It fails on the first failing command. The archive is
/// fetched under a temporary name and the directory unpacked under another,
/// and each is moved into place only once complete, so that the presence
/// checks never take a half-done step for a finished one.
pub open spec fn install_script_spec(t: ArchTag, clear_cache: bool) -> Seq<char> {
    "set -e\nmkdir -p "@ + cache_dir_spec() + "\ncd "@ + cache_dir_spec() + "\n"@
        + clear_line_spec(clear_cache)
        + "if [ ! -f openvscode-server.tar.gz ]; then\n  curl -fL "@ + download_url_spec(t)
        + " -o openvscode-server.tar.gz.part\n  mv openvscode-server.tar.gz.part openvscode-server.tar.gz\nfi\n"@
        + "if [ ! -d openvscode-server ]; then\n  rm -rf openvscode-server.partial\n  mkdir openvscode-server.partial\n  tar -xzf openvscode-server.tar.gz -C openvscode-server.partial\n  chmod +x openvscode-server.partial/"@
        + release_dir_spec(t) + "/bin/openvscode-server\n  mv openvscode-server.partial/"@
        + release_dir_spec(t) + " openvscode-server\n  rm -rf openvscode-server.partial\nfi\n"@
}

/// The name of the directory the release archive unpacks to.
pub fn release_dir(t: ArchTag) -> (r: String)
    ensures
        r@ == release_dir_spec(t),
{
    let mut r = String::from_str("openvscode-server-v1.103.1-");
    push_text(&mut r, t.name());
    r
}

/// Where the release archive for `t` is downloaded from.
pub fn download_url(t: ArchTag) -> (r: String)
    ensures
        r@ == download_url_spec(t),
{
    let mut r = String::from_str(
        "https://github.com/gitpod-io/openvscode-server/releases/download/openvscode-server-v1.103.1/",
    );
    let d = release_dir(t);
    push_text(&mut r, d.as_str());
    push_text(&mut r, ".tar.gz");
    r
}

/// The install script for `t`, clearing the cache first when asked.
pub fn install_script(t: ArchTag, clear_cache: bool) -> (r: String)
    ensures
        r@ == install_script_spec(t, clear_cache),
{
    let dir = release_dir(t);
    let url = download_url(t);
    let mut r = String::from_str("set -e\nmkdir -p ");
    push_text(&mut r, "~/.socratic-shell/theoldswitcheroo/");
    push_text(&mut r, "\ncd ");
    push_text(&mut r, "~/.socratic-shell/theoldswitcheroo/");
    push_text(&mut r, "\n");
    if clear_cache {
        push_text(&mut r, "rm -rf openvscode-server.tar.gz openvscode-server\n");
    } else {
        assert(r@ + clear_line_spec(clear_cache) =~= r@);
    }
    push_text(&mut r, "if [ ! -f openvscode-server.tar.gz ]; then\n  curl -fL ");
    push_text(&mut r, url.as_str());
    push_text(
        &mut r,
        " -o openvscode-server.tar.gz.part\n  mv openvscode-server.tar.gz.part openvscode-server.tar.gz\nfi\n",
    );
    push_text(
        &mut r,
        "if [ ! -d openvscode-server ]; then\n  rm -rf openvscode-server.partial\n  mkdir openvscode-server.partial\n  tar -xzf openvscode-server.tar.gz -C openvscode-server.partial\n  chmod +x openvscode-server.partial/",
    );
    push_text(&mut r, dir.as_str());
    push_text(&mut r, "/bin/openvscode-server\n  mv openvscode-server.partial/");
    push_text(&mut r, dir.as_str());
    push_text(&mut r, " openvscode-server\n  rm -rf openvscode-server.partial\nfi\n");
    r
}

} // verus!
