//! Autostart registration: enable, disable and query the application's
//! entry in the current user's startup run list. Only one platform carries
//! such a list here; a development build refuses to register itself.

use vstd::prelude::*;
use crate::messages;

verus! {

/// The platforms the autostart component distinguishes: the one supported
/// platform, and everything else.
pub enum Platform {
    Windows,
    Other,
}

/// What the process knows of its host: the platform it runs on and whether
/// it is a development build.
pub struct HostEnv {
    pub platform: Platform,
    pub dev_build: bool,
}

/// The application's entry in the current user's startup run list, kept
/// under the fixed application name: at most one value, the path of the
/// executable to launch at login. Presence of the entry is the "enabled"
/// state.
pub struct RunList {
    pub entry: Option<String>,
}

impl View for RunList {
    type V = Option<Seq<char>>;

    open spec fn view(&self) -> Option<Seq<char>> {
        match self.entry {
            Some(p) => Some(p@),
            None => None,
        }
    }
}

/// The run list after a successful enable: exactly the one entry, holding
/// the path written last.
pub open spec fn spec_enable(run: Option<Seq<char>>, path: Seq<char>) -> Option<Seq<char>> {
    Some(path)
}

/// The run list after a successful disable: no entry.
pub open spec fn spec_disable(run: Option<Seq<char>>) -> Option<Seq<char>> {
    None
}

/// How many entries the run list holds for the application: one when the
/// entry is present, none otherwise.
pub open spec fn entry_count(run: Option<Seq<char>>) -> nat {
    if run is Some {
        1
    } else {
        0
    }
}

/// The detail reported when the entry to delete is not present.
pub open spec fn missing_value_detail() -> Seq<char> {
    "value not found"@
}

/// Registers the application to start at login: writes the executable's
/// path as the single entry of the run list. Refused outright in a
/// development build, and on every platform but the supported one; neither
/// refusal touches the list.
pub fn enable_autostart(env: &HostEnv, run: &mut RunList, exe_path: String) -> (r: Result<
    (),
    String,
>)
    ensures
        env.dev_build ==> (r matches Err(e) && e@ == messages::dev_guard_msg() && final(run)@
            == old(run)@),
        !env.dev_build && !(env.platform is Windows) ==> (r matches Err(e) && e@
            == messages::unsupported_platform_msg() && final(run)@ == old(run)@),
        !env.dev_build && env.platform is Windows ==> r is Ok && final(run)@ == spec_enable(
            old(run)@,
            exe_path@,
        ),
{
    if env.dev_build {
        return Err(
            "Autostart is disabled in dev builds. Use a release build or the installed app.".to_owned(),
        );
    }
    match env.platform {
        Platform::Windows => {
            run.entry = Some(exe_path);
            Ok(())
        },
        Platform::Other => Err("Autostart is only supported on Windows".to_owned()),
    }
}

/// Removes the application's entry from the run list. Fails on every
/// platform but the supported one, and when the entry is not present; a
/// failure leaves the list unchanged.
pub fn disable_autostart(env: &HostEnv, run: &mut RunList) -> (r: Result<(), String>)
    ensures
        !(env.platform is Windows) ==> (r matches Err(e) && e@
            == messages::unsupported_platform_msg() && final(run)@ == old(run)@),
        env.platform is Windows && old(run)@ is Some ==> r is Ok && final(run)@ == spec_disable(
            old(run)@,
        ),
        env.platform is Windows && old(run)@ is None ==> (r matches Err(e) && e@
            == messages::delete_registry_prefix() + missing_value_detail()
            && final(run)@ == old(run)@),
{
    match env.platform {
        Platform::Windows => {
            if run.entry.is_some() {
                run.entry = None;
                Ok(())
            } else {
                Err(messages::prefixed("Error deleting registry value: ", "value not found"))
            }
        },
        Platform::Other => Err("Autostart is only supported on Windows".to_owned()),
    }
}

/// Reports whether the application is registered to start at login. A
/// development build always reports "not enabled", whatever the list holds;
/// on the supported platform the answer is the presence of the entry; on
/// every other platform the query fails.
pub fn is_autostart_enabled(env: &HostEnv, run: &RunList) -> (r: Result<bool, String>)
    ensures
        env.dev_build ==> (r matches Ok(b) && b == false),
        !env.dev_build && !(env.platform is Windows) ==> (r matches Err(e) && e@
            == messages::unsupported_platform_msg()),
        !env.dev_build && env.platform is Windows ==> (r matches Ok(b) && b == (run@ is Some)),
{
    if env.dev_build {
        return Ok(false);
    }
    match env.platform {
        Platform::Windows => Ok(run.entry.is_some()),
        Platform::Other => Err("Autostart is only supported on Windows".to_owned()),
    }
}

/// Law: enabling twice leaves exactly one entry — the path written last —
/// whatever the list held before.
pub proof fn lemma_enable_twice_one_entry(run: Option<Seq<char>>, p1: Seq<char>, p2: Seq<char>)
    ensures
        entry_count(spec_enable(spec_enable(run, p1), p2)) == 1,
        spec_enable(spec_enable(run, p1), p2) == spec_enable(run, p2),
{
}

/// Law: after a disable the entry is gone, and disabling again changes
/// nothing further.
pub proof fn lemma_disable_idempotent(run: Option<Seq<char>>)
    ensures
        entry_count(spec_disable(run)) == 0,
        spec_disable(spec_disable(run)) == spec_disable(run),
{
}

} // verus!
