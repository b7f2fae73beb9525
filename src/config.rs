use vstd::prelude::*;

verus! {

/// The workspace listened to when none is configured.
pub open spec fn default_workspace() -> Seq<char> {
    "secondstate"@
}

/// The channel listened to when none is configured.
pub open spec fn default_channel() -> Seq<char> {
    "collaborative-chat"@
}

/// The file that holds the context block.
pub open spec fn default_context_path() -> Seq<char> {
    "memory/launch_plan.txt"@
}

/// The settings of the bot, fixed once at startup and passed to every
/// invocation of the handler.
pub struct Config {
    /// The chat workspace listened to and answered in.
    pub workspace: String,
    /// The channel of that workspace.
    pub channel: String,
    /// Where the context block is read from.
    pub context_path: String,
    /// Whether a status line on the context load is posted before each reply.
    pub diagnostics: bool,
}

/// A configured value, or the default where none was given.
pub fn setting_or(value: Option<String>, default: &str) -> (r: String)
    ensures
        r@ == match value {
            Some(v) => v@,
            None => default@,
        },
{
    match value {
        Some(v) => v,
        None => String::from_str(default),
    }
}

impl Config {
    /// The configuration from the looked-up workspace and channel settings,
    /// with the defaults for those that are absent.
    pub fn from_settings(workspace: Option<String>, channel: Option<String>, diagnostics: bool) -> (r: Config)
        ensures
            r.workspace@ == match workspace {
                Some(w) => w@,
                None => default_workspace(),
            },
            r.channel@ == match channel {
                Some(c) => c@,
                None => default_channel(),
            },
            r.context_path@ == default_context_path(),
            r.diagnostics == diagnostics,
    {
        Config {
            workspace: setting_or(workspace, "secondstate"),
            channel: setting_or(channel, "collaborative-chat"),
            context_path: String::from_str("memory/launch_plan.txt"),
            diagnostics,
        }
    }
}

} // verus!
