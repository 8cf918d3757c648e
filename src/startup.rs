//! Process bootstrap decisions: the three required configuration values, and
//! the order of steps that keeps any command from running before the session
//! has authenticated.

use vstd::prelude::*;

verus! {

/// The values the process needs before it can start.
#[derive(Clone, Debug)]
pub struct StartupConfig {
    pub username: String,
    pub password: String,
    pub discord_token: String,
}

/// A configuration value that is missing or empty.
#[derive(Clone, Copy, Debug, PartialEq, Eq, Structural)]
pub enum ConfigItem {
    Username,
    Password,
    DiscordToken,
}

/// A configuration value that was given and is not empty.
pub open spec fn present(v: Option<String>) -> bool {
    v is Some && v->Some_0@.len() > 0
}

/// Whether `v` is given and not empty.
fn is_present(v: &Option<String>) -> (r: bool)
    ensures
        r == present(*v),
{
    match v {
        Some(s) => !s.as_str().is_empty(),
        None => false,
    }
}

/// Checks the three values, in order; the first one missing or empty is the
/// error.
pub fn check_config(
    username: Option<String>,
    password: Option<String>,
    discord_token: Option<String>,
) -> (r: Result<StartupConfig, ConfigItem>)
    ensures
        r is Ok <==> present(username) && present(password) && present(discord_token),
        !present(username) ==> r == Err::<StartupConfig, ConfigItem>(ConfigItem::Username),
        present(username) && !present(password) ==> r == Err::<StartupConfig, ConfigItem>(
            ConfigItem::Password,
        ),
        present(username) && present(password) && !present(discord_token) ==> r == Err::<
            StartupConfig,
            ConfigItem,
        >(ConfigItem::DiscordToken),
        r is Ok ==> r->Ok_0.username@ == username->Some_0@ && r->Ok_0.password@
            == password->Some_0@ && r->Ok_0.discord_token@ == discord_token->Some_0@,
{
    if !is_present(&username) {
        return Err(ConfigItem::Username);
    }
    if !is_present(&password) {
        return Err(ConfigItem::Password);
    }
    if !is_present(&discord_token) {
        return Err(ConfigItem::DiscordToken);
    }
    match (username, password, discord_token) {
        (Some(username), Some(password), Some(discord_token)) => Ok(
            StartupConfig { username, password, discord_token },
        ),
        _ => Err(ConfigItem::Username),
    }
}

/// Where the bootstrap stands.
#[derive(Clone, Copy, Debug, PartialEq, Eq, Structural)]
pub enum BootStage {
    Start,
    Connecting,
    Serving,
    Exited,
}

/// What the bootstrap learns from outside.
#[derive(Clone, Copy, Debug, PartialEq, Eq, Structural)]
pub enum BootEvent {
    /// The configuration was read; `complete` when every value is present.
    ConfigLoaded { complete: bool },
    /// The session's authentication finished.
    AuthFinished { ok: bool },
}

/// What the bootstrap asks to be done next.
#[derive(Clone, Copy, Debug, PartialEq, Eq, Structural)]
pub enum BootAction {
    /// Open and authenticate the session.
    Connect,
    /// Register the command and begin serving it.
    RegisterCommands,
    /// Stop the process with a diagnostic.
    Exit,
    Nothing,
}

/// One bootstrap step. A missing value or a failed authentication stops the
/// process; an event out of order is fatal too.
pub open spec fn boot_step(s: BootStage, e: BootEvent) -> (BootStage, BootAction) {
    match (s, e) {
        (BootStage::Start, BootEvent::ConfigLoaded { complete }) => if complete {
            (BootStage::Connecting, BootAction::Connect)
        } else {
            (BootStage::Exited, BootAction::Exit)
        },
        (BootStage::Connecting, BootEvent::AuthFinished { ok }) => if ok {
            (BootStage::Serving, BootAction::RegisterCommands)
        } else {
            (BootStage::Exited, BootAction::Exit)
        },
        (BootStage::Serving, _) => (BootStage::Serving, BootAction::Nothing),
        (BootStage::Exited, _) => (BootStage::Exited, BootAction::Nothing),
        _ => (BootStage::Exited, BootAction::Exit),
    }
}

/// The actions of a run of events.
pub open spec fn boot_actions(s: BootStage, es: Seq<BootEvent>) -> Seq<BootAction>
    decreases es.len(),
{
    if es.len() == 0 {
        Seq::empty()
    } else {
        seq![boot_step(s, es[0]).1] + boot_actions(boot_step(s, es[0]).0, es.drop_first())
    }
}

/// Takes one bootstrap step.
pub fn next_boot_step(stage: BootStage, event: BootEvent) -> (r: (BootStage, BootAction))
    ensures
        r == boot_step(stage, event),
{
    match (stage, event) {
        (BootStage::Start, BootEvent::ConfigLoaded { complete }) => if complete {
            (BootStage::Connecting, BootAction::Connect)
        } else {
            (BootStage::Exited, BootAction::Exit)
        },
        (BootStage::Connecting, BootEvent::AuthFinished { ok }) => if ok {
            (BootStage::Serving, BootAction::RegisterCommands)
        } else {
            (BootStage::Exited, BootAction::Exit)
        },
        (BootStage::Serving, _) => (BootStage::Serving, BootAction::Nothing),
        (BootStage::Exited, _) => (BootStage::Exited, BootAction::Nothing),
        _ => (BootStage::Exited, BootAction::Exit),
    }
}

/// A stopped bootstrap asks for nothing more.
proof fn lemma_exited_is_quiet(es: Seq<BootEvent>)
    ensures
        forall|i: int| 0 <= i < es.len() ==> #[trigger] boot_actions(BootStage::Exited, es)[i]
            == BootAction::Nothing,
        boot_actions(BootStage::Exited, es).len() == es.len(),
    decreases es.len(),
{
    if es.len() > 0 {
        lemma_exited_is_quiet(es.drop_first());
        let rest = boot_actions(BootStage::Exited, es.drop_first());
        assert forall|i: int| 0 <= i < es.len() implies #[trigger] boot_actions(
            BootStage::Exited,
            es,
        )[i] == BootAction::Nothing by {
            if i > 0 {
                assert(boot_actions(BootStage::Exited, es)[i] == rest[i - 1]);
            }
        }
    }
}

/// With a configuration value missing, the process exits at once: whatever
/// follows, it never connects the session nor registers a command.
pub proof fn lemma_missing_config_exits(es: Seq<BootEvent>)
    ensures
        boot_actions(BootStage::Start, seq![BootEvent::ConfigLoaded { complete: false }] + es)[0]
            == BootAction::Exit,
        forall|i: int|
            0 <= i < es.len() + 1 ==> #[trigger] boot_actions(
                BootStage::Start,
                seq![BootEvent::ConfigLoaded { complete: false }] + es,
            )[i] != BootAction::Connect && boot_actions(
                BootStage::Start,
                seq![BootEvent::ConfigLoaded { complete: false }] + es,
            )[i] != BootAction::RegisterCommands,
{
    let all = seq![BootEvent::ConfigLoaded { complete: false }] + es;
    assert(all.drop_first() =~= es);
    lemma_exited_is_quiet(es);
    let acts = boot_actions(BootStage::Start, all);
    assert forall|i: int| 0 <= i < es.len() + 1 implies #[trigger] acts[i] != BootAction::Connect
        && acts[i] != BootAction::RegisterCommands by {
        if i > 0 {
            assert(acts[i] == boot_actions(BootStage::Exited, es)[i - 1]);
        }
    }
}

} // verus!
