//! The operator-facing commands of the ticket workflow, reduced to their
//! decisions.
//!
//! Each command is split at the platform boundary: the functions here
//! validate the invocation, decide the transition and describe what the
//! platform is to do (a channel to create, an overwrite to write, an entry
//! to log); the embedding program performs those calls and feeds their
//! outcomes back into the `confirm_` functions, which say exactly what is
//! owed for every outcome.

use vstd::prelude::*;
use crate::config::Config;
use crate::errors::{MemberOp, TicketError};
use crate::lifecycle::{spec_close, CloseReply, ClosureTracker, CLOSE_DELAY_SECS};
use crate::logging::{is_log_for, log_ticket_action, LogAction, LogRequest};
use crate::perms::{
    build_initial_overwrites, has_everyone_role, initial_overwrites, member_overwrite,
    spec_add_member, spec_member_overwrite, spec_remove_member, everyone_role_name,
    find_everyone_role, Overwrite, OverwriteSet, Role,
};
use crate::text::{lower_of, str_eq, ticket_channel_name};

verus! {

/// The slash commands the workflow answers.
#[derive(Clone, Copy, Debug, PartialEq, Eq, Structural)]
pub enum SlashCommand {
    Init,
    Close,
    AddUser,
    RemoveUser,
    SetCategory,
    SetLogChannel,
    Unknown,
}

/// Which command a name denotes; any other name is unknown.
pub open spec fn spec_route_command(name: Seq<char>) -> SlashCommand {
    if name == "init"@ {
        SlashCommand::Init
    } else if name == "close"@ {
        SlashCommand::Close
    } else if name == "adduser"@ {
        SlashCommand::AddUser
    } else if name == "removeuser"@ {
        SlashCommand::RemoveUser
    } else if name == "setcategory"@ {
        SlashCommand::SetCategory
    } else if name == "setlogchannel"@ {
        SlashCommand::SetLogChannel
    } else {
        SlashCommand::Unknown
    }
}

/// Map an inbound slash command's name to the command it denotes.
pub fn route_command(name: &str) -> (r: SlashCommand)
    ensures
        r == spec_route_command(name@),
{
    if str_eq(name, "init") {
        SlashCommand::Init
    } else if str_eq(name, "close") {
        SlashCommand::Close
    } else if str_eq(name, "adduser") {
        SlashCommand::AddUser
    } else if str_eq(name, "removeuser") {
        SlashCommand::RemoveUser
    } else if str_eq(name, "setcategory") {
        SlashCommand::SetCategory
    } else if str_eq(name, "setlogchannel") {
        SlashCommand::SetLogChannel
    } else {
        SlashCommand::Unknown
    }
}

/// The component clicks the workflow answers.
#[derive(Clone, Copy, Debug, PartialEq, Eq, Structural)]
pub enum ComponentAction {
    OpenTicket,
    CloseTicket,
    CancelClose,
    Other,
}

/// Which action a component's custom identifier denotes; any other
/// identifier is ignored.
pub open spec fn spec_route_component(custom_id: Seq<char>) -> ComponentAction {
    if custom_id == "open_ticket"@ {
        ComponentAction::OpenTicket
    } else if custom_id == "close_ticket"@ {
        ComponentAction::CloseTicket
    } else if custom_id == "cancel_close"@ {
        ComponentAction::CancelClose
    } else {
        ComponentAction::Other
    }
}

/// Map an inbound component click's custom identifier to the action it
/// denotes.
pub fn route_component(custom_id: &str) -> (r: ComponentAction)
    ensures
        r == spec_route_component(custom_id@),
{
    if str_eq(custom_id, "open_ticket") {
        ComponentAction::OpenTicket
    } else if str_eq(custom_id, "close_ticket") {
        ComponentAction::CloseTicket
    } else if str_eq(custom_id, "cancel_close") {
        ComponentAction::CancelClose
    } else {
        ComponentAction::Other
    }
}

/// What the lifecycle engine reads of an inbound interaction, whichever
/// kind delivered it: the channel it happened in and the invoking user.
pub trait InteractionContext {
    spec fn spec_channel_id(&self) -> u64;

    spec fn spec_user(&self) -> u64;

    fn channel_id(&self) -> (r: u64)
        ensures
            r == self.spec_channel_id(),
    ;

    fn user(&self) -> (r: u64)
        ensures
            r == self.spec_user(),
    ;
}

/// A slash-command invocation, reduced to plain values.
#[derive(Clone, Copy, Debug, PartialEq, Eq, Structural)]
pub struct CommandEvent {
    pub channel_id: u64,
    pub user_id: u64,
}

impl InteractionContext for CommandEvent {
    open spec fn spec_channel_id(&self) -> u64 {
        self.channel_id
    }

    open spec fn spec_user(&self) -> u64 {
        self.user_id
    }

    fn channel_id(&self) -> u64 {
        self.channel_id
    }

    fn user(&self) -> u64 {
        self.user_id
    }
}

/// A component click, reduced to plain values.
#[derive(Clone, Copy, Debug, PartialEq, Eq, Structural)]
pub struct ComponentEvent {
    pub channel_id: u64,
    pub user_id: u64,
}

impl InteractionContext for ComponentEvent {
    open spec fn spec_channel_id(&self) -> u64 {
        self.channel_id
    }

    open spec fn spec_user(&self) -> u64 {
        self.user_id
    }

    fn channel_id(&self) -> u64 {
        self.channel_id
    }

    fn user(&self) -> u64 {
        self.user_id
    }
}

/// The entry-point message `init` posts: an invitation with an open-ticket
/// control, its footer naming the configured category.
#[derive(Clone, Copy, Debug, PartialEq, Eq, Structural)]
pub struct InitMessage {
    pub category_id: u64,
    pub has_open_control: bool,
}

/// The `init` command: describe the ticket system's entry-point message.
/// With no category configured the command is refused with a configuration
/// error and nothing is posted.
pub fn init(config: &Config) -> (r: Result<InitMessage, TicketError>)
    ensures
        config.category_id is None ==> r == Err::<InitMessage, TicketError>(
            TicketError::CategoryNotConfigured,
        ),
        config.category_id matches Some(cat) ==> r == Ok::<InitMessage, TicketError>(
            InitMessage { category_id: cat, has_open_control: true },
        ),
{
    match config.get_category_id() {
        None => Err(TicketError::CategoryNotConfigured),
        Some(cat) => Ok(InitMessage { category_id: cat, has_open_control: true }),
    }
}

/// Everything the platform needs to create one ticket channel.
pub struct TicketPlan {
    /// The channel's name: the requester's name lower-cased behind the
    /// `ticket-` prefix.
    pub channel_name: String,
    /// The configured category the channel is created under.
    pub category_id: u64,
    /// The requesting user, owner of the ticket.
    pub owner_id: u64,
    /// The channel's initial permission overwrites.
    pub overwrites: OverwriteSet,
}

/// Open a ticket: derive the channel's name from the requester, resolve the
/// default role, and build the visibility rules for exactly one new channel
/// under the configured category — the everyone role denied view, the owner
/// allowed view, send and read-history, and nothing else granted. Refused
/// with a configuration error when no category is configured, and with a
/// permission error when the guild has no role named `@everyone`.
pub fn create_ticket(
    config: &Config,
    owner_id: u64,
    owner_name: &str,
    roles: &Vec<Role>,
) -> (r: Result<TicketPlan, TicketError>)
    ensures
        config.category_id is None ==> (r matches Err(e) && e == TicketError::CategoryNotConfigured),
        config.category_id is Some && !has_everyone_role(roles@) ==> (r matches Err(e) && e
            == TicketError::EveryoneRoleNotFound),
        config.category_id matches Some(cat) ==> has_everyone_role(roles@) ==> (r matches Ok(plan)
            && {
            &&& plan.channel_name@ == "ticket-"@ + lower_of(owner_name@)
            &&& plan.category_id == cat
            &&& plan.owner_id == owner_id
            &&& plan.overwrites.wf()
            &&& exists|i: int|
                {
                    &&& 0 <= i < roles@.len()
                    &&& (#[trigger] roles@[i]).name@ == everyone_role_name()
                    &&& forall|j: int| 0 <= j < i ==> (#[trigger] roles@[j]).name@
                        != everyone_role_name()
                    &&& plan.overwrites@ == initial_overwrites(owner_id, roles@[i].id)
                }
        }),
{
    let cat = match config.get_category_id() {
        None => {
            return Err(TicketError::CategoryNotConfigured);
        },
        Some(cat) => cat,
    };
    let everyone_role_id = match find_everyone_role(roles) {
        None => {
            return Err(TicketError::EveryoneRoleNotFound);
        },
        Some(id) => id,
    };
    let channel_name = ticket_channel_name(owner_name);
    let overwrites = build_initial_overwrites(owner_id, everyone_role_id);
    Ok(TicketPlan { channel_name, category_id: cat, owner_id, overwrites })
}

/// The welcome message posted in a fresh ticket channel, carrying the
/// close-ticket control.
pub struct WelcomeMessage {
    pub channel_name: String,
    pub has_close_control: bool,
}

/// The follow-up once the platform created the ticket channel: the welcome
/// message with its close control, and the `Opened` log entry (best-effort;
/// none when no log channel is configured). If posting the welcome message
/// then fails, the channel is left open and the failure is surfaced as a
/// warning, not rolled back.
pub fn confirm_ticket_created(
    config: &Config,
    owner_id: u64,
    channel_name: &String,
    timestamp: u64,
) -> (r: (WelcomeMessage, Option<LogRequest>))
    ensures
        r.0.channel_name@ == channel_name@,
        r.0.has_close_control,
        is_log_for(r.1, *config, LogAction::Opened, owner_id, channel_name@, timestamp),
{
    let welcome = WelcomeMessage { channel_name: channel_name.clone(), has_close_control: true };
    let log = log_ticket_action(config, LogAction::Opened, owner_id, channel_name.clone(), timestamp);
    (welcome, log)
}

/// Request closure of the channel an interaction came from: start the close
/// countdown unless one is already pending for that channel.
pub fn close<I: InteractionContext>(
    tracker: &mut ClosureTracker,
    interaction: &I,
    now: u64,
) -> (r: CloseReply)
    requires
        old(tracker).wf(),
        now + CLOSE_DELAY_SECS <= u64::MAX,
    ensures
        final(tracker).wf(),
        (final(tracker)@, r) == spec_close(
            old(tracker)@,
            interaction.spec_channel_id(),
            interaction.spec_user(),
            now,
        ),
{
    let ch = interaction.channel_id();
    let user = interaction.user();
    tracker.close(ch, user, now)
}

/// What the platform's channel lookup found.
#[derive(Clone, Copy, Debug, PartialEq, Eq, Structural)]
pub enum ChannelFetch {
    /// The channel exists and is a server channel.
    GuildChannel,
    /// The channel exists but is not a server channel.
    NotGuild,
    /// The lookup failed.
    FetchFailed,
}

/// Whether the fetched channel admits member operations: only an existing
/// server channel does; each other lookup outcome is its own error.
pub fn check_guild_channel(fetch: ChannelFetch) -> (r: Result<(), TicketError>)
    ensures
        fetch is GuildChannel ==> r is Ok,
        fetch is NotGuild ==> (r matches Err(e) && e == TicketError::NotGuildChannel),
        fetch is FetchFailed ==> (r matches Err(e) && e == TicketError::ChannelFetchFailed),
{
    match fetch {
        ChannelFetch::GuildChannel => Ok(()),
        ChannelFetch::NotGuild => Err(TicketError::NotGuildChannel),
        ChannelFetch::FetchFailed => Err(TicketError::ChannelFetchFailed),
    }
}

/// The validated intent of a member operation: which user, and the
/// overwrite an addition writes.
#[derive(Clone, Copy, Debug, PartialEq, Eq, Structural)]
pub struct MemberPlan {
    pub user_id: u64,
    pub overwrite: Overwrite,
}

/// The `adduser` command's validation: refused outside a server and without
/// a target user; otherwise the full participation overwrite is to be
/// written for the target.
pub fn add_user(in_guild: bool, target_user: Option<u64>) -> (r: Result<MemberPlan, TicketError>)
    ensures
        !in_guild ==> (r matches Err(e) && e == TicketError::NotInGuild),
        in_guild && target_user is None ==> (r matches Err(e) && e == TicketError::NoTargetUser(
            MemberOp::Add,
        )),
        in_guild ==> (target_user matches Some(u) ==> r == Ok::<MemberPlan, TicketError>(
            MemberPlan { user_id: u, overwrite: spec_member_overwrite(u) },
        )),
{
    if !in_guild {
        return Err(TicketError::NotInGuild);
    }
    match target_user {
        None => Err(TicketError::NoTargetUser(MemberOp::Add)),
        Some(u) => Ok(MemberPlan { user_id: u, overwrite: member_overwrite(u) }),
    }
}

/// The `removeuser` command's validation: refused outside a server and
/// without a target user; otherwise the target's overwrite is to be
/// deleted.
pub fn remove_user(in_guild: bool, target_user: Option<u64>) -> (r: Result<u64, TicketError>)
    ensures
        !in_guild ==> (r matches Err(e) && e == TicketError::NotInGuild),
        in_guild && target_user is None ==> (r matches Err(e) && e == TicketError::NoTargetUser(
            MemberOp::Remove,
        )),
        in_guild ==> (target_user matches Some(u) ==> r == Ok::<u64, TicketError>(u)),
{
    if !in_guild {
        return Err(TicketError::NotInGuild);
    }
    match target_user {
        None => Err(TicketError::NoTargetUser(MemberOp::Remove)),
        Some(u) => Ok(u),
    }
}

/// Account for the platform's answer to an addition: a rejected write is a
/// permission error with no state change, and an accepted one grants the
/// member full participation and owes a `UserAdded` log entry.
pub fn confirm_member_added(
    overwrites: &mut OverwriteSet,
    user_id: u64,
    write_ok: bool,
    config: &Config,
    channel_name: &String,
    timestamp: u64,
) -> (r: Result<Option<LogRequest>, TicketError>)
    requires
        old(overwrites).wf(),
    ensures
        final(overwrites).wf(),
        !write_ok ==> (r matches Err(e) && e == TicketError::PermissionWriteRejected(MemberOp::Add)
            && final(overwrites)@ == old(overwrites)@),
        write_ok ==> (r matches Ok(log) && final(overwrites)@ == spec_add_member(
            old(overwrites)@,
            user_id,
        ) && is_log_for(log, *config, LogAction::UserAdded, user_id, channel_name@, timestamp)),
{
    if !write_ok {
        return Err(TicketError::PermissionWriteRejected(MemberOp::Add));
    }
    overwrites.add_member(user_id);
    Ok(log_ticket_action(config, LogAction::UserAdded, user_id, channel_name.clone(), timestamp))
}

/// Account for the platform's answer to a removal: a rejected write is a
/// permission error with no state change, and an accepted one leaves no
/// overwrite for the member and owes a `UserRemoved` log entry.
pub fn confirm_member_removed(
    overwrites: &mut OverwriteSet,
    user_id: u64,
    write_ok: bool,
    config: &Config,
    channel_name: &String,
    timestamp: u64,
) -> (r: Result<Option<LogRequest>, TicketError>)
    requires
        old(overwrites).wf(),
    ensures
        final(overwrites).wf(),
        !write_ok ==> (r matches Err(e) && e == TicketError::PermissionWriteRejected(
            MemberOp::Remove,
        ) && final(overwrites)@ == old(overwrites)@),
        write_ok ==> (r matches Ok(log) && final(overwrites)@ == spec_remove_member(
            old(overwrites)@,
            user_id,
        ) && is_log_for(log, *config, LogAction::UserRemoved, user_id, channel_name@, timestamp)),
{
    if !write_ok {
        return Err(TicketError::PermissionWriteRejected(MemberOp::Remove));
    }
    overwrites.remove_member(user_id);
    Ok(log_ticket_action(config, LogAction::UserRemoved, user_id, channel_name.clone(), timestamp))
}

} // verus!
