use axyl_tickets::commands::{
    add_user, check_guild_channel, close, confirm_member_added, confirm_member_removed,
    confirm_ticket_created, create_ticket, init, remove_user, route_command, route_component,
    ChannelFetch, CommandEvent, ComponentAction, ComponentEvent, InteractionContext, MemberPlan,
    SlashCommand,
};
use axyl_tickets::config::Config;
use axyl_tickets::errors::{ErrorKind, MemberOp, TicketError};
use axyl_tickets::lifecycle::{CloseReply, ClosureTracker};
use axyl_tickets::perms::{build_initial_overwrites, member_overwrite, Role, Subject};

#[test]
fn commands_route_by_name() {
    assert_eq!(route_command("init"), SlashCommand::Init);
    assert_eq!(route_command("close"), SlashCommand::Close);
    assert_eq!(route_command("adduser"), SlashCommand::AddUser);
    assert_eq!(route_command("removeuser"), SlashCommand::RemoveUser);
    assert_eq!(route_command("setcategory"), SlashCommand::SetCategory);
    assert_eq!(route_command("setlogchannel"), SlashCommand::SetLogChannel);
    assert_eq!(route_command("ping"), SlashCommand::Unknown);
    assert_eq!(route_command(""), SlashCommand::Unknown);
    assert_eq!(route_command("Init"), SlashCommand::Unknown);
}

#[test]
fn components_route_by_custom_id() {
    assert_eq!(route_component("open_ticket"), ComponentAction::OpenTicket);
    assert_eq!(route_component("close_ticket"), ComponentAction::CloseTicket);
    assert_eq!(route_component("cancel_close"), ComponentAction::CancelClose);
    assert_eq!(route_component("something_else"), ComponentAction::Other);
}

#[test]
fn init_without_category_is_a_configuration_error() {
    let config = Config::new(String::new());
    let r = init(&config);
    assert_eq!(r, Err(TicketError::CategoryNotConfigured));
    assert_eq!(TicketError::CategoryNotConfigured.kind(), ErrorKind::Configuration);
}

#[test]
fn init_with_category_posts_the_entry_point() {
    let mut config = Config::new(String::new());
    config.set_category_id(4242);
    let msg = init(&config).expect("configured category must let init succeed");
    assert_eq!(msg.category_id, 4242);
    assert!(msg.has_open_control);
}

fn roles_with_everyone(everyone_id: u64) -> Vec<Role> {
    vec![
        Role { id: 1, name: String::from("admin") },
        Role { id: everyone_id, name: String::from("@everyone") },
    ]
}

#[test]
fn create_ticket_without_category_is_rejected() {
    let config = Config::new(String::new());
    let r = create_ticket(&config, 7, "Alice", &roles_with_everyone(99));
    assert!(matches!(r, Err(TicketError::CategoryNotConfigured)));
}

#[test]
fn create_ticket_without_everyone_role_is_rejected() {
    let mut config = Config::new(String::new());
    config.set_category_id(10);
    let roles = vec![Role { id: 1, name: String::from("admin") }];
    let r = create_ticket(&config, 7, "Alice", &roles);
    assert!(matches!(r, Err(TicketError::EveryoneRoleNotFound)));
    assert_eq!(TicketError::EveryoneRoleNotFound.kind(), ErrorKind::Permission);
}

#[test]
fn create_ticket_builds_one_channel_with_the_policy() {
    let mut config = Config::new(String::new());
    config.set_category_id(10);
    let plan = create_ticket(&config, 7, "Alice", &roles_with_everyone(99))
        .expect("a configured category and an everyone role must open a ticket");
    assert_eq!(plan.channel_name, "ticket-alice");
    assert_eq!(plan.category_id, 10);
    assert_eq!(plan.owner_id, 7);
    assert_eq!(plan.overwrites.len(), 2);
    let owner = plan.overwrites.get(0);
    assert_eq!(owner.subject, Subject::Member { user_id: 7 });
    assert!(owner.allow.view_channel && owner.allow.send_messages && owner.allow.read_message_history);
    assert!(!owner.deny.view_channel && !owner.deny.send_messages && !owner.deny.read_message_history);
    let everyone = plan.overwrites.get(1);
    assert_eq!(everyone.subject, Subject::Everyone { role_id: 99 });
    assert!(everyone.deny.view_channel);
    assert!(!everyone.deny.send_messages && !everyone.deny.read_message_history);
    assert!(!everyone.allow.view_channel && !everyone.allow.send_messages && !everyone.allow.read_message_history);
}

#[test]
fn ticket_name_is_lowered_behind_the_prefix() {
    let mut config = Config::new(String::new());
    config.set_category_id(10);
    let plan = create_ticket(&config, 7, "MiXeDcAsE", &roles_with_everyone(99)).unwrap();
    assert_eq!(plan.channel_name, "ticket-mixedcase");
}

#[test]
fn confirm_ticket_created_posts_welcome_and_logs_opened() {
    let mut config = Config::new(String::new());
    config.set_log_channel_id(500);
    let name = String::from("ticket-alice");
    let (welcome, log) = confirm_ticket_created(&config, 7, &name, 123456);
    assert_eq!(welcome.channel_name, "ticket-alice");
    assert!(welcome.has_close_control);
    let log = log.expect("a configured log channel must receive the entry");
    assert_eq!(log.log_channel_id, 500);
    assert_eq!(log.entry.user_id, 7);
    assert_eq!(log.entry.channel_name, "ticket-alice");
    assert_eq!(log.entry.timestamp, 123456);
}

#[test]
fn close_reads_the_interaction_context() {
    let mut tracker = ClosureTracker::new();
    let command = CommandEvent { channel_id: 321, user_id: 9 };
    assert_eq!(command.channel_id(), 321);
    assert_eq!(command.user(), 9);
    let reply = close(&mut tracker, &command, 50);
    match reply {
        CloseReply::Started { request, .. } => {
            assert_eq!(request.channel_id, 321);
            assert_eq!(request.initiating_user_id, 9);
        }
        CloseReply::AlreadyClosing => panic!("fresh channel must start a countdown"),
    }
    let click = ComponentEvent { channel_id: 321, user_id: 10 };
    assert_eq!(click.channel_id(), 321);
    assert_eq!(click.user(), 10);
    assert_eq!(close(&mut tracker, &click, 51), CloseReply::AlreadyClosing);
}

#[test]
fn channel_lookup_outcomes_map_to_errors() {
    assert!(check_guild_channel(ChannelFetch::GuildChannel).is_ok());
    assert_eq!(check_guild_channel(ChannelFetch::NotGuild), Err(TicketError::NotGuildChannel));
    assert_eq!(check_guild_channel(ChannelFetch::FetchFailed), Err(TicketError::ChannelFetchFailed));
}

#[test]
fn add_user_outside_a_server_is_rejected() {
    assert_eq!(add_user(false, Some(5)), Err(TicketError::NotInGuild));
    assert_eq!(TicketError::NotInGuild.kind(), ErrorKind::Permission);
}

#[test]
fn add_user_without_target_is_rejected() {
    assert_eq!(add_user(true, None), Err(TicketError::NoTargetUser(MemberOp::Add)));
}

#[test]
fn add_user_plans_the_full_grant() {
    let plan = add_user(true, Some(5)).unwrap();
    assert_eq!(plan, MemberPlan { user_id: 5, overwrite: member_overwrite(5) });
}

#[test]
fn remove_user_outside_a_server_is_rejected() {
    assert_eq!(remove_user(false, Some(5)), Err(TicketError::NotInGuild));
}

#[test]
fn remove_user_without_target_is_rejected() {
    assert_eq!(remove_user(true, None), Err(TicketError::NoTargetUser(MemberOp::Remove)));
}

#[test]
fn remove_user_names_the_target() {
    assert_eq!(remove_user(true, Some(5)), Ok(5));
}

#[test]
fn rejected_write_leaves_the_overwrites_untouched() {
    let mut config = Config::new(String::new());
    config.set_log_channel_id(500);
    let mut set = build_initial_overwrites(1, 2);
    let name = String::from("ticket-alice");
    let r = confirm_member_added(&mut set, 5, false, &config, &name, 1);
    assert_eq!(r, Err(TicketError::PermissionWriteRejected(MemberOp::Add)));
    assert_eq!(set.len(), 2);
    let r = confirm_member_removed(&mut set, 1, false, &config, &name, 1);
    assert_eq!(r, Err(TicketError::PermissionWriteRejected(MemberOp::Remove)));
    assert_eq!(set.len(), 2);
}

#[test]
fn accepted_member_addition_grants_and_logs() {
    let mut config = Config::new(String::new());
    config.set_log_channel_id(500);
    let mut set = build_initial_overwrites(1, 2);
    let name = String::from("ticket-alice");
    let log = confirm_member_added(&mut set, 5, true, &config, &name, 77)
        .expect("an accepted write must succeed")
        .expect("a configured log channel must receive the entry");
    assert_eq!(set.len(), 3);
    assert_eq!(set.get(2), member_overwrite(5));
    assert_eq!(log.log_channel_id, 500);
    assert_eq!(log.entry.user_id, 5);
    assert_eq!(log.entry.timestamp, 77);
}

#[test]
fn accepted_member_removal_deletes_and_logs() {
    let mut config = Config::new(String::new());
    config.set_log_channel_id(500);
    let mut set = build_initial_overwrites(1, 2);
    let name = String::from("ticket-alice");
    confirm_member_added(&mut set, 5, true, &config, &name, 77).unwrap();
    let log = confirm_member_removed(&mut set, 5, true, &config, &name, 78)
        .expect("an accepted write must succeed")
        .expect("a configured log channel must receive the entry");
    assert_eq!(set.len(), 2);
    assert_eq!(log.entry.user_id, 5);
    assert_eq!(log.entry.timestamp, 78);
}

#[test]
fn member_logging_without_log_channel_is_silent() {
    let config = Config::new(String::new());
    let mut set = build_initial_overwrites(1, 2);
    let name = String::from("ticket-alice");
    let log = confirm_member_added(&mut set, 5, true, &config, &name, 77).unwrap();
    assert!(log.is_none());
    assert_eq!(set.len(), 3);
}

#[test]
fn error_messages_match_the_surface_texts() {
    assert_eq!(TicketError::NotInGuild.message(), "This command can only be used in a server.");
    assert_eq!(
        TicketError::NoTargetUser(MemberOp::Add).message(),
        "Please mention a user to add to the ticket."
    );
    assert_eq!(
        TicketError::NoTargetUser(MemberOp::Remove).message(),
        "Please mention a user to remove from the ticket."
    );
    assert_eq!(
        TicketError::PermissionWriteRejected(MemberOp::Add).message(),
        "Failed to add user to the ticket."
    );
    assert_eq!(
        TicketError::PermissionWriteRejected(MemberOp::Remove).message(),
        "Failed to remove user from the ticket."
    );
    assert_eq!(
        TicketError::NotGuildChannel.message(),
        "This command can only be used in a server channel."
    );
    assert_eq!(TicketError::ChannelFetchFailed.message(), "Failed to fetch channel information.");
}

#[test]
fn error_kinds_follow_the_taxonomy() {
    assert_eq!(TicketError::CategoryNotConfigured.kind(), ErrorKind::Configuration);
    assert_eq!(TicketError::EveryoneRoleNotFound.kind(), ErrorKind::Permission);
    assert_eq!(TicketError::NoTargetUser(MemberOp::Add).kind(), ErrorKind::Permission);
    assert_eq!(TicketError::ChannelFetchFailed.kind(), ErrorKind::PlatformIo);
    assert_eq!(TicketError::NotGuildChannel.kind(), ErrorKind::Permission);
    assert_eq!(TicketError::PermissionWriteRejected(MemberOp::Remove).kind(), ErrorKind::Permission);
}
