//! Error taxonomy of the ticket workflow.
//!
//! Every failure of a lifecycle operation is reported as a value of
//! [`TicketError`]; nothing in the library panics. Each error falls into one
//! of three kinds: configuration errors are recovered locally and surfaced as
//! an informational reply, permission errors abort the operation with no
//! partial state change, and platform I/O errors leave whatever partial
//! state the platform reached.

use vstd::prelude::*;

verus! {

/// Which member operation an error arose from.
#[derive(Clone, Copy, Debug, PartialEq, Eq, Structural)]
pub enum MemberOp {
    Add,
    Remove,
}

/// Why a ticket operation was refused.
#[derive(Clone, Copy, Debug, PartialEq, Eq, Structural)]
pub enum TicketError {
    /// No ticket category has been configured.
    CategoryNotConfigured,
    /// The guild's role list holds no role named `@everyone`.
    EveryoneRoleNotFound,
    /// The command was invoked outside a server.
    NotInGuild,
    /// No target user was supplied to a member command.
    NoTargetUser(MemberOp),
    /// The channel could not be fetched from the platform.
    ChannelFetchFailed,
    /// The channel is not a server channel.
    NotGuildChannel,
    /// The platform rejected a permission write.
    PermissionWriteRejected(MemberOp),
}

/// The three classes of the error taxonomy.
#[derive(Clone, Copy, Debug, PartialEq, Eq, Structural)]
pub enum ErrorKind {
    /// Missing or invalid operational settings; recoverable, informational.
    Configuration,
    /// The platform or the invocation context denies the operation.
    Permission,
    /// A network or API failure on an external call.
    PlatformIo,
}

impl TicketError {
    /// The class an error belongs to.
    pub open spec fn spec_kind(self) -> ErrorKind {
        match self {
            TicketError::CategoryNotConfigured => ErrorKind::Configuration,
            TicketError::EveryoneRoleNotFound => ErrorKind::Permission,
            TicketError::NotInGuild => ErrorKind::Permission,
            TicketError::NoTargetUser(_) => ErrorKind::Permission,
            TicketError::ChannelFetchFailed => ErrorKind::PlatformIo,
            TicketError::NotGuildChannel => ErrorKind::Permission,
            TicketError::PermissionWriteRejected(_) => ErrorKind::Permission,
        }
    }

    pub fn kind(&self) -> (k: ErrorKind)
        ensures
            k == self.spec_kind(),
    {
        match self {
            TicketError::CategoryNotConfigured => ErrorKind::Configuration,
            TicketError::EveryoneRoleNotFound => ErrorKind::Permission,
            TicketError::NotInGuild => ErrorKind::Permission,
            TicketError::NoTargetUser(_) => ErrorKind::Permission,
            TicketError::ChannelFetchFailed => ErrorKind::PlatformIo,
            TicketError::NotGuildChannel => ErrorKind::Permission,
            TicketError::PermissionWriteRejected(_) => ErrorKind::Permission,
        }
    }

    /// The user-facing description of the error.
    pub fn message(&self) -> (m: &'static str)
        ensures
            self is CategoryNotConfigured ==> m@ == "Ticket category is not configured."@,
            self is EveryoneRoleNotFound ==> m@ == "The @everyone role could not be found."@,
            self is NotInGuild ==> m@ == "This command can only be used in a server."@,
            self == TicketError::NoTargetUser(MemberOp::Add) ==> m@
                == "Please mention a user to add to the ticket."@,
            self == TicketError::NoTargetUser(MemberOp::Remove) ==> m@
                == "Please mention a user to remove from the ticket."@,
            self is ChannelFetchFailed ==> m@ == "Failed to fetch channel information."@,
            self is NotGuildChannel ==> m@ == "This command can only be used in a server channel."@,
            self == TicketError::PermissionWriteRejected(MemberOp::Add) ==> m@
                == "Failed to add user to the ticket."@,
            self == TicketError::PermissionWriteRejected(MemberOp::Remove) ==> m@
                == "Failed to remove user from the ticket."@,
    {
        match self {
            TicketError::CategoryNotConfigured => "Ticket category is not configured.",
            TicketError::EveryoneRoleNotFound => "The @everyone role could not be found.",
            TicketError::NotInGuild => "This command can only be used in a server.",
            TicketError::NoTargetUser(MemberOp::Add) => "Please mention a user to add to the ticket.",
            TicketError::NoTargetUser(MemberOp::Remove) => "Please mention a user to remove from the ticket.",
            TicketError::ChannelFetchFailed => "Failed to fetch channel information.",
            TicketError::NotGuildChannel => "This command can only be used in a server channel.",
            TicketError::PermissionWriteRejected(MemberOp::Add) => "Failed to add user to the ticket.",
            TicketError::PermissionWriteRejected(MemberOp::Remove) => "Failed to remove user from the ticket.",
        }
    }
}

} // verus!
