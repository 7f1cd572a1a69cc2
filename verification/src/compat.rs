//! The roles of the interoperability tool, chosen by name on its command
//! line.
use vstd::prelude::*;
use crate::error::{SamError, SamErrorView};
use crate::text::str_eq;

verus! {

/// What one run of the interoperability tool does.
#[derive(Debug, Clone, Copy, PartialEq, Eq)]
pub enum Role {
    Sender,
    Receiver,
    DatagramSender,
    DatagramReceiver,
    RawSender,
    RawReceiver,
    PrimarySender,
    PrimaryReceiver,
    Lookup,
}

/// The role a name selects, if any.
pub open spec fn role_named(name: Seq<char>) -> Option<Role> {
    if name == "sender"@ {
        Some(Role::Sender)
    } else if name == "receiver"@ {
        Some(Role::Receiver)
    } else if name == "datagram-sender"@ {
        Some(Role::DatagramSender)
    } else if name == "datagram-receiver"@ {
        Some(Role::DatagramReceiver)
    } else if name == "raw-sender"@ {
        Some(Role::RawSender)
    } else if name == "raw-receiver"@ {
        Some(Role::RawReceiver)
    } else if name == "primary-sender"@ {
        Some(Role::PrimarySender)
    } else if name == "primary-receiver"@ {
        Some(Role::PrimaryReceiver)
    } else if name == "lookup"@ {
        Some(Role::Lookup)
    } else {
        None
    }
}

/// The name that selects a role on the command line.
pub open spec fn role_name(r: Role) -> Seq<char> {
    match r {
        Role::Sender => "sender"@,
        Role::Receiver => "receiver"@,
        Role::DatagramSender => "datagram-sender"@,
        Role::DatagramReceiver => "datagram-receiver"@,
        Role::RawSender => "raw-sender"@,
        Role::RawReceiver => "raw-receiver"@,
        Role::PrimarySender => "primary-sender"@,
        Role::PrimaryReceiver => "primary-receiver"@,
        Role::Lookup => "lookup"@,
    }
}

/// Each role's name selects that role, and a name selects a role only when
/// it is that role's name; so distinct names select distinct roles.
pub proof fn lemma_roles_by_name(r: Role, name: Seq<char>)
    ensures
        role_named(role_name(r)) == Some(r),
        role_named(name) == Some(r) ==> name == role_name(r),
{
    reveal_strlit("sender");
    reveal_strlit("receiver");
    reveal_strlit("datagram-sender");
    reveal_strlit("datagram-receiver");
    reveal_strlit("raw-sender");
    reveal_strlit("raw-receiver");
    reveal_strlit("primary-sender");
    reveal_strlit("primary-receiver");
    reveal_strlit("lookup");
    assert("sender"@.len() == 6 && "lookup"@.len() == 6 && "receiver"@.len() == 8);
    assert("raw-sender"@.len() == 10 && "raw-receiver"@.len() == 12);
    assert("primary-sender"@.len() == 14 && "primary-receiver"@.len() == 16);
    assert("datagram-sender"@.len() == 15 && "datagram-receiver"@.len() == 17);
    assert("sender"@[0] != "lookup"@[0]);
}

/// The role named `name`, or `Unknown role: {name}`.
pub fn parse_role(name: &str) -> (r: Result<Role, String>)
    ensures
        match r {
            Ok(role) => role_named(name@) == Some(role),
            Err(m) => role_named(name@) is None && m@ == "Unknown role: "@ + name@,
        },
{
    if str_eq(name, "sender") {
        Ok(Role::Sender)
    } else if str_eq(name, "receiver") {
        Ok(Role::Receiver)
    } else if str_eq(name, "datagram-sender") {
        Ok(Role::DatagramSender)
    } else if str_eq(name, "datagram-receiver") {
        Ok(Role::DatagramReceiver)
    } else if str_eq(name, "raw-sender") {
        Ok(Role::RawSender)
    } else if str_eq(name, "raw-receiver") {
        Ok(Role::RawReceiver)
    } else if str_eq(name, "primary-sender") {
        Ok(Role::PrimarySender)
    } else if str_eq(name, "primary-receiver") {
        Ok(Role::PrimaryReceiver)
    } else if str_eq(name, "lookup") {
        Ok(Role::Lookup)
    } else {
        let mut m = "Unknown role: ".to_owned();
        m.append(name);
        Err(m)
    }
}

/// What a dialling role does after an attempt failed.
#[derive(Debug, Clone, Copy, PartialEq, Eq)]
pub enum DialStep {
    /// Wait, then dial again.
    Again,
    /// The peer may still come up, but the deadline leaves no room to wait.
    DeadlineExceeded,
    /// The failure is not one that waiting can cure: report it.
    GiveUp,
}

/// The failures that waiting can cure: the peer cannot be reached yet, or
/// the attempt timed out.
pub open spec fn dial_retryable(e: SamErrorView) -> bool {
    e is CantReachPeer || e is Timeout
}

/// The step after a failed dial, given whether the deadline leaves room
/// for the retry interval.
pub fn after_failed_dial(err: &SamError, room_for_retry: bool) -> (step: DialStep)
    ensures
        step == if !dial_retryable(err@) {
            DialStep::GiveUp
        } else if room_for_retry {
            DialStep::Again
        } else {
            DialStep::DeadlineExceeded
        },
{
    let retryable = match err {
        SamError::CantReachPeer => true,
        SamError::Timeout => true,
        _ => false,
    };
    if !retryable {
        DialStep::GiveUp
    } else if room_for_retry {
        DialStep::Again
    } else {
        DialStep::DeadlineExceeded
    }
}

} // verus!
