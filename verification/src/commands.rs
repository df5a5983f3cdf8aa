//! The control endpoint: injecting ad slots while the stream runs.

use crate::clock::clamp_instant;
use crate::config::{InsertionMode, ServerConfig};
use crate::error::{ProxyError, Rejection};
use crate::ids::new_uuid;
use crate::slots::{static_start, AdSlot, AvailableAdSlots};
use crate::text::{parse_u64, parsed_u64, str_eq};
use crate::web::{form_pairs, parse_query};
use vstd::prelude::*;
use vstd::string::*;

verus! {

/// A request to open an ad break.
#[derive(Clone, Copy, Debug, PartialEq, Eq, Structural)]
pub struct InsertionCommand {
    /// Seconds from now until the break starts.
    pub in_sec: u64,
    /// Duration of the break in seconds.
    pub duration: u64,
    /// How many ads to ask for.
    pub pod_num: u64,
}

/// The number that the pairs give for `key`: what the last pair of that
/// name says, if it says a number at all.
pub open spec fn command_field(pairs: Seq<(Seq<char>, Seq<char>)>, key: Seq<char>) -> Option<u64>
    decreases pairs.len(),
{
    if pairs.len() == 0 {
        None
    } else if pairs.last().0 == key {
        parsed_u64(pairs.last().1)
    } else {
        command_field(pairs.drop_last(), key)
    }
}

/// The command that the pairs of a query spell out: `in`, `dur` and `pod`
/// must each give a number.
pub open spec fn parsed_command(pairs: Seq<(Seq<char>, Seq<char>)>) -> Option<InsertionCommand> {
    match (command_field(pairs, "in"@), command_field(pairs, "dur"@), command_field(pairs, "pod"@)) {
        (Some(in_sec), Some(duration), Some(pod_num)) => Some(
            InsertionCommand { in_sec, duration, pod_num },
        ),
        _ => None,
    }
}

impl InsertionCommand {
    /// Reads a command from a query string.
    pub fn from_query(query: &str) -> (r: Result<Self, String>)
        ensures
            match parsed_command(form_pairs(query@)) {
                Some(command) => r is Ok && r->Ok_0 == command,
                None => r is Err && r->Err_0@ == "Missing required query parameters"@,
            },
    {
        let pairs = parse_query(query);
        let mut in_sec: Option<u64> = None;
        let mut duration: Option<u64> = None;
        let mut pod_num: Option<u64> = None;
        let mut i: usize = 0;
        proof {
            reveal_strlit("in");
            reveal_strlit("dur");
            reveal_strlit("pod");
            assert("in"@.len() == 2);
            assert("dur"@[0] == 'd');
            assert("pod"@[0] == 'p');
        }
        while i < pairs.len()
            invariant
                i <= pairs.len(),
                "in"@ != "dur"@,
                "in"@ != "pod"@,
                "dur"@ != "pod"@,
                in_sec == command_field(pairs.deep_view().take(i as int), "in"@),
                duration == command_field(pairs.deep_view().take(i as int), "dur"@),
                pod_num == command_field(pairs.deep_view().take(i as int), "pod"@),
            decreases pairs.len() - i,
        {
            let ghost next = pairs.deep_view().take(i + 1);
            assert(next.drop_last() =~= pairs.deep_view().take(i as int));
            assert(next.last() == (pairs@[i as int].0@, pairs@[i as int].1@));
            let key = pairs[i].0.as_str();
            let value = pairs[i].1.as_str();
            if str_eq(key, "in") {
                in_sec = parse_u64(value);
            } else if str_eq(key, "dur") {
                duration = parse_u64(value);
            } else if str_eq(key, "pod") {
                pod_num = parse_u64(value);
            }
            i += 1;
        }
        assert(pairs.deep_view().take(i as int) =~= pairs.deep_view());
        match (in_sec, duration, pod_num) {
            (Some(in_sec), Some(duration), Some(pod_num)) => Ok(
                InsertionCommand { in_sec, duration, pod_num },
            ),
            _ => Err("Missing required query parameters".to_owned()),
        }
    }
}

/// What the control endpoint reports of an accepted command.
#[derive(Clone, Copy, Debug, PartialEq, Eq, Structural)]
pub struct Injection {
    /// The command as it was read.
    pub command: InsertionCommand,
    /// The slot that was put into the registry.
    pub slot: AdSlot,
}

/// Handles a request to the control endpoint. `now` is the time of the
/// request.
///
/// Under static insertion the command is rejected; so is a query that
/// spells out no command. Otherwise the registry gains one slot: its index
/// is the number of slots the registry held, it starts `in` seconds from
/// now, and it takes duration and pod count from the command.
pub fn handle_commands(
    query: &str,
    config: &ServerConfig,
    available_slots: &mut AvailableAdSlots,
    now: i64,
) -> (r: Result<Injection, ProxyError>)
    ensures
        config.insertion_mode == InsertionMode::Static ==> r == Err::<Injection, ProxyError>(
            ProxyError::BadRequest(Rejection::StaticMode),
        ) && final(available_slots)@ == old(available_slots)@,
        config.insertion_mode == InsertionMode::Dynamic && parsed_command(form_pairs(query@))
            is None ==> r == Err::<Injection, ProxyError>(
            ProxyError::BadRequest(Rejection::MissingParameters),
        ) && final(available_slots)@ == old(available_slots)@,
        config.insertion_mode == InsertionMode::Dynamic && parsed_command(form_pairs(query@))
            is Some ==> r is Ok && ({
            let done = r->Ok_0;
            &&& done.command == parsed_command(form_pairs(query@))->0
            &&& old(available_slots)@.finite()
            &&& done.slot.index == old(available_slots)@.len()
            &&& done.slot.start_time == clamp_instant(now + done.command.in_sec * 1000)
            &&& done.slot.duration == done.command.duration
            &&& done.slot.pod_num == done.command.pod_num
            &&& final(available_slots)@ == old(available_slots)@.insert(done.slot)
        }),
{
    if config.insertion_mode == InsertionMode::Static {
        return Err(ProxyError::BadRequest(Rejection::StaticMode));
    }
    match InsertionCommand::from_query(query) {
        Err(_) => Err(ProxyError::BadRequest(Rejection::MissingParameters)),
        Ok(command) => {
            let index = available_slots.len() as u64;
            assert(1 * command.in_sec * 1000 == command.in_sec * 1000);
            let slot = AdSlot {
                id: new_uuid(),
                index,
                start_time: static_start(now, command.in_sec, 1),
                duration: command.duration,
                pod_num: command.pod_num,
            };
            available_slots.insert(slot);
            Ok(Injection { command, slot })
        },
    }
}

} // verus!
