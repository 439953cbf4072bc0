//! The two interaction handlers, as decisions from plain values to plain
//! values: validating a command invocation into either a failure reply or
//! the selection-menu message, and summarizing a component interaction.

use vstd::prelude::*;

use crate::catalog::build_select_menus;
use crate::catalog::catalog_shape;
use crate::catalog::SelectMenuDef;
use crate::event::ComponentData;
use crate::event::InteractionPayload;
use crate::options::any_mismatch;
use crate::options::extract_seeds;
use crate::options::seed_set;
use crate::options::CommandOption;
use crate::options::OptionClass;
use crate::options::OptionModel;
use crate::reply::failure_reply;
use crate::reply::provisional_reply;
use crate::reply::summary_reply;
use crate::reply::summary_reply_shape;
use crate::reply::failure_reply_shape;
use crate::reply::provisional_reply_shape;
use crate::reply::ReplyDef;

verus! {

/// The message that carries the five selection menus into the originating
/// channel.
#[derive(Debug)]
pub struct MenuMessage {
    pub content: String,
    pub menus: Vec<SelectMenuDef>,
}

/// The decision of the command handler: either report failure with exactly
/// one ephemeral reply and send nothing to any channel, or acknowledge the
/// invocation and send the selection menus into its channel.
#[derive(Debug)]
pub enum CommandOutcome {
    Failure(ReplyDef),
    Proceed { channel: u64, acknowledgement: ReplyDef, message: MenuMessage },
}

/// A command invocation is rejected when some option is malformed or when
/// it happened outside any channel.
pub open spec fn command_rejected(channel: Option<u64>, opts: Seq<OptionModel>) -> bool {
    any_mismatch(opts) || channel is None
}

/// The selection menus of the outgoing message carry, per category, the
/// deduplicated seed sets of the invocation's options, in some order.
pub open spec fn menus_seeded(menus: Seq<SelectMenuDef>, opts: Seq<OptionModel>) -> bool {
    exists|users: Seq<u64>, roles: Seq<u64>, channels: Seq<u64>|
        {
            &&& users.no_duplicates()
            &&& roles.no_duplicates()
            &&& channels.no_duplicates()
            &&& users.to_set() == seed_set(opts, OptionClass::User)
            &&& roles.to_set() == seed_set(opts, OptionClass::Role)
            &&& channels.to_set() == seed_set(opts, OptionClass::Channel)
            &&& #[trigger] catalog_shape(menus, users, roles, channels)
        }
}

/// The command handler's contract: a rejected invocation yields the fixed
/// failure reply and nothing else; an accepted one yields the provisional
/// acknowledgement and the selection-menu message for the invocation's
/// channel, seeded from its options.
pub open spec fn command_outcome_shape(
    channel: Option<u64>,
    opts: Seq<OptionModel>,
    r: CommandOutcome,
) -> bool {
    if command_rejected(channel, opts) {
        r matches CommandOutcome::Failure(f) && failure_reply_shape(f)
    } else {
        &&& r matches CommandOutcome::Proceed { channel: ch, acknowledgement, message }
        &&& channel == Some(ch)
        &&& provisional_reply_shape(acknowledgement)
        &&& message.content@ == "Try using the select menus below"@
        &&& menus_seeded(message.menus@, opts)
    }
}

/// Handles one invocation of the registered command: validates its options
/// and channel context, and decides between the failure reply and the
/// seeded selection-menu message.
pub fn handle_command(channel: Option<u64>, options: &Vec<CommandOption>) -> (r: CommandOutcome)
    ensures
        command_outcome_shape(channel, options.deep_view(), r),
{
    let seeds = match extract_seeds(options) {
        Some(s) => s,
        None => {
            return CommandOutcome::Failure(failure_reply());
        },
    };
    let ch = match channel {
        Some(c) => c,
        None => {
            return CommandOutcome::Failure(failure_reply());
        },
    };
    let menus = build_select_menus(&seeds.users, &seeds.roles, &seeds.channels);
    proof {
        assert(catalog_shape(menus@, seeds.users@, seeds.roles@, seeds.channels@));
        assert(menus_seeded(menus@, options.deep_view()));
    }
    CommandOutcome::Proceed {
        channel: ch,
        acknowledgement: provisional_reply(),
        message: MenuMessage { content: "Try using the select menus below".to_owned(), menus },
    }
}

/// The component handler's contract: a payload that is a component
/// interaction yields exactly the ephemeral summary reply; any other
/// payload yields no reply at all.
pub open spec fn component_outcome_shape(
    payload: Option<InteractionPayload>,
    r: Option<ReplyDef>,
) -> bool {
    match payload {
        Some(InteractionPayload::Component(d)) => r matches Some(reply) && summary_reply_shape(
            reply,
            d.custom_id@,
            d.values.deep_view(),
            d.resolved@,
        ),
        _ => r is None,
    }
}

/// Handles one component interaction: replies with the summary embed, or
/// with nothing when the payload is not component data.
pub fn handle_component(payload: &Option<InteractionPayload>) -> (r: Option<ReplyDef>)
    ensures
        component_outcome_shape(*payload, r),
{
    match payload {
        Some(InteractionPayload::Component(data)) => Some(summary_reply(data)),
        _ => None,
    }
}

} // verus!
