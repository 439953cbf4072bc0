//! The dispatch decision: what the event loop does with one item read from
//! the gateway stream. The loop itself performs the reads and spawns the
//! handlers; this module decides, for every item, whether to terminate,
//! ignore it, or run one of the two handlers.

use vstd::prelude::*;

use crate::event::GatewayItem;
use crate::event::Interaction;
use crate::event::InteractionKind;
use crate::event::InteractionPayload;
use crate::options::CommandOption;

verus! {

/// What the event loop does next with one gateway item.
#[derive(Debug)]
pub enum DispatchAction {
    /// A fatal read error: the loop ends, no reply is sent to anyone.
    Terminate,
    /// A recoverable read error or an event the bot ignores: the loop goes
    /// straight to the next item.
    Skip,
    /// An invocation of the registered command: run the command handler.
    RunCommand { id: u64, token: String, channel: Option<u64>, options: Vec<CommandOption> },
    /// A component interaction: run the component handler on the raw
    /// payload.
    RunComponent { id: u64, token: String, payload: Option<InteractionPayload> },
}

/// Whether an interaction invokes the registered command.
pub open spec fn invokes_registered_command(i: Interaction) -> bool {
    &&& i.kind == InteractionKind::ApplicationCommand
    &&& i.payload matches Some(InteractionPayload::Command(inv)) && inv.name@ == "select-menu"@
}

/// The dispatch contract: a fatal read error terminates the loop, a
/// recoverable one is discarded; an invocation of the registered command
/// runs the command handler on that interaction's channel and options; a
/// component interaction runs the component handler on its payload; every
/// other item is ignored.
pub open spec fn dispatch_decision(item: GatewayItem, a: DispatchAction) -> bool {
    match item {
        GatewayItem::ReadError { fatal } => if fatal {
            a is Terminate
        } else {
            a is Skip
        },
        GatewayItem::OtherEvent => a is Skip,
        GatewayItem::Interaction(i) => if invokes_registered_command(i) {
            &&& a matches DispatchAction::RunCommand { id, token, channel, options }
            &&& id == i.id
            &&& token == i.token
            &&& channel == i.channel
            &&& i.payload matches Some(InteractionPayload::Command(inv)) && options == inv.options
        } else if i.kind == InteractionKind::MessageComponent {
            &&& a matches DispatchAction::RunComponent { id, token, payload }
            &&& id == i.id
            &&& token == i.token
            &&& payload == i.payload
        } else {
            a is Skip
        },
    }
}

/// A fatal gateway read error always ends the loop, and the terminating
/// action carries no reply token, channel or payload: nothing is sent to
/// anyone on the way out.
pub proof fn lemma_fatal_error_terminates(item: GatewayItem, a: DispatchAction)
    requires
        dispatch_decision(item, a),
        item matches GatewayItem::ReadError { fatal } && fatal,
    ensures
        a is Terminate,
{
}

/// Decides what the event loop does with one gateway item.
pub fn dispatch(item: GatewayItem) -> (a: DispatchAction)
    ensures
        dispatch_decision(item, a),
{
    match item {
        GatewayItem::ReadError { fatal } => {
            if fatal {
                DispatchAction::Terminate
            } else {
                DispatchAction::Skip
            }
        },
        GatewayItem::OtherEvent => DispatchAction::Skip,
        GatewayItem::Interaction(i) => {
            match i.kind {
                InteractionKind::ApplicationCommand => {
                    match i.payload {
                        Some(InteractionPayload::Command(inv)) => {
                            if inv.name == "select-menu".to_owned() {
                                DispatchAction::RunCommand {
                                    id: i.id,
                                    token: i.token,
                                    channel: i.channel,
                                    options: inv.options,
                                }
                            } else {
                                DispatchAction::Skip
                            }
                        },
                        _ => DispatchAction::Skip,
                    }
                },
                InteractionKind::MessageComponent => {
                    DispatchAction::RunComponent {
                        id: i.id,
                        token: i.token,
                        payload: i.payload,
                    }
                },
                InteractionKind::Other => DispatchAction::Skip,
            }
        },
    }
}

} // verus!
