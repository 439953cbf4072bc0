//! The inbound side of the dispatch loop, as plain values: what one read
//! from the gateway stream yields, and what an interaction carries.

use vstd::prelude::*;

use crate::options::CommandOption;

verus! {

/// The payload of a command-invocation interaction: the invoked command's
/// name and its options.
#[derive(Debug)]
pub struct CommandInvocation {
    pub name: String,
    pub options: Vec<CommandOption>,
}

/// The payload of a component interaction: the widget's identifying string,
/// the values the user selected, and a textual dump of whatever entity data
/// the platform resolved alongside them.
#[derive(Debug)]
pub struct ComponentData {
    pub custom_id: String,
    pub values: Vec<String>,
    pub resolved: String,
}

/// The kind-specific payload attached to an interaction, when any is.
#[derive(Debug)]
pub enum InteractionPayload {
    Command(CommandInvocation),
    Component(ComponentData),
}

/// The kind of an inbound interaction.
#[derive(Clone, Copy, PartialEq, Eq, Structural, Debug)]
pub enum InteractionKind {
    ApplicationCommand,
    MessageComponent,
    Other,
}

/// One inbound interaction: its kind, the reply token and identifier, the
/// channel it originated in (when any), and its payload (when any).
#[derive(Debug)]
pub struct Interaction {
    pub kind: InteractionKind,
    pub id: u64,
    pub token: String,
    pub channel: Option<u64>,
    pub payload: Option<InteractionPayload>,
}

/// What one event read from the gateway stream yields: an interaction, some
/// other event the bot ignores, or a read error that is either recoverable
/// or fatal.
#[derive(Debug)]
pub enum GatewayItem {
    Interaction(Interaction),
    OtherEvent,
    ReadError { fatal: bool },
}

} // verus!
