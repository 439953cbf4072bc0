use select_bot::catalog::DefaultValue;
use select_bot::event::{ComponentData, InteractionPayload};
use select_bot::handler::{handle_command, handle_component, CommandOutcome};
use select_bot::options::{CommandOption, OptionValue};

fn opt(name: &str, value: OptionValue) -> CommandOption {
    CommandOption { name: name.to_owned(), value }
}

#[test]
fn seeded_invocation_sends_ack_then_menus() {
    let options = vec![
        opt("user-1", OptionValue::User(101)),
        opt("role-1", OptionValue::Role(202)),
    ];
    let outcome = handle_command(Some(303), &options);
    match outcome {
        CommandOutcome::Proceed { channel, acknowledgement, message } => {
            assert_eq!(channel, 303);
            assert_eq!(
                acknowledgement.content.as_deref(),
                Some("Sending a message with select menus...")
            );
            assert!(acknowledgement.ephemeral);
            assert_eq!(message.content, "Try using the select menus below");
            assert_eq!(message.menus.len(), 5);
            assert_eq!(
                message.menus[1].default_values,
                Some(vec![DefaultValue::User(101)])
            );
            assert_eq!(
                message.menus[2].default_values,
                Some(vec![DefaultValue::Role(202)])
            );
            assert_eq!(
                message.menus[3].default_values,
                Some(vec![DefaultValue::User(101), DefaultValue::Role(202)])
            );
            assert!(message.menus[4].default_values.is_none());
        }
        CommandOutcome::Failure(_) => panic!("a well-formed invocation must proceed"),
    }
}

#[test]
fn non_user_value_on_user_option_fails_without_message() {
    let options = vec![opt("user-1", OptionValue::Other)];
    let outcome = handle_command(Some(303), &options);
    match outcome {
        CommandOutcome::Failure(reply) => {
            assert_eq!(reply.content.as_deref(), Some("This interaction failed"));
            assert!(reply.embed.is_none());
            assert!(reply.ephemeral);
        }
        CommandOutcome::Proceed { .. } => {
            panic!("a malformed option must not produce a channel message")
        }
    }
}

#[test]
fn type_mismatch_fails_even_with_channel_context() {
    let options = vec![
        opt("user-1", OptionValue::User(1)),
        opt("channel-2", OptionValue::Role(2)),
    ];
    let outcome = handle_command(Some(42), &options);
    assert!(matches!(outcome, CommandOutcome::Failure(_)));
}

#[test]
fn missing_channel_context_fails() {
    let options = vec![opt("user-1", OptionValue::User(1))];
    let outcome = handle_command(None, &options);
    match outcome {
        CommandOutcome::Failure(reply) => {
            assert_eq!(reply.content.as_deref(), Some("This interaction failed"));
            assert!(reply.ephemeral);
        }
        CommandOutcome::Proceed { .. } => {
            panic!("an invocation without a channel must not proceed")
        }
    }
}

#[test]
fn duplicate_seeds_collapse_in_menu_defaults() {
    let options = vec![
        opt("user-1", OptionValue::User(9)),
        opt("user-2", OptionValue::User(9)),
    ];
    let outcome = handle_command(Some(1), &options);
    match outcome {
        CommandOutcome::Proceed { message, .. } => {
            assert_eq!(
                message.menus[1].default_values,
                Some(vec![DefaultValue::User(9)])
            );
        }
        CommandOutcome::Failure(_) => panic!("duplicates are not malformed"),
    }
}

#[test]
fn component_selection_is_summarized() {
    let long_dump = "x".repeat(1500);
    let payload = Some(InteractionPayload::Component(ComponentData {
        custom_id: "channel-select".to_owned(),
        values: vec!["111".to_owned(), "222".to_owned()],
        resolved: long_dump.clone(),
    }));
    let reply = handle_component(&payload).expect("component data must be answered");
    assert!(reply.content.is_none());
    assert!(reply.ephemeral);
    let embed = reply.embed.expect("the summary is an embed");
    assert_eq!(embed.title, "Selection information");
    assert_eq!(embed.color, 0x2ccb87);
    assert!(embed.description.contains("channel-select"));
    assert!(embed.description.contains("\"111\", \"222\""));
    assert!(embed.description.contains(&long_dump[..1000]));
    assert!(!embed.description.contains(&long_dump[..1001]));
}

#[test]
fn missing_payload_is_silently_dropped() {
    assert!(handle_component(&None).is_none());
}

#[test]
fn command_payload_on_component_handler_is_dropped() {
    let payload = Some(InteractionPayload::Command(
        select_bot::event::CommandInvocation {
            name: "select-menu".to_owned(),
            options: Vec::new(),
        },
    ));
    assert!(handle_component(&payload).is_none());
}
