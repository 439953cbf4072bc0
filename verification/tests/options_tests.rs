use select_bot::options::{extract_seeds, CommandOption, OptionValue};

fn opt(name: &str, value: OptionValue) -> CommandOption {
    CommandOption { name: name.to_owned(), value }
}

#[test]
fn empty_options_give_empty_seeds() {
    let seeds = extract_seeds(&Vec::new()).expect("no options means nothing can mismatch");
    assert!(seeds.users.is_empty());
    assert!(seeds.roles.is_empty());
    assert!(seeds.channels.is_empty());
}

#[test]
fn seeds_collect_by_prefix() {
    let options = vec![
        opt("user-1", OptionValue::User(11)),
        opt("role-1", OptionValue::Role(22)),
        opt("channel-1", OptionValue::Channel(33)),
        opt("user-2", OptionValue::User(44)),
    ];
    let seeds = extract_seeds(&options).expect("well-typed options");
    assert_eq!(seeds.users, vec![11, 44]);
    assert_eq!(seeds.roles, vec![22]);
    assert_eq!(seeds.channels, vec![33]);
}

#[test]
fn duplicate_user_seeds_collapse() {
    let options = vec![
        opt("user-1", OptionValue::User(7)),
        opt("user-2", OptionValue::User(7)),
    ];
    let seeds = extract_seeds(&options).expect("well-typed options");
    assert_eq!(seeds.users, vec![7]);
}

#[test]
fn duplicate_role_and_channel_seeds_collapse() {
    let options = vec![
        opt("role-1", OptionValue::Role(5)),
        opt("role-2", OptionValue::Role(5)),
        opt("channel-1", OptionValue::Channel(9)),
        opt("channel-2", OptionValue::Channel(9)),
    ];
    let seeds = extract_seeds(&options).expect("well-typed options");
    assert_eq!(seeds.roles, vec![5]);
    assert_eq!(seeds.channels, vec![9]);
}

#[test]
fn unrecognized_names_are_ignored() {
    let options = vec![
        opt("something-else", OptionValue::Other),
        opt("user", OptionValue::Role(1)),
        opt("user-1", OptionValue::User(2)),
    ];
    let seeds = extract_seeds(&options).expect("unrecognized names never mismatch");
    assert_eq!(seeds.users, vec![2]);
    assert!(seeds.roles.is_empty());
    assert!(seeds.channels.is_empty());
}

#[test]
fn user_option_with_role_value_is_rejected() {
    let options = vec![opt("user-1", OptionValue::Role(1))];
    assert!(extract_seeds(&options).is_none());
}

#[test]
fn role_option_with_other_value_is_rejected() {
    let options = vec![opt("role-2", OptionValue::Other)];
    assert!(extract_seeds(&options).is_none());
}

#[test]
fn channel_option_with_user_value_is_rejected() {
    let options = vec![opt("channel-1", OptionValue::User(3))];
    assert!(extract_seeds(&options).is_none());
}

#[test]
fn mismatch_discards_earlier_seeds() {
    let options = vec![
        opt("user-1", OptionValue::User(1)),
        opt("role-1", OptionValue::User(2)),
    ];
    assert!(extract_seeds(&options).is_none());
}
