//! The widget catalog: the five selection-menu definitions sent in reply to
//! the registered command, and the schema of that command. All of it is
//! static data, except the default-selected values, which callers seed.

use vstd::prelude::*;

verus! {

/// The channel kinds a channel-category selection is restricted to.
#[derive(Clone, Copy, PartialEq, Eq, Structural, Debug)]
pub enum ChannelKind {
    GuildText,
    PublicThread,
    PrivateThread,
    GuildCategory,
}

/// The category of values a selection menu offers.
#[derive(Clone, Copy, PartialEq, Eq, Structural, Debug)]
pub enum SelectCategory {
    Text,
    User,
    Role,
    Mentionable,
    Channel,
}

/// A pre-selected entry of a selection menu, tagged with its entity kind.
#[derive(Clone, Copy, PartialEq, Eq, Structural, Debug)]
pub enum DefaultValue {
    User(u64),
    Role(u64),
    Channel(u64),
}

/// One static choice of a free-text selection menu.
#[derive(Debug)]
pub struct Choice {
    pub label: String,
    pub value: String,
    pub description: Option<String>,
    pub emoji: Option<String>,
}

/// One selection-menu widget, ready to be rendered into a message.
#[derive(Debug)]
pub struct SelectMenuDef {
    pub custom_id: String,
    pub category: SelectCategory,
    pub choices: Option<Vec<Choice>>,
    pub default_values: Option<Vec<DefaultValue>>,
    pub channel_kinds: Option<Vec<ChannelKind>>,
    pub placeholder: Option<String>,
    pub max_values: Option<u8>,
    pub min_values: Option<u8>,
    pub disabled: bool,
}

/// The four channel kinds offered by the channel selection and by the
/// channel-valued command options, in their fixed order.
pub open spec fn allowed_channel_kinds() -> Seq<ChannelKind> {
    seq![
        ChannelKind::GuildText,
        ChannelKind::PublicThread,
        ChannelKind::PrivateThread,
        ChannelKind::GuildCategory,
    ]
}

/// Builds the fixed channel-kind filter.
fn channel_kind_filter() -> (r: Vec<ChannelKind>)
    ensures
        r@ == allowed_channel_kinds(),
{
    let mut r: Vec<ChannelKind> = Vec::new();
    r.push(ChannelKind::GuildText);
    r.push(ChannelKind::PublicThread);
    r.push(ChannelKind::PrivateThread);
    r.push(ChannelKind::GuildCategory);
    assert(r@ =~= allowed_channel_kinds());
    r
}

/// The three static choices of the free-text menu: labels, values,
/// descriptions and emoji are all fixed.
pub open spec fn text_choices_fixed(cs: Seq<Choice>) -> bool {
    &&& cs.len() == 3
    &&& cs[0].label@ == "Foo"@ && cs[0].value@ == "foo"@
    &&& cs[1].label@ == "Bar"@ && cs[1].value@ == "bar"@
    &&& cs[2].label@ == "Baz"@ && cs[2].value@ == "baz"@
    &&& cs[0].description matches Some(d) && d@ == "The foo"@
    &&& cs[1].description matches Some(d) && d@ == "The bar"@
    &&& cs[2].description matches Some(d) && d@ == "The baz"@
    &&& cs[0].emoji matches Some(e) && e@ == "\u{1F415}"@
    &&& cs[1].emoji matches Some(e) && e@ == "\u{1F98A}"@
    &&& cs[2].emoji matches Some(e) && e@ == "\u{1F408}"@
}

/// Holds when a default-selection field carries exactly `expected`; an
/// empty expectation means no default selection at all.
pub open spec fn defaults_are_field(f: Option<Vec<DefaultValue>>, expected: Seq<
    DefaultValue,
>) -> bool {
    if expected.len() == 0 {
        f is None
    } else {
        f matches Some(d) && d@ == expected
    }
}

/// Holds when the menu's default selection carries exactly `expected`.
pub open spec fn defaults_are(m: SelectMenuDef, expected: Seq<DefaultValue>) -> bool {
    defaults_are_field(m.default_values, expected)
}

/// The user seeds as user-kind default values.
pub open spec fn user_defaults(users: Seq<u64>) -> Seq<DefaultValue> {
    users.map_values(|id: u64| DefaultValue::User(id))
}

/// The role seeds as role-kind default values.
pub open spec fn role_defaults(roles: Seq<u64>) -> Seq<DefaultValue> {
    roles.map_values(|id: u64| DefaultValue::Role(id))
}

/// The channel seeds as channel-kind default values.
pub open spec fn channel_defaults(channels: Seq<u64>) -> Seq<DefaultValue> {
    channels.map_values(|id: u64| DefaultValue::Channel(id))
}

/// What the whole catalog promises: five menus, one per category, with
/// fixed identifiers and static data, and each category's default
/// selections drawn from the corresponding seeds (the role-or-user menu
/// combines the user and role seeds).
pub open spec fn catalog_shape(
    r: Seq<SelectMenuDef>,
    users: Seq<u64>,
    roles: Seq<u64>,
    channels: Seq<u64>,
) -> bool {
    &&& r.len() == 5
    &&& r[0].custom_id@ == "text-select"@
    &&& r[0].category == SelectCategory::Text
    &&& r[0].choices matches Some(cs) && text_choices_fixed(cs@)
    &&& r[0].default_values is None
    &&& r[0].channel_kinds is None
    &&& r[0].placeholder matches Some(p) && p@ == "Text select menu"@
    &&& r[0].max_values is None
    &&& r[1].custom_id@ == "user-select"@
    &&& r[1].category == SelectCategory::User
    &&& r[1].choices is None
    &&& defaults_are(r[1], user_defaults(users))
    &&& r[1].channel_kinds is None
    &&& r[1].placeholder matches Some(p) && p@ == "User select menu"@
    &&& r[1].max_values == Some(5u8)
    &&& r[2].custom_id@ == "role-select"@
    &&& r[2].category == SelectCategory::Role
    &&& r[2].choices is None
    &&& defaults_are(r[2], role_defaults(roles))
    &&& r[2].channel_kinds is None
    &&& r[2].placeholder matches Some(p) && p@ == "Role select menu"@
    &&& r[2].max_values == Some(5u8)
    &&& r[3].custom_id@ == "mentionable-select"@
    &&& r[3].category == SelectCategory::Mentionable
    &&& r[3].choices is None
    &&& defaults_are(r[3], user_defaults(users) + role_defaults(roles))
    &&& r[3].channel_kinds is None
    &&& r[3].placeholder matches Some(p) && p@ == "Mentionable select menu"@
    &&& r[3].max_values == Some(5u8)
    &&& r[4].custom_id@ == "channel-select"@
    &&& r[4].category == SelectCategory::Channel
    &&& r[4].choices is None
    &&& defaults_are(r[4], channel_defaults(channels))
    &&& r[4].channel_kinds matches Some(ks) && ks@ == allowed_channel_kinds()
    &&& r[4].placeholder matches Some(p) && p@ == "Channel select menu"@
    &&& r[4].max_values == Some(5u8)
    &&& (forall|i: int| 0 <= i < 5 ==> r[i].min_values is None && !r[i].disabled)
}

/// Whatever the seeds, the free-text menu of a well-shaped catalog offers
/// exactly its three fixed choices and never carries a default selection.
pub proof fn lemma_text_menu_fixed(
    r: Seq<SelectMenuDef>,
    users: Seq<u64>,
    roles: Seq<u64>,
    channels: Seq<u64>,
)
    requires
        catalog_shape(r, users, roles, channels),
    ensures
        r[0].choices matches Some(cs) && text_choices_fixed(cs@),
        r[0].default_values is None,
{
}

/// Maps user seeds to user-kind default values.
fn user_default_vec(ids: &Vec<u64>) -> (r: Vec<DefaultValue>)
    ensures
        r@ == user_defaults(ids@),
{
    let mut r: Vec<DefaultValue> = Vec::new();
    let mut i: usize = 0;
    while i < ids.len()
        invariant
            i <= ids@.len(),
            r@ == user_defaults(ids@.take(i as int)),
        decreases ids@.len() - i,
    {
        r.push(DefaultValue::User(ids[i]));
        assert(r@ =~= user_defaults(ids@.take(i + 1)));
        i = i + 1;
    }
    assert(ids@.take(ids@.len() as int) =~= ids@);
    r
}

/// Maps role seeds to role-kind default values.
fn role_default_vec(ids: &Vec<u64>) -> (r: Vec<DefaultValue>)
    ensures
        r@ == role_defaults(ids@),
{
    let mut r: Vec<DefaultValue> = Vec::new();
    let mut i: usize = 0;
    while i < ids.len()
        invariant
            i <= ids@.len(),
            r@ == role_defaults(ids@.take(i as int)),
        decreases ids@.len() - i,
    {
        r.push(DefaultValue::Role(ids[i]));
        assert(r@ =~= role_defaults(ids@.take(i + 1)));
        i = i + 1;
    }
    assert(ids@.take(ids@.len() as int) =~= ids@);
    r
}

/// Maps channel seeds to channel-kind default values.
fn channel_default_vec(ids: &Vec<u64>) -> (r: Vec<DefaultValue>)
    ensures
        r@ == channel_defaults(ids@),
{
    let mut r: Vec<DefaultValue> = Vec::new();
    let mut i: usize = 0;
    while i < ids.len()
        invariant
            i <= ids@.len(),
            r@ == channel_defaults(ids@.take(i as int)),
        decreases ids@.len() - i,
    {
        r.push(DefaultValue::Channel(ids[i]));
        assert(r@ =~= channel_defaults(ids@.take(i + 1)));
        i = i + 1;
    }
    assert(ids@.take(ids@.len() as int) =~= ids@);
    r
}

/// Wraps a default-value list for a menu: an empty list becomes no default
/// selection at all.
fn defaults_field(d: Vec<DefaultValue>) -> (r: Option<Vec<DefaultValue>>)
    ensures
        defaults_are_field(r, d@),
{
    if d.len() == 0 {
        None
    } else {
        Some(d)
    }
}

/// Builds the free-text menu's three fixed choices.
fn text_choices() -> (r: Vec<Choice>)
    ensures
        text_choices_fixed(r@),
{
    let mut r: Vec<Choice> = Vec::new();
    r.push(
        Choice {
            label: "Foo".to_owned(),
            value: "foo".to_owned(),
            description: Some("The foo".to_owned()),
            emoji: Some("\u{1F415}".to_owned()),
        },
    );
    r.push(
        Choice {
            label: "Bar".to_owned(),
            value: "bar".to_owned(),
            description: Some("The bar".to_owned()),
            emoji: Some("\u{1F98A}".to_owned()),
        },
    );
    r.push(
        Choice {
            label: "Baz".to_owned(),
            value: "baz".to_owned(),
            description: Some("The baz".to_owned()),
            emoji: Some("\u{1F408}".to_owned()),
        },
    );
    r
}

/// Builds the full catalog of five selection menus, pre-selecting the
/// supplied user, role and channel seeds in their categories; user and role
/// seeds together feed the role-or-user menu.
pub fn build_select_menus(users: &Vec<u64>, roles: &Vec<u64>, channels: &Vec<u64>) -> (r: Vec<
    SelectMenuDef,
>)
    ensures
        catalog_shape(r@, users@, roles@, channels@),
{
    let mut r: Vec<SelectMenuDef> = Vec::new();
    r.push(
        SelectMenuDef {
            custom_id: "text-select".to_owned(),
            category: SelectCategory::Text,
            choices: Some(text_choices()),
            default_values: None,
            channel_kinds: None,
            placeholder: Some("Text select menu".to_owned()),
            max_values: None,
            min_values: None,
            disabled: false,
        },
    );
    r.push(
        SelectMenuDef {
            custom_id: "user-select".to_owned(),
            category: SelectCategory::User,
            choices: None,
            default_values: defaults_field(user_default_vec(users)),
            channel_kinds: None,
            placeholder: Some("User select menu".to_owned()),
            max_values: Some(5),
            min_values: None,
            disabled: false,
        },
    );
    r.push(
        SelectMenuDef {
            custom_id: "role-select".to_owned(),
            category: SelectCategory::Role,
            choices: None,
            default_values: defaults_field(role_default_vec(roles)),
            channel_kinds: None,
            placeholder: Some("Role select menu".to_owned()),
            max_values: Some(5),
            min_values: None,
            disabled: false,
        },
    );
    let mut mentionable: Vec<DefaultValue> = user_default_vec(users);
    let mut role_part: Vec<DefaultValue> = role_default_vec(roles);
    mentionable.append(&mut role_part);
    assert(mentionable@ == user_defaults(users@) + role_defaults(roles@));
    r.push(
        SelectMenuDef {
            custom_id: "mentionable-select".to_owned(),
            category: SelectCategory::Mentionable,
            choices: None,
            default_values: defaults_field(mentionable),
            channel_kinds: None,
            placeholder: Some("Mentionable select menu".to_owned()),
            max_values: Some(5),
            min_values: None,
            disabled: false,
        },
    );
    r.push(
        SelectMenuDef {
            custom_id: "channel-select".to_owned(),
            category: SelectCategory::Channel,
            choices: None,
            default_values: defaults_field(channel_default_vec(channels)),
            channel_kinds: Some(channel_kind_filter()),
            placeholder: Some("Channel select menu".to_owned()),
            max_values: Some(5),
            min_values: None,
            disabled: false,
        },
    );
    r
}

/// The kind of value a registered command option accepts.
#[derive(Clone, Copy, PartialEq, Eq, Structural, Debug)]
pub enum OptionKind {
    User,
    Role,
    Channel,
}

/// One typed option of the registered command.
#[derive(Debug)]
pub struct CommandOptionDef {
    pub name: String,
    pub description: String,
    pub kind: OptionKind,
    pub channel_kinds: Option<Vec<ChannelKind>>,
}

/// The schema of the one registered command.
#[derive(Debug)]
pub struct CommandDef {
    pub name: String,
    pub description: String,
    pub dm_enabled: bool,
    pub options: Vec<CommandOptionDef>,
}

/// What the registered command looks like: its fixed name, disabled in
/// direct messages, with two user options, two role options and two channel
/// options, the channel options restricted to the four allowed channel
/// kinds.
pub open spec fn schema_shape(c: CommandDef) -> bool {
    &&& c.name@ == "select-menu"@
    &&& c.description@ == "Send a list of test select menus"@
    &&& !c.dm_enabled
    &&& c.options@.len() == 6
    &&& c.options@[0].name@ == "user-1"@ && c.options@[0].kind == OptionKind::User
    &&& c.options@[1].name@ == "user-2"@ && c.options@[1].kind == OptionKind::User
    &&& c.options@[2].name@ == "role-1"@ && c.options@[2].kind == OptionKind::Role
    &&& c.options@[3].name@ == "role-2"@ && c.options@[3].kind == OptionKind::Role
    &&& c.options@[4].name@ == "channel-1"@ && c.options@[4].kind == OptionKind::Channel
    &&& c.options@[5].name@ == "channel-2"@ && c.options@[5].kind == OptionKind::Channel
    &&& (forall|i: int| 0 <= i < 4 ==> c.options@[i].channel_kinds is None)
    &&& (forall|i: int|
        4 <= i < 6 ==> ((#[trigger] c.options@[i].channel_kinds) matches Some(ks) && ks@
            == allowed_channel_kinds()))
}

/// Builds the schema of the registered command, sent to the platform once
/// at startup.
pub fn command_schema() -> (c: CommandDef)
    ensures
        schema_shape(c),
{
    let mut options: Vec<CommandOptionDef> = Vec::new();
    options.push(
        CommandOptionDef {
            name: "user-1".to_owned(),
            description: "A default value for the user and mentionable select menus".to_owned(),
            kind: OptionKind::User,
            channel_kinds: None,
        },
    );
    options.push(
        CommandOptionDef {
            name: "user-2".to_owned(),
            description: "A default value for the user and mentionable select menus".to_owned(),
            kind: OptionKind::User,
            channel_kinds: None,
        },
    );
    options.push(
        CommandOptionDef {
            name: "role-1".to_owned(),
            description: "A default value for the role and mentionable select mneus".to_owned(),
            kind: OptionKind::Role,
            channel_kinds: None,
        },
    );
    options.push(
        CommandOptionDef {
            name: "role-2".to_owned(),
            description: "A default value for the role and mentionable select mneus".to_owned(),
            kind: OptionKind::Role,
            channel_kinds: None,
        },
    );
    options.push(
        CommandOptionDef {
            name: "channel-1".to_owned(),
            description: "A default value for the channel select menu".to_owned(),
            kind: OptionKind::Channel,
            channel_kinds: Some(channel_kind_filter()),
        },
    );
    options.push(
        CommandOptionDef {
            name: "channel-2".to_owned(),
            description: "A default value for the channel select menu".to_owned(),
            kind: OptionKind::Channel,
            channel_kinds: Some(channel_kind_filter()),
        },
    );
    CommandDef {
        name: "select-menu".to_owned(),
        description: "Send a list of test select menus".to_owned(),
        dm_enabled: false,
        options,
    }
}

} // verus!
