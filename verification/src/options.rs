//! Typed command options and seed extraction.
//!
//! A command invocation carries a list of named options. Option names are
//! grouped by prefix into three categories (user, role, channel); the value
//! bound to an option must match the category of its name. Valid options are
//! collapsed into per-category seed sets, with duplicate identifiers removed.

use vstd::prelude::*;

use crate::text::seq_starts_with;
use crate::text::starts_with_prefix;

verus! {

/// The value bound to one command option: an entity reference of one of the
/// three seeded categories, or any other payload (which no handler reads).
#[derive(Clone, Copy, PartialEq, Eq, Structural, Debug)]
pub enum OptionValue {
    User(u64),
    Role(u64),
    Channel(u64),
    Other,
}

/// One named option of a command invocation.
#[derive(Debug)]
pub struct CommandOption {
    pub name: String,
    pub value: OptionValue,
}

/// The mathematical image of a [`CommandOption`]: its name as a character
/// sequence, beside the value.
pub struct OptionModel {
    pub name: Seq<char>,
    pub value: OptionValue,
}

impl View for CommandOption {
    type V = OptionModel;

    open spec fn view(&self) -> OptionModel {
        OptionModel { name: self.name@, value: self.value }
    }
}

impl DeepView for CommandOption {
    type V = OptionModel;

    open spec fn deep_view(&self) -> OptionModel {
        self@
    }
}

/// The category an option name falls into, decided by its prefix; the
/// prefixes are tried in a fixed order, and a name matching none of them
/// belongs to no category.
#[derive(Clone, Copy, PartialEq, Eq, Structural, Debug)]
pub enum OptionClass {
    User,
    Role,
    Channel,
    Unrecognized,
}

/// Classifies an option name by its prefix.
pub open spec fn option_class(name: Seq<char>) -> OptionClass {
    if seq_starts_with(name, "user-"@) {
        OptionClass::User
    } else if seq_starts_with(name, "role-"@) {
        OptionClass::Role
    } else if seq_starts_with(name, "channel-"@) {
        OptionClass::Channel
    } else {
        OptionClass::Unrecognized
    }
}

/// An option is malformed when its name claims a category but its value is
/// not a reference of that category.
pub open spec fn option_mismatch(o: OptionModel) -> bool {
    match option_class(o.name) {
        OptionClass::User => !(o.value is User),
        OptionClass::Role => !(o.value is Role),
        OptionClass::Channel => !(o.value is Channel),
        OptionClass::Unrecognized => false,
    }
}

/// Whether any option of the invocation is malformed.
pub open spec fn any_mismatch(opts: Seq<OptionModel>) -> bool {
    exists|i: int| 0 <= i < opts.len() && option_mismatch(opts[i])
}

/// An option contributes a seed to `class` when its name falls into that
/// category and its value matches it.
pub open spec fn is_seed(o: OptionModel, class: OptionClass) -> bool {
    option_class(o.name) == class && !option_mismatch(o)
}

/// The identifier carried by a seed option's value.
pub open spec fn seed_id(o: OptionModel) -> u64 {
    match o.value {
        OptionValue::User(id) => id,
        OptionValue::Role(id) => id,
        OptionValue::Channel(id) => id,
        OptionValue::Other => 0,
    }
}

/// The set of identifiers seeded into `class` by an option list.
pub open spec fn seed_set(opts: Seq<OptionModel>, class: OptionClass) -> Set<u64>
    decreases opts.len(),
{
    if opts.len() == 0 {
        Set::empty()
    } else {
        let rest = seed_set(opts.drop_last(), class);
        if is_seed(opts.last(), class) {
            rest.insert(seed_id(opts.last()))
        } else {
            rest
        }
    }
}

/// An identifier is in the seed set of a category exactly when some option
/// of that category carries it.
pub proof fn lemma_seed_set_membership(opts: Seq<OptionModel>, class: OptionClass, id: u64)
    ensures
        seed_set(opts, class).contains(id) <==> exists|i: int|
            0 <= i < opts.len() && is_seed(opts[i], class) && seed_id(opts[i]) == id,
    decreases opts.len(),
{
    if opts.len() > 0 {
        lemma_seed_set_membership(opts.drop_last(), class, id);
        let last = opts.len() - 1;
        if exists|i: int| 0 <= i < last && is_seed(opts[i], class) && seed_id(opts[i]) == id {
            let i = choose|i: int| 0 <= i < last && is_seed(opts[i], class) && seed_id(opts[i])
                == id;
            assert(opts.drop_last()[i] == opts[i]);
        }
        if seed_set(opts, class).contains(id) {
            if !(is_seed(opts.last(), class) && seed_id(opts.last()) == id) {
                let i = choose|i: int| 0 <= i < last && is_seed(opts.drop_last()[i], class)
                    && seed_id(opts.drop_last()[i]) == id;
                assert(opts.drop_last()[i] == opts[i]);
            }
        }
    }
}

/// The deduplicated seed identifiers of one invocation, one vector per
/// category, each free of duplicates.
pub struct Seeds {
    pub users: Vec<u64>,
    pub roles: Vec<u64>,
    pub channels: Vec<u64>,
}

impl Seeds {
    /// Each category holds every identifier at most once.
    pub open spec fn deduplicated(self) -> bool {
        &&& self.users@.no_duplicates()
        &&& self.roles@.no_duplicates()
        &&& self.channels@.no_duplicates()
    }

    /// The three vectors carry exactly the seed sets of the option list.
    pub open spec fn of_options(self, opts: Seq<OptionModel>) -> bool {
        &&& self.users@.to_set() == seed_set(opts, OptionClass::User)
        &&& self.roles@.to_set() == seed_set(opts, OptionClass::Role)
        &&& self.channels@.to_set() == seed_set(opts, OptionClass::Channel)
    }
}

/// Appends `x` to `v` unless it is already present, preserving freedom from
/// duplicates.
fn push_unique(v: &mut Vec<u64>, x: u64)
    requires
        old(v)@.no_duplicates(),
    ensures
        final(v)@.no_duplicates(),
        final(v)@.to_set() == old(v)@.to_set().insert(x),
{
    let mut i: usize = 0;
    while i < v.len()
        invariant
            i <= v@.len(),
            v@ == old(v)@,
            old(v)@.no_duplicates(),
            forall|j: int| 0 <= j < i ==> v@[j] != x,
        decreases v@.len() - i,
    {
        if v[i] == x {
            assert(v@.to_set().contains(x));
            assert(v@.to_set() =~= v@.to_set().insert(x));
            return ;
        }
        i = i + 1;
    }
    assert(!v@.contains(x));
    let ghost pre = v@;
    v.push(x);
    proof {
        assert(v@ == pre.push(x));
        assert forall|y: u64| v@.contains(y) <==> (pre.contains(y) || y == x) by {
            if pre.contains(y) {
                let k = choose|k: int| 0 <= k < pre.len() && pre[k] == y;
                assert(v@[k] == y);
            }
            if y == x {
                assert(v@[pre.len() as int] == y);
            }
            if v@.contains(y) {
                let k = choose|k: int| 0 <= k < v@.len() && v@[k] == y;
                if k < pre.len() {
                    assert(pre[k] == y);
                }
            }
        }
        assert(v@.to_set() =~= pre.to_set().insert(x));
        assert forall|a: int, b: int| 0 <= a < b < v@.len() implies v@[a] != v@[b] by {
            if b == pre.len() {
                assert(pre[a] == v@[a]);
            }
        }
    }
}

/// Walks the options of an invocation in order, validating each against the
/// category its name claims, and collapsing the valid entity references into
/// per-category seed sets. The walk stops at the first malformed option and
/// reports failure; otherwise it returns the three deduplicated seed
/// vectors.
pub fn extract_seeds(options: &Vec<CommandOption>) -> (r: Option<Seeds>)
    ensures
        r is Some <==> !any_mismatch(options.deep_view()),
        r matches Some(s) ==> s.deduplicated() && s.of_options(options.deep_view()),
{
    let ghost opts = options.deep_view();
    let mut users: Vec<u64> = Vec::new();
    let mut roles: Vec<u64> = Vec::new();
    let mut channels: Vec<u64> = Vec::new();
    let mut i: usize = 0;
    assert(opts.take(0) =~= Seq::<OptionModel>::empty());
    while i < options.len()
        invariant
            i <= options@.len(),
            opts == options.deep_view(),
            opts.len() == options@.len(),
            forall|j: int| 0 <= j < opts.len() ==> opts[j] == #[trigger] options@[j]@,
            forall|j: int| 0 <= j < i ==> !option_mismatch(#[trigger] opts[j]),
            users@.no_duplicates(),
            roles@.no_duplicates(),
            channels@.no_duplicates(),
            users@.to_set() == seed_set(opts.take(i as int), OptionClass::User),
            roles@.to_set() == seed_set(opts.take(i as int), OptionClass::Role),
            channels@.to_set() == seed_set(opts.take(i as int), OptionClass::Channel),
        decreases options@.len() - i,
    {
        let o = &options[i];
        let ghost om = opts[i as int];
        assert(opts.take(i + 1).drop_last() =~= opts.take(i as int));
        assert(opts.take(i + 1).last() == om);
        if starts_with_prefix(o.name.as_str(), "user-") {
            match o.value {
                OptionValue::User(id) => {
                    push_unique(&mut users, id);
                },
                _ => {
                    assert(option_mismatch(om));
                    return None;
                },
            }
        } else if starts_with_prefix(o.name.as_str(), "role-") {
            match o.value {
                OptionValue::Role(id) => {
                    push_unique(&mut roles, id);
                },
                _ => {
                    assert(option_mismatch(om));
                    return None;
                },
            }
        } else if starts_with_prefix(o.name.as_str(), "channel-") {
            match o.value {
                OptionValue::Channel(id) => {
                    push_unique(&mut channels, id);
                },
                _ => {
                    assert(option_mismatch(om));
                    return None;
                },
            }
        }
        i = i + 1;
    }
    assert(opts.take(opts.len() as int) =~= opts);
    Some(Seeds { users, roles, channels })
}

} // verus!
