//! Construction of every interaction reply the bot sends: the fixed
//! failure reply, the provisional acknowledgement, and the summary embed
//! built for a component interaction.

use vstd::prelude::*;

use crate::event::ComponentData;
use crate::text::truncate_chars;
use crate::text::truncated;

verus! {

/// The most characters of resolved entity data a summary reply may carry.
pub const RESOLVED_DUMP_LIMIT: usize = 1000;

/// The accent colour of the summary embed.
pub const SUMMARY_EMBED_COLOR: u32 = 0x2ccb87;

/// An embed attached to a reply: a title, an accent colour and a
/// description.
#[derive(Debug)]
pub struct EmbedDef {
    pub title: String,
    pub color: u32,
    pub description: String,
}

/// One interaction reply, ready to be sent against a reply token: plain
/// content or an embed, and whether only the invoking user sees it.
#[derive(Debug)]
pub struct ReplyDef {
    pub content: Option<String>,
    pub embed: Option<EmbedDef>,
    pub ephemeral: bool,
}

/// The fixed failure reply: ephemeral, no embed, one unvarying line of
/// content.
pub open spec fn failure_reply_shape(r: ReplyDef) -> bool {
    &&& r.content matches Some(c) && c@ == "This interaction failed"@
    &&& r.embed is None
    &&& r.ephemeral
}

/// The provisional acknowledgement: ephemeral, no embed, one unvarying
/// line of content.
pub open spec fn provisional_reply_shape(r: ReplyDef) -> bool {
    &&& r.content matches Some(c) && c@ == "Sending a message with select menus..."@
    &&& r.embed is None
    &&& r.ephemeral
}

/// Builds the fixed failure reply sent whenever handling an interaction
/// fails: its content never varies.
pub fn failure_reply() -> (r: ReplyDef)
    ensures
        failure_reply_shape(r),
{
    ReplyDef {
        content: Some("This interaction failed".to_owned()),
        embed: None,
        ephemeral: true,
    }
}

/// Builds the provisional acknowledgement sent before the selection menus
/// follow as a separate message.
pub fn provisional_reply() -> (r: ReplyDef)
    ensures
        provisional_reply_shape(r),
{
    ReplyDef {
        content: Some("Sending a message with select menus...".to_owned()),
        embed: None,
        ephemeral: true,
    }
}

/// The resolved-data dump inside any summary stays within the configured
/// limit, and input already within the limit passes through unchanged
/// rather than being rejected.
pub proof fn lemma_resolved_dump_bounded(resolved: Seq<char>)
    ensures
        truncated(resolved, RESOLVED_DUMP_LIMIT as nat).len() <= RESOLVED_DUMP_LIMIT,
        resolved.len() <= RESOLVED_DUMP_LIMIT ==> truncated(resolved, RESOLVED_DUMP_LIMIT as nat)
            == resolved,
{
    crate::text::lemma_truncated_bounded(resolved, RESOLVED_DUMP_LIMIT as nat);
}

/// A selected value as it appears in the summary, wrapped in quotes.
pub open spec fn quoted(v: Seq<char>) -> Seq<char> {
    "\""@ + v + "\""@
}

/// The quoted selected values joined by commas.
pub open spec fn joined(vs: Seq<Seq<char>>) -> Seq<char>
    decreases vs.len(),
{
    if vs.len() == 0 {
        Seq::empty()
    } else if vs.len() == 1 {
        quoted(vs[0])
    } else {
        joined(vs.drop_last()) + ", "@ + quoted(vs.last())
    }
}

/// The selected values rendered as a bracketed, comma-separated list of
/// quoted strings.
pub open spec fn rendered_values(vs: Seq<Seq<char>>) -> Seq<char> {
    "["@ + joined(vs) + "]"@
}

/// Renders the list of selected values for the summary.
pub fn render_values(values: &Vec<String>) -> (r: String)
    ensures
        r@ == rendered_values(values.deep_view()),
{
    let ghost vs = values.deep_view();
    let mut s: String = "[".to_owned();
    let mut i: usize = 0;
    assert(vs.take(0) =~= Seq::<Seq<char>>::empty());
    while i < values.len()
        invariant
            i <= values@.len(),
            vs == values.deep_view(),
            vs.len() == values@.len(),
            forall|j: int| 0 <= j < vs.len() ==> vs[j] == #[trigger] values@[j]@,
            s@ == "["@ + joined(vs.take(i as int)),
        decreases values@.len() - i,
    {
        if i > 0 {
            s.append(", ");
        }
        s.append("\"");
        s.append(values[i].as_str());
        s.append("\"");
        proof {
            assert(vs.take(i + 1).drop_last() =~= vs.take(i as int));
            assert(vs.take(i + 1).last() == vs[i as int]);
            if i == 0 {
                assert(s@ =~= "["@ + joined(vs.take(1)));
            } else {
                assert(joined(vs.take(i + 1)) == joined(vs.take(i as int)) + ", "@ + quoted(
                    vs[i as int],
                ));
                assert(s@ =~= "["@ + joined(vs.take(i + 1)));
            }
        }
        i = i + 1;
    }
    assert(vs.take(vs.len() as int) =~= vs);
    s.append("]");
    assert(s@ =~= rendered_values(vs));
    s
}

/// The full summary text of a component interaction: the widget's
/// identifier, the selected values, and the resolved entity data truncated
/// to [`RESOLVED_DUMP_LIMIT`] characters.
pub open spec fn summary_description(
    custom_id: Seq<char>,
    values: Seq<Seq<char>>,
    resolved: Seq<char>,
) -> Seq<char> {
    "You interacted with a select menu!\n- Select menu ID: "@ + custom_id
        + "\n- Selected Values: `"@ + rendered_values(values) + "`\n- Resolved data: `"@
        + truncated(resolved, RESOLVED_DUMP_LIMIT as nat) + "`"@
}

/// Builds the summary text for one component interaction.
pub fn summary_text(data: &ComponentData) -> (r: String)
    ensures
        r@ == summary_description(data.custom_id@, data.values.deep_view(), data.resolved@),
{
    let mut s: String = "You interacted with a select menu!\n- Select menu ID: ".to_owned();
    s.append(data.custom_id.as_str());
    s.append("\n- Selected Values: `");
    let rendered = render_values(&data.values);
    s.append(rendered.as_str());
    s.append("`\n- Resolved data: `");
    let dump = truncate_chars(data.resolved.as_str(), RESOLVED_DUMP_LIMIT);
    s.append(dump.as_str());
    s.append("`");
    assert(s@ =~= summary_description(
        data.custom_id@,
        data.values.deep_view(),
        data.resolved@,
    ));
    s
}

/// The summary reply: ephemeral, no plain content, one embed titled
/// `Selection information` whose description is the summary text.
pub open spec fn summary_reply_shape(
    r: ReplyDef,
    custom_id: Seq<char>,
    values: Seq<Seq<char>>,
    resolved: Seq<char>,
) -> bool {
    &&& r.content is None
    &&& r.ephemeral
    &&& r.embed matches Some(e) && e.title@ == "Selection information"@ && e.color
        == SUMMARY_EMBED_COLOR && e.description@ == summary_description(custom_id, values, resolved)
}

/// Builds the ephemeral summary reply for one component interaction: an
/// embed titled `Selection information` whose description summarizes the
/// widget, the selected values and the truncated resolved data.
pub fn summary_reply(data: &ComponentData) -> (r: ReplyDef)
    ensures
        summary_reply_shape(r, data.custom_id@, data.values.deep_view(), data.resolved@),
{
    ReplyDef {
        content: None,
        embed: Some(
            EmbedDef {
                title: "Selection information".to_owned(),
                color: SUMMARY_EMBED_COLOR,
                description: summary_text(data),
            },
        ),
        ephemeral: true,
    }
}

} // verus!
