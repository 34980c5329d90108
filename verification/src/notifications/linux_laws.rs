//! What always holds between us and the notification daemon.

use super::linux::{
    Capabilities, DaemonModel, ShownModel, Signal, ACTION_ID_PREFIX, DEFAULT_KEY, DISMISSED_BY_USER,
    INLINE_REPLY_KEY,
};
use super::options::{Action, OptionsModel};
use super::{InteractionModel, KindModel};
use vstd::prelude::*;

verus! {

/// Whatever an application calls its actions, pressing one of them comes back under its own id, and
/// none is taken for a click on the notification itself.
pub proof fn pressed_actions_are_recognised(
    actions: Seq<Action>,
    index: int,
    capabilities: Capabilities,
)
    requires
        0 <= index < actions.len(),
    ensures
        super::linux::invoked(
            super::linux::wire_key(actions, index, capabilities),
            super::linux::inline_reply_id(actions, capabilities),
        ) == (KindModel::Action { id: actions[index].id@ }),
{
    reveal_strlit("app.");
    reveal_strlit("default");
    reveal_strlit("inline-reply");
    let key = super::linux::wire_key(actions, index, capabilities);
    if super::linux::inline_reply(actions, capabilities) == Some(index) {
        assert(INLINE_REPLY_KEY@[0] == 'i');
        assert(DEFAULT_KEY@[0] == 'd');
        assert(key != DEFAULT_KEY@);
    } else {
        assert(key[0] == 'a');
        assert(DEFAULT_KEY@[0] == 'd');
        assert(INLINE_REPLY_KEY@[0] == 'i');
        assert(key.subrange(0, ACTION_ID_PREFIX@.len() as int) == ACTION_ID_PREFIX@);
        assert(key.subrange(ACTION_ID_PREFIX@.len() as int, key.len() as int)
            == actions[index].id@);
    }
}

/// The first quick-reply action is the one that gets the reply field.
pub proof fn reply_fields_belong_to_reply_actions(actions: Seq<Action>, capabilities: Capabilities)
    ensures
        super::linux::inline_reply(actions, capabilities) matches Some(index) ==> 0 <= index
            < actions.len() && actions[index].kind == super::options::ActionKind::Reply,
{
    super::linux::first_reply_is_inside(actions);
}

/// One of the three written forms stands at this place.
pub open spec fn written_form_at(text: Seq<char>, at: int) -> bool {
    ||| at + 5 <= text.len() && text.subrange(at, at + 5) == "&amp;"@
    ||| at + 4 <= text.len() && text.subrange(at, at + 4) == "&lt;"@
    ||| at + 4 <= text.len() && text.subrange(at, at + 4) == "&gt;"@
}

/// No text can smuggle markup past the daemon: what is written has no tags, and every `&` begins one
/// of the three written forms.
pub proof fn written_text_has_no_markup(text: Seq<char>)
    ensures
        forall|i: int|
            0 <= i < super::linux::markup_text(text).len() ==> (
            #[trigger] super::linux::markup_text(text)[i]) != '<' && super::linux::markup_text(
                text,
            )[i] != '>',
        forall|i: int|
            0 <= i < super::linux::markup_text(text).len() && (
            #[trigger] super::linux::markup_text(text)[i]) == '&' ==> written_form_at(
                super::linux::markup_text(text),
                i,
            ),
    decreases text.len(),
{
    reveal_strlit("&amp;");
    reveal_strlit("&lt;");
    reveal_strlit("&gt;");
    if text.len() > 0 {
        let rest = super::linux::markup_text(text.drop_last());
        let last = super::linux::markup_char(text.last());
        let all = super::linux::markup_text(text);
        written_text_has_no_markup(text.drop_last());
        assert(all == rest + last);
        assert forall|i: int| 0 <= i < all.len() && (#[trigger] all[i]) == '&' implies written_form_at(
            all,
            i,
        ) by {
            if i < rest.len() {
                assert(rest[i] == '&');
                assert(written_form_at(rest, i));
                if i + 5 <= rest.len() {
                    assert(all.subrange(i, i + 5) == rest.subrange(i, i + 5));
                }
                if i + 4 <= rest.len() {
                    assert(all.subrange(i, i + 4) == rest.subrange(i, i + 4));
                }
            } else {
                assert(last[i - rest.len()] == '&');
                assert(i == rest.len());
                assert(all.subrange(i, i + last.len()) == last);
            }
        }
        assert forall|i: int| 0 <= i < all.len() implies (#[trigger] all[i]) != '<' && all[i]
            != '>' by {
            if i < rest.len() {
                assert(rest[i] == all[i]);
            } else {
                assert(last[i - rest.len()] == all[i]);
            }
        }
    }
}

/// A bar is never more than full.
pub proof fn progress_is_a_percentage(current: u32, total: u32)
    requires
        total > 0,
    ensures
        0 <= super::linux::percent(current, total) <= 100,
        current >= total ==> super::linux::percent(current, total) == 100,
        current == 0 ==> super::linux::percent(current, total) == 0,
{
    let whole = current as int * 100;
    assert(whole / (total as int) >= 0) by (nonlinear_arith)
        requires
            whole >= 0,
            total > 0,
    ;
    if current >= total {
        assert(whole / (total as int) >= 100) by (nonlinear_arith)
            requires
                whole >= total * 100,
                total > 0,
        ;
    }
    if current == 0 {
        assert(0int / (total as int) == 0) by (nonlinear_arith)
            requires
                total > 0,
        ;
    }
}

/// Everything we could cancel is something we know to be on screen, under the same id.
pub open spec fn in_step(daemon: DaemonModel) -> bool {
    forall|id: Seq<char>| #[trigger]
        daemon.server_ids.dom().contains(id) ==> daemon.shown.dom().contains(daemon.server_ids[id])
            && daemon.shown[daemon.server_ids[id]].id == id
}

/// Showing a notification keeps the books in step, as long as the daemon does not give it an id that
/// belongs to another notification on screen.
pub proof fn showing_keeps_in_step(daemon: DaemonModel, shown: ShownModel, server_id: u32)
    requires
        in_step(daemon),
        daemon.shown.dom().contains(server_id) ==> daemon.shown[server_id].id == shown.id,
    ensures
        in_step(daemon.record(shown, daemon.server_id(shown.id), server_id)),
{
    let after = daemon.record(shown, daemon.server_id(shown.id), server_id);
    assert forall|id: Seq<char>| #[trigger] after.server_ids.dom().contains(id) implies after.shown.dom().contains(
    after.server_ids[id]) && after.shown[after.server_ids[id]].id == id by {
        if id != shown.id {
            assert(daemon.server_ids.dom().contains(id));
        }
    }
}

/// So does everything the daemon reports.
pub proof fn signals_keep_in_step(daemon: DaemonModel, signal: Signal)
    requires
        in_step(daemon),
    ensures
        in_step(DaemonModel::empty()),
        in_step(daemon.after_signal(signal)),
        in_step(daemon.forget_all()),
{
    let after = daemon.after_signal(signal);
    assert forall|id: Seq<char>| #[trigger] after.server_ids.dom().contains(id) implies after.shown.dom().contains(
    after.server_ids[id]) && after.shown[after.server_ids[id]].id == id by {
        assert(daemon.server_ids.dom().contains(id));
    }
}

/// A notification that was just shown is on screen, can be cancelled, and answers to its own
/// interactions.
pub proof fn shown_notifications_are_known(
    daemon: DaemonModel,
    shown: ShownModel,
    replaces_id: u32,
    server_id: u32,
)
    ensures
        ({
            let after = daemon.record(shown, replaces_id, server_id);
            &&& after.shows(shown.id)
            &&& after.server_ids.dom().contains(shown.id)
            &&& after.server_ids[shown.id] == server_id
            &&& after.shown[server_id] == shown
        }),
{
    assert(daemon.record(shown, replaces_id, server_id).shown.dom().contains(server_id));
}

/// Once the daemon has closed a notification, nothing more is heard of it.
pub proof fn closed_notifications_are_silent(
    daemon: DaemonModel,
    server_id: u32,
    reason: u32,
    later: Signal,
)
    requires
        match later {
            Signal::ActionInvoked { server_id: about, .. } => about == server_id,
            Signal::NotificationReplied { server_id: about, .. } => about == server_id,
            Signal::NotificationClosed { server_id: about, .. } => about == server_id,
        },
    ensures
        daemon.after_signal(Signal::NotificationClosed { server_id, reason }).interaction(later)
            is None,
{
}

/// What is remembered of a notification that is shown.
pub open spec fn remembered(options: OptionsModel, capabilities: Capabilities) -> ShownModel {
    ShownModel {
        id: options.id,
        metadata: options.metadata,
        reply_action_id: super::linux::inline_reply_id(options.actions, capabilities),
    }
}

/// The whole round trip: whatever the user does with a notification on screen comes back with the
/// notification's id and its metadata. A press names the action that was pressed, and a reply the
/// action that has the reply field and the text.
pub proof fn interactions_come_back(
    daemon: DaemonModel,
    options: OptionsModel,
    capabilities: Capabilities,
    replaces_id: u32,
    server_id: u32,
    index: int,
    key: String,
    reply: String,
)
    requires
        0 <= index < options.actions.len(),
        key@ == super::linux::wire_key(options.actions, index, capabilities),
    ensures
        ({
            let after = daemon.record(remembered(options, capabilities), replaces_id, server_id);
            let with = |kind: KindModel|
                Some(
                    InteractionModel {
                        notification_id: options.id,
                        kind,
                        metadata: options.metadata,
                    },
                );
            &&& after.interaction(Signal::ActionInvoked { server_id, key }) == with(
                KindModel::Action { id: options.actions[index].id@ },
            )
            &&& after.interaction(
                Signal::NotificationClosed { server_id, reason: DISMISSED_BY_USER },
            ) == with(KindModel::Dismissed)
            &&& super::linux::inline_reply(options.actions, capabilities) == Some(index)
                ==> after.interaction(Signal::NotificationReplied { server_id, text: reply })
                == with(KindModel::Reply { action_id: options.actions[index].id@, text: reply@ })
        }),
{
    pressed_actions_are_recognised(options.actions, index, capabilities);
}

/// A click on the notification itself comes back as such, with its id and metadata.
pub proof fn clicks_come_back(
    daemon: DaemonModel,
    options: OptionsModel,
    capabilities: Capabilities,
    replaces_id: u32,
    server_id: u32,
    key: String,
)
    requires
        key@ == DEFAULT_KEY@,
    ensures
        daemon.record(remembered(options, capabilities), replaces_id, server_id).interaction(
            Signal::ActionInvoked { server_id, key },
        ) == Some(
            InteractionModel {
                notification_id: options.id,
                kind: KindModel::Activated,
                metadata: options.metadata,
            },
        ),
{
}

/// Showing a notification again, under the same id, replaces the one on screen: the daemon is told
/// which one that is, and if it gives the new one another id, the old one is forgotten.
pub proof fn showing_again_replaces(
    daemon: DaemonModel,
    first: OptionsModel,
    second: OptionsModel,
    capabilities: Capabilities,
    app_id: Option<Seq<char>>,
    executable: Option<Seq<u8>>,
    image: Option<Seq<u8>>,
    replaces_id: u32,
    old_id: u32,
    new_id: u32,
)
    requires
        first.id == second.id,
        old_id != 0,
        old_id != new_id,
    ensures
        ({
            let shown = daemon.record(remembered(first, capabilities), replaces_id, old_id);
            let call = shown.call(second, capabilities, app_id, executable, image);
            let again = shown.record(remembered(second, capabilities), call.replaces_id, new_id);
            &&& call.replaces_id == old_id
            &&& !again.shown.dom().contains(old_id)
            &&& again.shown[new_id] == remembered(second, capabilities)
            &&& again.server_id(second.id) == new_id
        }),
{
}

} // verus!
