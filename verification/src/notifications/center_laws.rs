//! What always holds of notifications over time.

use super::center::{CenterModel, PendingModel, ShowModel, ShowingModel, CONVERSATION_HISTORY_LIMIT};
use super::options::OptionsModel;
use super::{Error, Interaction, Progress, Result};
use crate::text;
use crate::time::Timestamp;
use vstd::prelude::*;

verus! {

/// No conversation's history is longer than the limit.
pub open spec fn short_histories(center: CenterModel) -> bool {
    forall|id: Seq<char>| #[trigger]
        center.histories.dom().contains(id) ==> center.histories[id].len()
            <= CONVERSATION_HISTORY_LIMIT
}

/// Whatever happens, a conversation's history stays within the limit.
pub proof fn histories_stay_short(
    center: CenterModel,
    options: OptionsModel,
    showing: ShowingModel,
    native_scheduling: bool,
    pid: u32,
    generation: u64,
    now: Timestamp,
    id: Seq<char>,
    progress: Progress,
    interaction: Interaction,
    listening: Result<()>,
)
    requires
        short_histories(center),
    ensures
        short_histories(CenterModel::empty()),
        short_histories(center.show(options, native_scheduling, pid, now).0),
        short_histories(center.fire(options, generation, now).0),
        short_histories(center.after_shown(showing)),
        short_histories(center.cancel(id)),
        short_histories(center.cancel_all()),
        short_histories(center.update(id, progress).0),
        short_histories(center.deliver(interaction).0),
        short_histories(center.register(listening).0),
{
}

/// A conversation's history holds only what was shown: preparing, scheduling and cancelling a
/// notification add nothing to it.
pub proof fn only_shown_messages_are_remembered(
    center: CenterModel,
    options: OptionsModel,
    native_scheduling: bool,
    pid: u32,
    generation: u64,
    now: Timestamp,
    id: Seq<char>,
)
    ensures
        center.show(options, native_scheduling, pid, now).0.histories == center.histories,
        center.fire(options, generation, now).0.histories == center.histories,
        center.cancel(id).histories == center.histories,
        center.cancel_all().histories == center.histories,
{
}

/// A message that was shown is the newest of its conversation's history, and no other conversation
/// gets to see it.
pub proof fn shown_messages_come_last(
    center: CenterModel,
    showing: ShowingModel,
    pending: PendingModel,
    other: Seq<char>,
)
    requires
        showing.pending == Some(pending),
        other != pending.conversation_id,
    ensures
        center.after_shown(showing).history(pending.conversation_id).len() > 0,
        center.after_shown(showing).history(pending.conversation_id).last() == pending.message,
        center.after_shown(showing).history(other) == center.history(other),
{
}

/// A notification in a conversation is shown with exactly the messages that are the conversation's
/// history once it is shown.
pub proof fn what_is_shown_becomes_history(
    center: CenterModel,
    options: OptionsModel,
    now: Timestamp,
)
    requires
        super::center::message_of(options, now) is Some,
    ensures
        ({
            let showing = center.prepared(options, now);
            center.after_shown(showing).history(options.conversation->0.id)
                == showing.options.conversation_messages
        }),
{
}

/// Once a notification is cancelled, no timer brings it back.
pub proof fn cancelled_showings_never_fire(
    center: CenterModel,
    options: OptionsModel,
    generation: u64,
    now: Timestamp,
)
    ensures
        center.cancel(options.id).fire(options, generation, now) == (
            center.cancel(options.id),
            None::<ShowingModel>,
        ),
        center.cancel_all().fire(options, generation, now) == (
            center.cancel_all(),
            None::<ShowingModel>,
        ),
{
}

/// Of all the showings scheduled for one id only the latest comes, and it comes once.
pub proof fn only_the_latest_showing_fires(
    center: CenterModel,
    options: OptionsModel,
    delay_nanos: int,
    earlier: u64,
    now: Timestamp,
)
    requires
        earlier != center.generation,
    ensures
        ({
            let scheduled = center.timed(options, delay_nanos).0;
            let fired = scheduled.fire(options, center.generation, now);
            &&& scheduled.fire(options, earlier, now).1 is None
            &&& fired.1 is Some
            &&& fired.0.fire(options, center.generation, now).1 is None
        }),
{
}

/// A notification shown at once replaces any scheduled showing of its id.
pub proof fn immediate_showings_replace_scheduled_ones(
    center: CenterModel,
    options: OptionsModel,
    later: OptionsModel,
    generation: u64,
    now: Timestamp,
)
    requires
        later.id == options.id,
    ensures
        center.immediate(options, now).0.fire(later, generation, now).1 is None,
{
}

/// Every notification that is handed to the system has an id, and what the application set stays as
/// it was.
pub proof fn shown_notifications_have_an_id(
    center: CenterModel,
    options: OptionsModel,
    native_scheduling: bool,
    pid: u32,
    now: Timestamp,
)
    ensures
        match center.show(options, native_scheduling, pid, now).1 {
            Ok(step) => {
                let shown = match step {
                    ShowModel::Now(showing) => showing.options,
                    ShowModel::BySystem(options) => options,
                    ShowModel::ByTimer { options, .. } => options,
                };
                &&& shown.id.len() > 0
                &&& options.id.len() > 0 ==> shown.id == options.id
                &&& shown.title == options.title
                &&& shown.body == options.body
                &&& shown.metadata == options.metadata
                &&& shown.actions == options.actions
                &&& shown.progress == options.progress
            },
            Err(error) => error == Error::Empty || error == Error::InvalidNotification,
        },
{
    reveal_strlit("robius-notification-");
}

/// No two notifications of a process get the same id, as long as the count has not come round.
pub proof fn generated_ids_are_unique(pid: u32, first: u64, second: u64)
    requires
        first != second,
    ensures
        super::center::generated_id_text(pid, first) != super::center::generated_id_text(
            pid,
            second,
        ),
{
    let start = "robius-notification-"@ + text::decimal_text(pid as nat) + "-"@;
    let left = text::decimal_text(first as nat);
    let right = text::decimal_text(second as nat);
    if start + left == start + right {
        assert((start + left).subrange(start.len() as int, (start + left).len() as int) == left);
        assert((start + right).subrange(start.len() as int, (start + right).len() as int)
            == right);
        text::decimal_text_is_injective(first as nat, second as nat);
    }
}

/// Progress can be moved as soon as the notification is on screen, over and over, and nothing else
/// about the notification changes.
pub proof fn shown_progress_can_be_updated(
    center: CenterModel,
    showing: ShowingModel,
    first: Progress,
    second: Progress,
)
    requires
        showing.options.progress is Some,
        showing.options.id.len() > 0,
        !super::zero_total(first),
        !super::zero_total(second),
    ensures
        ({
            let shown = center.after_shown(showing);
            let updated = shown.update(showing.options.id, first);
            &&& updated.1 == Ok::<OptionsModel, Error>(
                OptionsModel { progress: Some(first), ..showing.options },
            )
            &&& updated.0.update(showing.options.id, second).1 == Ok::<OptionsModel, Error>(
                OptionsModel { progress: Some(second), ..showing.options },
            )
        }),
{
}

/// A notification that is cancelled, left to the system's schedule, or shown again without progress
/// has no progress to update.
pub proof fn progress_ends_with_its_notification(
    center: CenterModel,
    options: OptionsModel,
    showing: ShowingModel,
    pid: u32,
    now: Timestamp,
    progress: Progress,
)
    requires
        showing.options.progress is None,
    ensures
        center.cancel(options.id).update(options.id, progress).1 is Err,
        center.cancel_all().update(options.id, progress).1 is Err,
        center.after_shown(showing).update(showing.options.id, progress).1 is Err,
        options.id.len() > 0 && (center.show(options, true, pid, now).1 matches Ok(step)
            && step is BySystem) ==> center.show(options, true, pid, now).0.update(
            options.id,
            progress,
        ).1 is Err,
{
}

/// Everything that arrives, one after the other.
pub open spec fn deliver_each(center: CenterModel, interactions: Seq<Interaction>) -> CenterModel
    decreases interactions.len(),
{
    if interactions.len() == 0 {
        center
    } else {
        deliver_each(center, interactions.drop_last()).deliver(interactions.last()).0
    }
}

/// Whatever arrives before a handler is set reaches it, all of it and in order.
pub proof fn queued_interactions_reach_the_handler(
    center: CenterModel,
    queue: Seq<Interaction>,
    interactions: Seq<Interaction>,
)
    requires
        center.queue == Some(queue),
    ensures
        deliver_each(center, interactions).register(Ok(())).1 == Ok::<Seq<Interaction>, Error>(
            queue + interactions,
        ),
        deliver_each(center, interactions).queue == Some(queue + interactions),
    decreases interactions.len(),
{
    if interactions.len() == 0 {
        assert(queue + interactions == queue);
    } else {
        queued_interactions_reach_the_handler(center, queue, interactions.drop_last());
        assert((queue + interactions.drop_last()).push(interactions.last()) == queue + interactions);
    }
}

/// There is one handler: once it is set it gets every interaction at once, and no other is taken.
pub proof fn the_handler_is_set_once(
    center: CenterModel,
    first: Result<()>,
    second: Result<()>,
    interaction: Interaction,
)
    requires
        center.register(first).1 is Ok,
    ensures
        ({
            let set = center.register(first).0;
            &&& set.register(second) == (
                set,
                Err::<Seq<Interaction>, Error>(Error::HandlerAlreadySet),
            )
            &&& set.deliver(interaction) == (set, Some(interaction))
        }),
{
}

} // verus!
