//! When notifications are shown, and what is remembered of them.

use super::center;
use super::center::{CenterModel, ShowModel, ShowingModel};
use super::options::OptionsModel;
use super::{Error, Interaction, Progress, Result};
use crate::text;
use crate::time::Timestamp;
use vstd::prelude::*;

verus! {

/// A message carries the time at which it was shown: so many milliseconds as are between the epoch and
/// then, and none before the epoch.
pub proof fn messages_carry_the_time(options: OptionsModel, now: Timestamp)
    requires
        now.secs < 0x20_0000_0000_0000,
    ensures
        center::message_of(options, now) matches Some(added) ==> {
            let nanos = now.secs * 1_000_000_000 + now.nanos;
            let millis = added.message.timestamp_ms;
            &&& nanos >= 0 ==> millis * 1_000_000 <= nanos < (millis + 1) * 1_000_000
            &&& nanos < 0 ==> millis == 0
            &&& now.secs >= 0 && now.nanos == 0 ==> millis == now.secs * 1000
        },
{
    let nanos = now.secs * 1_000_000_000 + now.nanos;
    if nanos >= 0 {
        let millis = nanos / 1_000_000;
        assert(millis * 1_000_000 <= nanos < (millis + 1) * 1_000_000);
        assert(millis < 0x1_0000_0000_0000_0000);
        assert(now.epoch_millis() == millis);
        assert(millis % 0x1_0000_0000_0000_0000 == millis);
    } else {
        assert(now.epoch_millis() == 0);
    }
}

/// The times of two messages are as far apart as their showings: whole seconds are so many thousands
/// of milliseconds.
pub proof fn messages_are_as_far_apart_as_shown(
    earlier_options: OptionsModel,
    later_options: OptionsModel,
    earlier: Timestamp,
    later: Timestamp,
    secs: int,
)
    requires
        0 <= earlier.secs,
        0 <= secs,
        later.secs == earlier.secs + secs,
        later.nanos == earlier.nanos,
        later.secs < 0x20_0000_0000_0000,
    ensures
        center::message_of(earlier_options, earlier) matches Some(first) ==> (center::message_of(
            later_options,
            later,
        ) matches Some(second) ==> second.message.timestamp_ms - first.message.timestamp_ms == 1000
            * secs),
{
    messages_carry_the_time(earlier_options, earlier);
    messages_carry_the_time(later_options, later);
}

/// A notification in a conversation adds its body to it, if there is more to that than white space:
/// under the title, or under the conversation's name where the title says nothing. White space around
/// either is left out.
pub proof fn messages_say_what_is_shown(options: OptionsModel, now: Timestamp)
    ensures
        center::message_of(options, now) is Some <==> options.conversation is Some && (
        options.body matches Some(body) && exists|i: int|
            0 <= i < body.len() && !text::white_space(#[trigger] body[i])),
        center::message_of(options, now) matches Some(added) ==> {
            &&& options.conversation matches Some(conversation) && {
                &&& added.conversation_id == conversation.id
                &&& match options.title {
                    Some(title) => if forall|i: int|
                        0 <= i < title.len() ==> text::white_space(#[trigger] title[i]) {
                        added.message.sender == conversation.name
                    } else {
                        text::trims_to(title, added.message.sender) && added.message.sender.len()
                            > 0
                    },
                    None => added.message.sender == conversation.name,
                }
            }
            &&& options.body matches Some(body) && text::trims_to(body, added.message.text)
            &&& added.message.text.len() > 0
        },
{
    match options.body {
        Some(body) => text::trimmed_trims(body),
        None => {},
    }
    match options.title {
        Some(title) => text::trimmed_trims(title),
        None => {},
    }
}

/// A notification is shown with up to eight messages of its conversation: the latest, oldest first, and
/// its own at the end. All else about it stays.
pub proof fn conversations_show_the_last_eight(
    center: CenterModel,
    options: OptionsModel,
    now: Timestamp,
)
    ensures
        ({
            let showing = center.prepared(options, now);
            let shown = showing.options.conversation_messages;
            &&& showing.pending == center::message_of(options, now)
            &&& showing.options == (OptionsModel { conversation_messages: shown, ..options })
            &&& showing.pending is None ==> shown == options.conversation_messages
            &&& showing.pending matches Some(added) ==> {
                let known = if center.histories.dom().contains(added.conversation_id) {
                    center.histories[added.conversation_id]
                } else {
                    Seq::empty()
                };
                &&& shown.len() == if known.len() < 8 {
                    known.len() + 1
                } else {
                    8
                }
                &&& shown.last() == added.message
                &&& forall|i: int|
                    0 <= i < shown.len() - 1 ==> #[trigger] shown[i] == known[known.len() + 1
                        - shown.len() + i]
            }
        }),
{
}

/// Once it is shown, a message is the latest of its conversation, and up to eight are kept. No other
/// conversation is touched, and nothing that is scheduled or waits.
pub proof fn shown_messages_are_kept(center: CenterModel, showing: ShowingModel, other: Seq<char>)
    ensures
        ({
            let after = center.after_shown(showing);
            &&& after.scheduled == center.scheduled
            &&& after.queue == center.queue
            &&& after.app_id == center.app_id
            &&& after.next_id == center.next_id
            &&& after.generation == center.generation
            &&& after.provides_settings == center.provides_settings
            &&& after.critical_alerts == center.critical_alerts
            &&& showing.pending is None ==> after.histories == center.histories
            &&& showing.pending matches Some(added) ==> {
                let known = if center.histories.dom().contains(added.conversation_id) {
                    center.histories[added.conversation_id]
                } else {
                    Seq::empty()
                };
                let kept = after.histories[added.conversation_id];
                &&& after.histories.dom().contains(added.conversation_id)
                &&& kept.len() == if known.len() < 8 {
                    known.len() + 1
                } else {
                    8
                }
                &&& kept.last() == added.message
                &&& forall|i: int|
                    0 <= i < kept.len() - 1 ==> #[trigger] kept[i] == known[known.len() + 1
                        - kept.len() + i]
                &&& other != added.conversation_id ==> (after.histories.dom().contains(other)
                    <==> center.histories.dom().contains(other)) && after.histories[other]
                    == center.histories[other]
            }
        }),
{
}

/// Progress is remembered of a notification that shows any, and of no other.
pub proof fn shown_progress_is_kept(center: CenterModel, showing: ShowingModel, id: Seq<char>)
    ensures
        ({
            let after = center.after_shown(showing);
            &&& id == showing.options.id ==> (after.progress.dom().contains(id)
                <==> showing.options.progress is Some)
            &&& id == showing.options.id && showing.options.progress is Some ==> after.progress[id]
                == showing.options
            &&& id != showing.options.id ==> (after.progress.dom().contains(id)
                <==> center.progress.dom().contains(id))
            &&& id != showing.options.id && center.progress.dom().contains(id)
                ==> after.progress[id] == center.progress[id]
        }),
{
}

/// What is due within fifty milliseconds, or was due before, is shown at once. What is due later is the
/// system's to show, where it can; else a timer is set for just the time that is left.
pub proof fn notifications_are_shown_when_due(
    center: CenterModel,
    options: OptionsModel,
    native_scheduling: bool,
    pid: u32,
    now: Timestamp,
)
    requires
        options.validity() is Ok,
    ensures
        ({
            let (after, step) = center.show(options, native_scheduling, pid, now);
            let left = match options.scheduled_time {
                Some(due) => (due.secs * 1_000_000_000 + due.nanos) - (now.secs * 1_000_000_000
                    + now.nanos),
                None => 0,
            };
            &&& step is Ok
            &&& left < 50_000_000 <==> step->Ok_0 is Now
            &&& left >= 50_000_000 && native_scheduling <==> step->Ok_0 is BySystem
            &&& left >= 50_000_000 && !native_scheduling <==> step->Ok_0 is ByTimer
            &&& step matches Ok(ShowModel::Now(showing)) ==> {
                &&& showing.options.scheduled_time is None
                &&& !after.scheduled.dom().contains(showing.options.id)
                &&& after.generation == center.generation
            }
            &&& step matches Ok(ShowModel::BySystem(shown)) ==> {
                &&& shown == (OptionsModel { id: shown.id, ..options })
                &&& !after.progress.dom().contains(shown.id)
                &&& after.scheduled == center.scheduled
            }
            &&& step matches Ok(
                ShowModel::ByTimer { options: shown, generation, delay_nanos },
            ) ==> {
                &&& delay_nanos == left
                &&& shown == (OptionsModel { id: shown.id, scheduled_time: None, ..options })
                &&& generation == center.generation
                &&& after.scheduled == center.scheduled.insert(shown.id, generation)
                &&& after.generation as int == if center.generation == u64::MAX {
                    0
                } else {
                    center.generation + 1
                }
            }
        }),
{
    match options.scheduled_time {
        Some(due) => {
            assert(due.instant() == due.secs * 1_000_000_000 + due.nanos);
        },
        None => {},
    }
    assert(now.instant() == now.secs * 1_000_000_000 + now.nanos);
    let (after, step) = center.show(options, native_scheduling, pid, now);
    match step {
        Ok(ShowModel::BySystem(shown)) => {
            assert(shown =~= OptionsModel { id: shown.id, ..options });
        },
        Ok(ShowModel::ByTimer { options: shown, .. }) => {
            assert(shown =~= OptionsModel { id: shown.id, scheduled_time: None, ..options });
        },
        _ => {},
    }
}

/// A notification keeps the id that it has. One without gets the number of those before it, behind the
/// number of the process, and that number is then used up.
pub proof fn notifications_without_an_id_are_numbered(
    center: CenterModel,
    options: OptionsModel,
    pid: u32,
)
    ensures
        ({
            let (after, shown) = center.identified(options, pid);
            &&& shown == (OptionsModel { id: shown.id, ..options })
            &&& after == (CenterModel { next_id: after.next_id, ..center })
            &&& options.id.len() > 0 ==> shown.id == options.id && after.next_id == center.next_id
            &&& options.id.len() == 0 ==> shown.id == "robius-notification-"@
                + text::decimal_text(pid as nat) + seq!['-'] + text::decimal_text(
                center.next_id as nat,
            )
            &&& options.id.len() == 0 ==> after.next_id as int == if center.next_id == u64::MAX {
                0
            } else {
                center.next_id + 1
            }
        }),
{
    reveal_strlit("-");
    assert("-"@ =~= seq!['-']);
    let (after, shown) = center.identified(options, pid);
    assert(shown =~= OptionsModel { id: shown.id, ..options });
    assert(after =~= CenterModel { next_id: after.next_id, ..center });
}

/// A timer brings its notification once, if that is still scheduled and was not scheduled anew.
pub proof fn timers_bring_what_they_were_set_for(
    center: CenterModel,
    options: OptionsModel,
    generation: u64,
    now: Timestamp,
)
    ensures
        ({
            let (after, showing) = center.fire(options, generation, now);
            let due = center.scheduled.dom().contains(options.id) && center.scheduled[options.id]
                == generation;
            &&& showing is Some <==> due
            &&& !due ==> after == center
            &&& due ==> !after.scheduled.dom().contains(options.id)
            &&& showing matches Some(showing) ==> showing.options == (OptionsModel {
                conversation_messages: showing.options.conversation_messages,
                ..options
            }) && showing.pending == center::message_of(options, now)
            &&& after.fire(options, generation, now).1 is None
        }),
{
    let (after, showing) = center.fire(options, generation, now);
    match showing {
        Some(showing) => {
            assert(showing.options =~= OptionsModel {
                conversation_messages: showing.options.conversation_messages,
                ..options
            });
        },
        None => {},
    }
}

/// A notification that is cancelled is neither scheduled nor moved any more. No other is concerned, and
/// nothing else is forgotten.
pub proof fn cancelling_concerns_one_notification(
    center: CenterModel,
    id: Seq<char>,
    other: Seq<char>,
)
    ensures
        ({
            let after = center.cancel(id);
            &&& !after.scheduled.dom().contains(id)
            &&& !after.progress.dom().contains(id)
            &&& other != id ==> {
                &&& after.scheduled.dom().contains(other) <==> center.scheduled.dom().contains(other)
                &&& after.progress.dom().contains(other) <==> center.progress.dom().contains(other)
                &&& after.scheduled[other] == center.scheduled[other]
                &&& after.progress[other] == center.progress[other]
            }
            &&& after.histories == center.histories
            &&& after.queue == center.queue
            &&& after.app_id == center.app_id
            &&& after.next_id == center.next_id
            &&& after.generation == center.generation
        }),
        ({
            let after = center.cancel_all();
            &&& !after.scheduled.dom().contains(other)
            &&& !after.progress.dom().contains(other)
            &&& after.histories == center.histories
            &&& after.queue == center.queue
            &&& after.app_id == center.app_id
            &&& after.next_id == center.next_id
            &&& after.generation == center.generation
        }),
{
}

/// Progress is moved on a notification that shows some, to a part of something, and is what is
/// remembered from then on.
pub proof fn progress_is_moved_where_it_is_shown(
    center: CenterModel,
    id: Seq<char>,
    progress: Progress,
)
    ensures
        ({
            let (after, shown) = center.update(id, progress);
            let possible = {
                &&& id.len() > 0
                &&& center.progress.dom().contains(id)
                &&& progress matches Progress::Determinate { total, .. } ==> total > 0
            };
            &&& possible <==> shown is Ok
            &&& !possible ==> shown == Err::<OptionsModel, Error>(Error::InvalidNotification)
                && after == center
            &&& shown matches Ok(shown) ==> {
                &&& shown.progress == Some(progress)
                &&& shown == (OptionsModel { progress: shown.progress, ..center.progress[id] })
                &&& after.progress == center.progress.insert(id, shown)
                &&& after == (CenterModel { progress: after.progress, ..center })
            }
        }),
{
}

/// Interactions wait in their order until there is a handler, which gets them all. From then on each
/// goes straight to it.
pub proof fn interactions_wait_for_the_handler(
    center: CenterModel,
    interaction: Interaction,
    listening: Result<()>,
)
    ensures
        center.queue is None ==> center.deliver(interaction) == (center, Some(interaction)),
        center.queue matches Some(queue) ==> {
            &&& center.deliver(interaction).1 is None
            &&& center.deliver(interaction).0 == (CenterModel {
                queue: Some(queue.push(interaction)),
                ..center
            })
        },
        center.queue is None ==> center.register(listening) == (
            center,
            Err::<Seq<Interaction>, Error>(Error::HandlerAlreadySet),
        ),
        center.queue matches Some(queue) ==> match listening {
            Ok(_) => center.register(listening) == (
                CenterModel { queue: None, ..center },
                Ok::<Seq<Interaction>, Error>(queue),
            ),
            Err(error) => center.register(listening) == (
                center,
                Err::<Seq<Interaction>, Error>(error),
            ),
        },
{
}

} // verus!
