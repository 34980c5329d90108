//! Which notifications can be shown.

use super::options::OptionsModel;
use super::{Error, Progress};
use crate::text;
use vstd::prelude::*;

verus! {

/// A notification says something if its title or its body holds more than white space; one that says
/// nothing is empty, whatever else is wrong with it.
pub proof fn notifications_say_something(options: OptionsModel)
    ensures
        options.validity() == Err::<(), Error>(Error::Empty) <==> {
            &&& options.title matches Some(title) ==> forall|i: int|
                0 <= i < title.len() ==> text::white_space(#[trigger] title[i])
            &&& options.body matches Some(body) ==> forall|i: int|
                0 <= i < body.len() ==> text::white_space(#[trigger] body[i])
        },
        options.validity() matches Err(error) ==> error == Error::Empty || error
            == Error::InvalidNotification,
{
}

/// No action of a notification that can be shown lacks an id or a title, and no two share an id.
pub proof fn shown_actions_can_be_told_apart(options: OptionsModel, first: int, second: int)
    requires
        options.validity() is Ok,
        0 <= first < second < options.actions.len(),
    ensures
        options.actions[first].id@ != options.actions[second].id@,
        options.actions[first].id@.len() > 0,
        options.actions[first].title@.len() > 0,
        options.actions[second].id@.len() > 0,
        options.actions[second].title@.len() > 0,
{
    assert(!text::blank(options.actions[first].id@));
    assert(!text::blank(options.actions[second].id@));
}

/// Whatever is set of a notification that can be shown is there: its channel and that channel's group
/// have ids and names, its conversation has them too, no key is blank, no file's path is empty, and
/// progress is a part of something.
pub proof fn shown_notifications_are_complete(options: OptionsModel, key: int, action: int)
    requires
        options.validity() is Ok,
    ensures
        0 <= key < options.metadata.len() ==> !text::blank(options.metadata[key].0),
        0 <= action < options.actions.len() ==> !text::blank(options.actions[action].id@)
            && !text::blank(options.actions[action].title@),
        options.channel matches Some(channel) ==> {
            &&& !text::blank(channel.id@)
            &&& !text::blank(channel.name@)
            &&& channel.group matches Some(group) ==> !text::blank(group.0@) && !text::blank(
                group.1@,
            )
        },
        options.conversation matches Some(conversation) ==> {
            &&& !text::blank(conversation.id)
            &&& !text::blank(conversation.name)
            &&& conversation.icon matches Some(icon) ==> icon.len() > 0
        },
        options.image matches Some(image) ==> image.len() > 0,
        options.progress matches Some(Progress::Determinate { total, .. }) ==> total > 0,
{
    if options.image is Some && options.image->Some_0.len() == 0 {
        assert(options.image->Some_0 =~= Seq::<u8>::empty());
    }
    if options.conversation is Some && options.conversation->Some_0.icon is Some
        && options.conversation->Some_0.icon->Some_0.len() == 0 {
        assert(options.conversation->Some_0.icon->Some_0 =~= Seq::<u8>::empty());
    }
}

/// A notification that says something and lacks nothing of what it sets can be shown.
pub proof fn complete_notifications_are_shown(options: OptionsModel)
    requires
        ({
            ||| options.title matches Some(title) && exists|i: int|
                0 <= i < title.len() && !text::white_space(#[trigger] title[i])
            ||| options.body matches Some(body) && exists|i: int|
                0 <= i < body.len() && !text::white_space(#[trigger] body[i])
        }),
        forall|i: int|
            0 <= i < options.actions.len() ==> !text::blank((#[trigger] options.actions[i]).id@)
                && !text::blank(options.actions[i].title@),
        forall|i: int, j: int|
            0 <= i < j < options.actions.len() ==> (#[trigger] options.actions[i]).id@ != (
            #[trigger] options.actions[j]).id@,
        forall|i: int|
            0 <= i < options.metadata.len() ==> !text::blank((#[trigger] options.metadata[i]).0),
        options.channel matches Some(channel) ==> {
            &&& !text::blank(channel.id@)
            &&& !text::blank(channel.name@)
            &&& channel.group matches Some(group) ==> !text::blank(group.0@) && !text::blank(
                group.1@,
            )
        },
        options.conversation matches Some(conversation) ==> {
            &&& !text::blank(conversation.id)
            &&& !text::blank(conversation.name)
            &&& conversation.icon matches Some(icon) ==> icon.len() > 0
        },
        options.image matches Some(image) ==> image.len() > 0,
        options.progress matches Some(Progress::Determinate { total, .. }) ==> total > 0,
    ensures
        options.validity() is Ok,
{
}

} // verus!
