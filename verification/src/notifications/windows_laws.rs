//! What always holds of toasts.

use super::options::OptionsModel;
use super::windows::{ArgumentsModel, ToastsModel, WaitingModel};
use crate::percent;
use crate::text;
use crate::time::Timestamp;
use vstd::prelude::*;
use vstd::utf8::*;

verus! {

proof fn id_field_is_read(earlier: ArgumentsModel, id: Seq<char>)
    ensures
        earlier.read(super::windows::field("id"@, percent::encoded(id))) == (ArgumentsModel {
            notification_id: id,
            ..earlier
        }),
{
    reveal_strlit("id");
    percent::halves_of_joined("id"@, percent::encoded(id), '=');
    percent::encoded_text_decodes_to_itself(id);
}

proof fn action_field_is_read(earlier: ArgumentsModel, action_id: Seq<char>)
    ensures
        earlier.read(super::windows::field("action"@, percent::encoded(action_id))) == (
        ArgumentsModel { action_id: Some(action_id), ..earlier }),
{
    reveal_strlit("id");
    reveal_strlit("action");
    percent::halves_of_joined("action"@, percent::encoded(action_id), '=');
    percent::encoded_text_decodes_to_itself(action_id);
    assert("action"@.len() != "id"@.len());
}

proof fn pair_field_is_read(earlier: ArgumentsModel, pair: (Seq<char>, Seq<char>))
    ensures
        earlier.read(super::windows::pair_field(pair)) == (ArgumentsModel {
            metadata: earlier.metadata.push(pair),
            ..earlier
        }),
{
    reveal_strlit("id");
    reveal_strlit("action");
    reveal_strlit("m");
    let key = percent::encoded(pair.0);
    let value = percent::encoded(pair.1);
    percent::halves_of_joined("m"@, key.push(':') + value, '=');
    percent::encoded_text_is_plain(encode_utf8(pair.0));
    percent::halves_of_joined(key, value, ':');
    percent::encoded_text_decodes_to_itself(pair.0);
    percent::encoded_text_decodes_to_itself(pair.1);
    assert("m"@.len() != "id"@.len());
    assert("m"@.len() != "action"@.len());
}

/// No field holds what separates the fields.
proof fn fields_hold_no_separator(name: Seq<char>, value: Seq<char>)
    requires
        forall|i: int| 0 <= i < name.len() ==> #[trigger] name[i] != '&',
        forall|i: int| 0 <= i < value.len() ==> #[trigger] value[i] != '&',
    ensures
        forall|i: int|
            0 <= i < super::windows::field(name, value).len() ==> #[trigger] super::windows::field(
                name,
                value,
            )[i] != '&',
{
    let all = super::windows::field(name, value);
    assert forall|i: int| 0 <= i < all.len() implies #[trigger] all[i] != '&' by {
        if i < name.len() {
            assert(all[i] == name[i]);
        } else if i > name.len() {
            assert(all[i] == value[i - name.len() - 1]);
        }
    }
}

proof fn metadata_is_read(start: Seq<char>, metadata: Seq<(Seq<char>, Seq<char>)>)
    ensures
        super::windows::arguments_of(super::windows::with_metadata(start, metadata)) == (
        ArgumentsModel {
            metadata: super::windows::arguments_of(start).metadata + metadata,
            ..super::windows::arguments_of(start)
        }),
    decreases metadata.len(),
{
    if metadata.len() == 0 {
        assert(super::windows::arguments_of(start).metadata + metadata
            == super::windows::arguments_of(start).metadata);
    } else {
        let earlier = super::windows::with_metadata(start, metadata.drop_last());
        let pair = metadata.last();
        let key = percent::encoded(pair.0);
        let value = percent::encoded(pair.1);
        metadata_is_read(start, metadata.drop_last());
        percent::encoded_text_is_plain(encode_utf8(pair.0));
        percent::encoded_text_is_plain(encode_utf8(pair.1));
        let both = key.push(':') + value;
        assert forall|i: int| 0 <= i < both.len() implies #[trigger] both[i] != '&' by {
            if i < key.len() {
                assert(both[i] == key[i]);
            } else if i > key.len() {
                assert(both[i] == value[i - key.len() - 1]);
            }
        }
        reveal_strlit("m");
        fields_hold_no_separator("m"@, both);
        percent::last_piece(earlier, super::windows::pair_field(pair), '&');
        let pieces = percent::pieces(earlier, '&');
        assert(pieces.push(super::windows::pair_field(pair)).drop_last() == pieces);
        pair_field_is_read(super::windows::arguments_of(earlier), pair);
        assert((super::windows::arguments_of(start).metadata + metadata.drop_last()).push(pair)
            == super::windows::arguments_of(start).metadata + metadata);
    }
}

/// Whatever ids and metadata a toast was made with, acting on it brings all of them back: text of
/// any kind, in the same order, with every pair that was there.
pub proof fn arguments_come_back(
    id: Seq<char>,
    action_id: Option<Seq<char>>,
    metadata: Seq<(Seq<char>, Seq<char>)>,
)
    ensures
        super::windows::arguments_of(super::windows::arguments_text(id, action_id, metadata)) == (
        ArgumentsModel { notification_id: id, action_id, metadata }),
{
    reveal_strlit("id");
    reveal_strlit("action");
    let first = super::windows::field("id"@, percent::encoded(id));
    percent::encoded_text_is_plain(encode_utf8(id));
    fields_hold_no_separator("id"@, percent::encoded(id));
    percent::one_piece(first, '&');
    id_field_is_read(ArgumentsModel::empty(), id);
    let pieces = seq![first];
    assert(pieces.drop_last() == Seq::<Seq<char>>::empty());
    assert(super::windows::read_all(pieces.drop_last()) == ArgumentsModel::empty());
    assert(super::windows::arguments_of(first) == ArgumentsModel::empty().read(first));
    match action_id {
        Some(action_id) => {
            let second = super::windows::field("action"@, percent::encoded(action_id));
            percent::encoded_text_is_plain(encode_utf8(action_id));
            fields_hold_no_separator("action"@, percent::encoded(action_id));
            percent::last_piece(first, second, '&');
            assert(seq![first].push(second).drop_last() == seq![first]);
            action_field_is_read(super::windows::arguments_of(first), action_id);
            metadata_is_read(first.push('&') + second, metadata);
        },
        None => {
            metadata_is_read(first, metadata);
        },
    }
    assert(Seq::<(Seq<char>, Seq<char>)>::empty() + metadata == metadata);
}

/// Neither content nor attributes can be broken out of: what is written holds no markup and no
/// quotes.
pub proof fn written_text_stays_inside(text: Seq<char>)
    ensures
        forall|i: int|
            0 <= i < super::windows::xml_text(text).len() ==> {
                let c = #[trigger] super::windows::xml_text(text)[i];
                c != '<' && c != '>' && c != '"' && c != '\''
            },
    decreases text.len(),
{
    reveal_strlit("&amp;");
    reveal_strlit("&lt;");
    reveal_strlit("&gt;");
    reveal_strlit("&quot;");
    reveal_strlit("&apos;");
    if text.len() > 0 {
        written_text_stays_inside(text.drop_last());
        let rest = super::windows::xml_text(text.drop_last());
        let last = super::windows::xml_char(text.last());
        let all = super::windows::xml_text(text);
        assert(all == rest + last);
        assert forall|i: int| 0 <= i < all.len() implies {
            let c = #[trigger] all[i];
            c != '<' && c != '>' && c != '"' && c != '\''
        } by {
            if i < rest.len() {
                assert(rest[i] == all[i]);
            } else {
                assert(last[i - rest.len()] == all[i]);
            }
        }
    }
}

/// A tag always has sixteen characters.
pub proof fn tags_have_sixteen_characters(id: Seq<char>)
    ensures
        super::windows::tag_text(id).len() == 16,
{
    hex_text_has_its_width(
        crate::fnv::hashed(crate::fnv::OFFSET_BASIS, encode_utf8(id)) as nat,
        16,
    );
}

proof fn hex_text_has_its_width(n: nat, width: nat)
    ensures
        text::hex_text(n, width).len() == width,
    decreases width,
{
    if width > 0 {
        hex_text_has_its_width(n / 16, (width - 1) as nat);
    }
}

/// A toast never has more actions than the system takes, and the first ones are kept.
pub proof fn only_the_first_actions_are_shown(options: OptionsModel)
    ensures
        super::windows::shown_actions(options.actions).len() <= super::windows::MAX_ACTIONS,
        forall|i: int|
            0 <= i < super::windows::shown_actions(options.actions).len()
                ==> #[trigger] super::windows::shown_actions(options.actions)[i]
                == options.actions[i],
{
}

/// The numbers of a notification's data go up by one each time, and start at one again once it is
/// cancelled.
pub proof fn progress_numbers_go_up(toasts: ToastsModel, id: Seq<char>)
    requires
        !toasts.exhausted(super::windows::tag_text(id)),
    ensures
        ({
            let tag = super::windows::tag_text(id);
            &&& toasts.bumped(tag).next_number(tag) == toasts.next_number(tag) + 1
            &&& toasts.without_progress(id).next_number(tag) == 1
        }),
{
}

/// A notification with progress alerts the user when it is first shown and not again, however often
/// it is shown or moved, until it is cancelled. Notifications without progress always alert.
pub proof fn progress_alerts_once(toasts: ToastsModel, options: OptionsModel)
    ensures
        ({
            let tag = super::windows::tag_text(options.id);
            &&& options.progress is Some ==> toasts.bumped(tag).shows_quietly(options)
            &&& options.progress is Some ==> toasts.bumped(tag).bumped(tag).shows_quietly(options)
            &&& !ToastsModel::empty().shows_quietly(options)
            &&& !toasts.without_progress(options.id).shows_quietly(options)
            &&& options.progress is None ==> !toasts.shows_quietly(options)
        }),
{
}

/// Whatever progress a toast is shown with is numbered before it is on screen: the number is
/// remembered, is one more than the one before, and the next showing does not alert the user.
pub proof fn shown_progress_is_numbered(toasts: ToastsModel, options: OptionsModel)
    requires
        options.progress is Some,
        !toasts.exhausted(super::windows::tag_text(options.id)),
    ensures
        ({
            let tag = super::windows::tag_text(options.id);
            let after = toasts.numbered(options);
            &&& after.progress_seqs.dom().contains(tag)
            &&& after.progress_seqs[tag] == toasts.next_number(tag)
            &&& after.shows_quietly(options)
        }),
{
}

proof fn places_are_exact(wanted: Option<Seq<char>>, waiting: Seq<WaitingModel>, place: int)
    ensures
        super::windows::removable_places(wanted, waiting).contains(place) <==> 0 <= place
            < waiting.len() && super::windows::removable(
            wanted,
            waiting[place].tag,
            waiting[place].group,
        ),
    decreases waiting.len(),
{
    if waiting.len() > 0 {
        let rest = waiting.drop_last();
        let earlier = super::windows::removable_places(wanted, rest);
        let all = super::windows::removable_places(wanted, waiting);
        places_are_exact(wanted, rest, place);
        if earlier.contains(place) {
            let k = choose|k: int| 0 <= k < earlier.len() && earlier[k] == place;
            assert(all[k] == place);
            assert(rest[place] == waiting[place]);
        }
        if all.contains(place) && place != waiting.len() - 1 {
            let k = choose|k: int| 0 <= k < all.len() && all[k] == place;
            assert(earlier[k] == place);
        }
        if place == waiting.len() - 1 && super::windows::removable(
            wanted,
            waiting[place].tag,
            waiting[place].group,
        ) {
            assert(all[all.len() - 1] == place);
        }
        if 0 <= place < rest.len() {
            assert(rest[place] == waiting[place]);
        }
    }
}

/// A notification that is shown or scheduled takes the place of every scheduled one of its id that
/// still waits, and of no other toast.
pub proof fn waiting_toasts_are_replaced(id: Seq<char>, waiting: Seq<WaitingModel>, place: int)
    ensures
        super::windows::removable_places(
            Some(super::windows::tag_text(id)),
            waiting,
        ).contains(place) <==> 0 <= place < waiting.len() && waiting[place].tag == Some(
            super::windows::tag_text(id),
        ),
{
    places_are_exact(Some(super::windows::tag_text(id)), waiting, place);
}

/// Once everything is cancelled, every scheduled toast of ours is removed, whatever its tag.
pub proof fn cancelling_all_leaves_nothing_waiting(waiting: Seq<WaitingModel>, place: int)
    requires
        0 <= place < waiting.len(),
        waiting[place].group == Some(super::windows::GROUP@),
    ensures
        super::windows::removable_places(None, waiting).contains(place),
{
    places_are_exact(None, waiting, place);
}

/// A time that was handed to the system and comes back from it is the same time, to a tenth of a
/// microsecond.
pub proof fn times_come_back(time: Timestamp)
    requires
        0 <= time.instant(),
        time.instant() / 100 + super::windows::UNIX_EPOCH_TICKS <= i64::MAX,
    ensures
        (super::windows::ticks(time) - crate::location::windows::UNIX_EPOCH_TICKS) * 100
            == time.instant() - time.instant() % 100,
{
    let since = time.instant() / 100;
    assert(super::windows::low_bits(since) == since) by {
        assert((since + 0x8000_0000_0000_0000) % 0x1_0000_0000_0000_0000 == since
            + 0x8000_0000_0000_0000);
    }
}

} // verus!
