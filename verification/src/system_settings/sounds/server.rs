//! A server that holds devices, streams and cards and changes them on
//! request only: what it reports to a call, and what the calls of the
//! controllers make of that. What holds of every such server is stated
//! here for the calls that follow one another.
use vstd::prelude::*;
use super::controllers::calls::{
    flag_answer, is_lookup, item_answer, item_step, item_taken, list_answer, list_step,
    list_taken, ItemTaken, ListResult, ListTaken,
};
use super::controllers::request::Request;
use super::controllers::types::{profile_names, ApplicationInfo, DeviceInfo, SoundCardInfo};
use super::errors::ControlError;
use super::volume::ChannelVolumes;
use crate::helpers::search::{first_index, lemma_first_index, lemma_first_index_is_first};

verus! {

/// The devices with this index.
pub open spec fn device_at(index: u32) -> spec_fn(DeviceInfo) -> bool {
    |d: DeviceInfo| d.index == index
}

/// The devices with this name.
pub open spec fn device_named(name: Seq<char>) -> spec_fn(DeviceInfo) -> bool {
    |d: DeviceInfo| d.name@ == name
}

/// The streams with this index.
pub open spec fn stream_at(index: u32) -> spec_fn(ApplicationInfo) -> bool {
    |a: ApplicationInfo| a.index == index
}

/// The cards with this index.
pub open spec fn card_at(index: u32) -> spec_fn(SoundCardInfo) -> bool {
    |c: SoundCardInfo| c.index == index
}

/// What the server reports to a lookup: the first of its things that
/// fits, where one does, and then the end.
pub open spec fn found<T>(things: Seq<T>, fits: spec_fn(T) -> bool) -> Seq<ListResult<T>> {
    let k = first_index(things, fits);
    if k < things.len() {
        seq![ListResult::Item(things[k]), ListResult::End]
    } else {
        seq![ListResult::End]
    }
}

/// What the server reports to a listing: its things in their order, and
/// then the end.
pub open spec fn listed<T>(things: Seq<T>) -> Seq<ListResult<T>> {
    Seq::new(things.len(), |i: int| ListResult::Item(things[i])).push(ListResult::End)
}

/// What a whole lookup gives for what the server reports, where the
/// operation is done.
pub open spec fn lookup_answer<T>(request: Request, reports: Seq<ListResult<T>>) -> Result<
    T,
    ControlError,
> {
    let taken = item_taken(ItemTaken { item: None, failed: false }, reports);
    item_answer(request, taken.item, taken.failed, Ok(()))
}

/// What a whole listing gives for what the server reports, where the
/// operation is done.
pub open spec fn listing_answer<T>(reports: Seq<ListResult<T>>) -> Result<Seq<T>, ControlError> {
    let taken = list_taken(
        ListTaken { items: Seq::<T>::empty(), ended: false, failed: false },
        reports,
    );
    list_answer(taken.items, taken.failed, Ok(()))
}

/// What a whole change gives for the success that the server reports,
/// where the operation is done.
pub open spec fn change_answer(success: bool) -> Result<bool, ControlError> {
    flag_answer(Some(success), Ok(()))
}

/// The devices after the server was asked to set the volume of the device
/// with this index, and whether it did: it does where it has such a device
/// and the volume has as many channels as the device.
pub open spec fn volume_set(devices: Seq<DeviceInfo>, index: u32, volume: ChannelVolumes) -> (
    Seq<DeviceInfo>,
    bool,
) {
    let k = first_index(devices, device_at(index));
    if k < devices.len() && devices[k].volume@.len() == volume@.len() {
        (devices.update(k, DeviceInfo { volume: volume, ..devices[k] }), true)
    } else {
        (devices, false)
    }
}

/// The streams after the server was asked to mute or unmute the stream
/// with this index, and whether it did: it does where it has such a
/// stream.
pub open spec fn mute_set(streams: Seq<ApplicationInfo>, index: u32, mute: bool) -> (
    Seq<ApplicationInfo>,
    bool,
) {
    let k = first_index(streams, stream_at(index));
    if k < streams.len() {
        (streams.update(k, ApplicationInfo { mute: mute, ..streams[k] }), true)
    } else {
        (streams, false)
    }
}

/// The cards after the server was asked to switch the card with this index
/// to a profile, and whether it did: it does where it has such a card and
/// the card has a profile of that name.
pub open spec fn profile_set(cards: Seq<SoundCardInfo>, index: u32, profile: String) -> (
    Seq<SoundCardInfo>,
    bool,
) {
    let k = first_index(cards, card_at(index));
    if k < cards.len() && profile_names(cards[k].profiles@).contains(profile@) {
        (cards.update(k, SoundCardInfo { active_profile: Some(profile), ..cards[k] }), true)
    } else {
        (cards, false)
    }
}

/// A lookup gives the first thing that fits, and `NotFound` where the
/// server holds none.
pub proof fn lemma_lookup_finds<T>(request: Request, things: Seq<T>, fits: spec_fn(T) -> bool)
    requires
        is_lookup(request),
    ensures
        lookup_answer(request, found(things, fits)) == if first_index(things, fits)
            < things.len() {
            Ok::<T, ControlError>(things[first_index(things, fits)])
        } else {
            Err::<T, ControlError>(ControlError::NotFound)
        },
{
    let start = ItemTaken::<T> { item: None, failed: false };
    let k = first_index(things, fits);
    let end = seq![ListResult::<T>::End];
    assert(end.drop_first() =~= Seq::<ListResult<T>>::empty());
    assert(forall|t: ItemTaken<T>| item_taken(t, end) == item_taken(
        item_step(t, ListResult::End),
        end.drop_first(),
    ));
    if k < things.len() {
        let reports = seq![ListResult::Item(things[k]), ListResult::End];
        assert(reports.drop_first() =~= end);
        assert(item_taken(start, reports) == item_taken(item_step(start, reports[0]), end));
    }
}

proof fn lemma_listing_taken<T>(taken: ListTaken<T>, things: Seq<T>)
    requires
        !taken.ended,
        !taken.failed,
    ensures
        list_taken(taken, listed(things)) == (ListTaken {
            items: taken.items + things,
            ended: true,
            failed: false,
        }),
    decreases things.len(),
{
    let reports = listed(things);
    if things.len() == 0 {
        assert(reports.drop_first() =~= Seq::<ListResult<T>>::empty());
        assert(reports[0] == ListResult::<T>::End);
        assert(list_taken(list_step(taken, reports[0]), reports.drop_first()) == list_step(
            taken,
            reports[0],
        ));
        assert(taken.items + things =~= taken.items);
    } else {
        assert(reports[0] == ListResult::Item(things[0]));
        assert(reports.drop_first() =~= listed(things.drop_first()));
        let next = list_step(taken, reports[0]);
        lemma_listing_taken(next, things.drop_first());
        assert(taken.items.push(things[0]) + things.drop_first() =~= taken.items + things);
    }
}

/// A listing gives every thing that the server holds, in the order in
/// which the server holds them.
pub proof fn lemma_listing_gives_all<T>(things: Seq<T>)
    ensures
        listing_answer(listed(things)) == Ok::<Seq<T>, ControlError>(things),
{
    let start = ListTaken { items: Seq::<T>::empty(), ended: false, failed: false };
    lemma_listing_taken(start, things);
    assert(Seq::<T>::empty() + things =~= things);
}

/// A lookup by name gives the device of that name: where the names differ
/// from one device to the next, the device at `k` is what the lookup of
/// its name gives, and no other.
pub proof fn lemma_lookup_by_name(devices: Seq<DeviceInfo>, k: int)
    requires
        0 <= k < devices.len(),
        forall|i: int, j: int|
            0 <= i < j < devices.len() ==> devices[i].name@ != devices[j].name@,
    ensures
        lookup_answer(
            Request::GetSinkInfoByName(devices[k].name),
            found(devices, device_named(devices[k].name@)),
        ) == Ok::<DeviceInfo, ControlError>(devices[k]),
{
    let fits = device_named(devices[k].name@);
    assert forall|i: int| 0 <= i < k implies !fits(#[trigger] devices[i]) by {}
    lemma_first_index(devices, fits, k);
    lemma_lookup_finds(Request::GetSinkInfoByName(devices[k].name), devices, fits);
}

/// A volume that was set is the volume that the next lookup shows: where
/// the server has a device of the index with as many channels, the change
/// succeeds, and the lookup of the index then gives that device with the
/// volume set and all else as it was.
pub proof fn lemma_volume_set_is_seen(devices: Seq<DeviceInfo>, index: u32, volume: ChannelVolumes)
    requires
        first_index(devices, device_at(index)) < devices.len(),
        devices[first_index(devices, device_at(index))].volume@.len() == volume@.len(),
    ensures
        change_answer(volume_set(devices, index, volume).1) == Ok::<bool, ControlError>(true),
        lookup_answer(
            Request::GetSinkInfoByIndex(index),
            found(volume_set(devices, index, volume).0, device_at(index)),
        ) == Ok::<DeviceInfo, ControlError>(
            DeviceInfo { volume: volume, ..devices[first_index(devices, device_at(index))] },
        ),
        devices[first_index(devices, device_at(index))].index == index,
{
    let fits = device_at(index);
    let k = first_index(devices, fits);
    lemma_first_index_is_first(devices, fits);
    let after = volume_set(devices, index, volume).0;
    assert forall|i: int| 0 <= i < k implies !fits(#[trigger] after[i]) by {
        assert(after[i] == devices[i]);
    }
    assert(fits(after[k]));
    lemma_first_index(after, fits, k);
    lemma_lookup_finds(Request::GetSinkInfoByIndex(index), after, fits);
}

/// A mute that was set is the mute that the next lookup shows, and a
/// second change undoes the first: where the server has a stream of the
/// index, both changes succeed, the lookup after the first gives the
/// stream with the mute set, and the lookup after the second gives it
/// with the second mute and all else as it was at the start.
pub proof fn lemma_mute_is_seen(
    streams: Seq<ApplicationInfo>,
    index: u32,
    first: bool,
    second: bool,
)
    requires
        first_index(streams, stream_at(index)) < streams.len(),
    ensures
        ({
            let k = first_index(streams, stream_at(index));
            let once = mute_set(streams, index, first);
            let twice = mute_set(once.0, index, second);
            &&& streams[k].index == index
            &&& change_answer(once.1) == Ok::<bool, ControlError>(true)
            &&& change_answer(twice.1) == Ok::<bool, ControlError>(true)
            &&& lookup_answer(Request::GetSinkInputInfo(index), found(once.0, stream_at(index)))
                == Ok::<ApplicationInfo, ControlError>(
                ApplicationInfo { mute: first, ..streams[k] },
            )
            &&& lookup_answer(Request::GetSinkInputInfo(index), found(twice.0, stream_at(index)))
                == Ok::<ApplicationInfo, ControlError>(
                ApplicationInfo { mute: second, ..streams[k] },
            )
        }),
{
    let fits = stream_at(index);
    let k = first_index(streams, fits);
    lemma_first_index_is_first(streams, fits);
    let once = mute_set(streams, index, first).0;
    assert forall|i: int| 0 <= i < k implies !fits(#[trigger] once[i]) by {
        assert(once[i] == streams[i]);
    }
    assert(fits(once[k]));
    lemma_first_index(once, fits, k);
    lemma_lookup_finds(Request::GetSinkInputInfo(index), once, fits);
    let twice = mute_set(once, index, second).0;
    assert forall|i: int| 0 <= i < k implies !fits(#[trigger] twice[i]) by {
        assert(twice[i] == streams[i]);
    }
    assert(fits(twice[k]));
    lemma_first_index(twice, fits, k);
    lemma_lookup_finds(Request::GetSinkInputInfo(index), twice, fits);
}

/// A switch to a profile that the card does not have is refused and
/// changes nothing: the change gives `SetFailed`, and the lookup of the
/// card gives after it what it gave before.
pub proof fn lemma_refused_profile_changes_nothing(
    cards: Seq<SoundCardInfo>,
    index: u32,
    profile: String,
)
    requires
        first_index(cards, card_at(index)) < cards.len(),
        !profile_names(cards[first_index(cards, card_at(index))].profiles@).contains(profile@),
    ensures
        change_answer(profile_set(cards, index, profile).1) == Err::<bool, ControlError>(
            ControlError::SetFailed,
        ),
        profile_set(cards, index, profile).0 == cards,
        lookup_answer(
            Request::GetCardInfoByIndex(index),
            found(profile_set(cards, index, profile).0, card_at(index)),
        ) == Ok::<SoundCardInfo, ControlError>(cards[first_index(cards, card_at(index))]),
{
    lemma_lookup_finds(Request::GetCardInfoByIndex(index), cards, card_at(index));
}

} // verus!
