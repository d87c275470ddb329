//! Lists of events of several kinds. The elements of such a list carry no
//! tag: each is told from the others by its shape alone. The kinds that a
//! list may hold are a closed set in a fixed order of priority, and an
//! element belongs to the first kind, in that order, whose shape it has.

use vstd::prelude::*;
use vstd::string::*;
use crate::error::{FormatError, FormatErrorModel};
use crate::json::{entry_models, find, lookup, models, Json, JsonModel};
use crate::record::Record;

verus! {

/// A type whose values are events of one of a closed, ordered set of
/// variants. The variants have the ranks `0` to `variants() - 1`, the
/// rank being the priority: the lower rank is tried first.
pub trait EventVariants: View + Sized {
    /// How many variants there are.
    spec fn variants() -> nat;

    /// The name of the variant of rank `rank`.
    spec fn variant_name(rank: nat) -> Seq<char>;

    /// The event that the variant of rank `rank` reads from `value`, where
    /// `value` has the shape of that variant, whole and with nothing
    /// beside it.
    spec fn read_as(rank: nat, value: JsonModel) -> Option<Self::V>;

    /// The value that writes `event`: the fields of its variant, and no
    /// others.
    spec fn written(event: Self::V) -> JsonModel;

    /// An event whose fields are all such as can be written.
    spec fn is_writable(event: Self::V) -> bool;

    /// A value in which the variant of rank `rank` finds its fields in the
    /// order in which it writes them.
    spec fn is_canonical(rank: nat, value: JsonModel) -> bool;

    /// The rank of the variant that `event` is of.
    spec fn rank_of(event: Self::V) -> nat;

    /// What is written of an event is canonical, is read back as that
    /// event by its own variant, and is not read by any variant of a lower
    /// rank.
    proof fn written_is_read_back(event: Self::V)
        requires
            Self::is_writable(event),
        ensures
            Self::rank_of(event) < Self::variants(),
            Self::read_as(Self::rank_of(event), Self::written(event)) == Some(event),
            Self::is_canonical(Self::rank_of(event), Self::written(event)),
            forall|rank: nat|
                rank < Self::rank_of(event) ==> (#[trigger] Self::read_as(
                    rank,
                    Self::written(event),
                )).is_none(),
    ;

    /// A value that is canonical for the variant it belongs to is written
    /// again, entry for entry, from the event that was read from it, and
    /// the event is one that can be written.
    proof fn read_is_written_back(rank: nat, value: JsonModel)
        requires
            rank < Self::variants(),
            Self::read_as(rank, value).is_some(),
            forall|lower: nat| lower < rank ==> (#[trigger] Self::read_as(lower, value)).is_none(),
            Self::is_canonical(rank, value),
        ensures
            Self::written(Self::read_as(rank, value).unwrap()) == value,
            Self::is_writable(Self::read_as(rank, value).unwrap()),
    ;

    /// How many variants there are.
    fn variant_count() -> (n: usize)
        ensures
            n == Self::variants(),
    ;

    /// The name of the variant of rank `rank`.
    fn variant_label(rank: usize) -> (name: String)
        requires
            rank < Self::variants(),
        ensures
            name@ == Self::variant_name(rank as nat),
    ;

    /// Reads `value` as the variant of rank `rank` reads it, if it has the
    /// shape of that variant.
    fn try_variant(rank: usize, value: &Json) -> (r: Option<Self>)
        requires
            rank < Self::variants(),
        ensures
            match r {
                Some(event) => Self::read_as(rank as nat, value@) == Some(event@),
                None => Self::read_as(rank as nat, value@).is_none(),
            },
    ;

    /// Writes an event as its own variant writes it.
    fn encode(&self) -> (value: Json)
        ensures
            value@ == Self::written(self@),
    ;
}

/// The lowest rank from `from` on whose variant reads `value`.
pub open spec fn first_rank<E: EventVariants>(value: JsonModel, from: nat) -> Option<nat>
    decreases E::variants() - from,
{
    if from >= E::variants() {
        None
    } else if E::read_as(from, value).is_some() {
        Some(from)
    } else {
        first_rank::<E>(value, from + 1)
    }
}

/// The rank of the variant that `value` belongs to: the lowest whose
/// variant reads it.
pub open spec fn selected_rank<E: EventVariants>(value: JsonModel) -> Option<nat> {
    first_rank::<E>(value, 0)
}

/// The event that `value` is: what the variant it belongs to reads from
/// it. `None` where no variant reads it.
pub open spec fn classified<E: EventVariants>(value: JsonModel) -> Option<E::V> {
    match selected_rank::<E>(value) {
        Some(rank) => E::read_as(rank, value),
        None => None,
    }
}

/// The events of a list of values, in the order of the list: `None` where
/// one of the values is no event.
pub open spec fn decoded<E: EventVariants>(items: Seq<JsonModel>) -> Option<Seq<E::V>> {
    if forall|i: int| 0 <= i < items.len() ==> classified::<E>(#[trigger] items[i]).is_some() {
        Some(Seq::new(items.len(), |i: int| classified::<E>(items[i]).unwrap()))
    } else {
        None
    }
}

/// The values that write a list of events, in the order of the list.
pub open spec fn encoded<E: EventVariants>(events: Seq<E::V>) -> Seq<JsonModel> {
    Seq::new(events.len(), |i: int| E::written(events[i]))
}

/// `index` is the place of the first value of `items` that is no event.
pub open spec fn is_first_unmatched<E: EventVariants>(items: Seq<JsonModel>, index: int) -> bool {
    &&& 0 <= index < items.len()
    &&& classified::<E>(items[index]).is_none()
    &&& forall|i: int| 0 <= i < index ==> classified::<E>(#[trigger] items[i]).is_some()
}

/// The names of all the variants, in the order in which they are tried.
pub open spec fn attempted<E: EventVariants>() -> Seq<Seq<char>> {
    Seq::new(E::variants(), |rank: int| E::variant_name(rank as nat))
}

/// What a vector of events holds, one by one.
pub open spec fn event_models<E: EventVariants>(events: Seq<E>) -> Seq<E::V> {
    Seq::new(events.len(), |i: int| events[i]@)
}

/// The first rank found from `from` on is a rank that reads the value,
/// and no rank between the two does.
pub proof fn lemma_first_rank<E: EventVariants>(value: JsonModel, from: nat)
    ensures
        match first_rank::<E>(value, from) {
            Some(rank) => {
                &&& from <= rank < E::variants()
                &&& E::read_as(rank, value).is_some()
                &&& forall|r: nat| from <= r < rank ==> (#[trigger] E::read_as(r, value)).is_none()
            },
            None => forall|r: nat|
                from <= r < E::variants() ==> (#[trigger] E::read_as(r, value)).is_none(),
        },
    decreases E::variants() - from,
{
    if from < E::variants() && E::read_as(from, value).is_none() {
        lemma_first_rank::<E>(value, from + 1);
    }
}

/// A value belongs to the variant of lowest rank that reads it.
pub proof fn lowest_rank_is_selected<E: EventVariants>(value: JsonModel, rank: nat)
    requires
        rank < E::variants(),
        E::read_as(rank, value).is_some(),
        forall|r: nat| r < rank ==> (#[trigger] E::read_as(r, value)).is_none(),
    ensures
        selected_rank::<E>(value) == Some(rank),
        classified::<E>(value) == E::read_as(rank, value),
{
    lemma_first_rank::<E>(value, 0);
}

/// Where two variants read a value, it does not belong to the later one:
/// the earlier one, or one earlier still, has it.
pub proof fn earlier_variant_wins<E: EventVariants>(value: JsonModel, earlier: nat, later: nat)
    requires
        earlier < later < E::variants(),
        E::read_as(earlier, value).is_some(),
        E::read_as(later, value).is_some(),
    ensures
        selected_rank::<E>(value).is_some(),
        selected_rank::<E>(value).unwrap() <= earlier,
        selected_rank::<E>(value) != Some(later),
{
    lemma_first_rank::<E>(value, 0);
}

/// One value that is no event leaves the whole list without events,
/// whatever the other values are.
pub proof fn one_unmatched_fails_all<E: EventVariants>(items: Seq<JsonModel>, index: int)
    requires
        0 <= index < items.len(),
        classified::<E>(items[index]).is_none(),
    ensures
        decoded::<E>(items).is_none(),
{
}

/// A list of events that can be written comes back from the values that
/// write it, event for event and in the same order.
pub proof fn events_round_trip<E: EventVariants>(events: Seq<E::V>)
    requires
        forall|i: int| 0 <= i < events.len() ==> E::is_writable(#[trigger] events[i]),
    ensures
        decoded::<E>(encoded::<E>(events)) == Some(events),
{
    let items = encoded::<E>(events);
    assert forall|i: int| 0 <= i < items.len() implies classified::<E>(#[trigger] items[i])
        == Some(events[i]) by {
        E::written_is_read_back(events[i]);
        lowest_rank_is_selected::<E>(items[i], E::rank_of(events[i]));
    }
    assert(decoded::<E>(items).unwrap() =~= events);
}

/// A list of values, each canonical for the variant it belongs to, comes
/// back from the events that were read from it, value for value and in
/// the same order; and those events can be written.
pub proof fn values_round_trip<E: EventVariants>(items: Seq<JsonModel>)
    requires
        decoded::<E>(items).is_some(),
        forall|i: int|
            0 <= i < items.len() ==> E::is_canonical(
                selected_rank::<E>(#[trigger] items[i]).unwrap(),
                items[i],
            ),
    ensures
        encoded::<E>(decoded::<E>(items).unwrap()) == items,
        all_writable::<E>(decoded::<E>(items).unwrap()),
{
    let events = decoded::<E>(items).unwrap();
    assert forall|i: int| 0 <= i < items.len() implies E::written(#[trigger] events[i])
        == items[i] && E::is_writable(events[i]) by {
        assert(classified::<E>(items[i]).is_some());
        lemma_first_rank::<E>(items[i], 0);
        E::read_is_written_back(selected_rank::<E>(items[i]).unwrap(), items[i]);
    }
    assert(encoded::<E>(events) =~= items);
}

/// Reads one event: tries the variants in the order of their ranks, and
/// takes the first that reads the value.
pub fn decode_event<E: EventVariants>(value: &Json) -> (r: Option<E>)
    ensures
        match r {
            Some(event) => classified::<E>(value@) == Some(event@),
            None => classified::<E>(value@).is_none(),
        },
{
    let n: usize = E::variant_count();
    let mut rank: usize = 0;
    while rank < n
        invariant
            n == E::variants(),
            rank <= n,
            first_rank::<E>(value@, 0) == first_rank::<E>(value@, rank as nat),
        decreases n - rank,
    {
        match E::try_variant(rank, value) {
            Some(event) => {
                return Some(event);
            },
            None => {},
        }
        rank += 1;
    }
    None
}

/// The names of all the variants, in the order in which they are tried.
pub fn variant_labels<E: EventVariants>() -> (names: Vec<String>)
    ensures
        names@.map_values(|s: String| s@) == attempted::<E>(),
{
    let n: usize = E::variant_count();
    let mut names: Vec<String> = Vec::new();
    let mut rank: usize = 0;
    while rank < n
        invariant
            n == E::variants(),
            rank <= n,
            names@.len() == rank,
            forall|r: int| 0 <= r < rank ==> (#[trigger] names@[r])@ == E::variant_name(r as nat),
        decreases n - rank,
    {
        names.push(E::variant_label(rank));
        rank += 1;
    }
    proof {
        assert(names@.map_values(|s: String| s@) =~= attempted::<E>());
    }
    names
}

/// Reads a list of events, in order. All of the values are read, or none:
/// the first value that is no event fails the list, with its place in the
/// list and the names of the variants that were tried.
pub fn decode_events<E: EventVariants>(items: &Vec<Json>) -> (r: Result<Vec<E>, FormatError>)
    ensures
        match r {
            Ok(events) => decoded::<E>(models(items@)) == Some(event_models(events@)),
            Err(e) => decoded::<E>(models(items@)).is_none() && exists|index: int|
                is_first_unmatched::<E>(models(items@), index) && e@ == (
                FormatErrorModel::NoVariantMatched {
                    index: index as nat,
                    attempted: attempted::<E>(),
                }),
        },
{
    let n: usize = items.len();
    let mut events: Vec<E> = Vec::new();
    let mut i: usize = 0;
    while i < n
        invariant
            n == items@.len(),
            i <= n,
            events@.len() == i,
            forall|j: int|
                0 <= j < i ==> classified::<E>(#[trigger] models(items@)[j]) == Some(events@[j]@),
        decreases n - i,
    {
        match decode_event::<E>(&items[i]) {
            Some(event) => {
                events.push(event);
            },
            None => {
                let names = variant_labels::<E>();
                proof {
                    assert(models(items@)[i as int] == items@[i as int]@);
                    assert(is_first_unmatched::<E>(models(items@), i as int));
                }
                return Err(FormatError::NoVariantMatched { index: i, attempted: names });
            },
        }
        proof {
            assert(models(items@)[i as int] == items@[i as int]@);
        }
        i += 1;
    }
    proof {
        assert(decoded::<E>(models(items@)).unwrap() =~= event_models(events@));
    }
    Ok(events)
}

/// Writes a list of events, in order, each as its own variant writes it.
pub fn encode_events<E: EventVariants>(events: &Vec<E>) -> (r: Vec<Json>)
    ensures
        models(r@) == encoded::<E>(event_models(events@)),
{
    let n: usize = events.len();
    let mut out: Vec<Json> = Vec::new();
    let mut i: usize = 0;
    while i < n
        invariant
            n == events@.len(),
            i <= n,
            out@.len() == i,
            forall|j: int| 0 <= j < i ==> (#[trigger] out@[j])@ == E::written(events@[j]@),
        decreases n - i,
    {
        out.push(events[i].encode());
        i += 1;
    }
    proof {
        assert(models(out@) =~= encoded::<E>(event_models(events@)));
    }
    out
}

/// The events of `value`, where it is an array of events and nothing
/// else.
pub open spec fn events_of<E: EventVariants>(value: JsonModel) -> Option<Seq<E::V>> {
    match value {
        JsonModel::Array(items) => decoded::<E>(items),
        _ => None,
    }
}

/// The array of events under `key`.
pub open spec fn events_at<E: EventVariants>(
    entries: Seq<(Seq<char>, JsonModel)>,
    key: Seq<char>,
) -> Option<Seq<E::V>> {
    match lookup(entries, key) {
        Some(value) => events_of::<E>(value),
        None => None,
    }
}

/// The array that holds the given events.
pub open spec fn events_value<E: EventVariants>(events: Seq<E::V>) -> JsonModel {
    JsonModel::Array(encoded::<E>(events))
}

/// Every one of the events can be written.
pub open spec fn all_writable<E: EventVariants>(events: Seq<E::V>) -> bool {
    forall|i: int| 0 <= i < events.len() ==> E::is_writable(#[trigger] events[i])
}

/// `value` is an array, and every one of its items that is an event is
/// canonical for the variant it belongs to.
pub open spec fn all_canonical<E: EventVariants>(value: JsonModel) -> bool {
    &&& value is Array
    &&& forall|i: int|
        0 <= i < value->Array_0.len() && selected_rank::<E>(
            #[trigger] value->Array_0[i],
        ).is_some() ==> E::is_canonical(
            selected_rank::<E>(value->Array_0[i]).unwrap(),
            value->Array_0[i],
        )
}

/// Events that can be written come back from the array that holds them,
/// and that array is canonical.
pub proof fn lemma_events_value<E: EventVariants>(events: Seq<E::V>)
    requires
        all_writable::<E>(events),
    ensures
        events_of::<E>(events_value::<E>(events)) == Some(events),
        all_canonical::<E>(events_value::<E>(events)),
{
    events_round_trip::<E>(events);
    let items = encoded::<E>(events);
    assert forall|i: int|
        0 <= i < items.len() && selected_rank::<E>(
            #[trigger] items[i],
        ).is_some() implies E::is_canonical(selected_rank::<E>(items[i]).unwrap(), items[i]) by {
        E::written_is_read_back(events[i]);
        lowest_rank_is_selected::<E>(items[i], E::rank_of(events[i]));
    }
}

/// A canonical array is made again of the events that were read from it,
/// and those events can be written.
pub proof fn lemma_events_of<E: EventVariants>(value: JsonModel)
    requires
        events_of::<E>(value).is_some(),
        all_canonical::<E>(value),
    ensures
        events_value::<E>(events_of::<E>(value).unwrap()) == value,
        all_writable::<E>(events_of::<E>(value).unwrap()),
{
    let items = value->Array_0;
    assert forall|i: int| 0 <= i < items.len() implies E::is_canonical(
        selected_rank::<E>(#[trigger] items[i]).unwrap(),
        items[i],
    ) by {
        assert(classified::<E>(items[i]).is_some());
    }
    values_round_trip::<E>(items);
}

/// Reads the array of events under `key`.
pub fn read_events<E: EventVariants>(entries: &Vec<(String, Json)>, key: &str) -> (r: Option<
    Vec<E>,
>)
    ensures
        match r {
            Some(events) => events_at::<E>(entry_models(entries@), key@) == Some(
                event_models(events@),
            ),
            None => events_at::<E>(entry_models(entries@), key@).is_none(),
        },
{
    let items = match find(entries, key) {
        Some(value) => match value.as_array() {
            Some(items) => items,
            None => {
                return None;
            },
        },
        None => {
            return None;
        },
    };
    match decode_events::<E>(items) {
        Ok(events) => Some(events),
        Err(_) => None,
    }
}

/// The entry that holds an array of events under `key`.
pub fn events_entry<E: EventVariants>(key: &str, events: &Vec<E>) -> (r: (String, Json))
    ensures
        r.0@ == key@,
        r.1@ == events_value::<E>(event_models(events@)),
{
    (String::from_str(key), Json::array(encode_events::<E>(events)))
}

/// An event that is a record of one of two kinds, told apart by their
/// shapes alone: whatever the first kind reads is of the first kind, and
/// only what it does not read can be of the second.
#[derive(Clone, Debug, PartialEq, Eq)]
pub enum Either<A, B> {
    First(A),
    Second(B),
}

/// What a value of [`Either`] holds.
pub enum EitherModel<A, B> {
    First(A),
    Second(B),
}

impl<A: Record, B: Record> View for Either<A, B> {
    type V = EitherModel<A::V, B::V>;

    open spec fn view(&self) -> EitherModel<A::V, B::V> {
        match self {
            Either::First(record) => EitherModel::First(record@),
            Either::Second(record) => EitherModel::Second(record@),
        }
    }
}

impl<A: Record, B: Record> EventVariants for Either<A, B> {
    open spec fn variants() -> nat {
        2
    }

    open spec fn variant_name(rank: nat) -> Seq<char> {
        if rank == 0 {
            "first"@
        } else {
            "second"@
        }
    }

    open spec fn read_as(rank: nat, value: JsonModel) -> Option<EitherModel<A::V, B::V>> {
        if rank == 0 {
            match A::read(value) {
                Some(record) => Some(EitherModel::First(record)),
                None => None,
            }
        } else if rank == 1 {
            match B::read(value) {
                Some(record) => Some(EitherModel::Second(record)),
                None => None,
            }
        } else {
            None
        }
    }

    open spec fn written(event: EitherModel<A::V, B::V>) -> JsonModel {
        match event {
            EitherModel::First(record) => A::written(record),
            EitherModel::Second(record) => B::written(record),
        }
    }

    /// A record of the second kind can be written only if the first kind
    /// does not read what writes it: else it would come back as a record
    /// of the first kind.
    open spec fn is_writable(event: EitherModel<A::V, B::V>) -> bool {
        match event {
            EitherModel::First(record) => A::is_writable(record),
            EitherModel::Second(record) => B::is_writable(record) && A::read(
                B::written(record),
            ).is_none(),
        }
    }

    open spec fn is_canonical(rank: nat, value: JsonModel) -> bool {
        if rank == 0 {
            A::is_canonical(value)
        } else {
            B::is_canonical(value)
        }
    }

    open spec fn rank_of(event: EitherModel<A::V, B::V>) -> nat {
        match event {
            EitherModel::First(_) => 0,
            EitherModel::Second(_) => 1,
        }
    }

    proof fn written_is_read_back(event: EitherModel<A::V, B::V>) {
        match event {
            EitherModel::First(record) => {
                A::written_is_read_back(record);
            },
            EitherModel::Second(record) => {
                B::written_is_read_back(record);
            },
        }
    }

    proof fn read_is_written_back(rank: nat, value: JsonModel) {
        if rank == 0 {
            A::read_is_written_back(value);
        } else {
            B::read_is_written_back(value);
            assert(Self::read_as(0, value).is_none());
        }
    }

    fn variant_count() -> (n: usize) {
        2
    }

    fn variant_label(rank: usize) -> (name: String) {
        if rank == 0 {
            String::from_str("first")
        } else {
            String::from_str("second")
        }
    }

    fn try_variant(rank: usize, value: &Json) -> (r: Option<Either<A, B>>) {
        if rank == 0 {
            match A::decode(value) {
                Some(record) => Some(Either::First(record)),
                None => None,
            }
        } else {
            match B::decode(value) {
                Some(record) => Some(Either::Second(record)),
                None => None,
            }
        }
    }

    fn encode(&self) -> (value: Json) {
        match self {
            Either::First(record) => record.encode(),
            Either::Second(record) => record.encode(),
        }
    }
}

} // verus!
