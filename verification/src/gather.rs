//! Gathering parsed elements into a list: in input order, up to a capacity,
//! ending at the first element that cannot be taken.

use vstd::prelude::*;
use vstd::string::*;

use crate::element::{outcome_view, ElementType, ParseFromJSON, ParseFromParameter};
use crate::error::{ParseError, ParseErrorView};
use crate::json::{json_array_items, json_rendering, json_text};

verus! {

/// One element offered to a list: its raw input and what its parser made of it.
pub struct Attempt<T> {
    pub raw: Seq<char>,
    pub outcome: Result<T, Seq<char>>,
}

/// Whether a list that holds `held` elements has no room for another.
pub open spec fn is_full(held: nat, capacity: Option<nat>) -> bool {
    match capacity {
        Some(limit) => held >= limit,
        None => false,
    }
}

/// What offering one element does to a list that holds `held`: an element
/// that did not parse is reported with its raw input; a parsed one is appended
/// if there is room, and refused otherwise.
pub open spec fn take_attempt<T>(
    held: Seq<T>,
    attempt: Attempt<T>,
    target: Seq<char>,
    capacity: Option<nat>,
) -> Result<Seq<T>, ParseErrorView> {
    match attempt.outcome {
        Err(message) => Err(ParseErrorView::Element { raw: attempt.raw, target, message }),
        Ok(item) => if is_full(held.len(), capacity) {
            Err(ParseErrorView::CapacityExceeded { capacity: capacity.unwrap() })
        } else {
            Ok(held.push(item))
        },
    }
}

/// The list gathered from `attempts`, offered one by one from an empty list;
/// the first failure is the result.
pub open spec fn gather<T>(
    attempts: Seq<Attempt<T>>,
    target: Seq<char>,
    capacity: Option<nat>,
) -> Result<Seq<T>, ParseErrorView>
    decreases attempts.len(),
{
    if attempts.len() == 0 {
        Ok(Seq::empty())
    } else {
        match gather(attempts.drop_last(), target, capacity) {
            Ok(held) => take_attempt(held, attempts.last(), target, capacity),
            Err(error) => Err(error),
        }
    }
}

/// The texts of a list of parameters.
pub open spec fn texts_of(values: Seq<&str>) -> Seq<Seq<char>> {
    Seq::new(values.len(), |i: int| values[i]@)
}

/// Each parameter text with what `T` makes of it.
pub open spec fn parameter_attempts<T: ParseFromParameter>(texts: Seq<Seq<char>>) -> Seq<
    Attempt<T>,
> {
    Seq::new(
        texts.len(),
        |i: int| Attempt { raw: texts[i], outcome: T::parameter_outcome(texts[i]) },
    )
}

/// Each JSON value, by its compact text, with what `T` makes of it.
pub open spec fn json_attempts<T: ParseFromJSON>(values: Seq<serde_json::Value>) -> Seq<
    Attempt<T>,
> {
    Seq::new(
        values.len(),
        |i: int| Attempt { raw: json_rendering(values[i]), outcome: T::json_outcome(values[i]) },
    )
}

/// The list read from a single parameter: one element, if it parses and the
/// capacity is not zero.
pub open spec fn list_from_parameter<T: ParseFromParameter>(
    text: Seq<char>,
    capacity: Option<nat>,
) -> Result<Seq<T>, ParseErrorView> {
    take_attempt(
        Seq::empty(),
        Attempt { raw: text, outcome: T::parameter_outcome(text) },
        T::spec_name(),
        capacity,
    )
}

/// The list read from several parameters, in their order.
pub open spec fn list_from_parameters<T: ParseFromParameter>(
    texts: Seq<Seq<char>>,
    capacity: Option<nat>,
) -> Result<Seq<T>, ParseErrorView> {
    gather(parameter_attempts::<T>(texts), T::spec_name(), capacity)
}

/// The list read from a JSON value: the elements of an array, in their
/// order. An absent value counts as `null`, and whatever is not an array is
/// reported by its compact text.
pub open spec fn list_from_json<T: ParseFromJSON>(
    value: Option<serde_json::Value>,
    capacity: Option<nat>,
) -> Result<Seq<T>, ParseErrorView> {
    match value {
        None => Err(ParseErrorView::TypeMismatch { actual: "null"@ }),
        Some(present) => match json_array_items(present) {
            Some(elements) => gather(json_attempts::<T>(elements), T::spec_name(), capacity),
            None => Err(ParseErrorView::TypeMismatch { actual: json_rendering(present) }),
        },
    }
}

/// A capacity as a mathematical value.
pub open spec fn capacity_view(capacity: Option<usize>) -> Option<nat> {
    match capacity {
        Some(limit) => Some(limit as nat),
        None => None,
    }
}

/// The result of an operation on a list in place: the list it leaves, or the
/// error.
pub open spec fn in_place<T>(result: Result<(), ParseError>, left: Seq<T>) -> Result<
    Seq<T>,
    ParseErrorView,
> {
    match result {
        Ok(()) => Ok(left),
        Err(error) => Err(error@),
    }
}

/// The result of building a list: its elements, or the error.
pub open spec fn list_view<T, L: View<V = Seq<T>>>(result: Result<L, ParseError>) -> Result<
    Seq<T>,
    ParseErrorView,
> {
    match result {
        Ok(list) => Ok(list@),
        Err(error) => Err(error@),
    }
}

/// Appends `item` if there is room for it. A list without a capacity always
/// has room; a full one is left as it was.
pub fn push_within<T>(items: &mut Vec<T>, item: T, capacity: Option<usize>) -> (result: Result<
    (),
    ParseError,
>)
    ensures
        result is Ok <==> !is_full(old(items)@.len(), capacity_view(capacity)),
        result is Ok ==> final(items)@ == old(items)@.push(item),
        result matches Err(error) ==> final(items)@ == old(items)@ && error@
            == (ParseErrorView::CapacityExceeded { capacity: capacity.unwrap() as nat }),
{
    match capacity {
        Some(limit) => {
            if items.len() >= limit {
                return Err(ParseError::CapacityExceeded { capacity: limit });
            }
        },
        None => {},
    }
    items.push(item);
    Ok(())
}

/// Offers one element, parsed from the parameter text `raw` with the given
/// outcome, to `items`.
pub fn push_parsed<T: ElementType>(
    items: &mut Vec<T>,
    raw: &str,
    outcome: Result<T, String>,
    capacity: Option<usize>,
) -> (result: Result<(), ParseError>)
    ensures
        in_place(result, final(items)@) == take_attempt(
            old(items)@,
            Attempt { raw: raw@, outcome: outcome_view(outcome) },
            T::spec_name(),
            capacity_view(capacity),
        ),
        result is Err ==> final(items)@ == old(items)@,
{
    match outcome {
        Ok(item) => push_within(items, item, capacity),
        Err(message) => Err(
            ParseError::Element { raw: String::from_str(raw), target: T::name(), message },
        ),
    }
}

/// Offers one element, parsed from the JSON value `raw` with the given
/// outcome, to `items`. The value is written out only where it is reported.
pub fn push_parsed_json<T: ElementType>(
    items: &mut Vec<T>,
    raw: &serde_json::Value,
    outcome: Result<T, String>,
    capacity: Option<usize>,
) -> (result: Result<(), ParseError>)
    ensures
        in_place(result, final(items)@) == take_attempt(
            old(items)@,
            Attempt { raw: json_rendering(*raw), outcome: outcome_view(outcome) },
            T::spec_name(),
            capacity_view(capacity),
        ),
        result is Err ==> final(items)@ == old(items)@,
{
    match outcome {
        Ok(item) => push_within(items, item, capacity),
        Err(message) => Err(
            ParseError::Element { raw: json_text(raw), target: T::name(), message },
        ),
    }
}

/// Gathering one element more: the list gathered from the first `n + 1`
/// attempts is what the next attempt makes of the list gathered from the
/// first `n`.
pub proof fn lemma_gather_step<T>(
    attempts: Seq<Attempt<T>>,
    target: Seq<char>,
    capacity: Option<nat>,
    n: int,
)
    requires
        0 <= n < attempts.len(),
    ensures
        gather(attempts.take(n + 1), target, capacity) == match gather(
            attempts.take(n),
            target,
            capacity,
        ) {
            Ok(held) => take_attempt(held, attempts[n], target, capacity),
            Err(error) => Err(error),
        },
{
    assert(attempts.take(n + 1).drop_last() =~= attempts.take(n));
}

/// A failure is final: once the first `n` attempts have failed, the whole
/// list fails in the same way.
pub proof fn lemma_gather_failure_stays<T>(
    attempts: Seq<Attempt<T>>,
    target: Seq<char>,
    capacity: Option<nat>,
    n: int,
)
    requires
        0 <= n <= attempts.len(),
        gather(attempts.take(n), target, capacity) is Err,
    ensures
        gather(attempts, target, capacity) == gather(attempts.take(n), target, capacity),
    decreases attempts.len() - n,
{
    if n == attempts.len() {
        assert(attempts.take(n) =~= attempts);
    } else {
        lemma_gather_step(attempts, target, capacity, n);
        lemma_gather_failure_stays(attempts, target, capacity, n + 1);
    }
}

/// The elements that the attempts parsed to, in order.
pub open spec fn parsed_items<T>(attempts: Seq<Attempt<T>>) -> Seq<T> {
    Seq::new(attempts.len(), |i: int| attempts[i].outcome->Ok_0)
}

/// Where every element parses and there is room for all of them, the list
/// holds exactly the parsed elements, in input order.
pub proof fn lemma_gather_all_parsed<T>(
    attempts: Seq<Attempt<T>>,
    target: Seq<char>,
    capacity: Option<nat>,
)
    requires
        forall|i: int| 0 <= i < attempts.len() ==> (#[trigger] attempts[i]).outcome is Ok,
        capacity matches Some(limit) ==> attempts.len() <= limit,
    ensures
        gather(attempts, target, capacity) == Ok::<Seq<T>, ParseErrorView>(parsed_items(attempts)),
    decreases attempts.len(),
{
    if attempts.len() == 0 {
        assert(parsed_items(attempts) =~= Seq::<T>::empty());
    } else {
        let front = attempts.drop_last();
        lemma_gather_all_parsed(front, target, capacity);
        assert(parsed_items(front).push(attempts.last().outcome->Ok_0) =~= parsed_items(attempts));
    }
}

/// A list is gathered exactly when every element parses and there is room
/// for all of them; it then holds the parsed elements, in input order.
pub proof fn lemma_gather_succeeds_exactly_when<T>(
    attempts: Seq<Attempt<T>>,
    target: Seq<char>,
    capacity: Option<nat>,
)
    ensures
        gather(attempts, target, capacity) is Ok <==> {
            &&& forall|i: int| 0 <= i < attempts.len() ==> (#[trigger] attempts[i]).outcome is Ok
            &&& capacity matches Some(limit) ==> attempts.len() <= limit
        },
        gather(attempts, target, capacity) matches Ok(items) ==> items == parsed_items(attempts),
    decreases attempts.len(),
{
    if attempts.len() > 0 {
        let front = attempts.drop_last();
        lemma_gather_succeeds_exactly_when(front, target, capacity);
        if gather(front, target, capacity) is Ok {
            lemma_gather_all_parsed(front, target, capacity);
            if take_attempt(parsed_items(front), attempts.last(), target, capacity) is Ok {
                assert forall|i: int| 0 <= i < attempts.len() implies (
                #[trigger] attempts[i]).outcome is Ok by {
                    if i < front.len() {
                        assert(attempts[i] == front[i]);
                    }
                }
                lemma_gather_all_parsed(attempts, target, capacity);
            }
        } else {
            if forall|i: int| 0 <= i < attempts.len() ==> (#[trigger] attempts[i]).outcome is Ok {
                assert forall|i: int| 0 <= i < front.len() implies (
                #[trigger] front[i]).outcome is Ok by {
                    assert(front[i] == attempts[i]);
                }
            }
        }
    } else {
        assert(parsed_items(attempts) =~= Seq::<T>::empty());
    }
}

/// Where more elements are offered than there is room for, and each of the
/// first `limit + 1` parses, the capacity is reported, whatever follows.
pub proof fn lemma_gather_overflow<T>(attempts: Seq<Attempt<T>>, target: Seq<char>, limit: nat)
    requires
        attempts.len() > limit,
        forall|i: int| 0 <= i <= limit ==> (#[trigger] attempts[i]).outcome is Ok,
    ensures
        gather(attempts, target, Some(limit)) == Err::<Seq<T>, ParseErrorView>(
            ParseErrorView::CapacityExceeded { capacity: limit },
        ),
{
    let n = limit as int;
    lemma_gather_all_parsed(attempts.take(n), target, Some(limit));
    lemma_gather_step(attempts, target, Some(limit), n);
    lemma_gather_failure_stays(attempts, target, Some(limit), n + 1);
}

/// Where the element at `k` does not parse, every element before it does,
/// and there is room for those `k`, the failure of that element is reported,
/// with its raw input, whatever follows.
pub proof fn lemma_gather_first_failure<T>(
    attempts: Seq<Attempt<T>>,
    target: Seq<char>,
    capacity: Option<nat>,
    k: int,
)
    requires
        0 <= k < attempts.len(),
        attempts[k].outcome is Err,
        forall|i: int| 0 <= i < k ==> (#[trigger] attempts[i]).outcome is Ok,
        capacity matches Some(limit) ==> k <= limit,
    ensures
        gather(attempts, target, capacity) == Err::<Seq<T>, ParseErrorView>(
            ParseErrorView::Element {
                raw: attempts[k].raw,
                target,
                message: attempts[k].outcome->Err_0,
            },
        ),
{
    lemma_gather_all_parsed(attempts.take(k), target, capacity);
    lemma_gather_step(attempts, target, capacity, k);
    lemma_gather_failure_stays(attempts, target, capacity, k + 1);
}

/// A single parameter parses to what the list of that one parameter parses
/// to; where it is valid and the capacity is not zero, that is the list of
/// one element.
pub proof fn lemma_single_parameter<T: ParseFromParameter>(text: Seq<char>, capacity: Option<nat>)
    ensures
        list_from_parameter::<T>(text, capacity) == list_from_parameters::<T>(seq![text], capacity),
        T::parameter_outcome(text) is Ok && !is_full(0, capacity) ==> list_from_parameter::<T>(
            text,
            capacity,
        ) == Ok::<Seq<T>, ParseErrorView>(seq![T::parameter_outcome(text)->Ok_0]),
{
    let attempts = parameter_attempts::<T>(seq![text]);
    lemma_gather_step(attempts, T::spec_name(), capacity, 0);
    assert(attempts.take(1) =~= attempts);
    assert(attempts.take(0) =~= Seq::<Attempt<T>>::empty());
    assert(attempts[0] == Attempt { raw: text, outcome: T::parameter_outcome(text) });
    if T::parameter_outcome(text) is Ok {
        let item = T::parameter_outcome(text)->Ok_0;
        assert(Seq::<T>::empty().push(item) =~= seq![item]);
    }
}

/// Whether every parameter text is one that `T` parses.
pub open spec fn all_parameters_valid<T: ParseFromParameter>(texts: Seq<Seq<char>>) -> bool {
    forall|i: int| 0 <= i < texts.len() ==> T::parameter_outcome(#[trigger] texts[i]) is Ok
}

/// Whether every JSON value is one that `T` parses.
pub open spec fn all_json_valid<T: ParseFromJSON>(elements: Seq<serde_json::Value>) -> bool {
    forall|i: int| 0 <= i < elements.len() ==> T::json_outcome(#[trigger] elements[i]) is Ok
}

/// Whether there is room for `count` elements.
pub open spec fn fits(count: nat, capacity: Option<nat>) -> bool {
    match capacity {
        Some(limit) => count <= limit,
        None => true,
    }
}

/// A list of parameters parses exactly when each of them is valid and there
/// is room for all of them.
pub proof fn lemma_parameters_succeed_exactly_when<T: ParseFromParameter>(
    texts: Seq<Seq<char>>,
    capacity: Option<nat>,
)
    ensures
        list_from_parameters::<T>(texts, capacity) is Ok <==> all_parameters_valid::<T>(texts)
            && fits(texts.len(), capacity),
{
    let attempts = parameter_attempts::<T>(texts);
    lemma_gather_succeeds_exactly_when(attempts, T::spec_name(), capacity);
    if all_parameters_valid::<T>(texts) {
        assert forall|i: int| 0 <= i < attempts.len() implies (
        #[trigger] attempts[i]).outcome is Ok by {
            assert(T::parameter_outcome(texts[i]) is Ok);
        }
    }
    if forall|i: int| 0 <= i < attempts.len() ==> (#[trigger] attempts[i]).outcome is Ok {
        assert forall|i: int| 0 <= i < texts.len() implies T::parameter_outcome(
            #[trigger] texts[i],
        ) is Ok by {
            assert(attempts[i].outcome is Ok);
        }
    }
}

/// A JSON value parses exactly when it is an array, each of its elements is
/// valid, and there is room for all of them.
pub proof fn lemma_json_succeeds_exactly_when<T: ParseFromJSON>(
    value: Option<serde_json::Value>,
    capacity: Option<nat>,
)
    ensures
        list_from_json::<T>(value, capacity) is Ok <==> {
            &&& value is Some
            &&& json_array_items(value->Some_0) is Some
            &&& all_json_valid::<T>(json_array_items(value->Some_0)->Some_0)
            &&& fits(json_array_items(value->Some_0)->Some_0.len(), capacity)
        },
{
    if value is Some && json_array_items(value->Some_0) is Some {
        let elements = json_array_items(value->Some_0)->Some_0;
        let attempts = json_attempts::<T>(elements);
        lemma_gather_succeeds_exactly_when(attempts, T::spec_name(), capacity);
        if all_json_valid::<T>(elements) {
            assert forall|i: int| 0 <= i < attempts.len() implies (
            #[trigger] attempts[i]).outcome is Ok by {
                assert(T::json_outcome(elements[i]) is Ok);
            }
        }
        if forall|i: int| 0 <= i < attempts.len() ==> (#[trigger] attempts[i]).outcome is Ok {
            assert forall|i: int| 0 <= i < elements.len() implies T::json_outcome(
                #[trigger] elements[i],
            ) is Ok by {
                assert(attempts[i].outcome is Ok);
            }
        }
    }
}

/// The values that the parameter texts parse to, in order.
pub open spec fn parameter_values<T: ParseFromParameter>(texts: Seq<Seq<char>>) -> Seq<T> {
    Seq::new(texts.len(), |i: int| T::parameter_outcome(texts[i])->Ok_0)
}

/// A list with room for `limit` elements takes `limit` valid parameters or
/// fewer, in order, and refuses more: where each of the first `limit + 1`
/// parameters is valid, the capacity is reported, whatever follows them.
pub proof fn lemma_parameters_capacity<T: ParseFromParameter>(texts: Seq<Seq<char>>, limit: nat)
    requires
        forall|i: int|
            0 <= i < texts.len() && i <= limit ==> T::parameter_outcome(#[trigger] texts[i]) is Ok,
    ensures
        texts.len() <= limit ==> list_from_parameters::<T>(texts, Some(limit)) == Ok::<
            Seq<T>,
            ParseErrorView,
        >(parameter_values::<T>(texts)),
        texts.len() > limit ==> list_from_parameters::<T>(texts, Some(limit)) == Err::<
            Seq<T>,
            ParseErrorView,
        >(ParseErrorView::CapacityExceeded { capacity: limit }),
{
    let attempts = parameter_attempts::<T>(texts);
    if texts.len() <= limit {
        lemma_gather_all_parsed(attempts, T::spec_name(), Some(limit));
        assert(parsed_items(attempts) =~= parameter_values::<T>(texts));
    } else {
        lemma_gather_overflow(attempts, T::spec_name(), limit);
    }
}

/// A list without a capacity takes any number of valid parameters, in order.
pub proof fn lemma_parameters_unbounded<T: ParseFromParameter>(texts: Seq<Seq<char>>)
    requires
        forall|i: int| 0 <= i < texts.len() ==> T::parameter_outcome(#[trigger] texts[i]) is Ok,
    ensures
        list_from_parameters::<T>(texts, None) == Ok::<Seq<T>, ParseErrorView>(
            parameter_values::<T>(texts),
        ),
{
    let attempts = parameter_attempts::<T>(texts);
    lemma_gather_all_parsed(attempts, T::spec_name(), None);
    assert(parsed_items(attempts) =~= parameter_values::<T>(texts));
}

/// An invalid parameter is reported with its own text, however many valid
/// parameters stand before it and whatever follows it, as long as there is
/// room for those before it.
pub proof fn lemma_invalid_parameter<T: ParseFromParameter>(
    texts: Seq<Seq<char>>,
    capacity: Option<nat>,
    k: int,
)
    requires
        0 <= k < texts.len(),
        T::parameter_outcome(texts[k]) is Err,
        forall|i: int| 0 <= i < k ==> T::parameter_outcome(#[trigger] texts[i]) is Ok,
        capacity matches Some(limit) ==> k <= limit,
    ensures
        list_from_parameters::<T>(texts, capacity) == Err::<Seq<T>, ParseErrorView>(
            ParseErrorView::Element {
                raw: texts[k],
                target: T::spec_name(),
                message: T::parameter_outcome(texts[k])->Err_0,
            },
        ),
{
    lemma_gather_first_failure(parameter_attempts::<T>(texts), T::spec_name(), capacity, k);
}

/// The values that the JSON values parse to, in order.
pub open spec fn json_values<T: ParseFromJSON>(elements: Seq<serde_json::Value>) -> Seq<T> {
    Seq::new(elements.len(), |i: int| T::json_outcome(elements[i])->Ok_0)
}

/// A JSON array of valid elements, no more of them than there is room for,
/// parses to the list of their values, in the order of the array.
pub proof fn lemma_json_array_in_order<T: ParseFromJSON>(
    value: serde_json::Value,
    capacity: Option<nat>,
)
    requires
        json_array_items(value) is Some,
        forall|i: int|
            0 <= i < json_array_items(value)->Some_0.len() ==> T::json_outcome(
                #[trigger] json_array_items(value)->Some_0[i],
            ) is Ok,
        capacity matches Some(limit) ==> json_array_items(value)->Some_0.len() <= limit,
    ensures
        list_from_json::<T>(Some(value), capacity) == Ok::<Seq<T>, ParseErrorView>(
            json_values::<T>(json_array_items(value)->Some_0),
        ),
{
    let elements = json_array_items(value)->Some_0;
    let attempts = json_attempts::<T>(elements);
    lemma_gather_all_parsed(attempts, T::spec_name(), capacity);
    assert(parsed_items(attempts) =~= json_values::<T>(elements));
}

/// A JSON array with more elements than there is room for, of which each of
/// the first `limit + 1` is valid, is refused with the capacity.
pub proof fn lemma_json_array_overflow<T: ParseFromJSON>(value: serde_json::Value, limit: nat)
    requires
        json_array_items(value) is Some,
        json_array_items(value)->Some_0.len() > limit,
        forall|i: int|
            0 <= i <= limit ==> T::json_outcome(
                #[trigger] json_array_items(value)->Some_0[i],
            ) is Ok,
    ensures
        list_from_json::<T>(Some(value), Some(limit)) == Err::<Seq<T>, ParseErrorView>(
            ParseErrorView::CapacityExceeded { capacity: limit },
        ),
{
    let elements = json_array_items(value)->Some_0;
    lemma_gather_overflow(json_attempts::<T>(elements), T::spec_name(), limit);
}

/// An invalid element of a JSON array is reported with its own compact text,
/// however many valid elements stand before it and whatever follows it, as
/// long as there is room for those before it.
pub proof fn lemma_invalid_json_element<T: ParseFromJSON>(
    value: serde_json::Value,
    capacity: Option<nat>,
    k: int,
)
    requires
        json_array_items(value) is Some,
        0 <= k < json_array_items(value)->Some_0.len(),
        T::json_outcome(json_array_items(value)->Some_0[k]) is Err,
        forall|i: int|
            0 <= i < k ==> T::json_outcome(#[trigger] json_array_items(value)->Some_0[i]) is Ok,
        capacity matches Some(limit) ==> k <= limit,
    ensures
        list_from_json::<T>(Some(value), capacity) == Err::<Seq<T>, ParseErrorView>(
            ParseErrorView::Element {
                raw: json_rendering(json_array_items(value)->Some_0[k]),
                target: T::spec_name(),
                message: T::json_outcome(json_array_items(value)->Some_0[k])->Err_0,
            },
        ),
{
    let elements = json_array_items(value)->Some_0;
    lemma_gather_first_failure(json_attempts::<T>(elements), T::spec_name(), capacity, k);
}

/// Whatever is not a JSON array, an absent value included, is a type
/// mismatch, for every element type and capacity.
pub proof fn lemma_json_not_an_array<T: ParseFromJSON>(
    value: Option<serde_json::Value>,
    capacity: Option<nat>,
)
    requires
        value matches Some(present) ==> json_array_items(present) is None,
    ensures
        list_from_json::<T>(value, capacity) matches Err(error) && error is TypeMismatch,
{
}

} // verus!
