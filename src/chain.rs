//! Facts about a probe's way from the generator through relays to the
//! collector.
use vstd::prelude::*;
use crate::bumper::relayed;
use crate::catcher::{SkipReason, collected};
use crate::message::{
    MessageView,
    PropertyView,
    first_named,
    has_named,
    lemma_first_named,
    lemma_with_text_property,
    names_distinct,
    property_value,
    with_text_property,
};
use crate::timestamp::{TIMESTAMP_LEN, be_value, embedded_timestamp};

verus! {

/// A message whose tag `name` is the text `label` and whose body starts with
/// the timestamp `sent`, observed at `now >= sent`, is recorded under `label`
/// with a delay of `now - sent` milliseconds.
pub proof fn lemma_delay_of_tagged_probe<V>(
    m: MessageView<V>,
    name: Seq<char>,
    label: Seq<char>,
    sent: nat,
    now: u128,
)
    requires
        property_value(m.properties, name) == Some(PropertyView::<V>::Text(label)),
        m.body matches Some(b) && b.len() >= TIMESTAMP_LEN && embedded_timestamp(b) == sent,
        sent <= now,
    ensures
        collected(m, name, now) == Ok::<(Seq<char>, nat), SkipReason>(
            (label, (now - sent) as nat),
        ),
{
}

/// A message without the tag `name` is skipped, whatever its body.
pub proof fn lemma_untagged_is_skipped<V>(m: MessageView<V>, name: Seq<char>, now: u128)
    requires
        !has_named(m.properties, name),
    ensures
        collected(m, name, now) == Err::<(Seq<char>, nat), SkipReason>(SkipReason::MissingTag),
{
}

/// A message whose body is absent or shorter than a timestamp is skipped.
pub proof fn lemma_short_body_is_skipped<V>(m: MessageView<V>, name: Seq<char>, now: u128)
    requires
        m.body matches Some(b) ==> b.len() < TIMESTAMP_LEN,
    ensures
        collected(m, name, now) is Err,
{
}

/// Relaying sets the tag to exactly one property holding the relay's value,
/// keeps names distinct, leaves the body and the other properties alone, and
/// relaying again with the same tag changes nothing.
pub proof fn lemma_relay_overwrites_tag<V>(m: MessageView<V>, name: Seq<char>, value: Seq<char>)
    requires
        names_distinct(m.properties),
    ensures
        relayed(m, name, value).body == m.body,
        names_distinct(relayed(m, name, value).properties),
        property_value(relayed(m, name, value).properties, name) == Some(
            PropertyView::<V>::Text(value),
        ),
        forall|i: int, j: int|
            0 <= i < relayed(m, name, value).properties.len() && 0 <= j < relayed(
                m,
                name,
                value,
            ).properties.len() && relayed(m, name, value).properties[i].0 == name && relayed(
                m,
                name,
                value,
            ).properties[j].0 == name ==> i == j,
        forall|other: Seq<char>|
            other != name ==> property_value(relayed(m, name, value).properties, other)
                == property_value(m.properties, other),
        relayed(relayed(m, name, value), name, value) == relayed(m, name, value),
{
    lemma_with_text_property(m.properties, name, value);
    lemma_set_twice(m.properties, name, value, value);
}

/// Setting a text property twice under one name is setting it once to the
/// second value.
pub proof fn lemma_set_twice<V>(
    props: Seq<(Seq<char>, PropertyView<V>)>,
    name: Seq<char>,
    first: Seq<char>,
    second: Seq<char>,
)
    requires
        names_distinct(props),
    ensures
        with_text_property(with_text_property(props, name, first), name, second)
            == with_text_property(props, name, second),
{
    let once = with_text_property(props, name, first);
    lemma_with_text_property(props, name, first);
    lemma_first_named(once, name);
    let c1 = choose|i: int| first_named(once, name, i);
    if has_named(props, name) {
        lemma_first_named(props, name);
        let c = choose|i: int| first_named(props, name, i);
        assert(once[c].0 == name);
        assert(first_named(once, name, c));
        assert(c1 == c);
        assert(with_text_property(once, name, second) =~= with_text_property(
            props,
            name,
            second,
        ));
    } else {
        let n = props.len() as int;
        assert(once[n].0 == name);
        assert forall|j: int| 0 <= j < n implies once[j].0 != name by {
            assert(once[j] == props[j]);
        }
        assert(first_named(once, name, n));
        assert(c1 == n);
        assert(with_text_property(once, name, second) =~= with_text_property(
            props,
            name,
            second,
        ));
    }
}

/// After two relays with the same tag name, the message carries the second
/// relay's value only, and the collector sees it as if the second relay alone
/// had tagged it.
pub proof fn lemma_two_hops_keep_last_tag<V>(
    m: MessageView<V>,
    name: Seq<char>,
    first: Seq<char>,
    second: Seq<char>,
    now: u128,
)
    requires
        names_distinct(m.properties),
    ensures
        relayed(relayed(m, name, first), name, second) == relayed(m, name, second),
        property_value(relayed(relayed(m, name, first), name, second).properties, name) == Some(
            PropertyView::<V>::Text(second),
        ),
        collected(relayed(relayed(m, name, first), name, second), name, now) matches Ok(
            (label, _),
        ) ==> label == second,
{
    lemma_set_twice(m.properties, name, first, second);
    lemma_with_text_property(m.properties, name, second);
}

/// A probe sent at `sent` and relayed once with the tag `name` set to
/// `value` is collected at `now >= sent` under `value`, with a delay of
/// `now - sent` milliseconds.
pub proof fn lemma_probe_round_trip<V>(
    body: Seq<u8>,
    properties: Seq<(Seq<char>, PropertyView<V>)>,
    sent: u128,
    name: Seq<char>,
    value: Seq<char>,
    now: u128,
)
    requires
        body.len() == TIMESTAMP_LEN,
        be_value(body) == sent as nat,
        names_distinct(properties),
        sent <= now,
    ensures
        collected(
            relayed(MessageView { body: Some(body), properties }, name, value),
            name,
            now,
        ) == Ok::<(Seq<char>, nat), SkipReason>((value, (now - sent) as nat)),
{
    lemma_with_text_property(properties, name, value);
    assert(body.subrange(0, TIMESTAMP_LEN as int) =~= body);
}

} // verus!
