//! A stream message as the relay and the collector see it: an optional body
//! and a list of named application properties with distinct names.
use vstd::prelude::*;

verus! {

/// The value of an application property: text, or any other typed value,
/// carried through untouched.
#[derive(Clone, Debug, PartialEq, Eq)]
pub enum PropertyValue<V> {
    Text(String),
    Other(V),
}

/// The model of a property value.
pub enum PropertyView<V> {
    Text(Seq<char>),
    Other(V),
}

impl<V> View for PropertyValue<V> {
    type V = PropertyView<V>;

    open spec fn view(&self) -> PropertyView<V> {
        match self {
            PropertyValue::Text(s) => PropertyView::Text(s@),
            PropertyValue::Other(v) => PropertyView::Other(*v),
        }
    }
}

/// A message: its body, if any, and its application properties.
#[derive(Clone, Debug, PartialEq, Eq)]
pub struct StreamMessage<V> {
    pub body: Option<Vec<u8>>,
    pub properties: Vec<(String, PropertyValue<V>)>,
}

/// The model of a message.
pub struct MessageView<V> {
    pub body: Option<Seq<u8>>,
    pub properties: Seq<(Seq<char>, PropertyView<V>)>,
}

pub open spec fn body_view(body: Option<Vec<u8>>) -> Option<Seq<u8>> {
    match body {
        Some(b) => Some(b@),
        None => None,
    }
}

pub open spec fn properties_view<V>(props: Seq<(String, PropertyValue<V>)>) -> Seq<
    (Seq<char>, PropertyView<V>),
> {
    props.map_values(|e: (String, PropertyValue<V>)| (e.0@, e.1@))
}

impl<V> View for StreamMessage<V> {
    type V = MessageView<V>;

    open spec fn view(&self) -> MessageView<V> {
        MessageView { body: body_view(self.body), properties: properties_view(self.properties@) }
    }
}

/// `i` is the first position of a property called `name`.
pub open spec fn first_named<V>(
    props: Seq<(Seq<char>, PropertyView<V>)>,
    name: Seq<char>,
    i: int,
) -> bool {
    &&& 0 <= i < props.len()
    &&& props[i].0 == name
    &&& forall|j: int| 0 <= j < i ==> props[j].0 != name
}

/// Some property is called `name`.
pub open spec fn has_named<V>(props: Seq<(Seq<char>, PropertyView<V>)>, name: Seq<char>) -> bool {
    exists|i: int| 0 <= i < props.len() && props[i].0 == name
}

/// The value of the property called `name`, if there is one.
pub open spec fn property_value<V>(
    props: Seq<(Seq<char>, PropertyView<V>)>,
    name: Seq<char>,
) -> Option<PropertyView<V>> {
    if has_named(props, name) {
        Some(props[choose|i: int| first_named(props, name, i)].1)
    } else {
        None
    }
}

/// No two properties share a name.
pub open spec fn names_distinct<V>(props: Seq<(Seq<char>, PropertyView<V>)>) -> bool {
    forall|i: int, j: int|
        0 <= i < props.len() && 0 <= j < props.len() && i != j ==> props[i].0 != props[j].0
}

/// The properties after setting `name` to the text `value`: an existing
/// property of that name is overwritten in place, else one is appended.
pub open spec fn with_text_property<V>(
    props: Seq<(Seq<char>, PropertyView<V>)>,
    name: Seq<char>,
    value: Seq<char>,
) -> Seq<(Seq<char>, PropertyView<V>)> {
    if has_named(props, name) {
        props.update(choose|i: int| first_named(props, name, i), (name, PropertyView::Text(value)))
    } else {
        props.push((name, PropertyView::Text(value)))
    }
}

/// Whenever a property is called `name`, the first such one exists and is
/// the only one satisfying `first_named`.
pub proof fn lemma_first_named<V>(props: Seq<(Seq<char>, PropertyView<V>)>, name: Seq<char>)
    requires
        has_named(props, name),
    ensures
        first_named(props, name, choose|i: int| first_named(props, name, i)),
        forall|k: int|
            first_named(props, name, k) ==> k == choose|i: int| first_named(props, name, i),
    decreases props.len(),
{
    let w = choose|i: int| 0 <= i < props.len() && props[i].0 == name;
    let init = props.drop_last();
    assert(forall|j: int| 0 <= j < init.len() ==> init[j] == props[j]);
    if has_named(init, name) {
        lemma_first_named(init, name);
        let c = choose|i: int| first_named(init, name, i);
        assert(first_named(props, name, c));
    } else {
        assert(first_named(props, name, props.len() - 1)) by {
            assert(forall|j: int| 0 <= j < init.len() ==> init[j] == props[j]);
            if w != props.len() - 1 {
                assert(init[w].0 == name);
            }
        }
    }
    let c = choose|i: int| first_named(props, name, i);
    assert forall|k: int| first_named(props, name, k) implies k == c by {
        if k < c {
            assert(props[k].0 != name);
        } else if c < k {
            assert(props[c].0 != name);
        }
    }
}

/// With distinct names, the first property called `name` is any one so called.
pub proof fn lemma_distinct_first<V>(
    props: Seq<(Seq<char>, PropertyView<V>)>,
    name: Seq<char>,
    i: int,
)
    requires
        names_distinct(props),
        0 <= i < props.len(),
        props[i].0 == name,
    ensures
        has_named(props, name),
        first_named(props, name, i),
        property_value(props, name) == Some(props[i].1),
{
    lemma_first_named(props, name);
}

/// Setting a text property keeps names distinct, leaves exactly one property
/// of that name, holding the new value, and leaves every other property as it
/// was.
pub proof fn lemma_with_text_property<V>(
    props: Seq<(Seq<char>, PropertyView<V>)>,
    name: Seq<char>,
    value: Seq<char>,
)
    requires
        names_distinct(props),
    ensures
        names_distinct(with_text_property(props, name, value)),
        property_value(with_text_property(props, name, value), name) == Some(
            PropertyView::<V>::Text(value),
        ),
        forall|i: int, j: int|
            0 <= i < with_text_property(props, name, value).len() && 0 <= j < with_text_property(
                props,
                name,
                value,
            ).len() && with_text_property(props, name, value)[i].0 == name && with_text_property(
                props,
                name,
                value,
            )[j].0 == name ==> i == j,
        forall|other: Seq<char>|
            other != name ==> property_value(with_text_property(props, name, value), other)
                == property_value(props, other),
{
    let out = with_text_property(props, name, value);
    if has_named(props, name) {
        lemma_first_named(props, name);
        let c = choose|i: int| first_named(props, name, i);
        assert(out[c].0 == name);
        lemma_distinct_first(out, name, c);
        assert forall|other: Seq<char>| other != name implies property_value(out, other)
            == property_value(props, other) by {
            if has_named(props, other) {
                let k = choose|i: int| 0 <= i < props.len() && props[i].0 == other;
                lemma_distinct_first(props, other, k);
                lemma_distinct_first(out, other, k);
            } else if has_named(out, other) {
                let k = choose|i: int| 0 <= i < out.len() && out[i].0 == other;
                assert(props[k].0 == other);
            }
        }
    } else {
        let n = props.len() as int;
        assert(out[n].0 == name);
        lemma_distinct_first(out, name, n);
        assert forall|other: Seq<char>| other != name implies property_value(out, other)
            == property_value(props, other) by {
            if has_named(props, other) {
                let k = choose|i: int| 0 <= i < props.len() && props[i].0 == other;
                lemma_distinct_first(props, other, k);
                lemma_distinct_first(out, other, k);
            } else if has_named(out, other) {
                let k = choose|i: int| 0 <= i < out.len() && out[i].0 == other;
                assert(props[k].0 == other);
            }
        }
    }
}

impl<V> StreamMessage<V> {
    /// A message with the given body and properties.
    pub fn new(body: Option<Vec<u8>>, properties: Vec<(String, PropertyValue<V>)>) -> (r: Self)
        ensures
            r.body == body,
            r.properties == properties,
    {
        StreamMessage { body, properties }
    }

    /// The properties have distinct names, as in a property map.
    pub open spec fn wf(&self) -> bool {
        names_distinct(self@.properties)
    }

    /// Position of the property called `name`, if any.
    pub fn find_property(&self, name: &String) -> (r: Option<usize>)
        ensures
            r is None <==> !has_named(self@.properties, name@),
            r matches Some(i) ==> first_named(self@.properties, name@, i as int),
    {
        let ghost props = self@.properties;
        let mut i: usize = 0;
        while i < self.properties.len()
            invariant
                i <= self.properties@.len(),
                props == self@.properties,
                props.len() == self.properties@.len(),
                forall|j: int| 0 <= j < i ==> props[j].0 != name@,
            decreases self.properties@.len() - i,
        {
            if self.properties[i].0 == *name {
                proof {
                    assert(props[i as int].0 == name@);
                }
                return Some(i);
            }
            i = i + 1;
        }
        None
    }

    /// The value of the property called `name`, if any.
    pub fn property(&self, name: &String) -> (r: Option<&PropertyValue<V>>)
        ensures
            match r {
                Some(v) => property_value(self@.properties, name@) == Some(v@),
                None => property_value(self@.properties, name@) is None,
            },
    {
        match self.find_property(name) {
            Some(i) => {
                proof {
                    lemma_first_named(self@.properties, name@);
                }
                Some(&self.properties[i].1)
            },
            None => None,
        }
    }

    /// Sets the property called `name` to the text `value`, overwriting any
    /// earlier value of that name; the body and the other properties stay.
    pub fn set_text_property(&mut self, name: String, value: String)
        ensures
            final(self)@.body == old(self)@.body,
            final(self)@.properties == with_text_property(
                old(self)@.properties,
                name@,
                value@,
            ),
    {
        let ghost props = self@.properties;
        let ghost entry = (name@, PropertyView::<V>::Text(value@));
        match self.find_property(&name) {
            Some(i) => {
                proof {
                    lemma_first_named(props, name@);
                }
                self.properties.set(i, (name, PropertyValue::Text(value)));
                proof {
                    assert(self@.properties =~= props.update(i as int, entry));
                }
            },
            None => {
                self.properties.push((name, PropertyValue::Text(value)));
                proof {
                    assert(self@.properties =~= props.push(entry));
                }
            },
        }
    }
}

} // verus!
