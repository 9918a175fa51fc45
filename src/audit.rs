use vstd::prelude::*;
use vstd::string::*;
use crate::config::{field_name, field_name_at};
use crate::layer::{Layer, LayerModel, NUM_FIELDS};
use crate::value::{Value, ValueModel, copy_value, opt_view, value_equal};

verus! {

/// A field that one layer set or changed: the field's name, its value before
/// the layer was applied (if any), its value after, and the layer's name.
#[derive(Debug, Clone, PartialEq, Eq)]
pub struct OverrideEvent {
    pub field: String,
    pub previous: Option<Value>,
    pub new_value: Value,
    pub layer: String,
}

/// The model of an `OverrideEvent`.
pub struct EventModel {
    pub field: Seq<char>,
    pub previous: Option<ValueModel>,
    pub new_value: ValueModel,
    pub layer: Seq<char>,
}

impl View for OverrideEvent {
    type V = EventModel;

    open spec fn view(&self) -> EventModel {
        EventModel {
            field: self.field@,
            previous: opt_view(self.previous),
            new_value: self.new_value@,
            layer: self.layer@,
        }
    }
}

impl OverrideEvent {
    /// Whether the layer replaced an earlier, different value (reported at
    /// informational level) rather than setting the field for the first time
    /// (reported at debug level).
    pub fn is_override(&self) -> (r: bool)
        ensures
            r == (self.previous is Some),
    {
        self.previous.is_some()
    }
}

/// What applying `top` over `bottom` reports for field `i`.
pub open spec fn field_events(
    bottom: LayerModel,
    top: LayerModel,
    name: Seq<char>,
    i: int,
) -> Seq<EventModel> {
    match (bottom[i], top[i]) {
        (Some(b), Some(t)) => if b != t {
            seq![EventModel { field: field_name(i), previous: Some(b), new_value: t, layer: name }]
        } else {
            Seq::empty()
        },
        (None, Some(t)) => seq![
            EventModel { field: field_name(i), previous: None, new_value: t, layer: name },
        ],
        _ => Seq::empty(),
    }
}

/// The events of the first `n` fields, in schema order.
pub open spec fn events_upto(bottom: LayerModel, top: LayerModel, name: Seq<char>, n: int) -> Seq<
    EventModel,
>
    decreases n,
{
    if n <= 0 {
        Seq::empty()
    } else {
        events_upto(bottom, top, name, n - 1) + field_events(bottom, top, name, n - 1)
    }
}

/// The events of applying layer `name`, whose mapping is `top`, over `bottom`.
pub open spec fn audit(bottom: LayerModel, top: LayerModel, name: Seq<char>) -> Seq<EventModel> {
    events_upto(bottom, top, name, NUM_FIELDS as int)
}

/// The models of a sequence of events.
pub open spec fn events_view(v: Seq<OverrideEvent>) -> Seq<EventModel> {
    v.map_values(|e: OverrideEvent| e@)
}

/// Compares the mapping before a layer is applied with the mapping after, and
/// reports each field the layer set for the first time or changed to a
/// different value; a field left alone or set to the value it had is not
/// reported.
pub fn log_overrides(bottom: &Layer, top: &Layer, top_name: &str) -> (r: Vec<OverrideEvent>)
    requires
        bottom.wf(),
        top.wf(),
    ensures
        events_view(r@) == audit(bottom@, top@, top_name@),
{
    let mut r: Vec<OverrideEvent> = Vec::new();
    let mut i: usize = 0;
    while i < NUM_FIELDS
        invariant
            bottom.wf(),
            top.wf(),
            i <= NUM_FIELDS,
            events_view(r@) == events_upto(bottom@, top@, top_name@, i as int),
        decreases NUM_FIELDS - i,
    {
        let ghost before = r@;
        assert(bottom@[i as int] == opt_view(bottom.values@[i as int]));
        assert(top@[i as int] == opt_view(top.values@[i as int]));
        match (&bottom.values[i], &top.values[i]) {
            (Some(b), Some(t)) => {
                if !value_equal(b, t) {
                    r.push(
                        OverrideEvent {
                            field: String::from_str(field_name_at(i)),
                            previous: Some(copy_value(b)),
                            new_value: copy_value(t),
                            layer: String::from_str(top_name),
                        },
                    );
                }
            },
            (None, Some(t)) => {
                r.push(
                    OverrideEvent {
                        field: String::from_str(field_name_at(i)),
                        previous: None,
                        new_value: copy_value(t),
                        layer: String::from_str(top_name),
                    },
                );
            },
            _ => {},
        }
        assert(events_view(r@) =~= events_view(before) + field_events(
            bottom@,
            top@,
            top_name@,
            i as int,
        ));
        i = i + 1;
    }
    r
}

} // verus!
