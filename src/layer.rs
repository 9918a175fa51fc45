use vstd::prelude::*;
use crate::value::{Value, ValueModel, opt_view, copy_opt};

verus! {

/// Number of fields in the configuration schema.
pub const NUM_FIELDS: usize = 3;

/// A partial mapping from field index to value: the model of one layer, or of
/// the effective mapping built by folding layers.
pub type LayerModel = Seq<Option<ValueModel>>;

/// The layer that sets nothing.
pub open spec fn empty_layer() -> LayerModel {
    Seq::new(NUM_FIELDS as nat, |i: int| None)
}

/// `upper` folded over `lower`: a field that `upper` sets takes its value, any
/// other field keeps the value it had in `lower`.
pub open spec fn merge_spec(lower: LayerModel, upper: LayerModel) -> LayerModel {
    Seq::new(
        NUM_FIELDS as nat,
        |i: int|
            match upper[i] {
                Some(v) => Some(v),
                None => lower[i],
            },
    )
}

/// Every field has a value.
pub open spec fn is_complete(m: LayerModel) -> bool {
    &&& m.len() == NUM_FIELDS
    &&& forall|i: int| 0 <= i < NUM_FIELDS ==> (#[trigger] m[i]) is Some
}

/// One layer of configuration: for each field of the schema, in schema order,
/// the value the layer sets, or `None`.
#[derive(Debug, Clone)]
pub struct Layer {
    pub values: Vec<Option<Value>>,
}

impl View for Layer {
    type V = LayerModel;

    open spec fn view(&self) -> LayerModel {
        self.values@.map_values(|o: Option<Value>| opt_view(o))
    }
}

impl Layer {
    /// A layer holds exactly one entry per schema field.
    pub open spec fn wf(&self) -> bool {
        self.values@.len() == NUM_FIELDS
    }

    /// The layer that sets no field.
    pub fn empty() -> (r: Layer)
        ensures
            r.wf(),
            r@ == empty_layer(),
    {
        let mut values: Vec<Option<Value>> = Vec::new();
        let mut i: usize = 0;
        while i < NUM_FIELDS
            invariant
                i <= NUM_FIELDS,
                values@.len() == i,
                forall|j: int| 0 <= j < i ==> (#[trigger] values@[j]) is None,
            decreases NUM_FIELDS - i,
        {
            values.push(None);
            i = i + 1;
        }
        let r = Layer { values };
        assert(r@ =~= empty_layer());
        r
    }

    /// Whether the layer sets field `i`.
    pub fn is_set(&self, i: usize) -> (r: bool)
        requires
            self.wf(),
            i < NUM_FIELDS,
        ensures
            r == (self@[i as int] is Some),
    {
        self.values[i].is_some()
    }
}

/// Folds `upper` over `lower`; fields that `upper` leaves unset keep the value
/// they have in `lower`.
pub fn merge(lower: &Layer, upper: &Layer) -> (r: Layer)
    requires
        lower.wf(),
        upper.wf(),
    ensures
        r.wf(),
        r@ == merge_spec(lower@, upper@),
{
    let mut values: Vec<Option<Value>> = Vec::new();
    let mut i: usize = 0;
    while i < NUM_FIELDS
        invariant
            lower.wf(),
            upper.wf(),
            i <= NUM_FIELDS,
            values@.len() == i,
            forall|j: int|
                0 <= j < i ==> opt_view(#[trigger] values@[j]) == merge_spec(lower@, upper@)[j],
        decreases NUM_FIELDS - i,
    {
        let v = if upper.values[i].is_some() {
            copy_opt(&upper.values[i])
        } else {
            copy_opt(&lower.values[i])
        };
        values.push(v);
        i = i + 1;
    }
    let r = Layer { values };
    assert(r@ =~= merge_spec(lower@, upper@));
    r
}

} // verus!
