use vstd::prelude::*;

verus! {

broadcast use vstd::std_specs::vec::group_vec_axioms;

/// A language-agnostic structured value: scalars, lists and string-keyed records.
#[derive(Debug)]
pub enum GenericValue {
    Nothing,
    Bool(bool),
    Int(i64),
    Str(String),
    List(Vec<GenericValue>),
    Record(Vec<(String, GenericValue)>),
}

/// The mathematical model of a `GenericValue`.
pub enum ValueModel {
    Nothing,
    Bool(bool),
    Int(int),
    Str(Seq<char>),
    List(Seq<ValueModel>),
    Record(Seq<(Seq<char>, ValueModel)>),
}

impl GenericValue {
    pub open spec fn view(&self) -> ValueModel
        decreases self,
    {
        match self {
            GenericValue::Nothing => ValueModel::Nothing,
            GenericValue::Bool(b) => ValueModel::Bool(*b),
            GenericValue::Int(i) => ValueModel::Int(*i as int),
            GenericValue::Str(s) => ValueModel::Str(s@),
            GenericValue::List(v) => ValueModel::List(
                Seq::new(
                    v.len() as nat,
                    |i: int|
                        if 0 <= i < v.len() {
                            v[i].view()
                        } else {
                            ValueModel::Nothing
                        },
                ),
            ),
            GenericValue::Record(v) => ValueModel::Record(
                Seq::new(
                    v.len() as nat,
                    |i: int|
                        if 0 <= i < v.len() {
                            (v[i].0@, v[i].1.view())
                        } else {
                            (Seq::empty(), ValueModel::Nothing)
                        },
                ),
            ),
        }
    }
}

/// The fields of a record model; empty for any other value.
pub open spec fn record_fields(v: ValueModel) -> Seq<(Seq<char>, ValueModel)> {
    match v {
        ValueModel::Record(s) => s,
        _ => Seq::empty(),
    }
}

/// The items of a list model; empty for any other value.
pub open spec fn list_items(v: ValueModel) -> Seq<ValueModel> {
    match v {
        ValueModel::List(s) => s,
        _ => Seq::empty(),
    }
}

/// The model of a record is the models of its fields, in order.
pub proof fn lemma_record_view(v: Vec<(String, GenericValue)>)
    ensures
        GenericValue::Record(v)@ == ValueModel::Record(
            v@.map_values(|e: (String, GenericValue)| (e.0@, e.1@)),
        ),
{
    if let ValueModel::Record(s) = GenericValue::Record(v)@ {
        assert(s =~= v@.map_values(|e: (String, GenericValue)| (e.0@, e.1@)));
    }
}

/// The model of a list is the models of its items, in order.
pub proof fn lemma_list_view(v: Vec<GenericValue>)
    ensures
        GenericValue::List(v)@ == ValueModel::List(v@.map_values(|e: GenericValue| e@)),
{
    if let ValueModel::List(s) = GenericValue::List(v)@ {
        assert(s =~= v@.map_values(|e: GenericValue| e@));
    }
}

} // verus!
