use vstd::prelude::*;
use crate::type_tag::{TypeTag, TypeTagModel};

verus! {

#[verifier::external_type_specification]
#[verifier::external_body]
pub struct ExJsonValue(serde_json::Value);

/// A query over events.
#[derive(Debug)]
pub enum EventFilter {
    /// Events of the given Move type.
    MoveEventType(TypeTag),
    /// Events whose data has `value` at the JSON path `path`.
    MoveEventField { path: String, value: serde_json::Value },
    /// Events that every filter of the list accepts.
    All(Vec<EventFilter>),
    /// Events that some filter of the list accepts.
    Any(Vec<EventFilter>),
    And(Box<EventFilter>, Box<EventFilter>),
    Or(Box<EventFilter>, Box<EventFilter>),
}

/// An event query as clients write it.
#[derive(Debug)]
pub enum EventFilterView {
    MoveEventType(TypeTag),
    MoveEventField { path: String, value: serde_json::Value },
    All(Vec<EventFilterView>),
    Any(Vec<EventFilterView>),
    And(Box<EventFilterView>, Box<EventFilterView>),
    Or(Box<EventFilterView>, Box<EventFilterView>),
}

/// The mathematical value of an event query.
pub enum EventFilterModel {
    MoveEventType(TypeTagModel),
    MoveEventField(Seq<char>, serde_json::Value),
    All(Seq<EventFilterModel>),
    Any(Seq<EventFilterModel>),
    And(Box<EventFilterModel>, Box<EventFilterModel>),
    Or(Box<EventFilterModel>, Box<EventFilterModel>),
}

pub open spec fn filter_model(f: EventFilter) -> EventFilterModel
    decreases f,
{
    match f {
        EventFilter::MoveEventType(t) => EventFilterModel::MoveEventType(t@),
        EventFilter::MoveEventField { path, value } => EventFilterModel::MoveEventField(path@, value),
        EventFilter::All(fs) => EventFilterModel::All(filters_model(fs@)),
        EventFilter::Any(fs) => EventFilterModel::Any(filters_model(fs@)),
        EventFilter::And(l, r) => EventFilterModel::And(Box::new(filter_model(*l)), Box::new(filter_model(*r))),
        EventFilter::Or(l, r) => EventFilterModel::Or(Box::new(filter_model(*l)), Box::new(filter_model(*r))),
    }
}

pub open spec fn filters_model(fs: Seq<EventFilter>) -> Seq<EventFilterModel>
    decreases fs,
{
    if fs.len() == 0 {
        Seq::empty()
    } else {
        filters_model(fs.drop_last()).push(filter_model(fs.last()))
    }
}

pub open spec fn filter_view_model(f: EventFilterView) -> EventFilterModel
    decreases f,
{
    match f {
        EventFilterView::MoveEventType(t) => EventFilterModel::MoveEventType(t@),
        EventFilterView::MoveEventField { path, value } => EventFilterModel::MoveEventField(path@, value),
        EventFilterView::All(fs) => EventFilterModel::All(filter_views_model(fs@)),
        EventFilterView::Any(fs) => EventFilterModel::Any(filter_views_model(fs@)),
        EventFilterView::And(l, r) => EventFilterModel::And(
            Box::new(filter_view_model(*l)),
            Box::new(filter_view_model(*r)),
        ),
        EventFilterView::Or(l, r) => EventFilterModel::Or(
            Box::new(filter_view_model(*l)),
            Box::new(filter_view_model(*r)),
        ),
    }
}

pub open spec fn filter_views_model(fs: Seq<EventFilterView>) -> Seq<EventFilterModel>
    decreases fs,
{
    if fs.len() == 0 {
        Seq::empty()
    } else {
        filter_views_model(fs.drop_last()).push(filter_view_model(fs.last()))
    }
}

impl View for EventFilter {
    type V = EventFilterModel;

    open spec fn view(&self) -> EventFilterModel {
        filter_model(*self)
    }
}

impl View for EventFilterView {
    type V = EventFilterModel;

    open spec fn view(&self) -> EventFilterModel {
        filter_view_model(*self)
    }
}

proof fn lemma_filters_model(fs: Seq<EventFilter>)
    ensures
        filters_model(fs).len() == fs.len(),
        forall|i: int| 0 <= i < fs.len() ==> #[trigger] filters_model(fs)[i] == filter_model(fs[i]),
    decreases fs.len(),
{
    if fs.len() > 0 {
        lemma_filters_model(fs.drop_last());
    }
}

proof fn lemma_filter_views_model(fs: Seq<EventFilterView>)
    ensures
        filter_views_model(fs).len() == fs.len(),
        forall|i: int| 0 <= i < fs.len() ==> #[trigger] filter_views_model(fs)[i] == filter_view_model(fs[i]),
    decreases fs.len(),
{
    if fs.len() > 0 {
        lemma_filter_views_model(fs.drop_last());
    }
}

/// The queries of a list, one by one; the result keeps the list's order.
fn filters_from(filters: Vec<EventFilterView>, Ghost(whole): Ghost<EventFilterView>) -> (r: Vec<EventFilter>)
    requires
        forall|i: int| 0 <= i < filters.len() ==> decreases_to!(whole => #[trigger] filters@[i]),
    ensures
        filters_model(r@) == filter_views_model(filters@),
    decreases whole, 0nat,
{
    let ghost given = filters@;
    let n = filters.len();
    let mut rest = filters;
    let mut out: Vec<EventFilter> = Vec::new();
    let mut i: usize = 0;
    while rest.len() > 0
        invariant
            i <= given.len(),
            rest@ == given.skip(i as int),
            i + rest.len() == given.len(),
            given.len() == n,
            out.len() == i,
            forall|k: int| 0 <= k < i ==> filter_model(#[trigger] out@[k]) == filter_view_model(given[k]),
            forall|k: int| 0 <= k < given.len() ==> decreases_to!(whole => #[trigger] given[k]),
        decreases rest.len(),
    {
        let f = rest.remove(0);
        assert(f == given[i as int]);
        out.push(EventFilter::from(f));
        i += 1;
        assert(rest@ =~= given.skip(i as int));
    }
    proof {
        lemma_filters_model(out@);
        lemma_filter_views_model(given);
        assert(filters_model(out@) =~= filter_views_model(given));
    }
    out
}

impl EventFilter {
    /// The query a client's query stands for, form by form.
    pub fn from(value: EventFilterView) -> (f: EventFilter)
        ensures
            f@ == value@,
        decreases value, 1nat,
    {
        match value {
            EventFilterView::MoveEventType(type_tag) => EventFilter::MoveEventType(type_tag),
            EventFilterView::MoveEventField { path, value } => EventFilter::MoveEventField { path, value },
            EventFilterView::All(filters) => {
                let ghost whole = value;
                EventFilter::All(filters_from(filters, Ghost(whole)))
            },
            EventFilterView::Any(filters) => {
                let ghost whole = value;
                EventFilter::Any(filters_from(filters, Ghost(whole)))
            },
            EventFilterView::And(left, right) => {
                EventFilter::And(Box::new(EventFilter::from(*left)), Box::new(EventFilter::from(*right)))
            },
            EventFilterView::Or(left, right) => {
                EventFilter::Or(Box::new(EventFilter::from(*left)), Box::new(EventFilter::from(*right)))
            },
        }
    }
}

} // verus!
