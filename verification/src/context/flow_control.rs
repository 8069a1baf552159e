//! Flow control for crawling tasks: whether to go on, wait, or stop, and for
//! which tags.
use vstd::prelude::*;

use crate::context::tag::{Tag, TagView};
use crate::error::Error;
use crate::time::Duration;

verus! {

/// Selects the tags that a flow-control decision applies to.
#[derive(Debug)]
pub enum TagQuery {
    /// Matches the same tag as the one used by the request (never the fallback tag).
    Owner,
    /// Matches the provided tag.
    Single(Tag),
    /// Matches every tag from the provided list.
    List(Vec<Tag>),
    /// Matches every tag, including the fallback tag.
    Every,
}

/// The mathematical value of a [`TagQuery`].
pub enum TagQueryView {
    Owner,
    Single(TagView),
    List(Seq<TagView>),
    Every,
}

/// The views of a sequence of tags.
pub open spec fn tag_views(tags: Seq<Tag>) -> Seq<TagView> {
    tags.map_values(|t: Tag| t@)
}

impl View for TagQuery {
    type V = TagQueryView;

    open spec fn view(&self) -> TagQueryView {
        match self {
            TagQuery::Owner => TagQueryView::Owner,
            TagQuery::Single(t) => TagQueryView::Single(t@),
            TagQuery::List(v) => TagQueryView::List(tag_views(v@)),
            TagQuery::Every => TagQueryView::Every,
        }
    }
}

/// Whether `query` selects `tag` for a request owned by `owner`.
pub open spec fn query_matches(query: TagQueryView, tag: TagView, owner: TagView) -> bool {
    match query {
        TagQueryView::Owner => owner != TagView::Fallback && tag == owner,
        TagQueryView::Single(x) => x == tag,
        TagQueryView::List(xs) => xs.contains(tag),
        TagQueryView::Every => true,
    }
}

/// Copies a list of tags.
pub fn copy_tags(tags: &Vec<Tag>) -> (r: Vec<Tag>)
    ensures
        tag_views(r@) == tag_views(tags@),
{
    let mut r: Vec<Tag> = Vec::new();
    for i in 0..tags.len()
        invariant
            r@.len() == i,
            forall|j: int| 0 <= j < i ==> #[trigger] r@[j]@ == tags@[j]@,
    {
        r.push(tags[i].duplicate());
    }
    assert(tag_views(r@) =~= tag_views(tags@));
    r
}

/// Whether `tag` is one of `tags`.
pub fn tags_contain(tags: &Vec<Tag>, tag: &Tag) -> (r: bool)
    ensures
        r == tag_views(tags@).contains(tag@),
{
    for i in 0..tags.len()
        invariant
            forall|j: int| 0 <= j < i ==> #[trigger] tags@[j]@ != tag@,
    {
        if tags[i].same_as(tag) {
            assert(tag_views(tags@)[i as int] == tag@);
            return true;
        }
    }
    proof {
        if tag_views(tags@).contains(tag@) {
            let k = choose|k: int| 0 <= k < tag_views(tags@).len() && tag_views(tags@)[k] == tag@;
            assert(tags@[k]@ == tag@);
        }
    }
    false
}

impl TagQuery {
    /// Matches a tag against this query, for a request owned by `owner`.
    pub fn is_match(&self, tag: &Tag, owner: &Tag) -> (r: bool)
        ensures
            r == query_matches(self@, tag@, owner@),
    {
        match self {
            TagQuery::Owner => !owner.is_fallback() && tag.same_as(owner),
            TagQuery::Single(x) => x.same_as(tag),
            TagQuery::List(x) => tags_contain(x, tag),
            TagQuery::Every => true,
        }
    }

    /// A copy of this query.
    pub fn duplicate(&self) -> (q: TagQuery)
        ensures
            q@ == self@,
    {
        match self {
            TagQuery::Owner => TagQuery::Owner,
            TagQuery::Single(t) => TagQuery::Single(t.duplicate()),
            TagQuery::List(v) => TagQuery::List(copy_tags(v)),
            TagQuery::Every => TagQuery::Every,
        }
    }
}

impl Clone for TagQuery {
    fn clone(&self) -> (q: TagQuery)
        ensures
            q@ == self@,
    {
        self.duplicate()
    }
}

impl Default for TagQuery {
    fn default() -> (q: TagQuery)
        ensures
            q@ == TagQueryView::Owner,
    {
        TagQuery::Owner
    }
}

/// What to do after a request has been processed.
#[derive(Debug)]
pub enum FlowControl {
    /// Task succeeded, immediately proceed with another task.
    Continue,
    /// Task failed, immediately proceed with another task.
    Skip,
    /// Task succeeded, wait before tasks with matching tags.
    Wait(TagQuery, Duration),
    /// Task failed, wait before tasks with matching tags.
    Hold(TagQuery, Duration),
    /// Task failed, terminate all collector tasks; carries the failure's description.
    Fail(TagQuery, String),
}

/// The mathematical value of a [`FlowControl`].
pub enum FlowControlView {
    Continue,
    Skip,
    Wait(TagQueryView, nat),
    Hold(TagQueryView, nat),
    Fail(TagQueryView, Seq<char>),
}

impl View for FlowControl {
    type V = FlowControlView;

    open spec fn view(&self) -> FlowControlView {
        match self {
            FlowControl::Continue => FlowControlView::Continue,
            FlowControl::Skip => FlowControlView::Skip,
            FlowControl::Wait(q, d) => FlowControlView::Wait(q@, d@),
            FlowControl::Hold(q, d) => FlowControlView::Hold(q@, d@),
            FlowControl::Fail(q, e) => FlowControlView::Fail(q@, e@),
        }
    }
}

/// A success turned into a failure and back: `Continue`/`Skip` and `Wait`/`Hold`
/// swap, `Fail` stays.
pub open spec fn flipped(f: FlowControlView) -> FlowControlView {
    match f {
        FlowControlView::Continue => FlowControlView::Skip,
        FlowControlView::Skip => FlowControlView::Continue,
        FlowControlView::Wait(q, d) => FlowControlView::Hold(q, d),
        FlowControlView::Hold(q, d) => FlowControlView::Wait(q, d),
        FlowControlView::Fail(q, e) => FlowControlView::Fail(q, e),
    }
}

/// Swaps success and failure, as [`flipped`] says.
pub fn flip(f: FlowControl) -> (r: FlowControl)
    ensures
        r@ == flipped(f@),
{
    match f {
        FlowControl::Continue => FlowControl::Skip,
        FlowControl::Skip => FlowControl::Continue,
        FlowControl::Wait(q, d) => FlowControl::Hold(q, d),
        FlowControl::Hold(q, d) => FlowControl::Wait(q, d),
        FlowControl::Fail(q, e) => FlowControl::Fail(q, e),
    }
}

impl FlowControl {
    /// Creates a flow-control decision from an error's description.
    ///
    /// The error carries no tag query, so the decision is to hold the owner's
    /// tag for no time.
    pub fn error(description: String) -> (f: FlowControl)
        ensures
            f@ == FlowControlView::Hold(TagQueryView::Owner, 0),
    {
        Error::from_boxed(description).into_flow_control()
    }

    /// Returns the duration of a `Wait` or `Hold`, the empty span otherwise.
    pub fn duration(&self) -> (d: Duration)
        ensures
            d@ == match self@ {
                FlowControlView::Wait(_, x) => x,
                FlowControlView::Hold(_, x) => x,
                _ => 0,
            },
    {
        match self {
            FlowControl::Wait(_, x) => *x,
            FlowControl::Hold(_, x) => *x,
            _ => Duration::zero(),
        }
    }

    /// Returns the tag query of a `Wait`, `Hold` or `Fail`, `Owner` otherwise.
    pub fn query(&self) -> (q: TagQuery)
        ensures
            q@ == match self@ {
                FlowControlView::Wait(x, _) => x,
                FlowControlView::Hold(x, _) => x,
                FlowControlView::Fail(x, _) => x,
                _ => TagQueryView::Owner,
            },
    {
        match self {
            FlowControl::Wait(x, _) => x.duplicate(),
            FlowControl::Hold(x, _) => x.duplicate(),
            FlowControl::Fail(x, _) => x.duplicate(),
            _ => TagQuery::Owner,
        }
    }
}

impl Default for FlowControl {
    fn default() -> (f: FlowControl)
        ensures
            f@ == FlowControlView::Continue,
    {
        FlowControl::Continue
    }
}

/// Values that can be turned into a flow-control decision.
pub trait IntoFlowControl: Sized {
    /// The decision that this value stands for.
    spec fn flow_control_of(&self) -> FlowControlView;

    /// Transforms `self` into a flow-control decision.
    fn into_flow_control(self) -> (f: FlowControl)
        ensures
            f@ == self.flow_control_of(),
    ;
}

impl IntoFlowControl for FlowControl {
    open spec fn flow_control_of(&self) -> FlowControlView {
        self@
    }

    fn into_flow_control(self) -> (f: FlowControl) {
        self
    }
}

impl IntoFlowControl for () {
    open spec fn flow_control_of(&self) -> FlowControlView {
        FlowControlView::Continue
    }

    fn into_flow_control(self) -> (f: FlowControl) {
        FlowControl::Continue
    }
}

impl IntoFlowControl for Duration {
    open spec fn flow_control_of(&self) -> FlowControlView {
        FlowControlView::Wait(TagQueryView::Owner, self@)
    }

    fn into_flow_control(self) -> (f: FlowControl) {
        FlowControl::Wait(TagQuery::Owner, self)
    }
}

impl<T: IntoFlowControl> IntoFlowControl for Option<T> {
    open spec fn flow_control_of(&self) -> FlowControlView {
        match self {
            Some(x) => x.flow_control_of(),
            None => FlowControlView::Continue,
        }
    }

    fn into_flow_control(self) -> (f: FlowControl) {
        match self {
            Some(x) => x.into_flow_control(),
            None => ().into_flow_control(),
        }
    }
}

impl<T: IntoFlowControl, E: IntoFlowControl> IntoFlowControl for Result<T, E> {
    open spec fn flow_control_of(&self) -> FlowControlView {
        match self {
            Ok(x) => x.flow_control_of(),
            Err(x) => flipped(x.flow_control_of()),
        }
    }

    fn into_flow_control(self) -> (f: FlowControl) {
        match self {
            Ok(x) => x.into_flow_control(),
            Err(x) => flip(x.into_flow_control()),
        }
    }
}

/// Flipping a decision twice gives it back.
pub proof fn lemma_flip_involutive(f: FlowControlView)
    ensures
        flipped(flipped(f)) == f,
{
}

/// The owner query selects nothing for a request without a tag of its own,
/// and the every query selects every tag.
pub proof fn lemma_query_extremes(tag: TagView, owner: TagView)
    ensures
        !query_matches(TagQueryView::Owner, tag, TagView::Fallback),
        query_matches(TagQueryView::Every, tag, owner),
{
}

} // verus!
