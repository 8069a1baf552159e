//! Routing tags and recursion depth attached to requests.
use vstd::prelude::*;
use vstd::std_specs::cmp::PartialEqSpecImpl;

verus! {

/// Identifier attached to a request, used for routing and flow control.
#[derive(Debug)]
pub enum Tag {
    /// Explicitly calls the fallback handler.
    Fallback,
    /// Named identifier used for routing.
    Sequence(String),
    /// Numeric identifier used for routing.
    Rehash(u64),
}

/// The mathematical value of a [`Tag`].
pub enum TagView {
    Fallback,
    Sequence(Seq<char>),
    Rehash(u64),
}

impl View for Tag {
    type V = TagView;

    open spec fn view(&self) -> TagView {
        match self {
            Tag::Fallback => TagView::Fallback,
            Tag::Sequence(s) => TagView::Sequence(s@),
            Tag::Rehash(n) => TagView::Rehash(*n),
        }
    }
}

impl Tag {
    /// Returns `true` if the tag is an explicit fallback.
    pub fn is_fallback(&self) -> (r: bool)
        ensures
            r == (self@ == TagView::Fallback),
    {
        match self {
            Tag::Fallback => true,
            _ => false,
        }
    }

    /// Creates a named tag from a static string slice.
    pub fn from_static(value: &'static str) -> (t: Tag)
        ensures
            t@ == TagView::Sequence(value@),
    {
        Tag::Sequence(String::from_str(value))
    }

    /// Creates a named tag.
    pub fn sequence(value: &str) -> (t: Tag)
        ensures
            t@ == TagView::Sequence(value@),
    {
        Tag::Sequence(String::from_str(value))
    }

    /// Creates a numeric tag.
    pub fn rehash(value: u64) -> (t: Tag)
        ensures
            t@ == TagView::Rehash(value),
    {
        Tag::Rehash(value)
    }

    /// The fallback tag, also the default one.
    pub fn fallback() -> (t: Tag)
        ensures
            t@ == TagView::Fallback,
    {
        Tag::Fallback
    }

    /// A copy of this tag.
    pub fn duplicate(&self) -> (t: Tag)
        ensures
            t@ == self@,
    {
        match self {
            Tag::Fallback => Tag::Fallback,
            Tag::Sequence(s) => Tag::Sequence(s.clone()),
            Tag::Rehash(n) => Tag::Rehash(*n),
        }
    }

    /// Whether two tags are the same.
    pub fn same_as(&self, other: &Tag) -> (r: bool)
        ensures
            r == (self@ == other@),
    {
        match (self, other) {
            (Tag::Fallback, Tag::Fallback) => true,
            (Tag::Sequence(a), Tag::Sequence(b)) => a.eq(b),
            (Tag::Rehash(a), Tag::Rehash(b)) => *a == *b,
            _ => false,
        }
    }
}

impl Clone for Tag {
    fn clone(&self) -> (t: Tag)
        ensures
            t@ == self@,
    {
        self.duplicate()
    }
}

impl PartialEq for Tag {
    fn eq(&self, other: &Tag) -> (r: bool) {
        self.same_as(other)
    }
}

impl Eq for Tag {}

impl PartialEqSpecImpl for Tag {
    open spec fn obeys_eq_spec() -> bool {
        true
    }

    open spec fn eq_spec(&self, other: &Tag) -> bool {
        self@ == other@
    }
}

impl Default for Tag {
    fn default() -> (t: Tag)
        ensures
            t@ == TagView::Fallback,
    {
        Tag::Fallback
    }
}

/// The recursion depth of a request; never less than 1.
#[derive(Debug, Clone, Copy, PartialEq, Eq, Structural)]
pub struct Depth {
    value: usize,
}

impl View for Depth {
    type V = nat;

    closed spec fn view(&self) -> nat {
        self.value as nat
    }
}

/// The depth that `Depth::new(depth)` stands for.
pub open spec fn depth_of(depth: nat) -> nat {
    if depth == 0 { 1 } else { depth }
}

impl Depth {
    #[verifier::type_invariant]
    spec fn positive(self) -> bool {
        self.value >= 1
    }

    /// Creates a new depth; a depth of 0 becomes the minimum, 1.
    pub fn new(depth: usize) -> (d: Depth)
        ensures
            d@ == depth_of(depth as nat),
    {
        if depth == 0 {
            Depth { value: 1 }
        } else {
            Depth { value: depth }
        }
    }

    /// The smallest depth, 1.
    pub fn min() -> (d: Depth)
        ensures
            d@ == 1,
    {
        Depth { value: 1 }
    }

    /// Returns the depth as a primitive type.
    pub fn get(self) -> (n: usize)
        ensures
            n == self@,
            n >= 1,
    {
        proof {
            use_type_invariant(self);
        }
        self.value
    }
}

impl Default for Depth {
    fn default() -> (d: Depth)
        ensures
            d@ == 1,
    {
        Depth::min()
    }
}

} // verus!
