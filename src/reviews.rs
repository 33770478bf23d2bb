use vstd::prelude::*;

verus! {

/// The service a review is about.
#[derive(Clone, Copy, Debug, PartialEq, Eq, Structural)]
pub enum ReviewTarget {
    Tyres,
    Cleaning,
    HomeMaster,
}

/// A request for the stored reviews, of one target or of all.
#[derive(Clone, Copy, Debug, PartialEq, Eq, Structural)]
pub struct GetReviewsQuery {
    target: Option<ReviewTarget>,
}

impl GetReviewsQuery {
    pub closed spec fn target_view(&self) -> Option<ReviewTarget> {
        self.target
    }

    pub fn new(target: Option<ReviewTarget>) -> (r: Self)
        ensures
            r.target_view() == target,
    {
        GetReviewsQuery { target }
    }

    /// The target that the reviews are filtered on; `None` asks for all.
    pub fn target(&self) -> (r: Option<ReviewTarget>)
        ensures
            r == self.target_view(),
    {
        self.target
    }
}

} // verus!
