use vstd::prelude::*;

verus! {

/// The status of one payment record.
///
/// `NoStatus` is the implicit default of every id that was never written.
/// The only legal transitions are `NoStatus -> Ongoing`, `Failed -> Ongoing`
/// (a retry with the same id), `Ongoing -> Done` and `Ongoing -> Failed`;
/// `Done` is terminal for `pay`.
#[derive(Clone, Copy, PartialEq, Eq, Structural, Debug)]
pub enum Status {
    /// No payment was ever recorded under the id.
    NoStatus,
    /// The remote leg reported success.
    Done,
    /// The program was sent; no outcome was reported yet.
    Ongoing,
    /// The remote leg reported failure; the id may be paid again.
    Failed,
}

impl Status {
    /// The status code of the read path: 0 = no status, 1 = done,
    /// 2 = ongoing, 3 = failed.
    pub open spec fn spec_code(self) -> u8 {
        match self {
            Status::NoStatus => 0,
            Status::Done => 1,
            Status::Ongoing => 2,
            Status::Failed => 3,
        }
    }

    /// A new payment may start under an id only while nothing is in flight
    /// and nothing has completed under it.
    pub open spec fn can_begin(self) -> bool {
        self is NoStatus || self is Failed
    }

    /// Returns the wire code of the status.
    pub fn code(self) -> (r: u8)
        ensures
            r == self.spec_code(),
    {
        match self {
            Status::NoStatus => 0,
            Status::Done => 1,
            Status::Ongoing => 2,
            Status::Failed => 3,
        }
    }

    /// Returns whether a new payment may start from this status.
    pub fn begin_allowed(self) -> (r: bool)
        ensures
            r == self.can_begin(),
    {
        match self {
            Status::NoStatus => true,
            Status::Failed => true,
            Status::Ongoing => false,
            Status::Done => false,
        }
    }
}

/// The transition policy of the ledger: a payment enters `Ongoing` only from
/// `NoStatus` (first use of the id) or from `Failed` (a retry); an id that is
/// `Ongoing` or `Done` admits no further `pay`.
pub proof fn lemma_begin_edges()
    ensures
        Status::NoStatus.can_begin(),
        Status::Failed.can_begin(),
        !Status::Ongoing.can_begin(),
        !Status::Done.can_begin(),
{
}

} // verus!
