//! The response a call hands back: the alkanes transferred out, and data.

use vstd::prelude::*;

verus! {

/// Identifies an alkane by the block and transaction that created it.
#[derive(Clone, Copy, Debug, PartialEq, Eq, Structural)]
pub struct AlkaneId {
    pub block: u128,
    pub tx: u128,
}

/// An amount of one alkane handed on to the caller.
#[derive(Clone, Copy, Debug, PartialEq, Eq, Structural)]
pub struct AlkaneTransfer {
    pub id: AlkaneId,
    pub value: u128,
}

/// What a call returns on success.
#[derive(Clone, Debug)]
pub struct CallResponse {
    pub alkanes: Vec<AlkaneTransfer>,
    pub data: Vec<u8>,
}

/// The mathematical content of a [`CallResponse`].
pub struct CallResponseView {
    pub alkanes: Seq<AlkaneTransfer>,
    pub data: Seq<u8>,
}

impl View for CallResponse {
    type V = CallResponseView;

    open spec fn view(&self) -> CallResponseView {
        CallResponseView { alkanes: self.alkanes@, data: self.data@ }
    }
}

/// The canonical empty response: no transfers and no data.
pub open spec fn empty_response() -> CallResponseView {
    CallResponseView { alkanes: Seq::empty(), data: Seq::empty() }
}

impl CallResponse {
    /// True when the response transfers nothing and carries no data.
    pub fn is_empty(&self) -> (r: bool)
        ensures
            r == (self@ == empty_response()),
    {
        let r = self.alkanes.len() == 0 && self.data.len() == 0;
        proof {
            if r {
                assert(self.alkanes@ =~= Seq::<AlkaneTransfer>::empty());
                assert(self.data@ =~= Seq::<u8>::empty());
            }
        }
        r
    }
}

impl Default for CallResponse {
    fn default() -> (r: CallResponse)
        ensures
            r@ == empty_response(),
    {
        let r = CallResponse { alkanes: Vec::new(), data: Vec::new() };
        proof {
            assert(r.alkanes@ =~= Seq::<AlkaneTransfer>::empty());
            assert(r.data@ =~= Seq::<u8>::empty());
        }
        r
    }
}

} // verus!
