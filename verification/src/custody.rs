use vstd::prelude::*;
use crate::identity::Identity;

verus! {

/// Handle to the custody location of the asset on sale.
#[derive(Clone, Copy, Debug, PartialEq, Eq)]
pub struct AssetRef {
    pub handle: [u8; 32],
}

/// One instruction to the custody collaborator. The engine never moves
/// anything itself: an operation names its instructions in the order in
/// which they are to take effect.
#[derive(Clone, Copy, Debug, PartialEq, Eq)]
pub enum CustodyAction {
    /// Take `amount` from the funds of `from` into the auction's escrow.
    Hold { amount: u64, from: Identity },
    /// Pay `amount` out of the auction's escrow to `to`.
    Release { amount: u64, to: Identity },
    /// Hand the asset over from the auction's custody to `to`.
    MoveAsset { asset: AssetRef, to: Identity },
}

/// What the custody collaborator reports on the instructions of one
/// operation. The substrate applies an operation wholly or not at all, so
/// the report is one word for all of them.
#[derive(Clone, Copy, Debug, PartialEq, Eq, Structural)]
pub enum CustodyOutcome {
    /// Every instruction took effect.
    Completed,
    /// An instruction failed, and none of them is retained.
    Failed,
}

/// The collaborator's books as far as one auction is concerned: what each
/// party owns outside the auction, what the auction holds in escrow, and
/// who has received which asset from it.
pub struct Holdings {
    pub balances: Map<Identity, int>,
    pub escrow: int,
    pub assets: Map<AssetRef, Identity>,
}

impl Holdings {
    /// What `party` owns outside the auction.
    pub open spec fn balance_of(self, party: Identity) -> int {
        if self.balances.dom().contains(party) {
            self.balances[party]
        } else {
            0
        }
    }

    /// The books after one instruction has taken effect.
    pub open spec fn apply(self, action: CustodyAction) -> Holdings {
        match action {
            CustodyAction::Hold { amount, from } => Holdings {
                balances: self.balances.insert(from, self.balance_of(from) - amount),
                escrow: self.escrow + amount,
                assets: self.assets,
            },
            CustodyAction::Release { amount, to } => Holdings {
                balances: self.balances.insert(to, self.balance_of(to) + amount),
                escrow: self.escrow - amount,
                assets: self.assets,
            },
            CustodyAction::MoveAsset { asset, to } => Holdings {
                balances: self.balances,
                escrow: self.escrow,
                assets: self.assets.insert(asset, to),
            },
        }
    }

    /// The books after the instructions have taken effect one after another.
    pub open spec fn apply_all(self, actions: Seq<CustodyAction>) -> Holdings
        decreases actions.len(),
    {
        if actions.len() == 0 {
            self
        } else {
            self.apply(actions[0]).apply_all(actions.drop_first())
        }
    }
}

} // verus!
