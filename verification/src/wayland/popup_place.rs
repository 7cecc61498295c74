//! Placement bookkeeping for one menu popup, free of protocol objects: it owns
//! what the compositor has been given and what it may still be sent, so "never
//! reposition an unmapped popup" is decided here and nowhere else.

use vstd::prelude::*;

use crate::abi::MenuPlacement;

verus! {

#[derive(Clone, Copy, PartialEq, Eq, Structural, Debug)]
pub struct Placed {
    /// What the compositor has been given.
    pub sent: MenuPlacement,
    /// What an unmapped popup still wants.
    pub held: Option<MenuPlacement>,
}

impl Placed {
    /// The placement that ends up on screen once everything wanted is sent.
    pub open spec fn wanted(self) -> MenuPlacement {
        match self.held {
            Some(p) => p,
            None => self.sent,
        }
    }

    pub open spec fn holding(self, want: MenuPlacement) -> Placed {
        Placed {
            sent: self.sent,
            held: if want == self.sent {
                None
            } else {
                Some(want)
            },
        }
    }

    pub fn created(sent: MenuPlacement) -> (p: Placed)
        ensures
            p == (Placed { sent, held: None }),
    {
        Placed { sent, held: None }
    }

    /// What an unmapped popup wants next. A want equal to what was sent clears
    /// the hold, so a placement already on the wire is never re-sent.
    pub fn hold(&mut self, want: MenuPlacement)
        ensures
            *final(self) == old(self).holding(want),
    {
        self.held = if want == self.sent {
            None
        } else {
            Some(want)
        };
    }

    /// The placement the mapping commit must be followed with, consumed as it
    /// is read. `None` when the create-time placement still stands.
    pub fn on_map(&mut self) -> (r: Option<MenuPlacement>)
        ensures
            r == old(self).held,
            *final(self) == (Placed { sent: old(self).wanted(), held: None }),
    {
        let r = self.held;
        match r {
            Some(place) => *self = Placed { sent: place, held: None },
            None => {},
        }
        r
    }

    /// The placement to put on the wire now; `None` when the compositor
    /// already holds it.
    pub fn send(&mut self, want: MenuPlacement) -> (r: Option<MenuPlacement>)
        ensures
            r == (if want == old(self).sent {
                None
            } else {
                Some(want)
            }),
            *final(self) == (Placed { sent: want, held: old(self).held }),
    {
        if want == self.sent {
            return None;
        }
        self.sent = want;
        Some(want)
    }
}

} // verus!
