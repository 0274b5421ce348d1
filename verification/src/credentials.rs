use crate::errors::Error;
use vstd::prelude::*;

verus! {

/// The global identity of a record or credential: the address of the class
/// resource it belongs to, and its local id within that class.
#[derive(Clone, Copy, Debug, PartialEq, Eq, Structural)]
pub struct GlobalId {
    pub resource: u64,
    pub local: usize,
}

/// A non-consumable attestation that the caller currently holds the record or
/// credential with the given identity.  Checking it against an expected class
/// yields the attested identity without consuming anything.
#[derive(Clone, Copy, Debug, PartialEq, Eq, Structural)]
pub struct Proof {
    pub id: GlobalId,
}

impl Proof {
    pub fn of(id: GlobalId) -> (p: Proof)
        ensures
            p.id == id,
    {
        Proof { id }
    }

    /// Attests the proof against an expected class, failing `WrongClass` when
    /// the held credential belongs to a different class.  The proof itself is
    /// only borrowed, never consumed.
    pub fn check(&self, expected_resource: u64) -> (r: Result<GlobalId, Error>)
        ensures
            self.id.resource == expected_resource ==> r == Ok::<GlobalId, Error>(self.id),
            self.id.resource != expected_resource ==> r == Err::<GlobalId, Error>(
                Error::WrongClass,
            ),
    {
        if self.id.resource == expected_resource {
            Ok(self.id)
        } else {
            Err(Error::WrongClass)
        }
    }
}

/// The minting capability scoped to the shared record classes.  The
/// repository mints exactly one per collection and hands it to that
/// collection alone; possession of the value is the authorization, so the
/// type offers no public constructor.
#[derive(Debug)]
pub struct MinterBadge {
    serial: u64,
}

impl MinterBadge {
    pub(crate) fn issue(serial: u64) -> MinterBadge {
        MinterBadge { serial }
    }
}

} // verus!
