//! A three-way status, one shape of which carries a reason.
use vstd::prelude::*;

verus! {

/// A status: active, inactive, or pending for a stated reason.
#[derive(Debug)]
pub enum Status {
    Active,
    Inactive,
    Pending { reason: String },
}

/// The line that describes a status.
pub open spec fn status_line(s: &Status) -> Seq<char> {
    match s {
        Status::Active => "Active"@,
        Status::Inactive => "Inactive"@,
        Status::Pending { reason } => "Pending: "@ + reason@,
    }
}

impl Status {
    /// `"Active"`, `"Inactive"`, or `"Pending: "` followed by the reason.
    pub fn line(&self) -> (r: String)
        ensures
            r@ == status_line(self),
    {
        match self {
            Status::Active => String::from_str("Active"),
            Status::Inactive => String::from_str("Inactive"),
            Status::Pending { reason } => {
                let mut r = String::from_str("Pending: ");
                r.append(reason.as_str());
                r
            },
        }
    }
}

/// Two statuses with the same line have the same shape, and two pending
/// statuses with the same line have the same reason.
pub proof fn lemma_line_determines_status(a: &Status, b: &Status)
    requires
        status_line(a) == status_line(b),
    ensures
        (a is Active) == (b is Active),
        (a is Inactive) == (b is Inactive),
        (a is Pending) == (b is Pending),
        a is Pending ==> a->reason@ == b->reason@,
{
    reveal_strlit("Active");
    reveal_strlit("Inactive");
    reveal_strlit("Pending: ");
    let la = status_line(a);
    let lb = status_line(b);
    if a is Pending && b is Pending {
        assert(a->reason@ =~= la.skip(9));
        assert(b->reason@ =~= lb.skip(9));
    }
    if (a is Active) != (b is Active) || (a is Inactive) != (b is Inactive) {
        assert(la[0] != lb[0] || la.len() != lb.len());
    }
}

} // verus!
