use vstd::prelude::*;

use crate::error::ContractError;

verus! {

/// An account address, identified by its text.
#[derive(Debug)]
pub struct Addr {
    text: String,
}

impl View for Addr {
    type V = Seq<char>;

    closed spec fn view(&self) -> Seq<char> {
        self.text@
    }
}

impl Addr {
    /// An address from its text, taken as it is, without validation.
    pub fn unchecked(text: &str) -> (r: Addr)
        ensures
            r@ == text@,
    {
        Addr { text: text.to_owned() }
    }

    /// The text of the address.
    pub fn as_str(&self) -> (r: &str)
        ensures
            r@ == self@,
    {
        self.text.as_str()
    }
}

impl Clone for Addr {
    fn clone(&self) -> (r: Addr)
        ensures
            r@ == self@,
    {
        Addr { text: self.text.clone() }
    }
}

impl PartialEq for Addr {
    fn eq(&self, other: &Addr) -> (r: bool)
        ensures
            r == (self@ == other@),
    {
        self.text == other.text
    }
}

impl vstd::std_specs::cmp::PartialEqSpecImpl for Addr {
    open spec fn obeys_eq_spec() -> bool {
        true
    }

    open spec fn eq_spec(&self, other: &Addr) -> bool {
        self@ == other@
    }
}

impl Eq for Addr {
}


/// Who holds the privileged role, and whether a handover is under way.
#[derive(Debug)]
pub enum Admin {
    /// `current` holds the role and no handover is under way.
    Settled { current: Addr },
    /// `from` still holds the role; `to` has been nominated and may claim it.
    Transferring { from: Addr, to: Addr },
}

/// The mathematical model of [`Admin`]: the same states, with addresses as text.
pub enum AdminView {
    Settled { current: Seq<char> },
    Transferring { from: Seq<char>, to: Seq<char> },
}

impl AdminView {
    /// The account that holds the role, in either state.
    pub open spec fn admin(self) -> Seq<char> {
        match self {
            AdminView::Settled { current } => current,
            AdminView::Transferring { from, .. } => from,
        }
    }

    /// The nominee of a handover under way, if any.
    pub open spec fn candidate(self) -> Option<Seq<char>> {
        match self {
            AdminView::Settled { .. } => None,
            AdminView::Transferring { to, .. } => Some(to),
        }
    }

    /// Whether `who` may perform privileged operations.
    pub open spec fn is_authorized(self, who: Seq<char>) -> bool {
        who == self.admin()
    }

    /// The state after `sender` nominates `to`; `None` where `sender` is refused.
    pub open spec fn transfer(self, sender: Seq<char>, to: Seq<char>) -> Option<AdminView> {
        if sender == self.admin() {
            Some(AdminView::Transferring { from: self.admin(), to })
        } else {
            None
        }
    }

    /// The state after `sender` claims the role; `None` where `sender` is refused.
    pub open spec fn claim(self, sender: Seq<char>) -> Option<AdminView> {
        if self.candidate() == Some(sender) {
            Some(AdminView::Settled { current: sender })
        } else {
            None
        }
    }

    /// The state after `sender` calls off a handover; `None` where `sender` is refused.
    pub open spec fn cancel(self, sender: Seq<char>) -> Option<AdminView> {
        if sender == self.admin() {
            Some(AdminView::Settled { current: self.admin() })
        } else {
            None
        }
    }
}

impl View for Admin {
    type V = AdminView;

    open spec fn view(&self) -> AdminView {
        match self {
            Admin::Settled { current } => AdminView::Settled { current: current@ },
            Admin::Transferring { from, to } => AdminView::Transferring { from: from@, to: to@ },
        }
    }
}

/// The state that a handover operation returned, or `None` where it refused.
pub open spec fn outcome(r: Result<Admin, ContractError>) -> Option<AdminView> {
    match r {
        Ok(a) => Some(a@),
        Err(_) => None,
    }
}

impl Admin {
    /// The account that holds the role.
    pub fn admin(&self) -> (r: &Addr)
        ensures
            r@ == self@.admin(),
    {
        match self {
            Admin::Settled { current } => current,
            Admin::Transferring { from, to: _ } => from,
        }
    }

    /// The nominee of a handover under way, if any.
    pub fn candidate(&self) -> (r: Option<&Addr>)
        ensures
            r matches Some(a) ==> self@.candidate() == Some(a@),
            r is None ==> self@.candidate() is None,
    {
        match self {
            Admin::Settled { current: _ } => None,
            Admin::Transferring { from: _, to } => Some(to),
        }
    }

    /// Whether `who` may perform privileged operations: only the holder of the role.
    pub fn is_authorized(&self, who: &Addr) -> (r: bool)
        ensures
            r == self@.is_authorized(who@),
    {
        who == self.admin()
    }

    /// Refuses with `Unauthorized` anyone but the holder of the role.
    pub fn ensure_admin(&self, sender: &Addr) -> (r: Result<(), ContractError>)
        ensures
            r is Ok <==> self@.is_authorized(sender@),
            r matches Err(e) ==> e is Unauthorized,
    {
        if self.is_authorized(sender) {
            Ok(())
        } else {
            Err(ContractError::Unauthorized {})
        }
    }

    /// The holder of the role nominates `to`, replacing any earlier nominee.
    pub fn transfer(self, sender: &Addr, to: Addr) -> (r: Result<Admin, ContractError>)
        ensures
            outcome(r) == self@.transfer(sender@, to@),
            r matches Err(e) ==> e is Unauthorized,
    {
        self.ensure_admin(sender)?;
        match self {
            Admin::Settled { current } => Ok(Admin::Transferring { from: current, to }),
            Admin::Transferring { from, to: _ } => Ok(Admin::Transferring { from, to }),
        }
    }

    /// The nominee takes the role over; the former holder loses it.
    pub fn claim(self, sender: &Addr) -> (r: Result<Admin, ContractError>)
        ensures
            outcome(r) == self@.claim(sender@),
            r matches Err(e) ==> e is Unauthorized,
    {
        match self {
            Admin::Transferring { from: _, to } => {
                if sender == &to {
                    Ok(Admin::Settled { current: to })
                } else {
                    Err(ContractError::Unauthorized {})
                }
            },
            Admin::Settled { current: _ } => Err(ContractError::Unauthorized {}),
        }
    }

    /// The holder of the role calls off a handover; with none under way, nothing changes.
    pub fn cancel(self, sender: &Addr) -> (r: Result<Admin, ContractError>)
        ensures
            outcome(r) == self@.cancel(sender@),
            r matches Err(e) ==> e is Unauthorized,
    {
        self.ensure_admin(sender)?;
        match self {
            Admin::Transferring { from, to: _ } => Ok(Admin::Settled { current: from }),
            Admin::Settled { current } => Ok(Admin::Settled { current }),
        }
    }
}

/// Anyone but the holder of the role is refused both a nomination and a
/// cancellation, whatever the state and the nominee.
pub proof fn lemma_outsider_refused(s: AdminView, caller: Seq<char>, nominee: Seq<char>)
    requires
        caller != s.admin(),
    ensures
        s.transfer(caller, nominee) is None,
        s.cancel(caller) is None,
{
}

/// From a settled state, the holder may nominate anyone, itself included.
pub proof fn lemma_nominate_from_settled(a: Seq<char>, b: Seq<char>)
    ensures
        (AdminView::Settled { current: a }).transfer(a, b) == Some(
            AdminView::Transferring { from: a, to: b },
        ),
{
}

/// The nominee, and only the nominee, completes a handover; the holder
/// cannot complete it in the nominee's place.
pub proof fn lemma_claim_only_by_nominee(a: Seq<char>, b: Seq<char>, c: Seq<char>)
    ensures
        (AdminView::Transferring { from: a, to: b }).claim(b) == Some(
            AdminView::Settled { current: b },
        ),
        c != b ==> (AdminView::Transferring { from: a, to: b }).claim(c) is None,
{
}

/// The holder, and only the holder, calls off a handover, and keeps the role.
pub proof fn lemma_cancel_only_by_holder(a: Seq<char>, b: Seq<char>, c: Seq<char>)
    ensures
        (AdminView::Transferring { from: a, to: b }).cancel(a) == Some(
            AdminView::Settled { current: a },
        ),
        c != a ==> (AdminView::Transferring { from: a, to: b }).cancel(c) is None,
{
}

/// Cancelling with no handover under way leaves the state as it was.
pub proof fn lemma_cancel_settled_idempotent(a: Seq<char>)
    ensures
        (AdminView::Settled { current: a }).cancel(a) == Some(AdminView::Settled { current: a }),
{
}

/// A new nomination replaces the pending one, and the former nominee can no
/// longer claim the role.
pub proof fn lemma_renomination_locks_out(a: Seq<char>, b: Seq<char>, c: Seq<char>)
    ensures
        (AdminView::Transferring { from: a, to: b }).transfer(a, c) == Some(
            AdminView::Transferring { from: a, to: c },
        ),
        b != c ==> (AdminView::Transferring { from: a, to: c }).claim(b) is None,
{
}

impl Clone for Admin {
    fn clone(&self) -> (r: Admin)
        ensures
            r@ == self@,
    {
        match self {
            Admin::Settled { current } => Admin::Settled { current: current.clone() },
            Admin::Transferring { from, to } => Admin::Transferring {
                from: from.clone(),
                to: to.clone(),
            },
        }
    }
}

impl PartialEq for Admin {
    fn eq(&self, other: &Admin) -> (r: bool)
        ensures
            r == (self@ == other@),
    {
        match (self, other) {
            (Admin::Settled { current: a }, Admin::Settled { current: b }) => a == b,
            (Admin::Transferring { from: f1, to: t1 }, Admin::Transferring { from: f2, to: t2 }) => {
                f1 == f2 && t1 == t2
            },
            _ => false,
        }
    }
}

impl vstd::std_specs::cmp::PartialEqSpecImpl for Admin {
    open spec fn obeys_eq_spec() -> bool {
        true
    }

    open spec fn eq_spec(&self, other: &Admin) -> bool {
        self@ == other@
    }
}

impl Eq for Admin {
}

} // verus!
