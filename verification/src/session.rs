//! Decisions of the invoice window that do not depend on what it draws.
use vstd::prelude::*;

verus! {

/// Whether the window may close, and whether it is asking the user.
pub struct CloseGuard {
    pub allowed_to_close: bool,
    pub show_confirmation_dialog: bool,
}

/// The guard after a request to close the window: the question is shown.
pub open spec fn after_close_request(g: CloseGuard) -> CloseGuard {
    CloseGuard { allowed_to_close: g.allowed_to_close, show_confirmation_dialog: true }
}

/// The guard after the user declines to quit: the question goes away.
pub open spec fn after_cancel(g: CloseGuard) -> CloseGuard {
    CloseGuard { allowed_to_close: g.allowed_to_close, show_confirmation_dialog: false }
}

/// The guard after the user confirms: closing is allowed from now on.
pub open spec fn after_confirm(g: CloseGuard) -> CloseGuard {
    CloseGuard { allowed_to_close: true, show_confirmation_dialog: g.show_confirmation_dialog }
}

impl CloseGuard {
    /// A window that has not been asked to close.
    pub fn new() -> (g: CloseGuard)
        ensures
            !g.allowed_to_close,
            !g.show_confirmation_dialog,
    {
        CloseGuard { allowed_to_close: false, show_confirmation_dialog: false }
    }

    /// The window is asked to close: show the question, and answer whether
    /// it may close now.
    pub fn on_close_event(&mut self) -> (may_close: bool)
        ensures
            *final(self) == after_close_request(*old(self)),
            may_close == old(self).allowed_to_close,
    {
        self.show_confirmation_dialog = true;
        self.allowed_to_close
    }

    /// The user declines to quit.
    pub fn cancel(&mut self)
        ensures
            *final(self) == after_cancel(*old(self)),
    {
        self.show_confirmation_dialog = false;
    }

    /// The user confirms; the answer is that the window is to be closed.
    pub fn confirm(&mut self) -> (close_now: bool)
        ensures
            *final(self) == after_confirm(*old(self)),
            close_now,
    {
        self.allowed_to_close = true;
        true
    }
}

/// The window closes only with the user's consent: a request before any
/// confirmation is refused however often it is repeated or cancelled, and
/// once the user has confirmed, every later request is granted.
pub proof fn law_close_needs_confirmation(g: CloseGuard)
    ensures
        !g.allowed_to_close ==> !after_close_request(g).allowed_to_close,
        !g.allowed_to_close ==> !after_cancel(g).allowed_to_close,
        after_confirm(g).allowed_to_close,
        after_confirm(g).allowed_to_close ==> after_close_request(after_confirm(g)).allowed_to_close,
        after_cancel(after_confirm(g)).allowed_to_close,
{
}

} // verus!

verus! {

/// What the user does in the window that makes or edits an invoice.
#[derive(Clone, Copy, Debug, PartialEq, Eq, Structural)]
pub enum InvoiceWindowEvent {
    /// The delete button of the service row at this position.
    DeleteService(usize),
    /// The button that opens the choice of a service to add.
    AddService,
    /// The button that opens the choice of a saved company.
    ChangeCompany,
    /// The button that opens the choice of a saved partner.
    ChangePartner,
    /// The button that makes the invoice (`Edit` when editing, `Create`
    /// when creating).
    Save,
    /// The button that closes the window (`Exit` or `Close`).
    Exit,
}

/// What the window asks the program to do, in order.
#[derive(Clone, Copy, Debug, PartialEq, Eq, Structural)]
pub enum InvoiceAction {
    /// Remove the service at this position from the invoice.
    RemoveService(usize),
    /// Delete the files of the invoice as it was saved before.
    DeleteInvoiceFiles,
    /// Make the invoice's PDF and save it.
    GeneratePdf,
}

/// Which parts of an invoice window are open.
#[derive(Clone, Copy, Debug, PartialEq, Eq, Structural)]
pub struct InvoiceWindow {
    pub open: bool,
    pub add_service: bool,
    pub change_company: bool,
    pub change_partner: bool,
}

/// The window after an event that changes nothing but the sub-windows:
/// a change button is only shown, and so only works, when there is
/// something saved to change to.
pub open spec fn with_sub_window(
    w: InvoiceWindow,
    companies: nat,
    partners: nat,
    e: InvoiceWindowEvent,
) -> InvoiceWindow {
    match e {
        InvoiceWindowEvent::AddService => InvoiceWindow { add_service: true, ..w },
        InvoiceWindowEvent::ChangeCompany => InvoiceWindow {
            change_company: w.change_company || companies > 0,
            ..w
        },
        InvoiceWindowEvent::ChangePartner => InvoiceWindow {
            change_partner: w.change_partner || partners > 0,
            ..w
        },
        _ => w,
    }
}

/// The actions a row's delete button asks for: only a row that is shown,
/// that is one below the number of services, can be deleted.
pub open spec fn delete_actions(services: nat, p: usize) -> Seq<InvoiceAction> {
    if p < services {
        seq![InvoiceAction::RemoveService(p)]
    } else {
        seq![]
    }
}

/// The edit window after an event, and the actions it asks for. Saving
/// deletes the files of the invoice as it was, makes the PDF again and
/// closes the window; leaving closes it and does nothing else.
pub open spec fn edit_invoice_next(
    w: InvoiceWindow,
    services: nat,
    companies: nat,
    partners: nat,
    e: InvoiceWindowEvent,
) -> (InvoiceWindow, Seq<InvoiceAction>) {
    match e {
        InvoiceWindowEvent::DeleteService(p) => (w, delete_actions(services, p)),
        InvoiceWindowEvent::Save => (
            InvoiceWindow { open: false, ..w },
            seq![InvoiceAction::DeleteInvoiceFiles, InvoiceAction::GeneratePdf],
        ),
        InvoiceWindowEvent::Exit => (InvoiceWindow { open: false, ..w }, seq![]),
        _ => (with_sub_window(w, companies, partners, e), seq![]),
    }
}

/// The create window after an event, and the actions it asks for.
/// Creating asks for the PDF and leaves the window as it is, until
/// `create_window_after_create` has the outcome; leaving closes it.
pub open spec fn create_invoice_next(
    w: InvoiceWindow,
    services: nat,
    companies: nat,
    partners: nat,
    e: InvoiceWindowEvent,
) -> (InvoiceWindow, Seq<InvoiceAction>) {
    match e {
        InvoiceWindowEvent::DeleteService(p) => (w, delete_actions(services, p)),
        InvoiceWindowEvent::Save => (w, seq![InvoiceAction::GeneratePdf]),
        InvoiceWindowEvent::Exit => (InvoiceWindow { open: false, ..w }, seq![]),
        _ => (with_sub_window(w, companies, partners, e), seq![]),
    }
}

fn sub_window(w: InvoiceWindow, companies: usize, partners: usize, e: InvoiceWindowEvent) -> (r: InvoiceWindow)
    ensures
        r == with_sub_window(w, companies as nat, partners as nat, e),
{
    match e {
        InvoiceWindowEvent::AddService => InvoiceWindow { add_service: true, ..w },
        InvoiceWindowEvent::ChangeCompany => InvoiceWindow {
            change_company: w.change_company || companies > 0,
            ..w
        },
        InvoiceWindowEvent::ChangePartner => InvoiceWindow {
            change_partner: w.change_partner || partners > 0,
            ..w
        },
        _ => w,
    }
}

fn delete_service(services: usize, p: usize) -> (actions: Vec<InvoiceAction>)
    ensures
        actions@ == delete_actions(services as nat, p),
{
    let mut actions: Vec<InvoiceAction> = Vec::new();
    if p < services {
        actions.push(InvoiceAction::RemoveService(p));
    }
    proof {
        assert(actions@ =~= delete_actions(services as nat, p));
    }
    actions
}

/// Handles an event of the window that edits a saved invoice, which has
/// `services` service rows, with `companies` companies and `partners`
/// partners saved.
pub fn edit_invoice_step(
    w: InvoiceWindow,
    services: usize,
    companies: usize,
    partners: usize,
    e: InvoiceWindowEvent,
) -> (r: (InvoiceWindow, Vec<InvoiceAction>))
    ensures
        (r.0, r.1@) == edit_invoice_next(w, services as nat, companies as nat, partners as nat, e),
{
    match e {
        InvoiceWindowEvent::DeleteService(p) => (w, delete_service(services, p)),
        InvoiceWindowEvent::Save => {
            let mut actions: Vec<InvoiceAction> = Vec::new();
            actions.push(InvoiceAction::DeleteInvoiceFiles);
            actions.push(InvoiceAction::GeneratePdf);
            proof {
                assert(actions@ =~= seq![InvoiceAction::DeleteInvoiceFiles, InvoiceAction::GeneratePdf]);
            }
            (InvoiceWindow { open: false, ..w }, actions)
        },
        InvoiceWindowEvent::Exit => (InvoiceWindow { open: false, ..w }, Vec::new()),
        _ => (sub_window(w, companies, partners, e), Vec::new()),
    }
}

/// Handles an event of the window that makes a new invoice, which has
/// `services` service rows, with `companies` companies and `partners`
/// partners saved.
pub fn create_invoice_step(
    w: InvoiceWindow,
    services: usize,
    companies: usize,
    partners: usize,
    e: InvoiceWindowEvent,
) -> (r: (InvoiceWindow, Vec<InvoiceAction>))
    ensures
        (r.0, r.1@) == create_invoice_next(w, services as nat, companies as nat, partners as nat, e),
{
    match e {
        InvoiceWindowEvent::DeleteService(p) => (w, delete_service(services, p)),
        InvoiceWindowEvent::Save => {
            let mut actions: Vec<InvoiceAction> = Vec::new();
            actions.push(InvoiceAction::GeneratePdf);
            proof {
                assert(actions@ =~= seq![InvoiceAction::GeneratePdf]);
            }
            (w, actions)
        },
        InvoiceWindowEvent::Exit => (InvoiceWindow { open: false, ..w }, Vec::new()),
        _ => (sub_window(w, companies, partners, e), Vec::new()),
    }
}

/// Whether the create window stays open once the PDF was asked for: it
/// closes only when the PDF was made.
pub fn create_window_after_create(open: bool, generated: bool) -> (still_open: bool)
    ensures
        still_open == (open && !generated),
{
    open && !generated
}

/// Saving an edited invoice always replaces its files and closes the
/// window; a created invoice's window closes exactly when its PDF was
/// made; no event but deleting a row removes a service, and a row is only
/// removed when it is shown.
pub proof fn law_invoice_windows(
    w: InvoiceWindow,
    services: nat,
    companies: nat,
    partners: nat,
    e: InvoiceWindowEvent,
)
    ensures
        edit_invoice_next(w, services, companies, partners, InvoiceWindowEvent::Save).1
            == seq![InvoiceAction::DeleteInvoiceFiles, InvoiceAction::GeneratePdf],
        !edit_invoice_next(w, services, companies, partners, InvoiceWindowEvent::Save).0.open,
        create_invoice_next(w, services, companies, partners, InvoiceWindowEvent::Save).1
            == seq![InvoiceAction::GeneratePdf],
        forall|k: int|
            0 <= k < edit_invoice_next(w, services, companies, partners, e).1.len()
                ==> (#[trigger] edit_invoice_next(w, services, companies, partners, e).1[k]
                matches InvoiceAction::RemoveService(p) ==> e == InvoiceWindowEvent::DeleteService(p)
                && p < services),
        forall|k: int|
            0 <= k < create_invoice_next(w, services, companies, partners, e).1.len()
                ==> (#[trigger] create_invoice_next(w, services, companies, partners, e).1[k]
                matches InvoiceAction::RemoveService(p) ==> e == InvoiceWindowEvent::DeleteService(p)
                && p < services),
{
}

/// The buttons of both invoice windows: deleting a shown service row asks
/// to remove exactly that row and changes nothing else, deleting a row
/// that is not shown does nothing; a change button opens its chooser when
/// there is something saved to choose from and does nothing otherwise;
/// adding a service opens the service chooser; leaving closes the window.
/// None of these asks for anything else.
pub proof fn law_invoice_window_buttons(
    w: InvoiceWindow,
    services: nat,
    companies: nat,
    partners: nat,
    p: usize,
)
    ensures
        p < services ==> edit_invoice_next(w, services, companies, partners, InvoiceWindowEvent::DeleteService(p))
            == (w, seq![InvoiceAction::RemoveService(p)]),
        p < services ==> create_invoice_next(w, services, companies, partners, InvoiceWindowEvent::DeleteService(p))
            == (w, seq![InvoiceAction::RemoveService(p)]),
        p >= services ==> edit_invoice_next(w, services, companies, partners, InvoiceWindowEvent::DeleteService(p))
            == (w, Seq::<InvoiceAction>::empty()),
        p >= services ==> create_invoice_next(w, services, companies, partners, InvoiceWindowEvent::DeleteService(p))
            == (w, Seq::<InvoiceAction>::empty()),
        partners > 0 ==> edit_invoice_next(w, services, companies, partners, InvoiceWindowEvent::ChangePartner)
            == (InvoiceWindow { change_partner: true, ..w }, Seq::<InvoiceAction>::empty()),
        partners > 0 ==> create_invoice_next(w, services, companies, partners, InvoiceWindowEvent::ChangePartner)
            == (InvoiceWindow { change_partner: true, ..w }, Seq::<InvoiceAction>::empty()),
        partners == 0 ==> edit_invoice_next(w, services, companies, partners, InvoiceWindowEvent::ChangePartner)
            == (w, Seq::<InvoiceAction>::empty()),
        partners == 0 ==> create_invoice_next(w, services, companies, partners, InvoiceWindowEvent::ChangePartner)
            == (w, Seq::<InvoiceAction>::empty()),
        companies > 0 ==> edit_invoice_next(w, services, companies, partners, InvoiceWindowEvent::ChangeCompany)
            == (InvoiceWindow { change_company: true, ..w }, Seq::<InvoiceAction>::empty()),
        companies > 0 ==> create_invoice_next(w, services, companies, partners, InvoiceWindowEvent::ChangeCompany)
            == (InvoiceWindow { change_company: true, ..w }, Seq::<InvoiceAction>::empty()),
        companies == 0 ==> edit_invoice_next(w, services, companies, partners, InvoiceWindowEvent::ChangeCompany)
            == (w, Seq::<InvoiceAction>::empty()),
        companies == 0 ==> create_invoice_next(w, services, companies, partners, InvoiceWindowEvent::ChangeCompany)
            == (w, Seq::<InvoiceAction>::empty()),
        edit_invoice_next(w, services, companies, partners, InvoiceWindowEvent::AddService)
            == (InvoiceWindow { add_service: true, ..w }, Seq::<InvoiceAction>::empty()),
        create_invoice_next(w, services, companies, partners, InvoiceWindowEvent::AddService)
            == (InvoiceWindow { add_service: true, ..w }, Seq::<InvoiceAction>::empty()),
        edit_invoice_next(w, services, companies, partners, InvoiceWindowEvent::Exit)
            == (InvoiceWindow { open: false, ..w }, Seq::<InvoiceAction>::empty()),
        create_invoice_next(w, services, companies, partners, InvoiceWindowEvent::Exit)
            == (InvoiceWindow { open: false, ..w }, Seq::<InvoiceAction>::empty()),
{
    assert(delete_actions(services, p) =~= (if p < services {
        seq![InvoiceAction::RemoveService(p)]
    } else {
        Seq::<InvoiceAction>::empty()
    }));
}

} // verus!
