use invoicer::invoice::{invoice_folder_name, is_invoice_folder, pdf_file_name, remove_partner, Partner, PaymentStatus};
use invoicer::rpc::{ClientId, DiscordRPC, Status, RPC};
use invoicer::session::{
    create_invoice_step, create_window_after_create, edit_invoice_step, CloseGuard, InvoiceAction,
    InvoiceWindow, InvoiceWindowEvent,
};
use invoicer::text::{push_int, push_zero_padded, split_lines};

fn partner(name: &str) -> Partner {
    Partner {
        partner_name: name.to_string(),
        partner_address: "a".to_string(),
        partner_postal_code: "p".to_string(),
        partner_vat_id: "v".to_string(),
    }
}

#[test]
fn lines_like_str_lines() {
    for s in ["", "a", "a\n", "a\r\nb", "a\n\nb", "\n", "a\r", "\r\n", "x\r\r\ny", "ščž\nđ"] {
        let ours: Vec<String> = split_lines(s);
        let std_lines: Vec<String> = s.lines().map(|l| l.to_string()).collect();
        assert_eq!(ours, std_lines, "input {:?}", s);
    }
}

#[test]
fn integers_like_format() {
    for n in [0, 7, -7, 10, 99, -1000, 123456, i32::MAX, i32::MIN] {
        let mut s = String::new();
        push_int(&mut s, n);
        assert_eq!(s, format!("{}", n));
        assert_eq!(s.parse::<i32>().unwrap(), n);
        let mut p = String::from("#");
        push_zero_padded(&mut p, n, 4);
        assert_eq!(p, format!("#{:04}", n));
        let mut wide = String::new();
        push_zero_padded(&mut wide, n, 12);
        assert_eq!(wide, format!("{:012}", n));
    }
}

#[test]
fn payment_status_words() {
    assert_eq!(PaymentStatus::PAID.label(), "PAID");
    assert_eq!(PaymentStatus::UNPAID.label(), "UNPAID");
    assert_eq!(PaymentStatus::default(), PaymentStatus::UNPAID);
}

#[test]
fn remove_first_equal_partner() {
    let mut list = vec![partner("A"), partner("B"), partner("A")];
    remove_partner(&mut list, &partner("A"));
    let names: Vec<&str> = list.iter().map(|p| p.partner_name.as_str()).collect();
    assert_eq!(names, vec!["B", "A"]);
    remove_partner(&mut list, &partner("A"));
    assert_eq!(list.len(), 1);
    assert!(list[0].same_as(&partner("B")));
    assert!(!list[0].same_as(&partner("A")));
}

#[test]
fn file_names() {
    assert_eq!(invoice_folder_name(12), "12");
    assert_eq!(pdf_file_name(12), "racun 12.pdf");
    assert!(is_invoice_folder("12", 12));
    assert!(!is_invoice_folder("120", 12));
    assert!(is_invoice_folder("-3", -3));
}

#[test]
fn close_needs_confirmation() {
    let mut guard = CloseGuard::new();
    assert!(!guard.on_close_event());
    assert!(guard.show_confirmation_dialog);
    guard.cancel();
    assert!(!guard.show_confirmation_dialog);
    assert!(!guard.on_close_event());
    assert!(guard.confirm());
    assert!(guard.on_close_event());
}

#[test]
fn rpc_starts_connected() {
    let id = ClientId::with_id(1234);
    assert_eq!(id.client_id(), 1234);
    let rpc = <DiscordRPC as RPC>::new(&id);
    assert_eq!(rpc.status, Status::CONNECTED);
    assert_eq!(rpc.debug_text(), "DiscordRPC { status: CONNECTED }");
    assert_eq!(Status::CLEARED.name(), format!("{:?}", Status::CLEARED));
}

#[test]
fn edit_window_save_replaces_invoice() {
    let w = InvoiceWindow { open: true, add_service: false, change_company: false, change_partner: false };
    let (after, actions) = edit_invoice_step(w, 2, 1, 0, InvoiceWindowEvent::Save);
    assert!(!after.open);
    assert_eq!(actions, vec![InvoiceAction::DeleteInvoiceFiles, InvoiceAction::GeneratePdf]);
    let (after, actions) = edit_invoice_step(w, 2, 1, 0, InvoiceWindowEvent::DeleteService(1));
    assert_eq!(after, w);
    assert_eq!(actions, vec![InvoiceAction::RemoveService(1)]);
    let (_, actions) = edit_invoice_step(w, 2, 1, 0, InvoiceWindowEvent::DeleteService(2));
    assert!(actions.is_empty());
    let (after, _) = edit_invoice_step(w, 2, 1, 0, InvoiceWindowEvent::ChangeCompany);
    assert!(after.change_company);
    let (after, _) = edit_invoice_step(w, 2, 1, 0, InvoiceWindowEvent::ChangePartner);
    assert!(!after.change_partner);
    let (after, actions) = edit_invoice_step(w, 2, 1, 0, InvoiceWindowEvent::AddService);
    assert!(after.add_service && actions.is_empty());
    let (after, actions) = edit_invoice_step(w, 2, 1, 0, InvoiceWindowEvent::Exit);
    assert!(!after.open && actions.is_empty());
}

#[test]
fn create_window_closes_only_when_made() {
    let w = InvoiceWindow { open: true, add_service: false, change_company: false, change_partner: false };
    let (after, actions) = create_invoice_step(w, 0, 0, 0, InvoiceWindowEvent::Save);
    assert_eq!(after, w);
    assert_eq!(actions, vec![InvoiceAction::GeneratePdf]);
    assert!(create_window_after_create(true, false));
    assert!(!create_window_after_create(true, true));
    assert!(!create_window_after_create(false, false));
    let (after, actions) = create_invoice_step(w, 0, 0, 0, InvoiceWindowEvent::Exit);
    assert!(!after.open && actions.is_empty());
}
