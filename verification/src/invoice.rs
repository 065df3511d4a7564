//! The invoice data that the page layout reads.
use vstd::prelude::*;
use vstd::string::StringExecFns;

use crate::text::{int_text, push_int};

verus! {

/// Whether an invoice has been paid.
#[allow(non_camel_case_types)]
#[derive(Clone, Copy, Debug, PartialEq, Eq, Structural)]
pub enum PaymentStatus {
    PAID,
    UNPAID,
}

impl PaymentStatus {
    /// The word shown for the status.
    pub open spec fn label_spec(self) -> Seq<char> {
        match self {
            PaymentStatus::PAID => "PAID"@,
            PaymentStatus::UNPAID => "UNPAID"@,
        }
    }

    /// The word shown for the status: `PAID` or `UNPAID`.
    pub fn label(&self) -> (s: String)
        ensures
            s@ == self.label_spec(),
    {
        match self {
            PaymentStatus::PAID => String::from_str("PAID"),
            PaymentStatus::UNPAID => String::from_str("UNPAID"),
        }
    }
}

impl Default for PaymentStatus {
    /// A new invoice is unpaid.
    fn default() -> (s: Self)
        ensures
            s == PaymentStatus::UNPAID,
    {
        PaymentStatus::UNPAID
    }
}

/// The customer an invoice is made out to.
#[derive(Clone, Debug, Default)]
pub struct Partner {
    pub partner_name: String,
    pub partner_address: String,
    pub partner_postal_code: String,
    pub partner_vat_id: String,
}

/// The issuing company's details as printed on the invoice.
#[derive(Clone, Debug, Default)]
pub struct CompanyDetails {
    pub company_name: String,
    pub company_address: String,
    pub company_postal_code: String,
    pub company_bankname: String,
    pub company_vat_id: String,
    pub company_iban: String,
    pub company_swift: String,
    pub company_registration_number: String,
    pub company_phone: String,
    pub company_business_registered_at: String,
}

/// One service line of an invoice, as far as its text is concerned; its
/// prices are written by the caller into the places the layout names.
#[derive(Clone, Debug, Default)]
pub struct ServiceItem {
    pub service_name: String,
    pub service_quantity: i32,
    pub service_currency: String,
}

/// The invoice fields that appear as text on the page.
#[derive(Clone, Debug, Default)]
pub struct InvoiceSheet {
    pub invoice_number: i32,
    pub invoice_date: String,
    pub invoice_location: String,
    pub service_date: String,
    pub invoice_currency: String,
    pub due_date: String,
    pub partner: Partner,
    pub company: CompanyDetails,
    pub invoice_reference: String,
    pub services: Vec<ServiceItem>,
    pub created_by: String,
}


impl Partner {
    /// The partner's four fields as texts.
    pub open spec fn fields(&self) -> (Seq<char>, Seq<char>, Seq<char>, Seq<char>) {
        (self.partner_name@, self.partner_address@, self.partner_postal_code@, self.partner_vat_id@)
    }

    /// Whether both partners have the same four fields.
    pub fn same_as(&self, other: &Partner) -> (same: bool)
        ensures
            same == (self.fields() == other.fields()),
    {
        self.partner_name == other.partner_name && self.partner_address == other.partner_address
            && self.partner_postal_code == other.partner_postal_code
            && self.partner_vat_id == other.partner_vat_id
    }
}

/// The position of the first partner in `partners` with the same fields as
/// `partner`, or `partners.len()` when there is none.
pub open spec fn first_same(partners: Seq<Partner>, partner: Partner) -> int
    decreases partners.len(),
{
    if partners.len() == 0 {
        0
    } else if partners[0].fields() == partner.fields() {
        0
    } else {
        1 + first_same(partners.drop_first(), partner)
    }
}

proof fn lemma_first_same(partners: Seq<Partner>, partner: Partner, k: int)
    requires
        0 <= k <= partners.len(),
        k < partners.len() ==> partners[k].fields() == partner.fields(),
        forall|j: int| 0 <= j < k ==> partners[j].fields() != partner.fields(),
    ensures
        first_same(partners, partner) == k,
    decreases partners.len(),
{
    if partners.len() > 0 && k > 0 {
        assert forall|j: int| 0 <= j < k - 1 implies partners.drop_first()[j].fields() != partner.fields() by {
            assert(partners.drop_first()[j] == partners[j + 1]);
        }
        lemma_first_same(partners.drop_first(), partner, k - 1);
    }
}

/// Removes the first partner with the same fields as `partner`; one must
/// be in the list.
pub fn remove_partner(partners: &mut Vec<Partner>, partner: &Partner)
    requires
        exists|k: int| 0 <= k < old(partners)@.len() && #[trigger] old(partners)@[k].fields() == partner.fields(),
    ensures
        0 <= first_same(old(partners)@, *partner) < old(partners)@.len(),
        final(partners)@ == old(partners)@.remove(first_same(old(partners)@, *partner)),
{
    let n = partners.len();
    let ghost orig = partners@;
    let mut i: usize = 0;
    while i < n
        invariant
            n == partners@.len(),
            partners@ == orig,
            orig == old(partners)@,
            i <= n,
            forall|j: int| 0 <= j < i ==> partners@[j].fields() != partner.fields(),
            exists|k: int| 0 <= k < partners@.len() && #[trigger] partners@[k].fields() == partner.fields(),
        decreases n - i,
    {
        if partners[i].same_as(partner) {
            proof {
                lemma_first_same(partners@, *partner, i as int);
            }
            partners.remove(i);
            return;
        }
        i = i + 1;
    }
    proof {
        let k = choose|k: int| 0 <= k < partners@.len() && #[trigger] partners@[k].fields() == partner.fields();
        assert(partners@[k].fields() != partner.fields());
    }
}


/// The name of the folder that holds an invoice's files: its number.
pub fn invoice_folder_name(invoice_number: i32) -> (name: String)
    ensures
        name@ == int_text(invoice_number as int),
{
    let mut name = String::new();
    push_int(&mut name, invoice_number);
    name
}

/// Whether a folder of that name holds the files of the invoice with that
/// number.
pub fn is_invoice_folder(folder_name: &str, invoice_number: i32) -> (holds: bool)
    ensures
        holds == (folder_name@ == int_text(invoice_number as int)),
{
    let name = invoice_folder_name(invoice_number);
    let owned = String::from_str(folder_name);
    owned == name
}

/// The name of an invoice's PDF file: `racun`, a space, its number, `.pdf`.
pub fn pdf_file_name(invoice_number: i32) -> (name: String)
    ensures
        name@ == "racun "@ + int_text(invoice_number as int) + ".pdf"@,
{
    let mut name = String::from_str("racun ");
    push_int(&mut name, invoice_number);
    name.append(".pdf");
    name
}

/// Two partners are the same exactly when their names, addresses, postal
/// codes and VAT ids are all equal; so removing a partner removes the first
/// one that agrees with it in all four, and every partner before it differs
/// from it in at least one.
pub proof fn law_partner_identity(partners: Seq<Partner>, a: Partner, b: Partner)
    ensures
        (a.fields() == b.fields()) <==> (a.partner_name@ == b.partner_name@
            && a.partner_address@ == b.partner_address@
            && a.partner_postal_code@ == b.partner_postal_code@
            && a.partner_vat_id@ == b.partner_vat_id@),
        (exists|k: int| 0 <= k < partners.len() && #[trigger] partners[k].fields() == a.fields()) ==> {
            let i = first_same(partners, a);
            &&& 0 <= i < partners.len()
            &&& partners[i].partner_name@ == a.partner_name@
            &&& partners[i].partner_address@ == a.partner_address@
            &&& partners[i].partner_postal_code@ == a.partner_postal_code@
            &&& partners[i].partner_vat_id@ == a.partner_vat_id@
            &&& forall|j: int| 0 <= j < i ==> !(partners[j].partner_name@ == a.partner_name@
                && partners[j].partner_address@ == a.partner_address@
                && partners[j].partner_postal_code@ == a.partner_postal_code@
                && partners[j].partner_vat_id@ == a.partner_vat_id@)
        },
{
    if exists|k: int| 0 <= k < partners.len() && #[trigger] partners[k].fields() == a.fields() {
        lemma_first_same_found(partners, a);
    }
}

proof fn lemma_first_same_found(partners: Seq<Partner>, a: Partner)
    requires
        exists|k: int| 0 <= k < partners.len() && #[trigger] partners[k].fields() == a.fields(),
    ensures
        0 <= first_same(partners, a) < partners.len(),
        partners[first_same(partners, a)].fields() == a.fields(),
        forall|j: int| 0 <= j < first_same(partners, a) ==> partners[j].fields() != a.fields(),
    decreases partners.len(),
{
    if partners[0].fields() != a.fields() {
        let k = choose|k: int| 0 <= k < partners.len() && #[trigger] partners[k].fields() == a.fields();
        assert(partners.drop_first()[k - 1] == partners[k]);
        lemma_first_same_found(partners.drop_first(), a);
        assert forall|j: int| 0 <= j < first_same(partners, a) implies partners[j].fields() != a.fields() by {
            if j > 0 {
                assert(partners[j] == partners.drop_first()[j - 1]);
            }
        }
    }
}

} // verus!
