//! The page plan of an invoice: where each text and each rule goes.
//!
//! Positions are in whole millimetres from the bottom-left corner of an
//! A4 page. Amounts of money are not written here: a text may name a
//! [`Figure`], which the caller writes in its place.
use vstd::prelude::*;
use vstd::string::StringExecFns;

use crate::invoice::{InvoiceSheet, ServiceItem};
use crate::text::{int_text, push_int, push_zero_padded, split_lines, text_lines, zero_padded_text};

verus! {

/// Which of the two fonts of the page a text uses.
#[derive(Clone, Copy, Debug, PartialEq, Eq, Structural)]
pub enum FontKind {
    Standard,
    Bold,
}

/// The size of a text: `Body` is the fixed 9 pt size, `Small` the
/// configured small size of the template.
#[derive(Clone, Copy, Debug, PartialEq, Eq, Structural)]
pub enum FontSize {
    Body,
    Small,
}

/// An amount that the caller computes and writes into a text.
#[derive(Clone, Copy, Debug, PartialEq, Eq, Structural)]
pub enum Figure {
    /// Price times quantity of the service at this index, with 22% added.
    ServiceGross(usize),
    /// Tax rate of the service at this index.
    ServiceTaxRate(usize),
    /// Price times quantity of the service at this index.
    ServiceNet(usize),
    /// Tax rate of the invoice.
    InvoiceTaxRate,
    /// Sum of price times quantity over all services.
    Total,
    /// Tax on the total at the invoice's rate.
    TaxDifference,
    /// Total with the invoice's tax added.
    TotalWithTax,
}

/// A text: `head`, then the figure if there is one, then `tail`.
#[derive(Clone, Debug)]
pub struct Label {
    pub head: String,
    pub figure: Option<Figure>,
    pub tail: String,
}

/// One element drawn on the page.
#[derive(Clone, Debug)]
pub enum Mark {
    Text { x: i64, y: i64, size: FontSize, font: FontKind, label: Label },
    Rule { x1: i64, y1: i64, x2: i64, y2: i64 },
}

/// What a mark is, with its texts as character sequences.
pub enum MarkView {
    Text {
        x: int,
        y: int,
        size: FontSize,
        font: FontKind,
        head: Seq<char>,
        figure: Option<Figure>,
        tail: Seq<char>,
    },
    Rule { x1: int, y1: int, x2: int, y2: int },
}

impl View for Mark {
    type V = MarkView;

    open spec fn view(&self) -> MarkView {
        match self {
            Mark::Text { x, y, size, font, label } => MarkView::Text {
                x: *x as int,
                y: *y as int,
                size: *size,
                font: *font,
                head: label.head@,
                figure: label.figure,
                tail: label.tail@,
            },
            Mark::Rule { x1, y1, x2, y2 } => MarkView::Rule {
                x1: *x1 as int,
                y1: *y1 as int,
                x2: *x2 as int,
                y2: *y2 as int,
            },
        }
    }
}

/// The views of a sequence of marks.
pub open spec fn views(marks: Seq<Mark>) -> Seq<MarkView> {
    marks.map_values(|m: Mark| m@)
}

/// A text with no figure.
pub open spec fn plain(x: int, y: int, size: FontSize, font: FontKind, text: Seq<char>) -> MarkView {
    MarkView::Text { x, y, size, font, head: text, figure: None, tail: seq![] }
}

/// A text with a figure between `head` and `tail`.
pub open spec fn with_figure(
    x: int,
    y: int,
    font: FontKind,
    head: Seq<char>,
    figure: Figure,
    tail: Seq<char>,
) -> MarkView {
    MarkView::Text { x, y, size: FontSize::Body, font, head, figure: Some(figure), tail }
}

/// A straight rule from one point to another.
pub open spec fn rule(x1: int, y1: int, x2: int, y2: int) -> MarkView {
    MarkView::Rule { x1, y1, x2, y2 }
}

proof fn lemma_views_push(marks: Seq<Mark>, m: Mark)
    ensures
        views(marks.push(m)) == views(marks).push(m@),
{
    assert(views(marks.push(m)) =~= views(marks).push(m@));
}

proof fn lemma_views_add(a: Seq<Mark>, b: Seq<Mark>)
    ensures
        views(a + b) == views(a) + views(b),
{
    assert(views(a + b) =~= views(a) + views(b));
}

fn put(marks: &mut Vec<Mark>, m: Mark)
    ensures
        views(final(marks)@) == views(old(marks)@).push(m@),
{
    proof {
        lemma_views_push(marks@, m);
    }
    marks.push(m);
}

fn put_all(marks: &mut Vec<Mark>, more: Vec<Mark>)
    ensures
        views(final(marks)@) == views(old(marks)@) + views(more@),
{
    let mut more = more;
    proof {
        lemma_views_add(marks@, more@);
    }
    marks.append(&mut more);
}

fn plain_text(x: i64, y: i64, size: FontSize, font: FontKind, text: String) -> (m: Mark)
    ensures
        m@ == plain(x as int, y as int, size, font, text@),
{
    Mark::Text { x, y, size, font, label: Label { head: text, figure: None, tail: String::new() } }
}

fn figure_text(x: i64, y: i64, font: FontKind, head: String, figure: Figure, tail: String) -> (m: Mark)
    ensures
        m@ == with_figure(x as int, y as int, font, head@, figure, tail@),
{
    Mark::Text {
        x,
        y,
        size: FontSize::Body,
        font,
        label: Label { head, figure: Some(figure), tail },
    }
}

fn rule_mark(x1: i64, y1: i64, x2: i64, y2: i64) -> (m: Mark)
    ensures
        m@ == rule(x1 as int, y1 as int, x2 as int, y2 as int),
{
    Mark::Rule { x1, y1, x2, y2 }
}

fn joined(a: &str, b: &str) -> (s: String)
    ensures
        s@ == a@ + b@,
{
    let mut s = String::from_str(a);
    s.append(b);
    s
}


/// Dates and place of issue, top left.
pub open spec fn invoice_header_spec(sheet: InvoiceSheet) -> Seq<MarkView> {
    seq![
        plain(15, 274, FontSize::Small, FontKind::Standard,
            "Datum izdaje: "@ + sheet.invoice_location@ + ", "@ + sheet.invoice_date@),
        plain(15, 270, FontSize::Small, FontKind::Standard,
            "Datum opr. storitve: "@ + sheet.service_date@),
        plain(15, 266, FontSize::Small, FontKind::Standard, "Rok plačila: "@ + sheet.due_date@),
    ]
}

/// Lays out the dates and place of issue.
pub fn render_invoice_header(sheet: &InvoiceSheet) -> (marks: Vec<Mark>)
    ensures
        views(marks@) == invoice_header_spec(*sheet),
{
    let mut marks: Vec<Mark> = Vec::new();
    let mut issued = joined("Datum izdaje: ", sheet.invoice_location.as_str());
    issued.append(", ");
    issued.append(sheet.invoice_date.as_str());
    put(&mut marks, plain_text(15, 274, FontSize::Small, FontKind::Standard, issued));
    let served = joined("Datum opr. storitve: ", sheet.service_date.as_str());
    put(&mut marks, plain_text(15, 270, FontSize::Small, FontKind::Standard, served));
    let due = joined("Rok plačila: ", sheet.due_date.as_str());
    put(&mut marks, plain_text(15, 266, FontSize::Small, FontKind::Standard, due));
    proof {
        assert(views(marks@) =~= invoice_header_spec(*sheet));
    }
    marks
}

/// The issuing company's block, top right, ending with the invoice number.
pub open spec fn company_header_spec(sheet: InvoiceSheet) -> Seq<MarkView> {
    let c = sheet.company;
    seq![
        plain(132, 276, FontSize::Small, FontKind::Bold, c.company_name@),
        plain(132, 271, FontSize::Small, FontKind::Standard, c.company_address@),
        plain(132, 267, FontSize::Small, FontKind::Standard, c.company_postal_code@),
        plain(132, 263, FontSize::Small, FontKind::Standard, "ID za DDV: SI"@ + c.company_vat_id@),
        plain(132, 259, FontSize::Small, FontKind::Standard, "BAN št: "@ + c.company_iban@),
        plain(132, 255, FontSize::Small, FontKind::Standard, "SWIFT: "@ + c.company_swift@),
        plain(132, 251, FontSize::Small, FontKind::Standard,
            "Matična št: "@ + c.company_registration_number@),
        plain(132, 247, FontSize::Small, FontKind::Standard, "Tel: "@ + c.company_phone@),
        plain(132, 243, FontSize::Small, FontKind::Standard,
            "Račun št: "@ + int_text(sheet.invoice_number as int)),
    ]
}

/// Lays out the issuing company's block.
pub fn render_company_header(sheet: &InvoiceSheet) -> (marks: Vec<Mark>)
    ensures
        views(marks@) == company_header_spec(*sheet),
{
    let c = &sheet.company;
    let mut marks: Vec<Mark> = Vec::new();
    put(&mut marks, plain_text(132, 276, FontSize::Small, FontKind::Bold, c.company_name.clone()));
    put(&mut marks, plain_text(132, 271, FontSize::Small, FontKind::Standard, c.company_address.clone()));
    put(&mut marks, plain_text(132, 267, FontSize::Small, FontKind::Standard, c.company_postal_code.clone()));
    let vat = joined("ID za DDV: SI", c.company_vat_id.as_str());
    put(&mut marks, plain_text(132, 263, FontSize::Small, FontKind::Standard, vat));
    let iban = joined("BAN št: ", c.company_iban.as_str());
    put(&mut marks, plain_text(132, 259, FontSize::Small, FontKind::Standard, iban));
    let swift = joined("SWIFT: ", c.company_swift.as_str());
    put(&mut marks, plain_text(132, 255, FontSize::Small, FontKind::Standard, swift));
    let reg = joined("Matična št: ", c.company_registration_number.as_str());
    put(&mut marks, plain_text(132, 251, FontSize::Small, FontKind::Standard, reg));
    let phone = joined("Tel: ", c.company_phone.as_str());
    put(&mut marks, plain_text(132, 247, FontSize::Small, FontKind::Standard, phone));
    let mut number = String::from_str("Račun št: ");
    push_int(&mut number, sheet.invoice_number);
    put(&mut marks, plain_text(132, 243, FontSize::Small, FontKind::Standard, number));
    proof {
        assert(views(marks@) =~= company_header_spec(*sheet));
    }
    marks
}

/// The customer's block, left: name, address, postal code and VAT id.
pub open spec fn partner_header_spec(sheet: InvoiceSheet) -> Seq<MarkView> {
    let p = sheet.partner;
    seq![
        plain(15, 233, FontSize::Small, FontKind::Standard, p.partner_name@),
        plain(15, 228, FontSize::Small, FontKind::Standard, p.partner_address@),
        plain(15, 223, FontSize::Small, FontKind::Standard, p.partner_postal_code@),
        plain(15, 202, FontSize::Small, FontKind::Standard, "ID za DDV kupca: SI "@ + p.partner_vat_id@),
    ]
}

/// Lays out the customer's block.
pub fn render_partner_header(sheet: &InvoiceSheet) -> (marks: Vec<Mark>)
    ensures
        views(marks@) == partner_header_spec(*sheet),
{
    let p = &sheet.partner;
    let mut marks: Vec<Mark> = Vec::new();
    put(&mut marks, plain_text(15, 233, FontSize::Small, FontKind::Standard, p.partner_name.clone()));
    put(&mut marks, plain_text(15, 228, FontSize::Small, FontKind::Standard, p.partner_address.clone()));
    put(&mut marks, plain_text(15, 223, FontSize::Small, FontKind::Standard, p.partner_postal_code.clone()));
    let vat = joined("ID za DDV kupca: SI ", p.partner_vat_id.as_str());
    put(&mut marks, plain_text(15, 202, FontSize::Small, FontKind::Standard, vat));
    proof {
        assert(views(marks@) =~= partner_header_spec(*sheet));
    }
    marks
}

/// The column titles of the service table and the rule under them.
pub open spec fn table_header_spec() -> Seq<MarkView> {
    seq![
        plain(15, 193, FontSize::Small, FontKind::Bold, "Opis"@),
        plain(120, 193, FontSize::Small, FontKind::Bold, "Količina"@),
        plain(142, 193, FontSize::Small, FontKind::Bold, "Cena"@),
        plain(164, 193, FontSize::Small, FontKind::Bold, "DDV"@),
        plain(179, 193, FontSize::Small, FontKind::Bold, "Znesek"@),
        rule(13, 190, 197, 190),
    ]
}

/// Lays out the column titles of the service table.
pub fn render_table_header() -> (marks: Vec<Mark>)
    ensures
        views(marks@) == table_header_spec(),
{
    let mut marks: Vec<Mark> = Vec::new();
    let y: i64 = 193;
    let mut x: i64 = 15;
    put(&mut marks, plain_text(x, y, FontSize::Small, FontKind::Bold, String::from_str("Opis")));
    x = x + 105;
    put(&mut marks, plain_text(x, y, FontSize::Small, FontKind::Bold, String::from_str("Količina")));
    x = x + 22;
    put(&mut marks, plain_text(x, y, FontSize::Small, FontKind::Bold, String::from_str("Cena")));
    x = x + 22;
    put(&mut marks, plain_text(x, y, FontSize::Small, FontKind::Bold, String::from_str("DDV")));
    x = x + 15;
    put(&mut marks, plain_text(x, y, FontSize::Small, FontKind::Bold, String::from_str("Znesek")));
    put(&mut marks, rule_mark(13, 190, 197, 190));
    proof {
        assert(views(marks@) =~= table_header_spec());
    }
    marks
}


/// How far the table's top row starts from the bottom of the page.
pub open spec fn table_top() -> int {
    185
}

/// Vertical room, in millimetres, that a service takes in the table:
/// 4 for each line of its name and 4 more below the rule that closes it.
pub open spec fn row_height(service: ServiceItem) -> int {
    4 * (text_lines(service.service_name@).len() as int) + 4
}

/// Total room that these services take in the table.
pub open spec fn rows_span(services: Seq<ServiceItem>) -> int
    decreases services.len(),
{
    if services.len() == 0 {
        0
    } else {
        rows_span(services.drop_last()) + row_height(services.last())
    }
}

/// Where the table ends below its rows: it grows downward with each service.
pub open spec fn table_bottom(services: Seq<ServiceItem>) -> int {
    table_top() - rows_span(services)
}

/// The marks of one service row whose first line is at height `y`: the
/// price with 22% added, the tax rate, the price, the quantity, each line
/// of the name one under the other from `x`, and a rule under the last one.
pub open spec fn service_row_spec(index: usize, x: int, y: int, service: ServiceItem) -> Seq<MarkView> {
    let lines = text_lines(service.service_name@);
    let under = y - 4 * lines.len();
    seq![
        with_figure(180, y, FontKind::Standard, seq![], Figure::ServiceGross(index), service.service_currency@),
        with_figure(165, y, FontKind::Standard, seq![], Figure::ServiceTaxRate(index), "%"@),
        with_figure(145, y, FontKind::Standard, seq![], Figure::ServiceNet(index), service.service_currency@),
        plain(125, y, FontSize::Body, FontKind::Standard, int_text(service.service_quantity as int)),
    ] + Seq::new(lines.len(), |k: int| plain(x, y - 4 * k, FontSize::Body, FontKind::Standard, lines[k]))
        + seq![rule(13, under, 197, under)]
}

/// Coordinates stay far from the ends of `i64`.
pub open spec fn coordinate_bound() -> int {
    0x1000_0000_0000_0000
}

/// Lays out the service at `index` with its first line at height `y`, and
/// gives back where the next row starts.
pub fn render_service(x: i64, y: i64, index: usize, service: &ServiceItem) -> (res: (Vec<Mark>, i64, i64))
    requires
        -coordinate_bound() <= x <= coordinate_bound(),
        -coordinate_bound() <= y - row_height(*service),
        y <= coordinate_bound(),
    ensures
        views(res.0@) == service_row_spec(index, x as int, y as int, *service),
        res.1 == x,
        res.2 == y - row_height(*service),
{
    let mut marks: Vec<Mark> = Vec::new();
    put(&mut marks, figure_text(180, y, FontKind::Standard, String::new(), Figure::ServiceGross(index), service.service_currency.clone()));
    put(&mut marks, figure_text(165, y, FontKind::Standard, String::new(), Figure::ServiceTaxRate(index), String::from_str("%")));
    put(&mut marks, figure_text(145, y, FontKind::Standard, String::new(), Figure::ServiceNet(index), service.service_currency.clone()));
    let mut quantity = String::new();
    push_int(&mut quantity, service.service_quantity);
    put(&mut marks, plain_text(125, y, FontSize::Body, FontKind::Standard, quantity));
    let lines = split_lines(service.service_name.as_str());
    let ghost spec_lines = text_lines(service.service_name@);
    let ghost head = views(marks@);
    let count = lines.len();
    let mut k: usize = 0;
    let mut line_y: i64 = y;
    while k < count
        invariant
            count == lines@.len(),
            lines@.len() == spec_lines.len(),
            forall|j: int| 0 <= j < lines@.len() ==> #[trigger] lines@[j]@ == spec_lines[j],
            spec_lines == text_lines(service.service_name@),
            -coordinate_bound() <= x <= coordinate_bound(),
            -coordinate_bound() <= y - row_height(*service),
            y <= coordinate_bound(),
            k <= count,
            line_y == y - 4 * k,
            views(marks@) == head + Seq::new(k as nat, |j: int| plain(x as int, y - 4 * j, FontSize::Body, FontKind::Standard, spec_lines[j])),
        decreases count - k,
    {
        put(&mut marks, plain_text(x, line_y, FontSize::Body, FontKind::Standard, lines[k].clone()));
        proof {
            assert(Seq::new((k + 1) as nat, |j: int| plain(x as int, y - 4 * j, FontSize::Body, FontKind::Standard, spec_lines[j]))
                =~= Seq::new(k as nat, |j: int| plain(x as int, y - 4 * j, FontSize::Body, FontKind::Standard, spec_lines[j]))
                    .push(plain(x as int, line_y as int, FontSize::Body, FontKind::Standard, spec_lines[k as int])));
        }
        line_y = line_y - 4;
        k = k + 1;
    }
    put(&mut marks, rule_mark(13, line_y, 197, line_y));
    proof {
        assert(views(marks@) =~= service_row_spec(index, x as int, y as int, *service));
    }
    (marks, x, line_y - 4)
}


/// The rows of these services, one under the other from the table's top.
pub open spec fn rows_spec(services: Seq<ServiceItem>) -> Seq<MarkView>
    decreases services.len(),
{
    if services.len() == 0 {
        seq![]
    } else {
        let before = services.drop_last();
        rows_spec(before) + service_row_spec(
            (services.len() - 1) as usize,
            15,
            table_bottom(before),
            services.last(),
        )
    }
}

/// The totals under the table, from height `y` down: the total, the tax
/// and the amount to pay, each with a short rule under it.
pub open spec fn table_end_spec(y: int, currency: Seq<char>) -> Seq<MarkView> {
    seq![
        with_figure(165, y, FontKind::Standard, "Skupaj: "@, Figure::Total, currency),
        rule(165, y - 1, 195, y - 1),
        with_figure(165, y - 4, FontKind::Standard, "DDV: "@, Figure::TaxDifference, currency),
        rule(165, y - 5, 195, y - 5),
        with_figure(165, y - 8, FontKind::Standard, "Za plačilo: "@, Figure::TotalWithTax, currency),
        rule(165, y - 9, 195, y - 9),
    ]
}

/// Lays out the totals under the table and gives back the height of the
/// last rule.
pub fn render_table_end(y: i64, sheet: &InvoiceSheet) -> (res: (Vec<Mark>, i64))
    requires
        -coordinate_bound() <= y <= coordinate_bound(),
    ensures
        views(res.0@) == table_end_spec(y as int, sheet.invoice_currency@),
        res.1 == y - 9,
{
    let currency = &sheet.invoice_currency;
    let mut marks: Vec<Mark> = Vec::new();
    put(&mut marks, figure_text(165, y, FontKind::Standard, String::from_str("Skupaj: "), Figure::Total, currency.clone()));
    put(&mut marks, rule_mark(165, y - 1, 195, y - 1));
    let y = y - 4;
    put(&mut marks, figure_text(165, y, FontKind::Standard, String::from_str("DDV: "), Figure::TaxDifference, currency.clone()));
    put(&mut marks, rule_mark(165, y - 1, 195, y - 1));
    let y = y - 4;
    put(&mut marks, figure_text(165, y, FontKind::Standard, String::from_str("Za plačilo: "), Figure::TotalWithTax, currency.clone()));
    let y = y - 1;
    put(&mut marks, rule_mark(165, y, 195, y));
    proof {
        assert(views(marks@) =~= table_end_spec(y + 9, sheet.invoice_currency@));
    }
    (marks, y)
}

/// The room of the rows only grows as services are added.
pub proof fn lemma_rows_span_monotone(services: Seq<ServiceItem>, n: int)
    requires
        0 <= n <= services.len(),
    ensures
        0 <= rows_span(services.take(n)) <= rows_span(services),
    decreases services.len(),
{
    if services.len() > 0 {
        if n == services.len() {
            assert(services.take(n) == services);
            lemma_rows_span_monotone(services.drop_last(), services.len() - 1);
            assert(services.drop_last().take(services.len() - 1) == services.drop_last());
        } else {
            lemma_rows_span_monotone(services.drop_last(), n);
            assert(services.drop_last().take(n) == services.take(n));
        }
    }
}

/// Lays out every service row and the totals under them, and gives back
/// the height of the last rule.
pub fn render_table_contents(sheet: &InvoiceSheet) -> (res: (Vec<Mark>, i64))
    requires
        rows_span(sheet.services@) <= coordinate_bound(),
    ensures
        views(res.0@) == rows_spec(sheet.services@) + table_end_spec(
            table_bottom(sheet.services@),
            sheet.invoice_currency@,
        ),
        res.1 == table_bottom(sheet.services@) - 9,
{
    let services = &sheet.services;
    let mut marks: Vec<Mark> = Vec::new();
    let mut x: i64 = 15;
    let mut y: i64 = 185;
    let count = services.len();
    let mut i: usize = 0;
    while i < count
        invariant
            count == services@.len(),
            rows_span(services@) <= coordinate_bound(),
            i <= count,
            x == 15,
            y == table_bottom(services@.take(i as int)),
            views(marks@) == rows_spec(services@.take(i as int)),
        decreases count - i,
    {
        let ghost before = services@.take(i as int);
        let ghost after = services@.take(i + 1);
        proof {
            assert(after.drop_last() == before);
            assert(after.last() == services@[i as int]);
            lemma_rows_span_monotone(services@, i + 1);
            lemma_rows_span_monotone(services@, i as int);
        }
        let (row, next_x, next_y) = render_service(x, y, i, &services[i]);
        put_all(&mut marks, row);
        x = next_x;
        y = next_y;
        i = i + 1;
    }
    proof {
        assert(services@.take(count as int) == services@);
        lemma_rows_span_monotone(services@, count as int);
    }
    let (end, last_y) = render_table_end(y, sheet);
    put_all(&mut marks, end);
    (marks, last_y)
}


/// The tax summary, `15` below height `y`: a rule, the four titles, and
/// the rate, the base, the tax and the total under them.
pub open spec fn summary_table_spec(y: int, currency: Seq<char>) -> Seq<MarkView> {
    let top = y - 15;
    let titles = top - 3;
    let values = titles - 4;
    seq![
        rule(13, top, 197, top),
        plain(14, titles, FontSize::Body, FontKind::Bold, "Davčna stopnja"@),
        plain(70, titles, FontSize::Body, FontKind::Bold, "Osnova za DDV"@),
        plain(125, titles, FontSize::Body, FontKind::Bold, "DDV"@),
        plain(150, titles, FontSize::Body, FontKind::Bold, "Znesek z DDV"@),
        with_figure(14, values, FontKind::Standard, "DDV "@, Figure::InvoiceTaxRate, "%"@),
        with_figure(70, values, FontKind::Standard, seq![], Figure::Total, currency),
        with_figure(150, values, FontKind::Standard, seq![], Figure::TotalWithTax, currency),
        with_figure(125, values, FontKind::Standard, seq![], Figure::TaxDifference, currency),
    ]
}

/// Lays out the tax summary below height `y` and gives back the height of
/// its last row.
pub fn render_summary_table(y: i64, sheet: &InvoiceSheet) -> (res: (Vec<Mark>, i64))
    requires
        -coordinate_bound() <= y <= coordinate_bound(),
    ensures
        views(res.0@) == summary_table_spec(y as int, sheet.invoice_currency@),
        res.1 == y - 22,
{
    let currency = &sheet.invoice_currency;
    let mut marks: Vec<Mark> = Vec::new();
    let y = y - 15;
    put(&mut marks, rule_mark(13, y, 197, y));
    let y = y - 3;
    put(&mut marks, plain_text(14, y, FontSize::Body, FontKind::Bold, String::from_str("Davčna stopnja")));
    put(&mut marks, plain_text(70, y, FontSize::Body, FontKind::Bold, String::from_str("Osnova za DDV")));
    put(&mut marks, plain_text(125, y, FontSize::Body, FontKind::Bold, String::from_str("DDV")));
    put(&mut marks, plain_text(150, y, FontSize::Body, FontKind::Bold, String::from_str("Znesek z DDV")));
    let y = y - 4;
    put(&mut marks, figure_text(14, y, FontKind::Standard, String::from_str("DDV "), Figure::InvoiceTaxRate, String::from_str("%")));
    put(&mut marks, figure_text(70, y, FontKind::Standard, String::new(), Figure::Total, currency.clone()));
    put(&mut marks, figure_text(150, y, FontKind::Standard, String::new(), Figure::TotalWithTax, currency.clone()));
    put(&mut marks, figure_text(125, y, FontKind::Standard, String::new(), Figure::TaxDifference, currency.clone()));
    proof {
        assert(views(marks@) =~= summary_table_spec(y + 22, sheet.invoice_currency@));
    }
    (marks, y)
}

/// The payment reference: the invoice's reference, `00`, the invoice
/// number padded with zeros to four places, and the year after a dash.
pub open spec fn payment_reference_spec(sheet: InvoiceSheet, year: int) -> Seq<char> {
    "Sklic za številko: "@ + sheet.invoice_reference@ + "00 "@
        + zero_padded_text(sheet.invoice_number as int, 4) + "-"@ + int_text(year)
}

/// The payment details, `10` below height `y`: the reference, who made the
/// invoice, and the bank account to pay to.
pub open spec fn payment_footer_spec(y: int, sheet: InvoiceSheet, year: int) -> Seq<MarkView> {
    let c = sheet.company;
    seq![
        plain(15, y - 10, FontSize::Body, FontKind::Standard, payment_reference_spec(sheet, year)),
        plain(15, y - 13, FontSize::Body, FontKind::Standard, "Sestavil: "@ + sheet.created_by@),
        plain(15, y - 17, FontSize::Body, FontKind::Standard,
            "Plačilo na TRR: "@ + c.company_iban@ + " "@ + c.company_bankname@ + " ., SWIFT: "@
                + c.company_swift@),
    ]
}

/// Lays out the payment details below height `y`, with the reference for
/// the given year, and gives back the height of the last line.
pub fn render_payment_footer(y: i64, sheet: &InvoiceSheet, year: i32) -> (res: (Vec<Mark>, i64))
    requires
        -coordinate_bound() <= y <= coordinate_bound(),
    ensures
        views(res.0@) == payment_footer_spec(y as int, *sheet, year as int),
        res.1 == y - 17,
{
    let c = &sheet.company;
    let mut marks: Vec<Mark> = Vec::new();
    let mut reference = joined("Sklic za številko: ", sheet.invoice_reference.as_str());
    reference.append("00 ");
    push_zero_padded(&mut reference, sheet.invoice_number, 4);
    reference.append("-");
    push_int(&mut reference, year);
    let y = y - 10;
    put(&mut marks, plain_text(15, y, FontSize::Body, FontKind::Standard, reference));
    let y = y - 3;
    let author = joined("Sestavil: ", sheet.created_by.as_str());
    put(&mut marks, plain_text(15, y, FontSize::Body, FontKind::Standard, author));
    let y = y - 4;
    let mut account = joined("Plačilo na TRR: ", c.company_iban.as_str());
    account.append(" ");
    account.append(c.company_bankname.as_str());
    account.append(" ., SWIFT: ");
    account.append(c.company_swift.as_str());
    put(&mut marks, plain_text(15, y, FontSize::Body, FontKind::Standard, account));
    proof {
        assert(views(marks@) =~= payment_footer_spec(y + 17, *sheet, year as int));
    }
    (marks, y)
}

/// The register line at the foot of the page, `98` below height `y`, with
/// a rule `3` above it.
pub open spec fn footer_spec(y: int, sheet: InvoiceSheet) -> Seq<MarkView> {
    let c = sheet.company;
    let base = y - 97;
    seq![
        rule(13, base + 2, 197, base + 2),
        plain(65, base - 1, FontSize::Body, FontKind::Standard,
            "Vpis v poslovni register pri "@ + c.company_business_registered_at@ + ". Matična št: "@
                + c.company_registration_number@),
    ]
}

/// Lays out the register line below height `y`.
pub fn render_footer(y: i64, sheet: &InvoiceSheet) -> (marks: Vec<Mark>)
    requires
        -coordinate_bound() <= y <= coordinate_bound(),
    ensures
        views(marks@) == footer_spec(y as int, *sheet),
{
    let c = &sheet.company;
    let mut marks: Vec<Mark> = Vec::new();
    let y = y - 97;
    put(&mut marks, rule_mark(13, y + 2, 197, y + 2));
    let y = y - 1;
    let mut register = joined("Vpis v poslovni register pri ", c.company_business_registered_at.as_str());
    register.append(". Matična št: ");
    register.append(c.company_registration_number.as_str());
    put(&mut marks, plain_text(65, y, FontSize::Body, FontKind::Standard, register));
    proof {
        assert(views(marks@) =~= footer_spec(y + 98, *sheet));
    }
    marks
}

/// The whole page: the three header blocks, the table with its totals, the
/// tax summary, the payment details and the register line, each section
/// placed under the one before it.
pub open spec fn invoice_page_spec(sheet: InvoiceSheet, year: int) -> Seq<MarkView> {
    let end = table_bottom(sheet.services@) - 9;
    let summary_end = end - 22;
    let payment_end = summary_end - 17;
    invoice_header_spec(sheet) + company_header_spec(sheet) + partner_header_spec(sheet)
        + table_header_spec() + rows_spec(sheet.services@)
        + table_end_spec(table_bottom(sheet.services@), sheet.invoice_currency@)
        + summary_table_spec(end, sheet.invoice_currency@)
        + payment_footer_spec(summary_end, sheet, year) + footer_spec(payment_end, sheet)
}

/// Lays out the whole invoice page, with the payment reference for `year`
/// (the year the invoice is printed in, which the caller reads from its clock).
pub fn layout_invoice(sheet: &InvoiceSheet, year: i32) -> (marks: Vec<Mark>)
    requires
        rows_span(sheet.services@) <= coordinate_bound(),
    ensures
        views(marks@) == invoice_page_spec(*sheet, year as int),
{
    proof {
        lemma_rows_span_monotone(sheet.services@, 0);
    }
    let mut marks = render_invoice_header(sheet);
    put_all(&mut marks, render_company_header(sheet));
    put_all(&mut marks, render_partner_header(sheet));
    put_all(&mut marks, render_table_header());
    let (table, y) = render_table_contents(sheet);
    put_all(&mut marks, table);
    let (summary, y) = render_summary_table(y, sheet);
    put_all(&mut marks, summary);
    let (payment, y) = render_payment_footer(y, sheet, year);
    put_all(&mut marks, payment);
    put_all(&mut marks, render_footer(y, sheet));
    proof {
        let s = *sheet;
        assert(views(marks@) =~= invoice_page_spec(s, year as int));
    }
    marks
}


/// Adding a service at the end of an invoice keeps every row before it
/// where it was, puts the new row right under them, and moves the end of
/// the table down by the new row's height, which is at least 4 mm: the
/// table grows with each service.
pub proof fn law_table_grows_with_each_service(services: Seq<ServiceItem>, added: ServiceItem)
    ensures
        rows_spec(services.push(added)) == rows_spec(services) + service_row_spec(
            services.len() as usize,
            15,
            table_bottom(services),
            added,
        ),
        table_bottom(services.push(added)) == table_bottom(services) - row_height(added),
        row_height(added) >= 4,
{
    assert(services.push(added).drop_last() == services);
}


/// `m` moved `d` millimetres down the page.
pub open spec fn shift_down(m: MarkView, d: int) -> MarkView {
    match m {
        MarkView::Text { x, y, size, font, head, figure, tail } => MarkView::Text {
            x,
            y: y - d,
            size,
            font,
            head,
            figure,
            tail,
        },
        MarkView::Rule { x1, y1, x2, y2 } => MarkView::Rule { x1, y1: y1 - d, x2, y2: y2 - d },
    }
}

/// Every mark of `marks` moved `d` millimetres down.
pub open spec fn shifted_down(marks: Seq<MarkView>, d: int) -> Seq<MarkView> {
    marks.map_values(|m: MarkView| shift_down(m, d))
}

/// Everything under the service rows when they end at `bottom`: the
/// totals, the tax summary, the payment details and the register line.
pub open spec fn below_table_spec(sheet: InvoiceSheet, year: int, bottom: int) -> Seq<MarkView> {
    let end = bottom - 9;
    table_end_spec(bottom, sheet.invoice_currency@) + summary_table_spec(end, sheet.invoice_currency@)
        + payment_footer_spec(end - 22, sheet, year) + footer_spec(end - 39, sheet)
}

proof fn lemma_shifted_add(a: Seq<MarkView>, b: Seq<MarkView>, d: int)
    ensures
        shifted_down(a + b, d) == shifted_down(a, d) + shifted_down(b, d),
{
    assert(shifted_down(a + b, d) =~= shifted_down(a, d) + shifted_down(b, d));
}

/// The page is the part above the table, which no service changes, then
/// the rows, then the part below them, which only depends on where the
/// rows end. Moving the end of the rows down moves everything below them
/// down by as much, and adding a service moves it down by that service's
/// row height.
pub proof fn law_sections_below_table_follow_it(
    sheet: InvoiceSheet,
    year: int,
    services: Seq<ServiceItem>,
    added: ServiceItem,
    bottom: int,
    d: int,
)
    ensures
        invoice_page_spec(sheet, year) == invoice_header_spec(sheet) + company_header_spec(sheet)
            + partner_header_spec(sheet) + table_header_spec() + rows_spec(sheet.services@)
            + below_table_spec(sheet, year, table_bottom(sheet.services@)),
        below_table_spec(sheet, year, bottom - d) == shifted_down(below_table_spec(sheet, year, bottom), d),
        below_table_spec(sheet, year, table_bottom(services.push(added))) == shifted_down(
            below_table_spec(sheet, year, table_bottom(services)),
            row_height(added),
        ),
{
    let c = sheet.invoice_currency@;
    assert(invoice_page_spec(sheet, year) =~= invoice_header_spec(sheet) + company_header_spec(sheet)
        + partner_header_spec(sheet) + table_header_spec() + rows_spec(sheet.services@)
        + below_table_spec(sheet, year, table_bottom(sheet.services@)));
    let end = bottom - 9;
    assert(table_end_spec(bottom - d, c) =~= shifted_down(table_end_spec(bottom, c), d));
    assert(summary_table_spec(end - d, c) =~= shifted_down(summary_table_spec(end, c), d));
    assert(payment_footer_spec(end - 22 - d, sheet, year) =~= shifted_down(
        payment_footer_spec(end - 22, sheet, year),
        d,
    ));
    assert(footer_spec(end - 39 - d, sheet) =~= shifted_down(footer_spec(end - 39, sheet), d));
    lemma_shifted_add(table_end_spec(bottom, c), summary_table_spec(end, c), d);
    lemma_shifted_add(
        table_end_spec(bottom, c) + summary_table_spec(end, c),
        payment_footer_spec(end - 22, sheet, year),
        d,
    );
    lemma_shifted_add(
        table_end_spec(bottom, c) + summary_table_spec(end, c) + payment_footer_spec(end - 22, sheet, year),
        footer_spec(end - 39, sheet),
        d,
    );
    assert(below_table_spec(sheet, year, bottom - d) == shifted_down(below_table_spec(sheet, year, bottom), d));
    law_table_grows_with_each_service(services, added);
    let b = table_bottom(services);
    let h = row_height(added);
    let e = b - 9;
    assert(table_end_spec(b - h, c) =~= shifted_down(table_end_spec(b, c), h));
    assert(summary_table_spec(e - h, c) =~= shifted_down(summary_table_spec(e, c), h));
    assert(payment_footer_spec(e - 22 - h, sheet, year) =~= shifted_down(
        payment_footer_spec(e - 22, sheet, year),
        h,
    ));
    assert(footer_spec(e - 39 - h, sheet) =~= shifted_down(footer_spec(e - 39, sheet), h));
    lemma_shifted_add(table_end_spec(b, c), summary_table_spec(e, c), h);
    lemma_shifted_add(
        table_end_spec(b, c) + summary_table_spec(e, c),
        payment_footer_spec(e - 22, sheet, year),
        h,
    );
    lemma_shifted_add(
        table_end_spec(b, c) + summary_table_spec(e, c) + payment_footer_spec(e - 22, sheet, year),
        footer_spec(e - 39, sheet),
        h,
    );
}

} // verus!

verus! {

/// Where a mark starts across the page.
pub open spec fn mark_x(m: MarkView) -> int {
    match m {
        MarkView::Text { x, .. } => x,
        MarkView::Rule { x1, .. } => x1,
    }
}

/// The text before a mark's figure; empty for a rule.
pub open spec fn mark_head(m: MarkView) -> Seq<char> {
    match m {
        MarkView::Text { head, .. } => head,
        MarkView::Rule { .. } => seq![],
    }
}

/// The figure a mark names, if any.
pub open spec fn mark_figure(m: MarkView) -> Option<Figure> {
    match m {
        MarkView::Text { figure, .. } => figure,
        MarkView::Rule { .. } => None,
    }
}

/// The figures these marks name, in the order of the marks.
pub open spec fn figures(marks: Seq<MarkView>) -> Seq<Figure>
    decreases marks.len(),
{
    if marks.len() == 0 {
        seq![]
    } else {
        let rest = figures(marks.drop_last());
        match mark_figure(marks.last()) {
            Some(f) => rest.push(f),
            None => rest,
        }
    }
}

/// Under the table, the line headed `Skupaj: ` names the total, the line
/// headed `DDV: ` the tax on it, and the line headed `Za plačilo: ` the
/// amount to pay; these are the only figures there, in that order.
pub proof fn law_table_end_names_each_total(y: int, currency: Seq<char>)
    ensures
        forall|k: int| 0 <= k < table_end_spec(y, currency).len()
            && mark_head(#[trigger] table_end_spec(y, currency)[k]) == "Skupaj: "@
            ==> mark_figure(table_end_spec(y, currency)[k]) == Some(Figure::Total),
        forall|k: int| 0 <= k < table_end_spec(y, currency).len()
            && mark_head(#[trigger] table_end_spec(y, currency)[k]) == "DDV: "@
            ==> mark_figure(table_end_spec(y, currency)[k]) == Some(Figure::TaxDifference),
        forall|k: int| 0 <= k < table_end_spec(y, currency).len()
            && mark_head(#[trigger] table_end_spec(y, currency)[k]) == "Za plačilo: "@
            ==> mark_figure(table_end_spec(y, currency)[k]) == Some(Figure::TotalWithTax),
        figures(table_end_spec(y, currency)) == seq![Figure::Total, Figure::TaxDifference, Figure::TotalWithTax],
{
    reveal_strlit("Skupaj: ");
    reveal_strlit("DDV: ");
    reveal_strlit("Za plačilo: ");
    let m = table_end_spec(y, currency);
    assert(m.len() == 6);
    assert forall|k: int| 0 <= k < m.len() implies
        (mark_head(#[trigger] m[k]) == "Skupaj: "@ ==> mark_figure(m[k]) == Some(Figure::Total))
        && (mark_head(m[k]) == "DDV: "@ ==> mark_figure(m[k]) == Some(Figure::TaxDifference))
        && (mark_head(m[k]) == "Za plačilo: "@ ==> mark_figure(m[k]) == Some(Figure::TotalWithTax)) by {
        let a = "Skupaj: "@;
        let b = "DDV: "@;
        let c = "Za plačilo: "@;
        assert(a.len() == 8 && b.len() == 5 && c.len() == 12);
        if k == 0 {
            assert(mark_head(m[k]) == a);
        } else if k == 1 {
            assert(mark_head(m[k]).len() == 0);
        } else if k == 2 {
            assert(mark_head(m[k]) == b);
        } else if k == 3 {
            assert(mark_head(m[k]).len() == 0);
        } else if k == 4 {
            assert(mark_head(m[k]) == c);
        } else {
            assert(mark_head(m[k]).len() == 0);
        }
    }
    reveal_with_fuel(figures, 7);
    assert(m.drop_last().drop_last().drop_last().drop_last().drop_last().drop_last().len() == 0);
    assert(figures(m) =~= seq![Figure::Total, Figure::TaxDifference, Figure::TotalWithTax]);
}

/// In the tax summary every value stands under the title that names it:
/// under `Osnova za DDV` the total, under `DDV` the tax, under
/// `Znesek z DDV` the total with tax and under `Davčna stopnja` the rate;
/// and each of these titles has its value under it.
pub proof fn law_summary_values_under_their_titles(y: int, currency: Seq<char>)
    ensures
        forall|i: int, j: int| 0 <= i < summary_table_spec(y, currency).len()
            && 0 <= j < summary_table_spec(y, currency).len()
            && mark_head(#[trigger] summary_table_spec(y, currency)[i]) == "Osnova za DDV"@
            && mark_figure(#[trigger] summary_table_spec(y, currency)[j]) is Some
            && mark_x(summary_table_spec(y, currency)[j]) == mark_x(summary_table_spec(y, currency)[i])
            ==> mark_figure(summary_table_spec(y, currency)[j]) == Some(Figure::Total),
        forall|i: int, j: int| 0 <= i < summary_table_spec(y, currency).len()
            && 0 <= j < summary_table_spec(y, currency).len()
            && mark_head(#[trigger] summary_table_spec(y, currency)[i]) == "Znesek z DDV"@
            && mark_figure(#[trigger] summary_table_spec(y, currency)[j]) is Some
            && mark_x(summary_table_spec(y, currency)[j]) == mark_x(summary_table_spec(y, currency)[i])
            ==> mark_figure(summary_table_spec(y, currency)[j]) == Some(Figure::TotalWithTax),
        forall|i: int, j: int| 0 <= i < summary_table_spec(y, currency).len()
            && 0 <= j < summary_table_spec(y, currency).len()
            && mark_head(#[trigger] summary_table_spec(y, currency)[i]) == "DDV"@
            && mark_figure(#[trigger] summary_table_spec(y, currency)[j]) is Some
            && mark_x(summary_table_spec(y, currency)[j]) == mark_x(summary_table_spec(y, currency)[i])
            ==> mark_figure(summary_table_spec(y, currency)[j]) == Some(Figure::TaxDifference),
        forall|i: int, j: int| 0 <= i < summary_table_spec(y, currency).len()
            && 0 <= j < summary_table_spec(y, currency).len()
            && mark_head(#[trigger] summary_table_spec(y, currency)[i]) == "Davčna stopnja"@
            && mark_figure(#[trigger] summary_table_spec(y, currency)[j]) is Some
            && mark_x(summary_table_spec(y, currency)[j]) == mark_x(summary_table_spec(y, currency)[i])
            ==> mark_figure(summary_table_spec(y, currency)[j]) == Some(Figure::InvoiceTaxRate),
        exists|i: int, j: int| 0 <= i < summary_table_spec(y, currency).len()
            && 0 <= j < summary_table_spec(y, currency).len()
            && mark_head(#[trigger] summary_table_spec(y, currency)[i]) == "Davčna stopnja"@
            && mark_figure(#[trigger] summary_table_spec(y, currency)[j]) == Some(Figure::InvoiceTaxRate)
            && mark_x(summary_table_spec(y, currency)[j]) == mark_x(summary_table_spec(y, currency)[i]),
        exists|i: int, j: int| 0 <= i < summary_table_spec(y, currency).len()
            && 0 <= j < summary_table_spec(y, currency).len()
            && mark_head(#[trigger] summary_table_spec(y, currency)[i]) == "Osnova za DDV"@
            && mark_figure(#[trigger] summary_table_spec(y, currency)[j]) == Some(Figure::Total)
            && mark_x(summary_table_spec(y, currency)[j]) == mark_x(summary_table_spec(y, currency)[i]),
        exists|i: int, j: int| 0 <= i < summary_table_spec(y, currency).len()
            && 0 <= j < summary_table_spec(y, currency).len()
            && mark_head(#[trigger] summary_table_spec(y, currency)[i]) == "DDV"@
            && mark_figure(#[trigger] summary_table_spec(y, currency)[j]) == Some(Figure::TaxDifference)
            && mark_x(summary_table_spec(y, currency)[j]) == mark_x(summary_table_spec(y, currency)[i]),
        exists|i: int, j: int| 0 <= i < summary_table_spec(y, currency).len()
            && 0 <= j < summary_table_spec(y, currency).len()
            && mark_head(#[trigger] summary_table_spec(y, currency)[i]) == "Znesek z DDV"@
            && mark_figure(#[trigger] summary_table_spec(y, currency)[j]) == Some(Figure::TotalWithTax)
            && mark_x(summary_table_spec(y, currency)[j]) == mark_x(summary_table_spec(y, currency)[i]),
{
    reveal_strlit("Davčna stopnja");
    reveal_strlit("Osnova za DDV");
    reveal_strlit("DDV");
    reveal_strlit("Znesek z DDV");
    reveal_strlit("DDV ");
    let m = summary_table_spec(y, currency);
    assert(m.len() == 9);
    let t0 = "Davčna stopnja"@;
    let t1 = "Osnova za DDV"@;
    let t2 = "DDV"@;
    let t3 = "Znesek z DDV"@;
    assert(t0.len() == 14 && t1.len() == 13 && t2.len() == 3 && t3.len() == 12 && "DDV "@.len() == 4);
    assert(mark_head(m[1]) == "Davčna stopnja"@ && mark_figure(m[5]) == Some(Figure::InvoiceTaxRate) && mark_x(m[5]) == mark_x(m[1]));
    assert(mark_head(m[2]) == "Osnova za DDV"@ && mark_figure(m[6]) == Some(Figure::Total) && mark_x(m[6]) == mark_x(m[2]));
    assert(mark_head(m[3]) == "DDV"@ && mark_figure(m[8]) == Some(Figure::TaxDifference) && mark_x(m[8]) == mark_x(m[3]));
    assert(mark_head(m[4]) == "Znesek z DDV"@ && mark_figure(m[7]) == Some(Figure::TotalWithTax) && mark_x(m[7]) == mark_x(m[4]));
    assert forall|j: int| 0 <= j < m.len() && (#[trigger] mark_figure(m[j])) is Some implies
        (mark_x(m[j]) == 14 ==> mark_figure(m[j]) == Some(Figure::InvoiceTaxRate))
        && (mark_x(m[j]) == 70 ==> mark_figure(m[j]) == Some(Figure::Total))
        && (mark_x(m[j]) == 125 ==> mark_figure(m[j]) == Some(Figure::TaxDifference))
        && (mark_x(m[j]) == 150 ==> mark_figure(m[j]) == Some(Figure::TotalWithTax)) by {
        if j == 0 {
        } else if j == 1 {
        } else if j == 2 {
        } else if j == 3 {
        } else if j == 4 {
        } else if j == 5 {
        } else if j == 6 {
        } else if j == 7 {
        } else {
        }
    }
    assert forall|i: int| 0 <= i < m.len() implies
        (mark_head(#[trigger] m[i]) == t0 ==> mark_x(m[i]) == 14)
        && (mark_head(m[i]) == t1 ==> mark_x(m[i]) == 70)
        && (mark_head(m[i]) == t2 ==> mark_x(m[i]) == 125)
        && (mark_head(m[i]) == t3 ==> mark_x(m[i]) == 150) by {
        if i == 0 {
            assert(mark_head(m[i]).len() == 0);
        } else if i == 1 {
            assert(mark_head(m[i]) == t0);
        } else if i == 2 {
            assert(mark_head(m[i]) == t1);
        } else if i == 3 {
            assert(mark_head(m[i]) == t2);
        } else if i == 4 {
            assert(mark_head(m[i]) == t3);
        } else if i == 5 {
            assert(mark_head(m[i]).len() == 4);
        } else {
            assert(mark_head(m[i]).len() == 0);
        }
    }
}

} // verus!
