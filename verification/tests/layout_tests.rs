use invoicer::invoice::{CompanyDetails, InvoiceSheet, Partner, ServiceItem};
use invoicer::layout::{
    layout_invoice, render_company_header, render_footer,
    render_invoice_header, render_partner_header, render_payment_footer, render_service, render_summary_table, render_table_contents,
    render_table_end, render_table_header, Figure, FontKind, FontSize, Mark,
};

fn text_of(m: &Mark) -> (i64, i64, FontSize, FontKind, String, Option<Figure>, String) {
    match m {
        Mark::Text { x, y, size, font, label } => {
            (*x, *y, *size, *font, label.head.clone(), label.figure, label.tail.clone())
        }
        Mark::Rule { .. } => panic!("expected a text"),
    }
}

fn rule_of(m: &Mark) -> (i64, i64, i64, i64) {
    match m {
        Mark::Rule { x1, y1, x2, y2 } => (*x1, *y1, *x2, *y2),
        Mark::Text { .. } => panic!("expected a rule"),
    }
}

fn service(name: &str, quantity: i32) -> ServiceItem {
    ServiceItem {
        service_name: name.to_string(),
        service_quantity: quantity,
        service_currency: "€".to_string(),
    }
}

fn sample_sheet() -> InvoiceSheet {
    InvoiceSheet {
        invoice_number: 7,
        invoice_date: "1. 3. 2024".to_string(),
        invoice_location: "Ljubljana".to_string(),
        service_date: "29. 2. 2024".to_string(),
        invoice_currency: "€".to_string(),
        due_date: "15. 3. 2024".to_string(),
        partner: Partner {
            partner_name: "Kupec d.o.o.".to_string(),
            partner_address: "Cesta 1".to_string(),
            partner_postal_code: "1000 Ljubljana".to_string(),
            partner_vat_id: "12345678".to_string(),
        },
        company: CompanyDetails {
            company_name: "Podjetje s.p.".to_string(),
            company_address: "Ulica 2".to_string(),
            company_postal_code: "2000 Maribor".to_string(),
            company_bankname: "Banka".to_string(),
            company_vat_id: "87654321".to_string(),
            company_iban: "SI56 0000 0000 0000 000".to_string(),
            company_swift: "BANKSI2X".to_string(),
            company_registration_number: "1234567000".to_string(),
            company_phone: "040 000 000".to_string(),
            company_business_registered_at: "AJPES".to_string(),
        },
        invoice_reference: "SI12".to_string(),
        services: vec![service("Design", 2), service("Hosting\nfor one year", 1)],
        created_by: "Ana".to_string(),
    }
}

#[test]
fn invoice_header_texts() {
    let marks = render_invoice_header(&sample_sheet());
    assert_eq!(marks.len(), 3);
    let (x, y, size, font, head, fig, tail) = text_of(&marks[0]);
    assert_eq!((x, y, size, font), (15, 274, FontSize::Small, FontKind::Standard));
    assert_eq!(head, "Datum izdaje: Ljubljana, 1. 3. 2024");
    assert_eq!(fig, None);
    assert_eq!(tail, "");
    assert_eq!(text_of(&marks[1]).4, "Datum opr. storitve: 29. 2. 2024");
    assert_eq!(text_of(&marks[1]).1, 270);
    assert_eq!(text_of(&marks[2]).4, "Rok plačila: 15. 3. 2024");
    assert_eq!(text_of(&marks[2]).1, 266);
}

#[test]
fn company_header_texts() {
    let marks = render_company_header(&sample_sheet());
    let texts: Vec<String> = marks.iter().map(|m| text_of(m).4).collect();
    assert_eq!(
        texts,
        vec![
            "Podjetje s.p.",
            "Ulica 2",
            "2000 Maribor",
            "ID za DDV: SI87654321",
            "BAN št: SI56 0000 0000 0000 000",
            "SWIFT: BANKSI2X",
            "Matična št: 1234567000",
            "Tel: 040 000 000",
            "Račun št: 7",
        ]
    );
    assert_eq!(text_of(&marks[0]).3, FontKind::Bold);
    assert_eq!(text_of(&marks[1]).3, FontKind::Standard);
    let ys: Vec<i64> = marks.iter().map(|m| text_of(m).1).collect();
    assert_eq!(ys, vec![276, 271, 267, 263, 259, 255, 251, 247, 243]);
    assert!(marks.iter().all(|m| text_of(m).0 == 132));
}

#[test]
fn negative_invoice_number_in_company_header() {
    let mut sheet = sample_sheet();
    sheet.invoice_number = -31;
    let marks = render_company_header(&sheet);
    assert_eq!(text_of(&marks[8]).4, "Račun št: -31");
}

#[test]
fn partner_header_starts_with_partner_name() {
    let marks = render_partner_header(&sample_sheet());
    let texts: Vec<String> = marks.iter().map(|m| text_of(m).4).collect();
    assert_eq!(texts, vec!["Kupec d.o.o.", "Cesta 1", "1000 Ljubljana", "ID za DDV kupca: SI 12345678"]);
    let ys: Vec<i64> = marks.iter().map(|m| text_of(m).1).collect();
    assert_eq!(ys, vec![233, 228, 223, 202]);
}

#[test]
fn table_header_columns() {
    let marks = render_table_header();
    assert_eq!(marks.len(), 6);
    let xs: Vec<i64> = marks[..5].iter().map(|m| text_of(m).0).collect();
    assert_eq!(xs, vec![15, 120, 142, 164, 179]);
    let texts: Vec<String> = marks[..5].iter().map(|m| text_of(m).4).collect();
    assert_eq!(texts, vec!["Opis", "Količina", "Cena", "DDV", "Znesek"]);
    assert_eq!(rule_of(&marks[5]), (13, 190, 197, 190));
}

#[test]
fn service_row_with_two_lines() {
    let (marks, x, y) = render_service(15, 185, 1, &service("Hosting\nfor one year", 3));
    assert_eq!((x, y), (15, 185 - 12));
    assert_eq!(marks.len(), 7);
    assert_eq!(text_of(&marks[0]), (180, 185, FontSize::Body, FontKind::Standard, String::new(), Some(Figure::ServiceGross(1)), "€".to_string()));
    assert_eq!(text_of(&marks[1]).5, Some(Figure::ServiceTaxRate(1)));
    assert_eq!(text_of(&marks[1]).6, "%");
    assert_eq!(text_of(&marks[2]).0, 145);
    assert_eq!(text_of(&marks[2]).5, Some(Figure::ServiceNet(1)));
    assert_eq!(text_of(&marks[3]).4, "3");
    assert_eq!(text_of(&marks[3]).0, 125);
    assert_eq!((text_of(&marks[4]).1, text_of(&marks[4]).4), (185, "Hosting".to_string()));
    assert_eq!((text_of(&marks[5]).1, text_of(&marks[5]).4), (181, "for one year".to_string()));
    assert_eq!(rule_of(&marks[6]), (13, 177, 197, 177));
}

#[test]
fn service_row_with_empty_name() {
    let (marks, _, y) = render_service(15, 100, 0, &service("", 1));
    assert_eq!(marks.len(), 5);
    assert_eq!(rule_of(&marks[4]), (13, 100, 197, 100));
    assert_eq!(y, 96);
}

#[test]
fn table_grows_with_each_service() {
    let mut sheet = sample_sheet();
    sheet.services.clear();
    let (empty, y0) = render_table_contents(&sheet);
    assert_eq!(empty.len(), 6);
    assert_eq!(y0, 185 - 9);
    sheet.services.push(service("One", 1));
    let (_, y1) = render_table_contents(&sheet);
    assert_eq!(y1, y0 - 8);
    sheet.services.push(service("Two\nlines\r\n", 1));
    let (marks, y2) = render_table_contents(&sheet);
    assert_eq!(y2, y1 - 12);
    assert_eq!(text_of(&marks[10]).4, "Two");
    assert_eq!(text_of(&marks[11]).4, "lines");
    assert_eq!(text_of(&marks[11]).1, 173);
}

#[test]
fn table_end_totals() {
    let (marks, y) = render_table_end(100, &sample_sheet());
    assert_eq!(y, 91);
    assert_eq!(text_of(&marks[0]), (165, 100, FontSize::Body, FontKind::Standard, "Skupaj: ".to_string(), Some(Figure::Total), "€".to_string()));
    assert_eq!(rule_of(&marks[1]), (165, 99, 195, 99));
    assert_eq!(text_of(&marks[2]).4, "DDV: ");
    assert_eq!(text_of(&marks[2]).1, 96);
    assert_eq!(text_of(&marks[4]).4, "Za plačilo: ");
    assert_eq!(text_of(&marks[4]).5, Some(Figure::TotalWithTax));
    assert_eq!(rule_of(&marks[5]), (165, 91, 195, 91));
}

#[test]
fn summary_table_rows() {
    let (marks, y) = render_summary_table(150, &sample_sheet());
    assert_eq!(y, 128);
    assert_eq!(rule_of(&marks[0]), (13, 135, 197, 135));
    assert_eq!(text_of(&marks[1]).4, "Davčna stopnja");
    assert_eq!(text_of(&marks[1]).1, 132);
    assert_eq!(text_of(&marks[1]).3, FontKind::Bold);
    assert_eq!(text_of(&marks[5]).4, "DDV ");
    assert_eq!(text_of(&marks[5]).5, Some(Figure::InvoiceTaxRate));
    assert_eq!(text_of(&marks[5]).1, 128);
    assert_eq!(text_of(&marks[8]).0, 125);
    assert_eq!(text_of(&marks[8]).5, Some(Figure::TaxDifference));
}

#[test]
fn payment_reference_is_padded() {
    let (marks, y) = render_payment_footer(100, &sample_sheet(), 2024);
    assert_eq!(y, 83);
    assert_eq!(text_of(&marks[0]).4, "Sklic za številko: SI1200 0007-2024");
    assert_eq!(text_of(&marks[0]).1, 90);
    assert_eq!(text_of(&marks[1]).4, "Sestavil: Ana");
    assert_eq!(text_of(&marks[1]).1, 87);
    assert_eq!(text_of(&marks[2]).4, "Plačilo na TRR: SI56 0000 0000 0000 000 Banka ., SWIFT: BANKSI2X");
    assert_eq!(text_of(&marks[2]).1, 83);
}

#[test]
fn payment_reference_padding_edges() {
    let mut sheet = sample_sheet();
    sheet.invoice_number = -5;
    let (marks, _) = render_payment_footer(100, &sheet, 2024);
    assert_eq!(text_of(&marks[0]).4, format!("Sklic za številko: SI1200 {:04}-2024", -5));
    sheet.invoice_number = 123456;
    let (marks, _) = render_payment_footer(100, &sheet, 2024);
    assert_eq!(text_of(&marks[0]).4, "Sklic za številko: SI1200 123456-2024");
    sheet.invoice_number = i32::MIN;
    let (marks, _) = render_payment_footer(100, &sheet, 2024);
    assert_eq!(text_of(&marks[0]).4, format!("Sklic za številko: SI1200 {:04}-2024", i32::MIN));
}

#[test]
fn footer_register_line() {
    let marks = render_footer(200, &sample_sheet());
    assert_eq!(rule_of(&marks[0]), (13, 105, 197, 105));
    assert_eq!(text_of(&marks[1]).4, "Vpis v poslovni register pri AJPES. Matična št: 1234567000");
    assert_eq!((text_of(&marks[1]).0, text_of(&marks[1]).1), (65, 102));
}

#[test]
fn whole_page_order() {
    let sheet = sample_sheet();
    let marks = layout_invoice(&sheet, 2024);
    // 3 + 9 + 4 + 6 header marks, 6 + 7 rows, 6 totals, 9 summary, 3 payment, 2 footer
    assert_eq!(marks.len(), 3 + 9 + 4 + 6 + 6 + 7 + 6 + 9 + 3 + 2);
    let footer = &marks[marks.len() - 1];
    // rows end at 185 - 8 - 12 = 165; totals end 9 lower; summary 22; payment 17; footer 98
    assert_eq!(text_of(footer).1, 165 - 9 - 22 - 17 - 98);
    assert_eq!(text_of(&marks[marks.len() - 5]).4, "Sklic za številko: SI1200 0007-2024");
}

fn shifted(m: &Mark, d: i64) -> String {
    match m {
        Mark::Text { x, y, size, font, label } => {
            format!("T {} {} {:?} {:?} {} {:?} {}", x, y - d, size, font, label.head, label.figure, label.tail)
        }
        Mark::Rule { x1, y1, x2, y2 } => format!("R {} {} {} {}", x1, y1 - d, x2, y2 - d),
    }
}

#[test]
fn sections_below_table_follow_it() {
    let mut sheet = sample_sheet();
    sheet.services = vec![service("One", 1)];
    let short = layout_invoice(&sheet, 2025);
    sheet.services.push(service("Two\nthree\nfour", 5));
    let long = layout_invoice(&sheet, 2025);
    // the new row has three lines: 3 * 4 + 4 = 16 mm, and 4 + 3 + 1 marks
    assert_eq!(long.len(), short.len() + 8);
    let below = 6 + 9 + 3 + 2;
    let short_tail: Vec<String> = short[short.len() - below..].iter().map(|m| shifted(m, 16)).collect();
    let long_tail: Vec<String> = long[long.len() - below..].iter().map(|m| shifted(m, 0)).collect();
    assert_eq!(short_tail, long_tail);
    let head = 3 + 9 + 4 + 6;
    let short_head: Vec<String> = short[..head].iter().map(|m| shifted(m, 0)).collect();
    let long_head: Vec<String> = long[..head].iter().map(|m| shifted(m, 0)).collect();
    assert_eq!(short_head, long_head);
}
