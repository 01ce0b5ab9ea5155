use invoice_maker::invoice::{Bill, Invoice};
use invoice_maker::layout::{render, render_line_item, render_notes, Labelled, LineItem};

fn bill(description: &str, amount: i32, extra_paragraphs: Option<Vec<&str>>) -> Bill {
    Bill {
        description: String::from(description),
        amount,
        extra_paragraphs: extra_paragraphs
            .map(|paragraphs| paragraphs.into_iter().map(String::from).collect()),
    }
}

fn invoice_with(bills: Vec<Bill>) -> Invoice {
    Invoice {
        company_name: String::from("Acme & Sons"),
        contact_name: String::from("Ada Lovelace"),
        address: String::from("12 Engine Street"),
        city: String::from("London"),
        state: String::from("LDN"),
        zip: String::from("N1 9GU"),
        phone: String::from("555-0100"),
        email: String::from("ada@acme.example"),
        bill_to: String::from("Charles <Babbage>"),
        invoice_number: String::from("42"),
        invoice_date: String::from("2024-05-01"),
        bills,
    }
}

#[test]
fn total_of_no_bills_is_zero() {
    let invoice = invoice_with(vec![]);
    assert_eq!(invoice.total(), 0);
    let document = render(&invoice);
    assert_eq!(document.total, "TOTAL $0");
    assert!(document.items.is_empty());
}

#[test]
fn total_is_the_sum_of_the_amounts() {
    let invoice = invoice_with(vec![bill("a", 1500, None), bill("b", 250, None), bill("c", 1, None)]);
    assert_eq!(invoice.total(), 1751);
    assert_eq!(render(&invoice).total, "TOTAL $1751");
}

#[test]
fn total_with_negative_amounts() {
    let invoice = invoice_with(vec![bill("refund", -100, None), bill("fee", 50, None)]);
    assert_eq!(invoice.total(), -50);
    assert_eq!(render(&invoice).total, "TOTAL $-50");
}

#[test]
fn total_does_not_wrap_beyond_32_bits() {
    let invoice = invoice_with(vec![
        bill("a", i32::MAX, None),
        bill("b", i32::MAX, None),
        bill("c", i32::MAX, None),
    ]);
    assert_eq!(invoice.total(), 6_442_450_941);
    assert_eq!(render(&invoice).total, "TOTAL $6442450941");

    let invoice = invoice_with(vec![bill("a", i32::MIN, None), bill("b", i32::MIN, None)]);
    assert_eq!(invoice.total(), -4_294_967_296);
    assert_eq!(render(&invoice).total, "TOTAL $-4294967296");
}

#[test]
fn total_does_not_depend_on_the_order_of_the_bills() {
    let forward = invoice_with(vec![bill("a", 7, None), bill("b", -3, None), bill("c", 40, None)]);
    let backward = invoice_with(vec![bill("c", 40, None), bill("b", -3, None), bill("a", 7, None)]);
    assert_eq!(forward.total(), 44);
    assert_eq!(backward.total(), 44);
}

#[test]
fn line_items_keep_the_input_order() {
    let invoice = invoice_with(vec![
        bill("zebra", 3, None),
        bill("apple", 1, None),
        bill("mango", 2, None),
        bill("apple", 1, None),
    ]);
    let document = render(&invoice);
    let descriptions: Vec<&str> =
        document.items.iter().map(|item| item.description.as_str()).collect();
    assert_eq!(descriptions, vec!["zebra", "apple", "mango", "apple"]);
    let amounts: Vec<&str> = document.items.iter().map(|item| item.amount.as_str()).collect();
    assert_eq!(amounts, vec!["$3", "$1", "$2", "$1"]);
}

#[test]
fn empty_paragraphs_produce_no_entries() {
    let item = render_line_item(&bill("Consulting", 1500, Some(vec!["", "note", ""])));
    assert_eq!(
        item,
        LineItem {
            description: String::from("Consulting"),
            amount: String::from("$1500"),
            notes: Some(vec![String::from("note")]),
        }
    );
}

#[test]
fn shown_paragraphs_keep_their_order() {
    let paragraphs =
        Some(vec!["first", "", "second", "third", ""].into_iter().map(String::from).collect());
    assert_eq!(
        render_notes(&paragraphs),
        Some(vec![String::from("first"), String::from("second"), String::from("third")])
    );
}

#[test]
fn absent_paragraphs_render_no_sub_list() {
    assert_eq!(render_notes(&None), None);
    assert_eq!(render_line_item(&bill("x", 1, None)).notes, None);
}

#[test]
fn an_empty_sequence_of_paragraphs_renders_no_sub_list() {
    assert_eq!(render_notes(&Some(vec![])), None);
    assert_eq!(render_line_item(&bill("x", 1, Some(vec![]))).notes, None);
    assert_eq!(render_line_item(&bill("x", 1, Some(vec![]))), render_line_item(&bill("x", 1, None)));
}

#[test]
fn paragraphs_that_are_all_empty_render_a_sub_list_without_entries() {
    assert_eq!(render_notes(&Some(vec![String::new(), String::new()])), Some(vec![]));
}

#[test]
fn whitespace_is_not_empty() {
    assert_eq!(render_notes(&Some(vec![String::from(" ")])), Some(vec![String::from(" ")]));
}

#[test]
fn rendering_leaves_the_record_as_it_was() {
    let invoice = invoice_with(vec![bill("Consulting", 1500, Some(vec!["", "note", ""]))]);
    let before = invoice.clone();
    let _ = render(&invoice);
    assert_eq!(invoice, before);
    assert_eq!(
        invoice.bills[0].extra_paragraphs,
        Some(vec![String::new(), String::from("note"), String::new()])
    );
}

#[test]
fn layout_of_the_fixed_texts_and_the_contact_block() {
    let document = render(&invoice_with(vec![]));
    assert_eq!(document.title, "INVOICE");
    assert_eq!(document.company_name, "Acme & Sons");
    assert_eq!(
        document.contact_lines,
        vec![
            "Ada Lovelace",
            "12 Engine Street",
            "London, LDN N1 9GU",
            "555-0100",
            "ada@acme.example"
        ]
    );
    assert_eq!(
        document.bill_to,
        Labelled { label: String::from("BILL TO"), text: String::from("Charles <Babbage>") }
    );
    assert_eq!(
        document.invoice_number,
        Labelled { label: String::from("INVOICE #"), text: String::from("42") }
    );
    assert_eq!(
        document.invoice_date,
        Labelled { label: String::from("INVOICE DATE"), text: String::from("2024-05-01") }
    );
    assert_eq!(document.description_heading, "DESCRIPTION");
    assert_eq!(document.amount_heading, "AMOUNT");
}

#[test]
fn empty_texts_render_as_empty_texts() {
    let invoice = Invoice {
        company_name: String::new(),
        contact_name: String::new(),
        address: String::new(),
        city: String::new(),
        state: String::new(),
        zip: String::new(),
        phone: String::new(),
        email: String::new(),
        bill_to: String::new(),
        invoice_number: String::new(),
        invoice_date: String::new(),
        bills: vec![bill("", 0, None)],
    };
    let document = render(&invoice);
    assert_eq!(document.company_name, "");
    assert_eq!(document.contact_lines, vec!["", "", ",  ", "", ""]);
    assert_eq!(document.items.len(), 1);
    assert_eq!(document.items[0].description, "");
    assert_eq!(document.items[0].amount, "$0");
    assert_eq!(document.total, "TOTAL $0");
}
