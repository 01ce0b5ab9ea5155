use invoice_maker::invoice::{Bill, Invoice};
use invoice_maker::layout::render;
use invoice_maker::markup::{escape, to_markup, STYLE_SHEET};

fn sample(bills: Vec<Bill>) -> Invoice {
    Invoice {
        company_name: String::from("Acme & Sons"),
        contact_name: String::from("Ada Lovelace"),
        address: String::from("12 Engine Street"),
        city: String::from("London"),
        state: String::from("LDN"),
        zip: String::from("N1 9GU"),
        phone: String::from("555-0100"),
        email: String::from("ada@acme.example"),
        bill_to: String::from("Charles <Babbage>"),
        invoice_number: String::from("42"),
        invoice_date: String::from("2024-05-01"),
        bills,
    }
}

const BEFORE_THE_ITEMS: &str = "<body><h1 class=\"title\">INVOICE</h1>\
    <div class=\"contact\"><h3>Acme &amp; Sons</h3><p>Ada Lovelace</p><p>12 Engine Street</p>\
    <p>London, LDN N1 9GU</p><p>555-0100</p><p>ada@acme.example</p></div>\
    <div class=\"bill-info\"><div class=\"bill-to\"><h2>BILL TO</h2>\
    <p>Charles &lt;Babbage&gt;</p></div><div><div class=\"invoice-data\"><h2>INVOICE #</h2>\
    <p class=\"invoice-data-entry\">42</p></div><div class=\"invoice-data\">\
    <h2>INVOICE DATE</h2><p class=\"invoice-data-entry\">2024-05-01</p></div></div></div>\
    <div class=\"bills\"><div class=\"bills-header\"><h2>DESCRIPTION</h2><h2>AMOUNT</h2></div>";

fn expected_markup(items: &str, total: &str) -> String {
    format!(
        "<!DOCTYPE html><html><head><style>{}</style></head>{}{}</div>\
         <div class=\"total\"><h2>{}</h2></div></body></html>",
        STYLE_SHEET, BEFORE_THE_ITEMS, items, total
    )
}

#[test]
fn escape_replaces_the_four_markup_characters() {
    assert_eq!(escape("a&b"), "a&amp;b");
    assert_eq!(escape("<p class=\"x\">"), "&lt;p class=&quot;x&quot;&gt;");
    assert_eq!(escape("&<>\""), "&amp;&lt;&gt;&quot;");
}

#[test]
fn escape_leaves_every_other_character() {
    assert_eq!(escape(""), "");
    assert_eq!(escape("plain 'text'"), "plain 'text'");
    assert_eq!(escape("é ü 日本語 €"), "é ü 日本語 €");
    assert_eq!(escape("$:;%#!?*(){}[]/\\=+-_.,`~^|@"), "$:;%#!?*(){}[]/\\=+-_.,`~^|@");
}

#[test]
fn escape_of_escaped_text_escapes_again() {
    assert_eq!(escape("&amp;"), "&amp;amp;");
}

#[test]
fn escaped_text_holds_no_markup_character() {
    let text = escape("<script>alert(\"x\") && 1 > 0</script>");
    assert!(!text.contains('<'));
    assert!(!text.contains('>'));
    assert!(!text.contains('"'));
}

#[test]
fn escape_agrees_with_the_formatting_writer_of_the_template_engine() {
    let samples = ["", "plain", "a&b", "<>", "\"quoted\"", "é<ü>&\"日本\"", "&amp;", "a\nb\t<c>"];
    for text in samples {
        let mut written = String::new();
        horrorshow::Template::write_to_fmt(text, &mut written).unwrap();
        assert_eq!(escape(text), written);
    }
}

#[test]
fn markup_of_an_invoice_without_bills() {
    let markup = to_markup(&render(&sample(vec![])));
    assert_eq!(markup, expected_markup("", "TOTAL $0"));
}

#[test]
fn markup_of_an_invoice_with_bills() {
    let bills = vec![
        Bill {
            description: String::from("Consulting"),
            amount: 1500,
            extra_paragraphs: Some(vec![String::new(), String::from("note"), String::new()]),
        },
        Bill {
            description: String::from("Discount <10%>"),
            amount: -100,
            extra_paragraphs: None,
        },
    ];
    let markup = to_markup(&render(&sample(bills)));
    let items = "<div class=\"bill\"><div class=\"bill-header\"><p>Consulting</p><p>$1500</p></div>\
                 <ul class=\"extra-info\"><li>note</li></ul></div>\
                 <div class=\"bill\"><div class=\"bill-header\"><p>Discount &lt;10%&gt;</p>\
                 <p>$-100</p></div></div>";
    assert_eq!(markup, expected_markup(items, "TOTAL $1400"));
}

#[test]
fn markup_begins_with_the_doctype() {
    let markup = to_markup(&render(&sample(vec![])));
    assert!(markup.starts_with("<!DOCTYPE html><html><head><style>"));
}

#[test]
fn markup_embeds_the_style_sheet_and_refers_to_nothing_outside() {
    let markup = to_markup(&render(&sample(vec![])));
    assert!(markup.contains(STYLE_SHEET));
    assert!(STYLE_SHEET.contains("font-family: Helvetica;"));
    assert!(STYLE_SHEET.contains(".extra-info"));
    assert!(!markup.contains("<link"));
    assert!(!markup.contains("<script"));
    assert!(!markup.contains("src="));
    assert!(!markup.contains("href="));
    assert!(!markup.contains("url("));
}

#[test]
fn markup_of_a_bill_with_a_note_has_one_list_entry() {
    let bills = vec![Bill {
        description: String::from("Consulting"),
        amount: 1500,
        extra_paragraphs: Some(vec![String::new(), String::from("note"), String::new()]),
    }];
    let markup = to_markup(&render(&sample(bills)));
    assert_eq!(markup.matches("<li>").count(), 1);
    assert!(markup.contains("<ul class=\"extra-info\"><li>note</li></ul>"));
}

#[test]
fn markup_without_paragraphs_has_no_sub_list() {
    let absent = vec![Bill {
        description: String::from("x"),
        amount: 1,
        extra_paragraphs: None,
    }];
    let empty = vec![Bill {
        description: String::from("x"),
        amount: 1,
        extra_paragraphs: Some(vec![]),
    }];
    let markup_absent = to_markup(&render(&sample(absent)));
    let markup_empty = to_markup(&render(&sample(empty)));
    assert!(!markup_absent.contains("<ul"));
    assert!(!markup_empty.contains("<ul"));
    assert_eq!(markup_absent, markup_empty);
}

#[test]
fn markup_keeps_the_order_of_the_bills() {
    let bills = vec![
        Bill { description: String::from("zebra"), amount: 3, extra_paragraphs: None },
        Bill { description: String::from("apple"), amount: 1, extra_paragraphs: None },
        Bill { description: String::from("mango"), amount: 2, extra_paragraphs: None },
    ];
    let markup = to_markup(&render(&sample(bills)));
    let zebra = markup.find("<p>zebra</p><p>$3</p>").unwrap();
    let apple = markup.find("<p>apple</p><p>$1</p>").unwrap();
    let mango = markup.find("<p>mango</p><p>$2</p>").unwrap();
    assert!(zebra < apple);
    assert!(apple < mango);
}

#[test]
fn text_of_the_record_is_never_read_as_markup() {
    let mut invoice = sample(vec![Bill {
        description: String::from("</div><b>bold</b>"),
        amount: 1,
        extra_paragraphs: Some(vec![String::from("<li>nested</li>")]),
    }]);
    invoice.company_name = String::from("\"><script>");
    let markup = to_markup(&render(&invoice));
    assert!(markup.contains("<h3>&quot;&gt;&lt;script&gt;</h3>"));
    assert!(markup.contains("<p>&lt;/div&gt;&lt;b&gt;bold&lt;/b&gt;</p>"));
    assert!(markup.contains("<li>&lt;li&gt;nested&lt;/li&gt;</li>"));
    assert!(!markup.contains("<script>"));
    assert!(!markup.contains("<b>"));
}
