//! The layout renderer: from a billing record to the document that is
//! printed. The layout fixes every text of the page and the order of its
//! parts; how the page is marked up is decided elsewhere.

use vstd::prelude::*;
use vstd::string::StringExecFns;
use crate::decimal::{
    decimal, digits, is_digit, lemma_decimal_between, lemma_digits_shape, push_decimal,
};
use crate::invoice::{sum_of_amounts, texts, optional_texts, Bill, BillView, Invoice, InvoiceView};

verus! {

/// A text under a heading.
#[derive(Clone, Debug, PartialEq, Eq)]
pub struct Labelled {
    pub label: String,
    pub text: String,
}

/// One entry of the line-items section.
#[derive(Clone, Debug, PartialEq, Eq)]
pub struct LineItem {
    pub description: String,
    /// The amount as it is printed.
    pub amount: String,
    /// The sub-list beneath the entry; `None` where the entry has none.
    pub notes: Option<Vec<String>>,
}

/// The laid-out invoice, its parts in the order in which they are printed.
#[derive(Clone, Debug, PartialEq, Eq)]
pub struct LayoutDocument {
    pub title: String,
    /// The heading of the contact block.
    pub company_name: String,
    /// The lines of the contact block beneath its heading.
    pub contact_lines: Vec<String>,
    /// The left column of the billing block.
    pub bill_to: Labelled,
    /// The right column of the billing block, upper entry.
    pub invoice_number: Labelled,
    /// The right column of the billing block, lower entry.
    pub invoice_date: Labelled,
    /// The column labels of the line-items section.
    pub description_heading: String,
    pub amount_heading: String,
    pub items: Vec<LineItem>,
    pub total: String,
}

/// A `Labelled` as a mathematical value.
pub struct LabelledView {
    pub label: Seq<char>,
    pub text: Seq<char>,
}

/// A `LineItem` as a mathematical value.
pub struct LineItemView {
    pub description: Seq<char>,
    pub amount: Seq<char>,
    pub notes: Option<Seq<Seq<char>>>,
}

/// A `LayoutDocument` as a mathematical value.
pub struct LayoutView {
    pub title: Seq<char>,
    pub company_name: Seq<char>,
    pub contact_lines: Seq<Seq<char>>,
    pub bill_to: LabelledView,
    pub invoice_number: LabelledView,
    pub invoice_date: LabelledView,
    pub description_heading: Seq<char>,
    pub amount_heading: Seq<char>,
    pub items: Seq<LineItemView>,
    pub total: Seq<char>,
}

impl View for Labelled {
    type V = LabelledView;

    open spec fn view(&self) -> LabelledView {
        LabelledView { label: self.label@, text: self.text@ }
    }
}

impl View for LineItem {
    type V = LineItemView;

    open spec fn view(&self) -> LineItemView {
        LineItemView {
            description: self.description@,
            amount: self.amount@,
            notes: optional_texts(self.notes),
        }
    }
}

/// The values that a sequence of line items holds.
pub open spec fn line_item_views(items: Seq<LineItem>) -> Seq<LineItemView> {
    items.map_values(|item: LineItem| item@)
}

impl View for LayoutDocument {
    type V = LayoutView;

    open spec fn view(&self) -> LayoutView {
        LayoutView {
            title: self.title@,
            company_name: self.company_name@,
            contact_lines: texts(self.contact_lines@),
            bill_to: self.bill_to@,
            invoice_number: self.invoice_number@,
            invoice_date: self.invoice_date@,
            description_heading: self.description_heading@,
            amount_heading: self.amount_heading@,
            items: line_item_views(self.items@),
            total: self.total@,
        }
    }
}

/// An amount as it is printed: the currency sign, then the plain integer.
pub open spec fn amount_text(amount: int) -> Seq<char> {
    "$"@ + decimal(amount)
}

/// The text of the total block.
pub open spec fn total_text(total: int) -> Seq<char> {
    "TOTAL $"@ + decimal(total)
}

/// The line of the contact block that places the sender.
pub open spec fn locality_text(city: Seq<char>, state: Seq<char>, zip: Seq<char>) -> Seq<char> {
    city + ", "@ + state + " "@ + zip
}

/// Whether a paragraph is shown: the empty ones are not.
pub open spec fn is_shown(paragraph: Seq<char>) -> bool {
    paragraph.len() > 0
}

/// The paragraphs that are shown, in their order.
pub open spec fn shown_paragraphs(paragraphs: Seq<Seq<char>>) -> Seq<Seq<char>> {
    paragraphs.filter(|p: Seq<char>| is_shown(p))
}

/// The sub-list of a line item. There is one where the bill has a sequence
/// of paragraphs that is not empty, and it holds those that are shown.
pub open spec fn notes_of(extra_paragraphs: Option<Seq<Seq<char>>>) -> Option<Seq<Seq<char>>> {
    match extra_paragraphs {
        Some(paragraphs) => if paragraphs.len() > 0 {
            Some(shown_paragraphs(paragraphs))
        } else {
            None
        },
        None => None,
    }
}

/// The entry that a bill is laid out as.
pub open spec fn line_item_of(bill: BillView) -> LineItemView {
    LineItemView {
        description: bill.description,
        amount: amount_text(bill.amount),
        notes: notes_of(bill.extra_paragraphs),
    }
}

/// The entries of the line-items section: one for each bill, in the order of
/// the bills.
pub open spec fn line_items_of(bills: Seq<BillView>) -> Seq<LineItemView> {
    bills.map_values(|bill: BillView| line_item_of(bill))
}

/// The lines of the contact block beneath the company name.
pub open spec fn contact_lines_of(invoice: InvoiceView) -> Seq<Seq<char>> {
    seq![
        invoice.contact_name,
        invoice.address,
        locality_text(invoice.city, invoice.state, invoice.zip),
        invoice.phone,
        invoice.email,
    ]
}

/// The document that an invoice is laid out as.
pub open spec fn layout_of(invoice: InvoiceView) -> LayoutView {
    LayoutView {
        title: "INVOICE"@,
        company_name: invoice.company_name,
        contact_lines: contact_lines_of(invoice),
        bill_to: LabelledView { label: "BILL TO"@, text: invoice.bill_to },
        invoice_number: LabelledView { label: "INVOICE #"@, text: invoice.invoice_number },
        invoice_date: LabelledView { label: "INVOICE DATE"@, text: invoice.invoice_date },
        description_heading: "DESCRIPTION"@,
        amount_heading: "AMOUNT"@,
        items: line_items_of(invoice.bills),
        total: total_text(sum_of_amounts(invoice.bills)),
    }
}

/// Of no paragraphs none is shown.
pub proof fn lemma_shown_none()
    ensures
        shown_paragraphs(Seq::empty()) == Seq::<Seq<char>>::empty(),
{
    reveal(Seq::filter);
}

/// A paragraph that follows others is shown after those of them that are
/// shown, if it is not empty, and not at all if it is.
pub proof fn lemma_shown_push(paragraphs: Seq<Seq<char>>, paragraph: Seq<char>)
    ensures
        shown_paragraphs(paragraphs.push(paragraph)) == if is_shown(paragraph) {
            shown_paragraphs(paragraphs).push(paragraph)
        } else {
            shown_paragraphs(paragraphs)
        },
{
    paragraphs.lemma_filter_push(paragraph, |p: Seq<char>| is_shown(p));
}

/// The sub-list holds no empty entry, holds nothing that the bill does not
/// have, and leaves out no paragraph of the bill that is not empty.
pub proof fn lemma_shown_paragraphs(paragraphs: Seq<Seq<char>>)
    ensures
        shown_paragraphs(paragraphs).len() <= paragraphs.len(),
        forall|i: int|
            0 <= i < shown_paragraphs(paragraphs).len() ==> {
                &&& is_shown(#[trigger] shown_paragraphs(paragraphs)[i])
                &&& paragraphs.contains(shown_paragraphs(paragraphs)[i])
            },
        forall|i: int|
            0 <= i < paragraphs.len() && is_shown(#[trigger] paragraphs[i])
                ==> shown_paragraphs(paragraphs).contains(paragraphs[i]),
{
    let keep = |p: Seq<char>| is_shown(p);
    let shown = paragraphs.filter(keep);
    paragraphs.lemma_filter_len(keep);
    assert forall|i: int| 0 <= i < shown.len() implies is_shown(#[trigger] shown[i])
        && paragraphs.contains(shown[i]) by {
        paragraphs.lemma_filter_pred(keep, i);
        assert(shown.contains(shown[i]));
        paragraphs.lemma_filter_contains_rev(keep, shown[i]);
    }
    assert forall|i: int| 0 <= i < paragraphs.len() && is_shown(
        #[trigger] paragraphs[i],
    ) implies shown.contains(paragraphs[i]) by {
        paragraphs.lemma_filter_contains(keep, i);
    }
}

/// An entry has a sub-list exactly where its bill has a sequence of
/// paragraphs that is not empty. A bill without paragraphs and a bill with
/// an empty sequence of them are laid out alike, with no sub-list.
pub proof fn lemma_sub_list_presence(bill: BillView)
    ensures
        line_item_of(bill).notes is Some <==> (bill.extra_paragraphs matches Some(paragraphs)
            && paragraphs.len() > 0),
        line_item_of(BillView { extra_paragraphs: None, ..bill }) == line_item_of(
            BillView { extra_paragraphs: Some(Seq::empty()), ..bill },
        ),
{
}

/// The entries are as many as the bills, and each stands where its bill
/// stands: nothing is reordered.
pub proof fn lemma_items_follow_bills(invoice: InvoiceView)
    ensures
        layout_of(invoice).items.len() == invoice.bills.len(),
        forall|i: int|
            0 <= i < invoice.bills.len() ==> #[trigger] layout_of(invoice).items[i]
                == line_item_of(invoice.bills[i]),
{
}

/// The total block of an invoice without bills reads 0.
pub proof fn lemma_total_without_bills(invoice: InvoiceView)
    requires
        invoice.bills.len() == 0,
    ensures
        layout_of(invoice).total == "TOTAL $0"@,
{
    reveal_strlit("TOTAL $");
    reveal_strlit("TOTAL $0");
    assert("TOTAL $"@ + decimal(0) =~= "TOTAL $0"@);
}

/// The total block shows the sum of the amounts and no other number: it
/// reads as the text of a total exactly when that total is the sum.
pub proof fn lemma_total_is_the_sum(invoice: InvoiceView, total: int)
    ensures
        layout_of(invoice).total == total_text(total) <==> total == sum_of_amounts(invoice.bills),
{
    if layout_of(invoice).total == total_text(total) {
        let sum = sum_of_amounts(invoice.bills);
        assert("TOTAL $"@ + decimal(sum) + Seq::<char>::empty() =~= total_text(sum));
        assert("TOTAL $"@ + decimal(total) + Seq::<char>::empty() =~= total_text(total));
        lemma_decimal_between("TOTAL $"@, sum, total, Seq::empty());
    }
}

/// An amount is printed as the currency sign and, right after it, the plain
/// integer: a minus sign where the amount is negative, then digits and
/// nothing else, so neither a separator nor a decimal point.
pub proof fn lemma_amount_text_shape(amount: int)
    ensures
        amount_text(amount).len() >= 2,
        amount_text(amount)[0] == '$',
        amount_text(amount)[1] == '-' <==> amount < 0,
        forall|i: int|
            1 <= i < amount_text(amount).len() && (amount < 0 ==> 2 <= i) ==> is_digit(
                #[trigger] amount_text(amount)[i],
            ),
{
    reveal_strlit("$");
    let magnitude = (if amount < 0 {
        -amount
    } else {
        amount
    }) as nat;
    lemma_digits_shape(magnitude);
    assert(is_digit(digits(magnitude)[0]));
    let text = amount_text(amount);
    assert(text[1] == decimal(amount)[0]);
    assert forall|i: int| 1 <= i < text.len() && (amount < 0 ==> 2 <= i) implies is_digit(
        #[trigger] text[i],
    ) by {
        if amount < 0 {
            assert(text[i] == digits(magnitude)[i - 2]);
        } else {
            assert(text[i] == digits(magnitude)[i - 1]);
        }
    }
}

/// Amounts that are printed alike are the same amount: the text depends on
/// the integer and on nothing else, and tells it apart from every other.
pub proof fn lemma_amount_text_determines_amount(first: int, second: int)
    ensures
        amount_text(first) == amount_text(second) <==> first == second,
{
    if amount_text(first) == amount_text(second) {
        assert("$"@ + decimal(first) + Seq::<char>::empty() =~= amount_text(first));
        assert("$"@ + decimal(second) + Seq::<char>::empty() =~= amount_text(second));
        lemma_decimal_between("$"@, first, second, Seq::empty());
    }
}

/// The printed form of an amount.
pub fn format_amount(amount: i32) -> (text: String)
    ensures
        text@ == amount_text(amount as int),
{
    let mut text = String::from_str("$");
    push_decimal(&mut text, amount as i128);
    text
}

/// The text of the total block for a total.
pub fn format_total(total: i128) -> (text: String)
    ensures
        text@ == total_text(total as int),
{
    let mut text = String::from_str("TOTAL $");
    push_decimal(&mut text, total);
    text
}

/// The sub-list of a line item for the paragraphs of its bill.
pub fn render_notes(extra_paragraphs: &Option<Vec<String>>) -> (notes: Option<Vec<String>>)
    ensures
        optional_texts(notes) == notes_of(optional_texts(*extra_paragraphs)),
{
    match extra_paragraphs {
        None => None,
        Some(paragraphs) => {
            if paragraphs.len() == 0 {
                return None;
            }
            let mut shown: Vec<String> = Vec::new();
            let mut i: usize = 0;
            proof {
                lemma_shown_none();
                assert(texts(paragraphs@).take(0) =~= Seq::<Seq<char>>::empty());
                assert(texts(shown@) =~= Seq::<Seq<char>>::empty());
            }
            while i < paragraphs.len()
                invariant
                    i <= paragraphs.len(),
                    texts(shown@) == shown_paragraphs(texts(paragraphs@).take(i as int)),
                decreases paragraphs.len() - i,
            {
                let ghost before = shown@;
                let paragraph = &paragraphs[i];
                if !paragraph.as_str().is_empty() {
                    shown.push(paragraph.clone());
                    assert(texts(shown@) =~= texts(before).push(paragraph@));
                }
                proof {
                    let done = texts(paragraphs@).take(i as int);
                    let next = texts(paragraphs@).take(i + 1);
                    assert(next =~= done.push(paragraph@));
                    lemma_shown_push(done, paragraph@);
                }
                i = i + 1;
            }
            assert(texts(paragraphs@).take(i as int) =~= texts(paragraphs@));
            Some(shown)
        },
    }
}

/// Lays out one bill.
pub fn render_line_item(bill: &Bill) -> (item: LineItem)
    ensures
        item@ == line_item_of(bill@),
{
    LineItem {
        description: bill.description.clone(),
        amount: format_amount(bill.amount),
        notes: render_notes(&bill.extra_paragraphs),
    }
}

/// Lays out an invoice. Rendering is total: every record has a layout, also
/// one without bills and one whose texts are empty, and the record is left
/// as it was.
pub fn render(invoice: &Invoice) -> (document: LayoutDocument)
    ensures
        document@ == layout_of(invoice@),
{
    let mut locality = invoice.city.clone();
    locality.append(", ");
    locality.append(invoice.state.as_str());
    locality.append(" ");
    locality.append(invoice.zip.as_str());

    let mut contact_lines: Vec<String> = Vec::new();
    contact_lines.push(invoice.contact_name.clone());
    contact_lines.push(invoice.address.clone());
    contact_lines.push(locality);
    contact_lines.push(invoice.phone.clone());
    contact_lines.push(invoice.email.clone());
    assert(texts(contact_lines@) =~= contact_lines_of(invoice@));

    let mut items: Vec<LineItem> = Vec::new();
    let mut i: usize = 0;
    while i < invoice.bills.len()
        invariant
            i <= invoice.bills.len(),
            line_item_views(items@) == line_items_of(invoice@.bills.take(i as int)),
        decreases invoice.bills.len() - i,
    {
        let ghost before = items@;
        let item = render_line_item(&invoice.bills[i]);
        items.push(item);
        proof {
            let done = invoice@.bills.take(i as int);
            let next = invoice@.bills.take(i + 1);
            assert(next =~= done.push(invoice.bills@[i as int]@));
            assert(line_item_views(items@) =~= line_item_views(before).push(item@));
            assert(line_items_of(next) =~= line_items_of(done).push(line_item_of(next.last())));
        }
        i = i + 1;
    }
    assert(invoice@.bills.take(i as int) =~= invoice@.bills);

    LayoutDocument {
        title: String::from_str("INVOICE"),
        company_name: invoice.company_name.clone(),
        contact_lines,
        bill_to: Labelled { label: String::from_str("BILL TO"), text: invoice.bill_to.clone() },
        invoice_number: Labelled {
            label: String::from_str("INVOICE #"),
            text: invoice.invoice_number.clone(),
        },
        invoice_date: Labelled {
            label: String::from_str("INVOICE DATE"),
            text: invoice.invoice_date.clone(),
        },
        description_heading: String::from_str("DESCRIPTION"),
        amount_heading: String::from_str("AMOUNT"),
        items,
        total: format_total(invoice.total()),
    }
}

} // verus!
