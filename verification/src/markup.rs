//! The markup of a laid-out invoice: one self-contained HTML document, with
//! its style sheet embedded and no reference to anything outside it.
//!
//! Every text of the layout is escaped before it is written, so no text can
//! be read as markup.

use vstd::prelude::*;
use vstd::string::StringExecFns;
use crate::invoice::{optional_texts, texts};
use crate::layout::{
    line_item_views, LabelledView, Labelled, LayoutDocument, LayoutView, LineItem, LineItemView,
};

verus! {

/// The fixed visual theme of the page.
pub const STYLE_SHEET: &'static str = "
* {
    font-family: Helvetica;
}

body {
    padding: 50px;
}

.title {
    color: rgb(50, 50, 200);
    font-size: 70px;
    margin-top: 10px;
}

.contact p {
    margin: 2px;
}

.bill-info {
    display: flex;
    justify-content: space-between;
}

.invoice-data {
    display: flex;
    justify-content: space-between;
}

.invoice-data h2 {
    margin-right: 10px;
}

.invoice-data-entry {
    justify-content: center;
    line-height: 35px;
}

.bills-header {
    display: flex;
    justify-content: space-between;
}

.bill {
    display: flex;
    justify-content: space-between;
    flex-direction: column;
}

.bill-header {
    display: flex;
    justify-content: space-between;
}

.extra-info {
    padding-top: 2px;
    margin-top: 6px;
    margin-left: 24px;
    font-size: 16px;
    color: rgb(100, 100, 100);
}
";

/// What one character of a text is written as: the four characters that
/// markup gives a meaning become entities, every other stays itself.
pub open spec fn escaped_char(c: char) -> Seq<char> {
    if c == '&' {
        "&amp;"@
    } else if c == '"' {
        "&quot;"@
    } else if c == '<' {
        "&lt;"@
    } else if c == '>' {
        "&gt;"@
    } else {
        seq![c]
    }
}

/// A text as it is written into markup: each character escaped, in order.
pub open spec fn escaped(text: Seq<char>) -> Seq<char>
    decreases text.len(),
{
    if text.len() == 0 {
        Seq::empty()
    } else {
        escaped(text.drop_last()) + escaped_char(text.last())
    }
}

/// The parts one after the other.
pub open spec fn joined(parts: Seq<Seq<char>>) -> Seq<char>
    decreases parts.len(),
{
    if parts.len() == 0 {
        Seq::empty()
    } else {
        joined(parts.drop_last()) + parts.last()
    }
}

/// The tag that opens an element without attributes.
pub open spec fn open_tag(tag: Seq<char>) -> Seq<char> {
    "<"@ + tag + ">"@
}

/// The tag that opens an element of a class.
pub open spec fn open_tag_with_class(tag: Seq<char>, class: Seq<char>) -> Seq<char> {
    "<"@ + tag + " class=\""@ + class + "\">"@
}

/// The tag that closes an element.
pub open spec fn close_tag(tag: Seq<char>) -> Seq<char> {
    "</"@ + tag + ">"@
}

/// An element without attributes around `content`.
pub open spec fn element(tag: Seq<char>, content: Seq<char>) -> Seq<char> {
    open_tag(tag) + content + close_tag(tag)
}

/// An element of a class around `content`.
pub open spec fn element_of_class(tag: Seq<char>, class: Seq<char>, content: Seq<char>) -> Seq<
    char,
> {
    open_tag_with_class(tag, class) + content + close_tag(tag)
}

/// An element that holds one text.
pub open spec fn text_element(tag: Seq<char>, text: Seq<char>) -> Seq<char> {
    element(tag, escaped(text))
}

/// One element for each text, in the order of the texts.
pub open spec fn text_elements(tag: Seq<char>, items: Seq<Seq<char>>) -> Seq<char> {
    joined(items.map_values(|text: Seq<char>| text_element(tag, text)))
}

/// The head of the document: the style sheet and nothing else.
pub open spec fn head_markup() -> Seq<char> {
    element("head"@, element("style"@, STYLE_SHEET@))
}

/// The title heading.
pub open spec fn title_markup(title: Seq<char>) -> Seq<char> {
    element_of_class("h1"@, "title"@, escaped(title))
}

/// The contact block: the company name as its heading, then its lines.
pub open spec fn contact_markup(company_name: Seq<char>, lines: Seq<Seq<char>>) -> Seq<char> {
    element_of_class(
        "div"@,
        "contact"@,
        text_element("h3"@, company_name) + text_elements("p"@, lines),
    )
}

/// The recipient under its heading.
pub open spec fn bill_to_markup(entry: LabelledView) -> Seq<char> {
    element_of_class(
        "div"@,
        "bill-to"@,
        text_element("h2"@, entry.label) + text_element("p"@, entry.text),
    )
}

/// One entry of the invoice data: its heading and, beside it, its text.
pub open spec fn invoice_data_markup(entry: LabelledView) -> Seq<char> {
    element_of_class(
        "div"@,
        "invoice-data"@,
        text_element("h2"@, entry.label) + element_of_class(
            "p"@,
            "invoice-data-entry"@,
            escaped(entry.text),
        ),
    )
}

/// The billing block: the recipient to the left, number and date stacked to
/// the right.
pub open spec fn billing_markup(document: LayoutView) -> Seq<char> {
    element_of_class(
        "div"@,
        "bill-info"@,
        bill_to_markup(document.bill_to) + element(
            "div"@,
            invoice_data_markup(document.invoice_number) + invoice_data_markup(
                document.invoice_date,
            ),
        ),
    )
}

/// The sub-list of an entry; nothing where the entry has none.
pub open spec fn notes_markup(notes: Option<Seq<Seq<char>>>) -> Seq<char> {
    match notes {
        Some(items) => element_of_class("ul"@, "extra-info"@, text_elements("li"@, items)),
        None => Seq::empty(),
    }
}

/// One line item: description and amount in a row, the sub-list beneath.
pub open spec fn line_item_markup(item: LineItemView) -> Seq<char> {
    element_of_class(
        "div"@,
        "bill"@,
        element_of_class(
            "div"@,
            "bill-header"@,
            text_element("p"@, item.description) + text_element("p"@, item.amount),
        ) + notes_markup(item.notes),
    )
}

/// The line-items section: the header row, then the entries in their order.
pub open spec fn line_items_markup(document: LayoutView) -> Seq<char> {
    element_of_class(
        "div"@,
        "bills"@,
        element_of_class(
            "div"@,
            "bills-header"@,
            text_element("h2"@, document.description_heading) + text_element(
                "h2"@,
                document.amount_heading,
            ),
        ) + joined(document.items.map_values(|item: LineItemView| line_item_markup(item))),
    )
}

/// The total block.
pub open spec fn total_markup(total: Seq<char>) -> Seq<char> {
    element_of_class("div"@, "total"@, text_element("h2"@, total))
}

/// The body of the document: title, contact block, billing block, line
/// items and total, in that order.
pub open spec fn body_markup(document: LayoutView) -> Seq<char> {
    element(
        "body"@,
        title_markup(document.title) + contact_markup(
            document.company_name,
            document.contact_lines,
        ) + billing_markup(document) + line_items_markup(document) + total_markup(document.total),
    )
}

/// The markup of a laid-out invoice: the doctype, then the document with
/// its head and its body.
pub open spec fn markup_of(document: LayoutView) -> Seq<char> {
    "<!DOCTYPE html>"@ + element("html"@, head_markup() + body_markup(document))
}

/// Parts joined after parts follow them in the text: joining keeps the
/// order of what it joins.
pub proof fn lemma_joined_concat(first: Seq<Seq<char>>, second: Seq<Seq<char>>)
    ensures
        joined(first + second) == joined(first) + joined(second),
    decreases second.len(),
{
    if second.len() == 0 {
        assert(first + second =~= first);
        assert(joined(first) + joined(second) =~= joined(first));
    } else {
        lemma_joined_concat(first, second.drop_last());
        assert((first + second).drop_last() =~= first + second.drop_last());
        assert(joined(first + second) =~= joined(first) + joined(second));
    }
}

/// The markup of line items is the markup of each, in the order of the
/// items: what is marked up after other entries stands after them.
pub proof fn lemma_line_items_in_order(first: Seq<LineItemView>, second: Seq<LineItemView>)
    ensures
        joined((first + second).map_values(|item: LineItemView| line_item_markup(item)))
            == joined(first.map_values(|item: LineItemView| line_item_markup(item))) + joined(
            second.map_values(|item: LineItemView| line_item_markup(item)),
        ),
{
    let wrap = |item: LineItemView| line_item_markup(item);
    assert((first + second).map_values(wrap) =~= first.map_values(wrap) + second.map_values(wrap));
    lemma_joined_concat(first.map_values(wrap), second.map_values(wrap));
}

/// No escaped text holds a character that opens or closes a tag or ends an
/// attribute: a text of the layout is never read as markup.
pub proof fn lemma_escaped_is_inert(text: Seq<char>)
    ensures
        forall|i: int|
            0 <= i < escaped(text).len() ==> {
                &&& #[trigger] escaped(text)[i] != '<'
                &&& escaped(text)[i] != '>'
                &&& escaped(text)[i] != '"'
            },
    decreases text.len(),
{
    if text.len() > 0 {
        lemma_escaped_is_inert(text.drop_last());
        reveal_strlit("&amp;");
        reveal_strlit("&quot;");
        reveal_strlit("&lt;");
        reveal_strlit("&gt;");
        let head = escaped(text.drop_last());
        let tail = escaped_char(text.last());
        assert forall|i: int| 0 <= i < escaped(text).len() implies {
            &&& #[trigger] escaped(text)[i] != '<'
            &&& escaped(text)[i] != '>'
            &&& escaped(text)[i] != '"'
        } by {
            if i < head.len() {
                assert(escaped(text)[i] == head[i]);
            } else {
                assert(escaped(text)[i] == tail[i - head.len()]);
            }
        }
    }
}

/// Appends `text` to `out`, escaped. The call is
/// `horrorshow::Template::write_to_string` on a string slice, which walks the
/// bytes of the slice and pushes `&amp;`, `&quot;`, `&lt;` or `&gt;` for
/// `&`, `"`, `<` and `>`, and each other byte as it is. It reports only what
/// a template records or a failing writer returns; a string slice records
/// nothing and a `String` takes every write, so there is no error to hand on.
#[verifier::external_body]
fn push_escaped(out: &mut String, text: &str)
    ensures
        final(out)@ == old(out)@ + escaped(text@),
{
    let _ = horrorshow::Template::write_to_string(text, out);
}

/// The declaration that opens an HTML5 document, as
/// `horrorshow::helper::doctype::HTML` holds it.
#[verifier::external_body]
fn doctype() -> (declaration: &'static str)
    ensures
        declaration@ == "<!DOCTYPE html>"@,
{
    horrorshow::helper::doctype::HTML.0
}

/// A text as it is written into markup.
pub fn escape(text: &str) -> (out: String)
    ensures
        out@ == escaped(text@),
{
    let mut out = String::new();
    push_escaped(&mut out, text);
    assert(out@ =~= escaped(text@));
    out
}

/// Concatenation does not depend on how its parts are grouped.
proof fn lemma_concat_assoc(a: Seq<char>, b: Seq<char>, c: Seq<char>)
    ensures
        (a + b) + c == a + (b + c),
{
    assert((a + b) + c =~= a + (b + c));
}

/// Appends the tag that opens an element.
fn push_open(out: &mut String, tag: &str)
    ensures
        final(out)@ == old(out)@ + open_tag(tag@),
{
    out.append("<");
    out.append(tag);
    out.append(">");
    assert(out@ =~= old(out)@ + open_tag(tag@));
}

/// Appends the tag that opens an element of a class.
fn push_open_with_class(out: &mut String, tag: &str, class: &str)
    ensures
        final(out)@ == old(out)@ + open_tag_with_class(tag@, class@),
{
    out.append("<");
    out.append(tag);
    out.append(" class=\"");
    out.append(class);
    out.append("\">");
    assert(out@ =~= old(out)@ + open_tag_with_class(tag@, class@));
}

/// Appends the tag that closes an element.
fn push_close(out: &mut String, tag: &str)
    ensures
        final(out)@ == old(out)@ + close_tag(tag@),
{
    out.append("</");
    out.append(tag);
    out.append(">");
    assert(out@ =~= old(out)@ + close_tag(tag@));
}

/// Appends an element that holds `text`, escaped.
fn push_text_element(out: &mut String, tag: &str, text: &str)
    ensures
        final(out)@ == old(out)@ + text_element(tag@, text@),
{
    push_open(out, tag);
    push_escaped(out, text);
    push_close(out, tag);
    assert(out@ =~= old(out)@ + text_element(tag@, text@));
}

/// Appends one element for each of `items`, in their order.
fn push_text_elements(out: &mut String, tag: &str, items: &Vec<String>)
    ensures
        final(out)@ == old(out)@ + text_elements(tag@, texts(items@)),
{
    let ghost wrap = |text: Seq<char>| text_element(tag@, text);
    let mut i: usize = 0;
    assert(out@ =~= old(out)@ + joined(texts(items@).take(0).map_values(wrap)));
    while i < items.len()
        invariant
            i <= items.len(),
            wrap == |text: Seq<char>| text_element(tag@, text),
            out@ == old(out)@ + joined(texts(items@).take(i as int).map_values(wrap)),
        decreases items.len() - i,
    {
        push_text_element(out, tag, items[i].as_str());
        proof {
            let done = texts(items@).take(i as int).map_values(wrap);
            let next = texts(items@).take(i + 1).map_values(wrap);
            assert(next.drop_last() =~= done);
            assert(next.last() == text_element(tag@, items@[i as int]@));
            assert(out@ =~= old(out)@ + joined(next));
        }
        i = i + 1;
    }
    assert(texts(items@).take(i as int) =~= texts(items@));
}

/// Appends the head of the document.
fn push_head(out: &mut String)
    ensures
        final(out)@ == old(out)@ + head_markup(),
{
    push_open(out, "head");
    push_open(out, "style");
    out.append(STYLE_SHEET);
    push_close(out, "style");
    push_close(out, "head");
    assert(out@ =~= old(out)@ + head_markup());
}

/// Appends the title heading.
fn push_title(out: &mut String, title: &str)
    ensures
        final(out)@ == old(out)@ + title_markup(title@),
{
    push_open_with_class(out, "h1", "title");
    push_escaped(out, title);
    push_close(out, "h1");
    assert(out@ =~= old(out)@ + title_markup(title@));
}

/// Appends the contact block.
fn push_contact(out: &mut String, company_name: &str, lines: &Vec<String>)
    ensures
        final(out)@ == old(out)@ + contact_markup(company_name@, texts(lines@)),
{
    push_open_with_class(out, "div", "contact");
    push_text_element(out, "h3", company_name);
    push_text_elements(out, "p", lines);
    push_close(out, "div");
    assert(out@ =~= old(out)@ + contact_markup(company_name@, texts(lines@)));
}

/// Appends the recipient under its heading.
fn push_bill_to(out: &mut String, entry: &Labelled)
    ensures
        final(out)@ == old(out)@ + bill_to_markup(entry@),
{
    push_open_with_class(out, "div", "bill-to");
    push_text_element(out, "h2", entry.label.as_str());
    push_text_element(out, "p", entry.text.as_str());
    push_close(out, "div");
    assert(out@ =~= old(out)@ + bill_to_markup(entry@));
}

/// Appends one entry of the invoice data.
fn push_invoice_data(out: &mut String, entry: &Labelled)
    ensures
        final(out)@ == old(out)@ + invoice_data_markup(entry@),
{
    push_open_with_class(out, "div", "invoice-data");
    push_text_element(out, "h2", entry.label.as_str());
    push_open_with_class(out, "p", "invoice-data-entry");
    push_escaped(out, entry.text.as_str());
    push_close(out, "p");
    push_close(out, "div");
    assert(out@ =~= old(out)@ + invoice_data_markup(entry@));
}

/// Appends the billing block.
fn push_billing(out: &mut String, document: &LayoutDocument)
    ensures
        final(out)@ == old(out)@ + billing_markup(document@),
{
    push_open_with_class(out, "div", "bill-info");
    push_bill_to(out, &document.bill_to);
    let ghost left = out@;
    push_open(out, "div");
    push_invoice_data(out, &document.invoice_number);
    push_invoice_data(out, &document.invoice_date);
    push_close(out, "div");
    assert(out@ =~= left + element(
        "div"@,
        invoice_data_markup(document@.invoice_number) + invoice_data_markup(
            document@.invoice_date,
        ),
    ));
    push_close(out, "div");
    assert(out@ =~= old(out)@ + billing_markup(document@));
}

/// Appends the sub-list of an entry, if it has one.
fn push_notes(out: &mut String, notes: &Option<Vec<String>>)
    ensures
        final(out)@ == old(out)@ + notes_markup(optional_texts(*notes)),
{
    match notes {
        Some(items) => {
            push_open_with_class(out, "ul", "extra-info");
            push_text_elements(out, "li", items);
            push_close(out, "ul");
            assert(out@ =~= old(out)@ + notes_markup(Some(texts(items@))));
        },
        None => {
            assert(out@ =~= old(out)@ + Seq::<char>::empty());
        },
    }
}

/// Appends one line item.
fn push_line_item(out: &mut String, item: &LineItem)
    ensures
        final(out)@ == old(out)@ + line_item_markup(item@),
{
    push_open_with_class(out, "div", "bill");
    push_open_with_class(out, "div", "bill-header");
    push_text_element(out, "p", item.description.as_str());
    push_text_element(out, "p", item.amount.as_str());
    push_close(out, "div");
    push_notes(out, &item.notes);
    push_close(out, "div");
    assert(out@ =~= old(out)@ + line_item_markup(item@));
}

/// Appends the line-items section.
fn push_line_items(out: &mut String, document: &LayoutDocument)
    ensures
        final(out)@ == old(out)@ + line_items_markup(document@),
{
    push_open_with_class(out, "div", "bills");
    push_open_with_class(out, "div", "bills-header");
    push_text_element(out, "h2", document.description_heading.as_str());
    push_text_element(out, "h2", document.amount_heading.as_str());
    push_close(out, "div");
    let ghost start = out@;
    let ghost wrap = |item: LineItemView| line_item_markup(item);
    let ghost items = document@.items;
    let mut i: usize = 0;
    assert(out@ =~= start + joined(items.take(0).map_values(wrap)));
    while i < document.items.len()
        invariant
            i <= document.items.len(),
            items == line_item_views(document.items@),
            wrap == |item: LineItemView| line_item_markup(item),
            out@ == start + joined(items.take(i as int).map_values(wrap)),
        decreases document.items.len() - i,
    {
        push_line_item(out, &document.items[i]);
        proof {
            let done = items.take(i as int).map_values(wrap);
            let next = items.take(i + 1).map_values(wrap);
            assert(next.drop_last() =~= done);
            assert(next.last() == line_item_markup(document.items@[i as int]@));
            assert(out@ =~= start + joined(next));
        }
        i = i + 1;
    }
    assert(items.take(i as int) =~= items);
    push_close(out, "div");
    assert(out@ =~= old(out)@ + line_items_markup(document@));
}

/// Appends the total block.
fn push_total(out: &mut String, total: &str)
    ensures
        final(out)@ == old(out)@ + total_markup(total@),
{
    push_open_with_class(out, "div", "total");
    push_text_element(out, "h2", total);
    push_close(out, "div");
    assert(out@ =~= old(out)@ + total_markup(total@));
}

/// Appends the body of the document.
fn push_body(out: &mut String, document: &LayoutDocument)
    ensures
        final(out)@ == old(out)@ + body_markup(document@),
{
    let ghost title = title_markup(document@.title);
    let ghost contact = contact_markup(document@.company_name, document@.contact_lines);
    let ghost billing = billing_markup(document@);
    let ghost items = line_items_markup(document@);
    let ghost total = total_markup(document@.total);
    push_open(out, "body");
    let ghost opened = out@;
    push_title(out, document.title.as_str());
    push_contact(out, document.company_name.as_str(), &document.contact_lines);
    push_billing(out, document);
    push_line_items(out, document);
    push_total(out, document.total.as_str());
    push_close(out, "body");
    proof {
        lemma_concat_assoc(opened, title, contact);
        lemma_concat_assoc(opened, title + contact, billing);
        lemma_concat_assoc(opened, title + contact + billing, items);
        lemma_concat_assoc(opened, title + contact + billing + items, total);
        let content = title + contact + billing + items + total;
        lemma_concat_assoc(old(out)@, open_tag("body"@), content);
        lemma_concat_assoc(old(out)@, open_tag("body"@) + content, close_tag("body"@));
    }
}

/// Serialises a laid-out invoice as one self-contained HTML document.
pub fn to_markup(document: &LayoutDocument) -> (markup: String)
    ensures
        markup@ == markup_of(document@),
{
    let mut markup = String::from_str(doctype());
    push_open(&mut markup, "html");
    push_head(&mut markup);
    push_body(&mut markup, document);
    push_close(&mut markup, "html");
    proof {
        let declaration = "<!DOCTYPE html>"@;
        let opened = declaration + open_tag("html"@);
        let content = head_markup() + body_markup(document@);
        lemma_concat_assoc(opened, head_markup(), body_markup(document@));
        lemma_concat_assoc(declaration, open_tag("html"@), content);
        lemma_concat_assoc(declaration, open_tag("html"@) + content, close_tag("html"@));
    }
    markup
}

} // verus!
