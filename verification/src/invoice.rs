//! The billing record that a request submits, and the sum of its amounts.

use vstd::prelude::*;

verus! {

/// One line item of an invoice.
#[derive(Clone, Debug, PartialEq, Eq)]
pub struct Bill {
    pub description: String,
    /// A whole-unit currency amount; it may be negative.
    pub amount: i32,
    /// Notes shown beneath the item. Empty strings stay in the record and are
    /// left out only when the item is laid out.
    pub extra_paragraphs: Option<Vec<String>>,
}

/// The root billing record. Every text field is free text, shown as it is.
#[derive(Clone, Debug, PartialEq, Eq)]
pub struct Invoice {
    pub company_name: String,
    pub contact_name: String,
    pub address: String,
    pub city: String,
    pub state: String,
    pub zip: String,
    pub phone: String,
    pub email: String,
    pub bill_to: String,
    pub invoice_number: String,
    pub invoice_date: String,
    /// The line items, in the order in which they are shown.
    pub bills: Vec<Bill>,
}

/// A `Bill` as a mathematical value.
pub struct BillView {
    pub description: Seq<char>,
    pub amount: int,
    pub extra_paragraphs: Option<Seq<Seq<char>>>,
}

/// An `Invoice` as a mathematical value.
pub struct InvoiceView {
    pub company_name: Seq<char>,
    pub contact_name: Seq<char>,
    pub address: Seq<char>,
    pub city: Seq<char>,
    pub state: Seq<char>,
    pub zip: Seq<char>,
    pub phone: Seq<char>,
    pub email: Seq<char>,
    pub bill_to: Seq<char>,
    pub invoice_number: Seq<char>,
    pub invoice_date: Seq<char>,
    pub bills: Seq<BillView>,
}

/// The texts that a sequence of strings holds.
pub open spec fn texts(strings: Seq<String>) -> Seq<Seq<char>> {
    strings.map_values(|s: String| s@)
}

/// The text of each string, when there is a sequence at all.
pub open spec fn optional_texts(strings: Option<Vec<String>>) -> Option<Seq<Seq<char>>> {
    match strings {
        Some(v) => Some(texts(v@)),
        None => None,
    }
}

impl View for Bill {
    type V = BillView;

    open spec fn view(&self) -> BillView {
        BillView {
            description: self.description@,
            amount: self.amount as int,
            extra_paragraphs: optional_texts(self.extra_paragraphs),
        }
    }
}

/// The values that a sequence of bills holds.
pub open spec fn bill_views(bills: Seq<Bill>) -> Seq<BillView> {
    bills.map_values(|b: Bill| b@)
}

impl View for Invoice {
    type V = InvoiceView;

    open spec fn view(&self) -> InvoiceView {
        InvoiceView {
            company_name: self.company_name@,
            contact_name: self.contact_name@,
            address: self.address@,
            city: self.city@,
            state: self.state@,
            zip: self.zip@,
            phone: self.phone@,
            email: self.email@,
            bill_to: self.bill_to@,
            invoice_number: self.invoice_number@,
            invoice_date: self.invoice_date@,
            bills: bill_views(self.bills@),
        }
    }
}

/// The arithmetic sum of the amounts of `bills`; 0 when there are none.
pub open spec fn sum_of_amounts(bills: Seq<BillView>) -> int
    decreases bills.len(),
{
    if bills.len() == 0 {
        0
    } else {
        sum_of_amounts(bills.drop_last()) + bills.last().amount
    }
}

/// The sum of a concatenation is the sum of the sums: the order in which the
/// amounts are added does not matter to the total.
pub proof fn lemma_sum_concat(first: Seq<BillView>, second: Seq<BillView>)
    ensures
        sum_of_amounts(first + second) == sum_of_amounts(first) + sum_of_amounts(second),
    decreases second.len(),
{
    if second.len() == 0 {
        assert(first + second =~= first);
    } else {
        lemma_sum_concat(first, second.drop_last());
        assert((first + second).drop_last() =~= first + second.drop_last());
    }
}

impl Invoice {
    /// The total of the invoice: the exact sum of the amounts of its bills.
    /// It is computed afresh at each call, and no sum of 32-bit amounts can
    /// leave the range of the result.
    pub fn total(&self) -> (total: i128)
        ensures
            total == sum_of_amounts(self@.bills),
    {
        let mut total: i128 = 0;
        let mut i: usize = 0;
        while i < self.bills.len()
            invariant
                i <= self.bills.len(),
                total == sum_of_amounts(self@.bills.take(i as int)),
                i * i32::MIN <= total <= i * i32::MAX,
            decreases self.bills.len() - i,
        {
            proof {
                let done = self@.bills.take(i as int);
                let next = self@.bills.take(i + 1);
                assert(next.drop_last() =~= done);
                assert(next.last() == self.bills@[i as int]@);
                assert((i + 1) * i32::MIN == i * i32::MIN + i32::MIN) by (nonlinear_arith);
                assert((i + 1) * i32::MAX == i * i32::MAX + i32::MAX) by (nonlinear_arith);
            }
            total = total + self.bills[i].amount as i128;
            i = i + 1;
        }
        assert(self@.bills.take(i as int) =~= self@.bills);
        total
    }
}

} // verus!
