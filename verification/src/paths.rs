//! The transient files of one conversion: the markup that the converter
//! reads and the artifact that it writes. Their names are made from the
//! number of the request, so that requests in flight at the same time never
//! share a file.

use vstd::prelude::*;
use vstd::string::StringExecFns;
use crate::decimal::{decimal, lemma_decimal_between, push_decimal};

verus! {

/// Where one request keeps its two transient files.
#[derive(Clone, Debug, PartialEq, Eq)]
pub struct TransientPaths {
    /// The intermediate markup.
    pub markup: String,
    /// The converted document.
    pub artifact: String,
}

/// `TransientPaths` as a mathematical value.
pub struct TransientPathsView {
    pub markup: Seq<char>,
    pub artifact: Seq<char>,
}

impl View for TransientPaths {
    type V = TransientPathsView;

    open spec fn view(&self) -> TransientPathsView {
        TransientPathsView { markup: self.markup@, artifact: self.artifact@ }
    }
}

/// The path of the intermediate markup of a request.
pub open spec fn markup_path(request: int) -> Seq<char> {
    "invoice-"@ + decimal(request) + ".html"@
}

/// The path of the converted document of a request.
pub open spec fn artifact_path(request: int) -> Seq<char> {
    "invoice-"@ + decimal(request) + ".pdf"@
}

/// The two paths of a request.
pub open spec fn paths_of(request: int) -> TransientPathsView {
    TransientPathsView { markup: markup_path(request), artifact: artifact_path(request) }
}

/// The transient paths of the request with the given number.
pub fn transient_paths(request: u64) -> (paths: TransientPaths)
    ensures
        paths@ == paths_of(request as int),
{
    let mut markup = String::from_str("invoice-");
    push_decimal(&mut markup, request as i128);
    markup.append(".html");
    let mut artifact = String::from_str("invoice-");
    push_decimal(&mut artifact, request as i128);
    artifact.append(".pdf");
    TransientPaths { markup, artifact }
}

/// No two requests share a transient file, and no request reads its markup
/// from where any request writes an artifact.
pub proof fn lemma_paths_are_distinct(first: int, second: int)
    ensures
        first != second ==> markup_path(first) != markup_path(second),
        first != second ==> artifact_path(first) != artifact_path(second),
        markup_path(first) != artifact_path(second),
{
    reveal_strlit(".html");
    reveal_strlit(".pdf");
    if markup_path(first) == markup_path(second) {
        lemma_decimal_between("invoice-"@, first, second, ".html"@);
    }
    if artifact_path(first) == artifact_path(second) {
        lemma_decimal_between("invoice-"@, first, second, ".pdf"@);
    }
    assert(markup_path(first).last() == 'l');
    assert(artifact_path(second).last() == 'f');
}

} // verus!
