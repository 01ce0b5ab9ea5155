use invoice_maker::paths::{transient_paths, TransientPaths};

#[test]
fn paths_are_made_from_the_number_of_the_request() {
    assert_eq!(
        transient_paths(7),
        TransientPaths {
            markup: String::from("invoice-7.html"),
            artifact: String::from("invoice-7.pdf"),
        }
    );
    assert_eq!(transient_paths(0).markup, "invoice-0.html");
    assert_eq!(transient_paths(u64::MAX).artifact, "invoice-18446744073709551615.pdf");
}

#[test]
fn requests_do_not_share_a_transient_file() {
    let requests: [u64; 7] = [0, 1, 2, 10, 11, 100, u64::MAX];
    for a in requests {
        for b in requests {
            let first = transient_paths(a);
            let second = transient_paths(b);
            assert_ne!(first.markup, second.artifact);
            if a != b {
                assert_ne!(first.markup, second.markup);
                assert_ne!(first.artifact, second.artifact);
            }
        }
    }
}

#[test]
fn the_same_request_has_the_same_paths() {
    assert_eq!(transient_paths(12), transient_paths(12));
}
