use factura_pdf::pagination::{page_label, paginate_products, plan_pages, ListHeight, PageRange};

fn ranges(n: usize) -> Vec<(usize, usize)> {
    paginate_products(n).iter().map(|p: &PageRange| (p.start, p.end)).collect()
}

#[test]
fn few_products_stay_on_one_page() {
    assert_eq!(ranges(0), vec![(0, 0)]);
    assert_eq!(ranges(10), vec![(0, 10)]);
    assert_eq!(ranges(18), vec![(0, 18)]);
}

#[test]
fn up_to_twenty_three_products_split_after_eighteen() {
    assert_eq!(ranges(19), vec![(0, 18), (18, 19)]);
    assert_eq!(ranges(23), vec![(0, 18), (18, 23)]);
}

#[test]
fn more_products_fill_pages_of_forty_two() {
    assert_eq!(ranges(24), vec![(0, 23), (23, 24)]);
    assert_eq!(ranges(59), vec![(0, 23), (23, 59)]);
    assert_eq!(ranges(60), vec![(0, 23), (23, 59), (59, 60)]);
    assert_eq!(ranges(65), vec![(0, 23), (23, 59), (59, 65)]);
    assert_eq!(ranges(101), vec![(0, 23), (23, 65), (65, 101)]);
    assert_eq!(ranges(102), vec![(0, 23), (23, 65), (65, 101), (101, 102)]);
}

#[test]
fn pages_partition_the_products() {
    for n in 0..400 {
        let r = ranges(n);
        assert_eq!(r[0].0, 0);
        assert_eq!(r[r.len() - 1].1, n);
        for k in 0..r.len() - 1 {
            assert_eq!(r[k].1, r[k + 1].0);
        }
        for (k, (s, e)) in r.iter().enumerate() {
            if n > 0 {
                assert!(s < e);
            }
            if k > 0 {
                assert!(e - s <= 42);
            }
        }
        if n > 18 {
            let (s, e) = r[r.len() - 1];
            assert!(e - s <= 36);
            assert!(r.len() >= 2);
        } else {
            assert_eq!(r.len(), 1);
        }
    }
}

#[test]
fn single_page_plan() {
    let plans = plan_pages(5);
    assert_eq!(plans.len(), 1);
    let p = plans[0];
    assert_eq!((p.range.start, p.range.end), (0, 5));
    assert!(!p.new_page);
    assert_eq!(p.list_height, ListHeight::ProductsSection);
    assert!(!p.restart_before);
    assert!(!p.restart_after);
    assert!(p.draws_totals);
    assert_eq!(p.page_number, None);
}

#[test]
fn several_page_plan() {
    let plans = plan_pages(100);
    assert_eq!(plans.len(), 3);
    let first = plans[0];
    assert_eq!((first.range.start, first.range.end), (0, 23));
    assert!(!first.new_page);
    assert_eq!(first.list_height, ListHeight::FirstPage);
    assert!(!first.restart_before);
    assert!(first.restart_after);
    assert!(!first.draws_totals);
    assert_eq!(first.page_number, Some((1, 3)));

    let second = plans[1];
    assert_eq!((second.range.start, second.range.end), (23, 65));
    assert!(second.new_page);
    assert_eq!(second.list_height, ListHeight::FullPage);
    assert!(second.restart_before);
    assert!(second.restart_after);
    assert!(!second.draws_totals);
    assert_eq!(second.page_number, Some((2, 3)));

    let last = plans[2];
    assert_eq!((last.range.start, last.range.end), (65, 100));
    assert_eq!(last.list_height, ListHeight::ItemRows(35));
    assert!(last.restart_before);
    assert!(!last.restart_after);
    assert!(last.draws_totals);
    assert_eq!(last.page_number, Some((3, 3)));
}

#[test]
fn first_page_of_eighteen_keeps_its_place() {
    let plans = plan_pages(20);
    assert_eq!(plans.len(), 2);
    assert_eq!(plans[0].list_height, ListHeight::FirstPage);
    assert!(!plans[0].restart_after);
    assert_eq!(plans[1].list_height, ListHeight::ItemRows(2));
    assert!(plans[1].restart_before);
    assert!(plans[1].draws_totals);
}

#[test]
fn page_label_text() {
    assert_eq!(page_label(2, 3), "Página 2 de 3");
    assert_eq!(page_label(10, 12), "Página 10 de 12");
}
