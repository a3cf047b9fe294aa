use heaven_on_earth::shuffle::random_order;
use heaven_on_earth::feed::arrange;
use heaven_on_earth::wallpaper::Wallpaper;

fn numbered(n: usize) -> Vec<Wallpaper> {
    (0..n).map(|i| Wallpaper::new(format!("title {i}"), format!("url {i}"))).collect()
}

#[test]
fn random_order_lists_each_number_once() {
    for n in [0usize, 1, 2, 3, 10, 100] {
        let mut order = random_order(n);
        assert_eq!(order.len(), n);
        order.sort();
        assert_eq!(order, (0..n).collect::<Vec<usize>>());
    }
}

#[test]
fn random_order_is_not_always_the_rising_order() {
    let rising: Vec<usize> = (0..40).collect();
    let mut differs = false;
    for _ in 0..20 {
        differs = differs || random_order(40) != rising;
    }
    assert!(differs);
}

#[test]
fn arrange_puts_the_items_in_the_given_order() {
    let items = numbered(4);
    let arranged = arrange(&items, &vec![2, 0, 3, 1]);
    assert_eq!(
        arranged,
        vec![items[2].clone(), items[0].clone(), items[3].clone(), items[1].clone()]
    );
}

#[test]
fn arrange_in_rising_order_changes_nothing() {
    let items = numbered(5);
    assert_eq!(arrange(&items, &vec![0, 1, 2, 3, 4]), items);
    assert_eq!(arrange(&Vec::new(), &Vec::new()), Vec::new());
}

#[test]
fn arrange_takes_any_list_of_places() {
    let items = numbered(3);
    assert_eq!(arrange(&items, &vec![1, 1]), vec![items[1].clone(), items[1].clone()]);
    assert_eq!(arrange(&items, &Vec::new()), Vec::new());
}
