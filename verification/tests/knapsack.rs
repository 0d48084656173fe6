use knapsack_ga::knapsack::{
    calculate_capacity_by_average, generate_items, total_value, total_weight, Item, Knapsack,
};

fn setup_items_vec() -> Vec<Item> {
    let item1 = Item { value: 50, weight: 5 };
    let item2 = Item { value: 30, weight: 15 };
    let item3 = Item { value: 70, weight: 9 };
    let item4 = Item { value: 10, weight: 1 };
    let items: Vec<Item> = vec![item1, item2, item3, item4];
    items
}

#[test]
fn test_total_value() {
    let items: Vec<Item> = setup_items_vec();
    let knapsack = Knapsack { items, capacity: 100 };
    let total_val = total_value(&knapsack.items);
    assert_eq!(total_val, 160)
}

#[test]
fn test_total_weight() {
    let items: Vec<Item> = setup_items_vec();
    let knapsack = Knapsack { items, capacity: 100 };
    let total_weight = total_weight(&knapsack.items);
    assert_eq!(total_weight, 30)
}

#[test]
fn test_items_upper_bound() {
    let items = generate_items(150);
    for item in items.iter() {
        assert!(item.weight < 51);
        assert!(item.value < 101);
    }
}

#[test]
fn test_items_lower_bound() {
    let items = generate_items(150);
    for item in items.iter() {
        assert!(item.weight > 0);
        assert!(item.value > 0);
    }
}

#[test]
fn test_calc_capacity() {
    let items = setup_items_vec();
    let capacity = calculate_capacity_by_average(&items, 2);
    assert_eq!(capacity, 14)
}

#[test]
fn test_generate_items_count() {
    let items = generate_items(37);
    assert_eq!(items.len(), 37);
    let none = generate_items(0);
    assert_eq!(none.len(), 0);
}

#[test]
fn test_empty_catalog_sums() {
    let items: Vec<Item> = vec![];
    assert_eq!(total_value(&items), 0);
    assert_eq!(total_weight(&items), 0);
}

#[test]
fn test_calc_capacity_truncating_average() {
    let items = vec![Item { value: 1, weight: 7 }, Item { value: 2, weight: 4 }];
    assert_eq!(calculate_capacity_by_average(&items, 3), 15);
}

#[test]
fn test_single_item_catalog() {
    let items = vec![Item { value: 42, weight: 17 }];
    assert_eq!(total_value(&items), 42);
    assert_eq!(total_weight(&items), 17);
    assert_eq!(calculate_capacity_by_average(&items, 1), 17);
}
