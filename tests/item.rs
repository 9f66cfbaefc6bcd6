use ledger::{get_id, Entry, IdGenerator, Item, Sum};

#[test]
fn default_item_builder() {
    let mut ids = IdGenerator::new();
    let mocked_item = Item::new(Entry::In, &mut ids);

    let expected_item = Item {
        id: mocked_item.id,
        kind: Entry::In,
        date: "Now".to_string(),
        amount: 0,
        description: None,
    };

    assert_eq!(mocked_item.date, expected_item.date);
    assert_eq!(mocked_item.amount, expected_item.amount);
    assert_eq!(mocked_item.description, expected_item.description);
    assert_eq!(mocked_item.kind, expected_item.kind);
}

#[test]
fn builded_item() {
    let mut ids = IdGenerator::new();
    let mocked_date = "Some date";
    let mocked_amount = 4200;
    let mocked_description = "Some desc";
    let mocked_item = Item::new(Entry::Out, &mut ids)
        .date(mocked_date)
        .amount(mocked_amount)
        .description(mocked_description);

    let expected_item = Item {
        id: mocked_item.id,
        kind: Entry::Out,
        date: mocked_date.to_string(),
        amount: mocked_amount,
        description: Some(mocked_description.to_string()),
    };

    assert_eq!(mocked_item.date, expected_item.date);
    assert_eq!(mocked_item.amount, expected_item.amount);
    assert_eq!(mocked_item.description, expected_item.description);
    assert_eq!(mocked_item.kind, expected_item.kind);
}

#[test]
fn new_out_item_has_defaults() {
    let mut ids = IdGenerator::new();
    let item = Item::new(Entry::Out, &mut ids);
    assert_eq!(item.kind, Entry::Out);
    assert_eq!(item.amount, 0);
    assert_eq!(item.description, None);
    assert_eq!(item.date, "Now");
}

#[test]
fn last_builder_value_wins() {
    let mut ids = IdGenerator::new();
    let item = Item::new(Entry::In, &mut ids)
        .amount(5)
        .date("2020-01-01")
        .amount(7)
        .description("first")
        .description("")
        .amount(0);
    assert_eq!(item.amount, 0);
    assert_eq!(item.description, Some(String::new()));
    assert_eq!(item.date, "2020-01-01");
    assert_eq!(item.kind, Entry::In);
    assert_eq!(item.id, 1);
}

#[test]
fn unset_fields_keep_defaults() {
    let mut ids = IdGenerator::new();
    let item = Item::new(Entry::Out, &mut ids).amount(12);
    assert_eq!(item.amount, 12);
    assert_eq!(item.description, None);
    assert_eq!(item.date, "Now");
}

#[test]
fn description_is_copied() {
    let mut ids = IdGenerator::new();
    let text = String::from("rent");
    let item = Item::new(Entry::Out, &mut ids).description(&text);
    assert_eq!(item.description.as_deref(), Some("rent"));
}

#[test]
fn extract_is_signed_by_kind() {
    let mut ids = IdGenerator::new();
    assert_eq!(Item::new(Entry::In, &mut ids).amount(100).extract(), 100);
    assert_eq!(Item::new(Entry::Out, &mut ids).amount(30).extract(), -30);
    assert_eq!(Item::new(Entry::Out, &mut ids).extract(), 0);
}

#[test]
fn extract_of_largest_amount() {
    let mut ids = IdGenerator::new();
    let top = u32::MAX;
    assert_eq!(Item::new(Entry::In, &mut ids).amount(top).extract(), 4294967295);
    assert_eq!(Item::new(Entry::Out, &mut ids).amount(top).extract(), -4294967295);
}

#[test]
fn empty_is_zero() {
    assert_eq!(Item::empty(), 0);
    let items: Vec<Item> = Vec::new();
    let total = items
        .iter()
        .fold(Item::empty() as i64, |acc, it| acc + it.extract());
    assert_eq!(total, 0);
}

#[test]
fn sum_of_income_and_expense() {
    let mut ids = IdGenerator::new();
    let items = vec![
        Item::new(Entry::In, &mut ids).amount(100),
        Item::new(Entry::Out, &mut ids).amount(30),
    ];
    let total = items
        .iter()
        .fold(Item::empty() as i64, |acc, it| acc + it.extract());
    assert_eq!(total, 70);
}

#[test]
fn ids_start_at_one_and_increase() {
    let mut ids = IdGenerator::new();
    let made: Vec<usize> = (0..5).map(|_| Item::new(Entry::In, &mut ids).id).collect();
    assert_eq!(made, vec![1, 2, 3, 4, 5]);
    assert_eq!(get_id(&mut ids), 6);
}

#[test]
fn separate_generators_are_independent() {
    let mut first = IdGenerator::new();
    let mut second = IdGenerator::new();
    assert_eq!(get_id(&mut first), 1);
    assert_eq!(get_id(&mut first), 2);
    assert_eq!(get_id(&mut second), 1);
}
