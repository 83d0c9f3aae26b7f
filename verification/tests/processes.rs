use types::process::LocalData;

fn setup() -> LocalData {
    LocalData::new(0)
}

#[test]
fn test_update_collection_statistics_without_mature() {
    let mut local_data = setup();

    local_data.update_collection_statistics(false);

    assert_eq!(local_data.young_collections, 1);
}

#[test]
fn test_update_collection_statistics_with_mature() {
    let mut local_data = setup();

    local_data.update_collection_statistics(true);

    assert_eq!(local_data.young_collections, 0);
    assert_eq!(local_data.mature_collections, 1);
}

#[test]
fn test_update_mailbox_collection_statistics() {
    let mut local_data = setup();

    local_data.update_mailbox_collection_statistics();

    assert_eq!(local_data.mailbox_collections, 1);
}
