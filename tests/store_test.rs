use yodoprice::{update_all, AddError, AppData, FetchError, OnePrice, ProductHistory, StockStatus, WebData};

fn web(url: &str, name: &str, price: u64) -> WebData {
    WebData {
        name: name.to_string(),
        url: url.to_string(),
        price,
        point: price / 10,
        point_ratio: 10,
        status: StockStatus::Sufficient,
        maker: "Maker".to_string(),
    }
}

fn failure(text: &str) -> Result<WebData, FetchError> {
    Err(FetchError { message: text.to_string() })
}

fn store_of(urls: &[&str]) -> AppData {
    let mut store = AppData::new();
    for (i, url) in urls.iter().enumerate() {
        let r = store.add_fetched_at(url, Ok(web(url, "item", 100 + i as u64)), 1_000);
        assert_eq!(r, Ok(()));
    }
    store
}

#[test]
fn add_new_url_tracks_it_once() {
    let mut store = store_of(&["https://shop.example/a"]);
    let r = store.add_from_url("https://shop.example/b", Ok(web("https://shop.example/b", "B", 500)));
    assert_eq!(r, Ok(()));
    let urls = store.url_list();
    assert_eq!(urls, vec!["https://shop.example/a".to_string(), "https://shop.example/b".to_string()]);
    let p = store.borrow_product_by_url("https://shop.example/b").unwrap();
    assert_eq!(p.history.len(), 1);
    assert_eq!(p.name, "B");
    assert_eq!(p.maker, "Maker");
    assert_eq!(p.id, "");
    assert_eq!(p.custom_name, None);
    assert_eq!(p.history[0].price, 500);
    assert_eq!(p.history[0].point, 50);
    assert_eq!(p.history[0].point_ratio, 10);
    assert_eq!(p.history[0].status, StockStatus::Sufficient);
    assert!(p.history[0].datetime > 1_600_000_000);
}

#[test]
fn add_fetched_at_records_the_given_time() {
    let mut store = AppData::new();
    let r = store.add_fetched_at("u1", Ok(web("u1", "one", 7)), 1_700_000_123);
    assert_eq!(r, Ok(()));
    let sample = store.histories[0].history[0];
    assert_eq!(
        sample,
        OnePrice { price: 7, point: 0, point_ratio: 10, status: StockStatus::Sufficient, datetime: 1_700_000_123 }
    );
    assert_eq!(store.histories[0].url, "u1");
}

#[test]
fn add_tracked_url_is_refused_and_changes_nothing() {
    let mut store = store_of(&["u1", "u2"]);
    let r = store.add_from_url("u2", Ok(web("u2", "again", 999)));
    assert_eq!(r, Err(AddError::AlreadyExists));
    assert_eq!(store.histories.len(), 2);
    assert_eq!(store.histories[1].history.len(), 1);
    assert_eq!(store.histories[1].history[0].price, 101);
    assert_eq!(store.histories[1].name, "item");
}

#[test]
fn add_with_failed_fetch_changes_nothing() {
    let mut store = store_of(&["u1"]);
    let r = store.add_from_url("u9", failure("timeout"));
    assert_eq!(r, Err(AddError::Fetch(FetchError { message: "timeout".to_string() })));
    assert_eq!(store.histories.len(), 1);
    let r = store.add_from_url("u1", failure("gone"));
    assert_eq!(r, Err(AddError::Fetch(FetchError { message: "gone".to_string() })));
    assert_eq!(store.histories.len(), 1);
}

#[test]
fn update_mixed_outcomes() {
    let mut store = store_of(&["u1", "u2", "u3"]);
    let fetched = vec![Ok(web("u1", "item", 90)), failure("503"), Ok(web("u3", "item", 80))];
    let errors = store.update_all_at(fetched, 2_000);
    assert_eq!(errors, vec!["データを取得できませんでした".to_string() + "u2"]);
    assert_eq!(store.histories[0].history.len(), 2);
    assert_eq!(store.histories[1].history.len(), 1);
    assert_eq!(store.histories[2].history.len(), 2);
    assert_eq!(store.histories[0].history[1].price, 90);
    assert_eq!(store.histories[0].history[1].datetime, 2_000);
    assert_eq!(store.histories[2].history[1].price, 80);
}

#[test]
fn update_all_failures_counted() {
    let mut store = store_of(&["u1", "u2"]);
    let errors = update_all(&mut store, vec![failure("x"), failure("y")]);
    assert_eq!(errors.len(), 2);
    assert_eq!(errors[0], "データを取得できませんでした".to_string() + "u1");
    assert_eq!(store.histories[0].history.len(), 1);
    assert_eq!(store.histories[1].history.len(), 1);
    let errors = update_all(&mut store, vec![Ok(web("u1", "item", 1)), Ok(web("u2", "item", 2))]);
    assert!(errors.is_empty());
    assert_eq!(store.histories[0].history.len(), 2);
    assert_eq!(store.histories[1].history.len(), 2);
    assert!(store.histories[1].history[1].datetime >= store.histories[1].history[0].datetime);
}

#[test]
fn price_summary_of_three_prices() {
    let mut store = AppData::new();
    store.add_fetched_at("u", Ok(web("u", "p", 100)), 1).unwrap();
    store.update_all_at(vec![Ok(web("u", "p", 300))], 2);
    store.update_all_at(vec![Ok(web("u", "p", 150))], 3);
    let p: &ProductHistory = store.borrow_product_by_url("u").unwrap();
    assert_eq!(p.price_summary(), (300, 100, 150));
}

#[test]
fn price_summary_single_sample() {
    let mut store = AppData::new();
    store.add_fetched_at("u", Ok(web("u", "p", 42)), 1).unwrap();
    assert_eq!(store.histories[0].price_summary(), (42, 42, 42));
}

#[test]
fn lookups_by_url() {
    let mut store = store_of(&["u1", "u2"]);
    assert!(store.borrow_product_by_url("u3").is_none());
    assert!(store.contains_url("u2"));
    assert!(!store.contains_url("u"));
    assert_eq!(store.position_of_url("u2"), Some(1));
    {
        let p = store.borrow_mut_product_by_url("u2").unwrap();
        p.custom_name = Some("mine".to_string());
    }
    assert_eq!(store.histories[1].custom_name, Some("mine".to_string()));
    assert!(store.borrow_mut_product_by_url("nope").is_none());
}

#[test]
fn web_data_builds_samples_and_products() {
    let data = web("u5", "five", 55);
    let sample = OnePrice::from_web_data(&data, 9);
    assert_eq!(sample.price, 55);
    assert_eq!(sample.datetime, 9);
    let mut product = ProductHistory::from_web_data("u5", data.clone(), 9);
    product.add_web_data(&web("u5", "five", 60), 10);
    assert_eq!(product.history.len(), 2);
    assert_eq!(product.history[1].price, 60);
    assert_eq!(product.url, "u5");
}

#[test]
fn default_store_is_empty() {
    let store = AppData::default();
    assert!(store.histories.is_empty());
    assert!(store.url_list().is_empty());
}
