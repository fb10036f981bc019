use drill::pool::Pool;

#[test]
fn a_new_pool_is_empty() {
    let pool = Pool::<u32>::new();
    assert_eq!(pool.len(), 0);
    assert_eq!(pool.get("a"), None);
}

#[test]
fn a_handle_is_made_on_first_use() {
    let mut pool = Pool::<u32>::new();
    let made: Result<&u32, ()> = pool.get_or_create("a", || Ok(1));
    assert_eq!(made, Ok(&1));
    assert_eq!(pool.len(), 1);
    assert_eq!(pool.get("a"), Some(&1));
    assert_eq!(pool.get("b"), None);
}

#[test]
fn a_handle_is_made_once() {
    let mut pool = Pool::<u32>::new();
    let mut calls = 0;
    for _ in 0..5 {
        let handle: Result<&u32, ()> = pool.get_or_create("a", || {
            calls += 1;
            Ok(10 + calls)
        });
        assert_eq!(handle, Ok(&11));
    }
    assert_eq!(calls, 1);
    assert_eq!(pool.len(), 1);
}

#[test]
fn each_key_has_its_own_handle() {
    let mut pool = Pool::<String>::new();
    for key in ["http://a", "http://b", "http://c"] {
        let handle: Result<&String, ()> = pool.get_or_create(key, || Ok(key.to_uppercase()));
        assert_eq!(handle, Ok(&key.to_uppercase()));
    }
    assert_eq!(pool.len(), 3);
    assert_eq!(pool.get("http://a"), Some(&String::from("HTTP://A")));
    assert_eq!(pool.get("http://b"), Some(&String::from("HTTP://B")));
    assert_eq!(pool.get("http://c"), Some(&String::from("HTTP://C")));
    let again: Result<&String, ()> = pool.get_or_create("http://b", || Ok(String::from("new")));
    assert_eq!(again, Ok(&String::from("HTTP://B")));
    assert_eq!(pool.len(), 3);
}

#[test]
fn a_handle_that_cannot_be_made_leaves_the_pool_as_it_was() {
    let mut pool = Pool::<u32>::new();
    let first: Result<&u32, String> = pool.get_or_create("a", || Ok(1));
    assert_eq!(first, Ok(&1));
    let failed: Result<&u32, String> = pool.get_or_create("b", || Err(String::from("no client")));
    assert_eq!(failed, Err(String::from("no client")));
    assert_eq!(pool.len(), 1);
    assert_eq!(pool.get("b"), None);
    assert_eq!(pool.get("a"), Some(&1));
    let second: Result<&u32, String> = pool.get_or_create("b", || Ok(2));
    assert_eq!(second, Ok(&2));
    assert_eq!(pool.len(), 2);
}
