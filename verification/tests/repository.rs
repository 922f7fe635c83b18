use pleme_database::{BaseRepository, PaginatedResponse, PaginationParams};

struct TestEntity {
    id: String,
    name: String,
}

#[test]
fn test_base_repository() {
    let _repo = BaseRepository::<TestEntity>::new();
}

#[test]
fn test_pagination_params() {
    let params = PaginationParams::new(0, 50);
    assert_eq!(params.offset, 0);
    assert_eq!(params.limit, 50);
    assert_eq!(params.sql_offset(), 0);
    assert_eq!(params.sql_limit(), 50);

    // Test limit cap
    let params = PaginationParams::new(0, 200);
    assert_eq!(params.limit, 100); // Capped at 100
}

#[test]
fn test_pagination_params_with_sort() {
    let params = PaginationParams::new(20, 10).with_sort("created_at", true);

    assert_eq!(params.offset, 20);
    assert_eq!(params.limit, 10);
    assert_eq!(params.sort_by, Some("created_at".to_string()));
    assert!(params.sort_desc);
}

#[test]
fn test_pagination_params_defaults() {
    let params = PaginationParams::default();
    assert_eq!(params.offset, 0);
    assert_eq!(params.limit, 20);
    assert_eq!(params.sort_by, None);
    assert!(!params.sort_desc);
}

#[test]
fn test_paginated_response() {
    let items = vec![
        TestEntity { id: "1".to_string(), name: "One".to_string() },
        TestEntity { id: "2".to_string(), name: "Two".to_string() },
    ];
    let params = PaginationParams::new(0, 2);
    let response = PaginatedResponse::new(items, 10, &params);

    assert_eq!(response.items.len(), 2);
    assert_eq!(response.total, 10);
    assert_eq!(response.offset, 0);
    assert_eq!(response.limit, 2);
    assert!(response.has_more); // 0 + 2 < 10
    assert_eq!(response.items[0].id, "1");
    assert_eq!(response.items[1].name, "Two");

    // Test last page
    let params = PaginationParams::new(8, 2);
    let response: PaginatedResponse<TestEntity> = PaginatedResponse::new(vec![], 10, &params);
    assert!(!response.has_more); // 8 + 2 >= 10
}

#[test]
fn base_repository_default_is_available() {
    let _repo: BaseRepository<TestEntity> = BaseRepository::default();
}

#[test]
fn limit_exactly_at_cap_is_kept() {
    assert_eq!(PaginationParams::new(0, 100).limit, 100);
    assert_eq!(PaginationParams::new(0, 101).limit, 100);
    assert_eq!(PaginationParams::new(0, i64::MAX).limit, 100);
}

#[test]
fn negative_and_zero_limits_pass_through() {
    assert_eq!(PaginationParams::new(5, 0).limit, 0);
    assert_eq!(PaginationParams::new(5, -3).limit, -3);
    assert_eq!(PaginationParams::new(-7, 10).offset, -7);
}

#[test]
fn capped_limit_is_idempotent() {
    let once = PaginationParams::new(3, 250);
    let twice = PaginationParams::new(once.offset, once.limit);
    assert_eq!(once.limit, twice.limit);
    assert_eq!(twice.limit, 100);
}

#[test]
fn with_sort_ascending_keeps_page() {
    let params = PaginationParams::new(40, 500).with_sort("name", false);
    assert_eq!(params.offset, 40);
    assert_eq!(params.limit, 100);
    assert_eq!(params.sort_by.as_deref(), Some("name"));
    assert!(!params.sort_desc);
}

#[test]
fn with_sort_replaces_previous_sort() {
    let params = PaginationParams::new(0, 10).with_sort("a", true).with_sort("b", false);
    assert_eq!(params.sort_by.as_deref(), Some("b"));
    assert!(!params.sort_desc);
}

#[test]
fn has_more_boundary() {
    let params = PaginationParams::new(7, 2);
    let r: PaginatedResponse<u8> = PaginatedResponse::new(vec![1, 2], 10, &params);
    assert!(r.has_more); // 9 < 10
    let r: PaginatedResponse<u8> = PaginatedResponse::new(vec![], 9, &params);
    assert!(!r.has_more); // 9 == 9
    let r: PaginatedResponse<u8> = PaginatedResponse::new(vec![], 0, &PaginationParams::default());
    assert!(!r.has_more);
    assert_eq!(r.limit, 20);
}

#[test]
fn response_echoes_params() {
    let params = PaginationParams::new(30, 15).with_sort("x", true);
    let r: PaginatedResponse<&str> = PaginatedResponse::new(vec!["a"], 100, &params);
    assert_eq!(r.offset, params.sql_offset());
    assert_eq!(r.limit, params.sql_limit());
    assert_eq!(r.items, vec!["a"]);
    assert_eq!(r.total, 100);
}

#[test]
fn page_flags_do_not_depend_on_items() {
    let params = PaginationParams::new(10, 5);
    let a: PaginatedResponse<u8> = PaginatedResponse::new(vec![], 40, &params);
    let b: PaginatedResponse<u8> = PaginatedResponse::new(vec![1, 2, 3, 4, 5, 6, 7], 40, &params);
    assert_eq!(a.has_more, b.has_more);
    assert_eq!((a.total, a.offset, a.limit), (b.total, b.offset, b.limit));
    assert!(a.has_more);
}
