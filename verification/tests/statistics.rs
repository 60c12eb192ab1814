use shaide::statistics::{
    group_by_user, map_db_api_usage_statistics, map_db_to_usage_statistics, user_daily_limits, ApiUsageRow,
    DailyUsageRow, ModelLimitsRow, UserDailyUsageRow,
};

#[test]
fn records_are_grouped_by_user_in_order() {
    let groups = group_by_user(vec![(1, "a"), (2, "b"), (1, "c"), (3, "d"), (2, "e")]);
    assert_eq!(groups, vec![(1, vec!["a", "c"]), (2, vec!["b", "e"]), (3, vec!["d"])]);
    assert!(group_by_user::<u8>(vec![]).is_empty());
}

#[test]
fn daily_usage_is_reported_per_user() {
    let row = |user, date: &str| DailyUsageRow {
        user,
        date: date.to_owned(),
        model: 7,
        model_name: "m".to_owned(),
        total_input_token_count: 10,
        total_output_token_count: 20,
    };
    let report = map_db_to_usage_statistics(
        vec![row(1, "2025-01-01"), row(2, "2025-01-01"), row(1, "2025-01-02")],
        "2025-01-01".to_owned(),
        "2025-01-31".to_owned(),
    );
    assert_eq!(report.start_date, "2025-01-01");
    assert_eq!(report.users_statistics.len(), 2);
    let first = report.users_statistics.iter().find(|u| u.user_id == 1).unwrap();
    assert_eq!(first.model_usage_statistics.len(), 2);
    assert_eq!(first.model_usage_statistics[1].date, "2025-01-02");
    assert_eq!(first.model_usage_statistics[0].model_id, 7);
}

#[test]
fn api_usage_counts_each_users_requests() {
    let row = |user, route: &str| ApiUsageRow {
        user,
        route: route.to_owned(),
        request_made: "2025-01-01T00:00:00Z".to_owned(),
        model_name: None,
        input_token_count: None,
        output_token_count: Some(3),
    };
    let report = map_db_api_usage_statistics(
        vec![row(5, "/v1/a"), row(5, "/v1/b"), row(6, "/v1/c")],
        "s".to_owned(),
        "e".to_owned(),
    );
    let five = report.api_usage_statistics.iter().find(|u| u.user_id == 5).unwrap();
    assert_eq!(five.requests_made, 2);
    assert_eq!(five.requests[1].route, "/v1/b");
    let six = report.api_usage_statistics.iter().find(|u| u.user_id == 6).unwrap();
    assert_eq!(six.requests_made, 1);
}

#[test]
fn daily_limits_show_todays_use_or_zero() {
    let models = vec![
        ModelLimitsRow { id: 1, name: "a".to_owned(), daily_input_token_limit: Some(100), daily_output_token_limit: None },
        ModelLimitsRow { id: 2, name: "b".to_owned(), daily_input_token_limit: None, daily_output_token_limit: Some(5) },
    ];
    let usages = vec![
        UserDailyUsageRow { model: 2, total_input_token_count: 3, total_output_token_count: 4 },
        UserDailyUsageRow { model: 2, total_input_token_count: 9, total_output_token_count: 9 },
    ];
    let limits = user_daily_limits(models, &usages);
    assert_eq!(limits.len(), 2);
    assert_eq!(limits[0].model_name, "a");
    assert_eq!(limits[0].total_input_token_count, 0);
    assert_eq!(limits[0].daily_input_token_limit, Some(100));
    assert_eq!(limits[1].total_input_token_count, 3);
    assert_eq!(limits[1].total_output_token_count, 4);
}
