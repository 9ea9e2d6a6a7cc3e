use entry_point::admin::{
    chart_deleted, check_new_chart, check_role, clamp_limit, default_chart_type, default_config,
    default_limit, grant_reason, prepare_select, result_columns, search_pattern, DashboardProblem,
    GrantRequest, ROW_CAP,
};
use entry_point::json::{JsonEntry, JsonValue};
use entry_point::status::Rejection;

#[test]
fn user_listing() {
    assert_eq!(default_limit(), 50);
    assert_eq!(clamp_limit(0), 1);
    assert_eq!(clamp_limit(-9), 1);
    assert_eq!(clamp_limit(50), 50);
    assert_eq!(clamp_limit(501), 500);
    assert_eq!(search_pattern("neo"), "%neo%");
}

#[test]
fn roles_and_grants() {
    assert_eq!(check_role("user"), Ok(()));
    assert_eq!(check_role("admin"), Ok(()));
    assert_eq!(check_role("root"), Err(Rejection::BadRequest));
    assert_eq!(grant_reason(None), "admin_grant");
    assert_eq!(grant_reason(Some("promo")), "promo");
    let g = GrantRequest { currency: "soft".into(), amount: -5, reason: None };
    assert_eq!(g.reason(), "admin_grant");
}

#[test]
fn chart_rules() {
    assert_eq!(default_chart_type(), "table");
    assert!(matches!(default_config(), JsonValue::Object(e) if e.is_empty()));
    assert_eq!(check_new_chart("Signups", "SELECT 1", "line"), Ok(()));
    assert_eq!(check_new_chart(" ", "SELECT 1", "line"), Err(DashboardProblem::TitleRequired));
    assert_eq!(check_new_chart("T", "  ", "line"), Err(DashboardProblem::SqlRequired));
    assert_eq!(check_new_chart("T", "SELECT 1", "donut"), Err(DashboardProblem::BadChartType));
    assert_eq!(
        DashboardProblem::BadChartType.message(),
        format!("chart_type must be one of {:?}", ["table", "line", "bar", "pie", "stat"])
    );
    assert_eq!(chart_deleted(0), Err(DashboardProblem::NotDeletable));
    assert_eq!(DashboardProblem::NotDeletable.status_code(), 409);
    assert_eq!(chart_deleted(1), Ok(()));
}

#[test]
fn select_preparation() {
    assert_eq!(ROW_CAP, 5000);
    assert_eq!(prepare_select("SELECT 1", false), Err(DashboardProblem::PoolUnavailable));
    assert_eq!(DashboardProblem::PoolUnavailable.status_code(), 503);
    assert_eq!(
        prepare_select("  SELECT id FROM users ;; \n", true),
        Ok("SELECT row_to_json(t) AS row FROM ( SELECT id FROM users ) AS t LIMIT 5000".to_string())
    );
    assert_eq!(prepare_select(" ; ", true), Err(DashboardProblem::SqlEmpty));
    assert_eq!(prepare_select("SELECT 1; DROP TABLE x", true), Err(DashboardProblem::MultipleStatements));
    assert_eq!(DashboardProblem::MultipleStatements.message(), "only a single SELECT statement is allowed");
}

#[test]
fn columns_come_from_first_row() {
    let row = JsonValue::Object(vec![
        JsonEntry { key: "id".into(), value: JsonValue::Int(1) },
        JsonEntry { key: "name".into(), value: JsonValue::Str("a".into()) },
    ]);
    assert_eq!(result_columns(&vec![row, JsonValue::Null]), vec!["id".to_string(), "name".to_string()]);
    assert!(result_columns(&vec![]).is_empty());
    assert!(result_columns(&vec![JsonValue::Int(3)]).is_empty());
}
