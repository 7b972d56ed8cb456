use databend_core::access::{
    AccessCheck, DescribeTablePlan, ManagementModeAccess, Plan, RewriteKind,
};
use databend_core::error::ErrorCode;

fn check(mode: bool, plan: &Plan) -> AccessCheck {
    ManagementModeAccess::create().check(mode, plan)
}

#[test]
fn everything_is_allowed_outside_management_mode() {
    for plan in [Plan::Insert, Plan::Delete, Plan::Query { rewrite_kind: None }, Plan::CreateUser] {
        assert!(matches!(check(false, &plan), AccessCheck::Allowed));
    }
}

#[test]
fn metadata_statements_are_allowed_in_management_mode() {
    for plan in [
        Plan::CreateDatabase,
        Plan::DropTable,
        Plan::CreateUser,
        Plan::GrantRole,
        Plan::CreateStage,
        Plan::AlterNetworkPolicy,
        Plan::DropUDF,
        Plan::UseDatabase,
        Plan::SetVariable,
        Plan::ShowGrants,
    ] {
        assert!(matches!(check(true, &plan), AccessCheck::Allowed), "{:?}", plan);
    }
}

#[test]
fn data_statements_are_denied_in_management_mode() {
    for plan in [
        Plan::Insert,
        Plan::Delete,
        Plan::Update,
        Plan::MergeInto,
        Plan::CopyIntoTable,
        Plan::Explain,
        Plan::AlterTable,
        Plan::Query { rewrite_kind: None },
    ] {
        assert!(matches!(check(true, &plan), AccessCheck::Denied), "{:?}", plan);
    }
}

#[test]
fn rewritten_show_queries_are_allowed_in_management_mode() {
    let allowed = [
        RewriteKind::ShowDatabases,
        RewriteKind::ShowTables("db".to_string()),
        RewriteKind::ShowColumns("db".to_string(), "t".to_string()),
        RewriteKind::ShowSettings,
        RewriteKind::ListStage,
        RewriteKind::Call,
        RewriteKind::ShowRoles,
    ];
    for kind in allowed {
        let plan = Plan::Query { rewrite_kind: Some(kind) };
        assert!(matches!(check(true, &plan), AccessCheck::Allowed));
    }
    for kind in [RewriteKind::ShowCatalogs, RewriteKind::ShowProcessList, RewriteKind::ShowMetrics] {
        let plan = Plan::Query { rewrite_kind: Some(kind) };
        assert!(matches!(check(true, &plan), AccessCheck::Denied));
    }
}

#[test]
fn describe_table_asks_for_the_table_engine() {
    let plan = Plan::DescribeTable(DescribeTablePlan {
        catalog: "default".to_string(),
        database: "db".to_string(),
        table: "t".to_string(),
    });
    match check(true, &plan) {
        AccessCheck::NeedTableEngine { catalog, database, table } => {
            assert_eq!(catalog, "default");
            assert_eq!(database, "db");
            assert_eq!(table, "t");
        }
        other => panic!("unexpected {:?}", other),
    }
    assert!(matches!(check(false, &plan), AccessCheck::Allowed));
}

#[test]
fn views_may_not_be_described_in_management_mode() {
    let access = ManagementModeAccess::create();
    assert!(matches!(access.check_table_engine("VIEW"), AccessCheck::Denied));
    assert!(matches!(access.check_table_engine("FUSE"), AccessCheck::Allowed));
    assert!(matches!(access.check_table_engine("view"), AccessCheck::Allowed));
}

#[test]
fn permission_denied_names_the_operation() {
    match ManagementModeAccess::permission_denied("Insert") {
        ErrorCode::ManagementModePermissionDenied(message) => {
            assert_eq!(message, "Access denied for operation:Insert in management-mode")
        }
        other => panic!("unexpected {:?}", other),
    }
}
