//! What a server in management mode lets a session do.
//!
//! In management mode only metadata statements run: showing, creating and
//! dropping databases, tables, views, users, roles, stages, network policies
//! and user-defined functions, granting and revoking, setting variables and
//! switching databases, and describing tables that are not views. The check
//! that needs the engine of a described table hands the lookup to the caller.
use vstd::prelude::*;

use crate::error::ErrorCode;

verus! {

/// The engine name of view tables.
pub const VIEW_ENGINE: &'static str = "VIEW";

/// The kind of statement a query was rewritten from.
#[derive(Debug, Clone, PartialEq, Eq)]
pub enum RewriteKind {
    ShowSettings,
    ShowTables(String),
    ShowColumns(String, String),
    ShowTablesStatus,
    ShowDatabases,
    ShowEngines,
    ShowFunctions,
    ShowTableFunctions,
    ShowUsers,
    ShowStages,
    DescribeStage,
    ListStage,
    ShowRoles,
    ShowCatalogs,
    ShowProcessList,
    ShowMetrics,
    Call,
}

/// A `DESCRIBE TABLE` plan: the table described.
#[derive(Debug, Clone)]
pub struct DescribeTablePlan {
    pub catalog: String,
    pub database: String,
    pub table: String,
}

/// The plans a statement is bound to, by kind.
#[derive(Debug, Clone)]
pub enum Plan {
    Query { rewrite_kind: Option<RewriteKind> },
    Explain,
    Call,
    ShowCreateDatabase,
    ShowCreateTable,
    ShowGrants,
    SetVariable,
    UnSetVariable,
    Kill,
    CreateDatabase,
    DropDatabase,
    UndropDatabase,
    RenameDatabase,
    UseDatabase,
    CreateTable,
    DropTable,
    UndropTable,
    DescribeTable(DescribeTablePlan),
    RenameTable,
    AlterTable,
    TruncateTable,
    OptimizeTable,
    VacuumTable,
    AnalyzeTable,
    Insert,
    Replace,
    Delete,
    Update,
    MergeInto,
    CopyIntoTable,
    CopyIntoLocation,
    CreateView,
    AlterView,
    DropView,
    AlterUser,
    CreateUser,
    DropUser,
    ShowRoles,
    CreateRole,
    DropRole,
    GrantPriv,
    RevokePriv,
    GrantRole,
    RevokeRole,
    CreateStage,
    DropStage,
    RemoveStage,
    CreateNetworkPolicy,
    AlterNetworkPolicy,
    DropNetworkPolicy,
    CreateUDF,
    AlterUDF,
    DropUDF,
    Presign,
}

/// The outcome of the access check.
#[derive(Debug, Clone)]
pub enum AccessCheck {
    /// The plan may run.
    Allowed,
    /// The plan is refused.
    Denied,
    /// The plan may run only if the named table is not a view: the caller
    /// looks the table up and hands its engine to `check_table_engine`.
    NeedTableEngine { catalog: String, database: String, table: String },
}

/// The queries that run in management mode: those rewritten from the show,
/// describe, list and call statements below.
pub open spec fn rewrite_kind_allowed(kind: RewriteKind) -> bool {
    match kind {
        RewriteKind::ShowDatabases
        | RewriteKind::ShowTables(_)
        | RewriteKind::ShowColumns(_, _)
        | RewriteKind::ShowEngines
        | RewriteKind::ShowSettings
        | RewriteKind::ShowFunctions
        | RewriteKind::ShowTableFunctions
        | RewriteKind::ShowUsers
        | RewriteKind::ShowStages
        | RewriteKind::DescribeStage
        | RewriteKind::ListStage
        | RewriteKind::Call
        | RewriteKind::ShowRoles => true,
        _ => false,
    }
}

/// The plans other than `DESCRIBE TABLE` that run in management mode.
pub open spec fn plan_allowed(plan: Plan) -> bool {
    match plan {
        Plan::Query { rewrite_kind } => match rewrite_kind {
            Some(kind) => rewrite_kind_allowed(kind),
            None => false,
        },
        Plan::ShowCreateDatabase
        | Plan::ShowCreateTable
        | Plan::ShowGrants
        | Plan::SetVariable
        | Plan::CreateDatabase
        | Plan::DropDatabase
        | Plan::CreateTable
        | Plan::DropTable
        | Plan::DropView
        | Plan::CreateView
        | Plan::AlterUser
        | Plan::CreateUser
        | Plan::DropUser
        | Plan::ShowRoles
        | Plan::CreateRole
        | Plan::DropRole
        | Plan::GrantPriv
        | Plan::RevokePriv
        | Plan::GrantRole
        | Plan::RevokeRole
        | Plan::CreateStage
        | Plan::DropStage
        | Plan::CreateNetworkPolicy
        | Plan::AlterNetworkPolicy
        | Plan::DropNetworkPolicy
        | Plan::CreateUDF
        | Plan::AlterUDF
        | Plan::DropUDF
        | Plan::UseDatabase => true,
        _ => false,
    }
}

/// The access checker of management mode.
#[derive(Debug)]
pub struct ManagementModeAccess {}

impl ManagementModeAccess {
    /// The checker. It holds no state: every checker is the same value, and
    /// checks as `check` and `check_table_engine` state.
    pub fn create() -> (r: Box<ManagementModeAccess>)
        ensures
            *r == (ManagementModeAccess {}),
    {
        Box::new(ManagementModeAccess {})
    }

    /// Checks what a plan may do when `management_mode` holds; outside
    /// management mode every plan is allowed.
    pub fn check(&self, management_mode: bool, plan: &Plan) -> (r: AccessCheck)
        ensures
            !management_mode ==> r is Allowed,
            management_mode ==> match plan {
                Plan::DescribeTable(p) => r matches AccessCheck::NeedTableEngine {
                    catalog,
                    database,
                    table,
                } && catalog@ == p.catalog@ && database@ == p.database@ && table@ == p.table@,
                _ => if plan_allowed(*plan) {
                    r is Allowed
                } else {
                    r is Denied
                },
            },
    {
        if !management_mode {
            return AccessCheck::Allowed;
        }
        let ok = match plan {
            Plan::Query { rewrite_kind } => match rewrite_kind {
                Some(v) => match v {
                    RewriteKind::ShowDatabases
                    | RewriteKind::ShowTables(_)
                    | RewriteKind::ShowColumns(_, _)
                    | RewriteKind::ShowEngines
                    | RewriteKind::ShowSettings
                    | RewriteKind::ShowFunctions
                    | RewriteKind::ShowTableFunctions
                    | RewriteKind::ShowUsers
                    | RewriteKind::ShowStages
                    | RewriteKind::DescribeStage
                    | RewriteKind::ListStage
                    | RewriteKind::Call
                    | RewriteKind::ShowRoles => true,
                    _ => false,
                },
                _ => false,
            },
            // Show.
            Plan::ShowCreateDatabase
            | Plan::ShowCreateTable
            | Plan::ShowGrants
            // Set
            | Plan::SetVariable
            // Database.
            | Plan::CreateDatabase
            | Plan::DropDatabase
            // Table.
            | Plan::CreateTable
            | Plan::DropTable
            | Plan::DropView
            | Plan::CreateView
            // User.
            | Plan::AlterUser
            | Plan::CreateUser
            | Plan::DropUser
            // Roles.
            | Plan::ShowRoles
            | Plan::CreateRole
            | Plan::DropRole
            // Privilege.
            | Plan::GrantPriv
            | Plan::RevokePriv
            | Plan::GrantRole
            | Plan::RevokeRole
            // Stage.
            | Plan::CreateStage
            | Plan::DropStage
            // Network policy.
            | Plan::CreateNetworkPolicy
            | Plan::AlterNetworkPolicy
            | Plan::DropNetworkPolicy
            // UDF
            | Plan::CreateUDF
            | Plan::AlterUDF
            | Plan::DropUDF
            | Plan::UseDatabase => true,
            Plan::DescribeTable(p) => {
                return AccessCheck::NeedTableEngine {
                    catalog: p.catalog.clone(),
                    database: p.database.clone(),
                    table: p.table.clone(),
                };
            },
            _ => false,
        };
        if ok {
            AccessCheck::Allowed
        } else {
            AccessCheck::Denied
        }
    }

    /// Finishes the check of a `DESCRIBE TABLE` plan in management mode from
    /// the engine of the described table: views may not be described.
    pub fn check_table_engine(&self, engine: &str) -> (r: AccessCheck)
        ensures
            if engine@ == VIEW_ENGINE@ {
                r is Denied
            } else {
                r is Allowed
            },
    {
        let engine = String::from_str(engine);
        let view = String::from_str(VIEW_ENGINE);
        if engine == view {
            AccessCheck::Denied
        } else {
            AccessCheck::Allowed
        }
    }

    /// The error that refuses an operation in management mode, for the
    /// operation described by `operation`.
    pub fn permission_denied(operation: &str) -> (r: ErrorCode)
        ensures
            r matches ErrorCode::ManagementModePermissionDenied(message) && message@
                == "Access denied for operation:"@ + operation@ + " in management-mode"@,
    {
        let mut message = String::from_str("Access denied for operation:");
        message.append(operation);
        message.append(" in management-mode");
        ErrorCode::ManagementModePermissionDenied(message)
    }
}

} // verus!
