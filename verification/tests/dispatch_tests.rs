use sql_dispatch::dispatch::{
    classify, connect_failed, execute_failed, execute_succeeded, plan_request, Plan,
};
use sql_dispatch::model::{ConnectionInfo, ExecuteSqlRequest, SqlError, StatementClass};

fn conn() -> ConnectionInfo {
    ConnectionInfo {
        host: String::from("localhost"),
        port: 5432,
        user: String::from("admin"),
        password: String::from("secret"),
        database: String::from("appdb"),
    }
}

fn request(sql: &str) -> ExecuteSqlRequest {
    ExecuteSqlRequest { sql: String::from(sql), connection: conn() }
}

#[test]
fn classify_create_with_surrounding_whitespace() {
    assert_eq!(classify(" Create Database Foo;"), StatementClass::CreateDatabase);
}

#[test]
fn classify_plain_select_is_generic() {
    assert_eq!(classify("select 1"), StatementClass::Generic);
}

#[test]
fn classify_prefix_only_not_containment() {
    assert_eq!(
        classify("drop table x; create database y"),
        StatementClass::Generic
    );
}

#[test]
fn classify_double_space_breaks_the_prefix() {
    assert_eq!(classify("create  database x"), StatementClass::Generic);
}

#[test]
fn classify_uppercase_create_database() {
    assert_eq!(classify("CREATE DATABASE sales;"), StatementClass::CreateDatabase);
}

#[test]
fn classify_empty_statement_is_generic() {
    assert_eq!(classify(""), StatementClass::Generic);
    assert_eq!(classify("   "), StatementClass::Generic);
}

#[test]
fn classify_is_a_prefix_test_not_a_word_test() {
    // "create databases" carries the prefix as raw text, so it takes the
    // creation path and then fails for want of a third token.
    assert_eq!(classify("create databases"), StatementClass::CreateDatabase);
    let planned = plan_request(&request("create databases"));
    assert!(matches!(planned, Err(SqlError::InvalidStatement)));
}

#[test]
fn generic_plan_runs_statement_as_given_on_named_database() {
    let plan = plan_request(&request("DELETE FROM t")).unwrap();
    match plan {
        Plan::Generic { conn_string, command } => {
            assert_eq!(
                conn_string,
                "host=localhost port=5432 user=admin password=secret dbname=appdb"
            );
            assert_eq!(command, "DELETE FROM t");
        }
        Plan::CreateDatabase { .. } => panic!("generic statement planned as creation"),
    }
}

#[test]
fn create_plan_targets_bootstrap_database() {
    let plan = plan_request(&request("CREATE DATABASE sales;")).unwrap();
    match plan {
        Plan::CreateDatabase { conn_string, command, db_name } => {
            assert_eq!(
                conn_string,
                "host=localhost port=5432 user=admin password=secret dbname=postgres"
            );
            assert_eq!(db_name, "sales");
            assert_eq!(command, "CREATE DATABASE sales");
        }
        Plan::Generic { .. } => panic!("creation statement planned as generic"),
    }
}

#[test]
fn create_plan_name_comes_from_normalized_text() {
    let plan = plan_request(&request(" Create Database Foo;")).unwrap();
    match plan {
        Plan::CreateDatabase { db_name, command, .. } => {
            assert_eq!(db_name, "foo");
            assert_eq!(command, "CREATE DATABASE foo");
        }
        Plan::Generic { .. } => panic!("creation statement planned as generic"),
    }
}

#[test]
fn create_plan_strips_one_trailing_semicolon_only() {
    let plan = plan_request(&request("create database sales;;")).unwrap();
    match plan {
        Plan::CreateDatabase { db_name, .. } => assert_eq!(db_name, "sales;"),
        Plan::Generic { .. } => panic!("creation statement planned as generic"),
    }
}

#[test]
fn bootstrap_connection_ignores_the_descriptor_database() {
    let mut other = request("CREATE DATABASE sales;");
    other.connection.database = String::from("somewhere_else");
    let planned_a = plan_request(&request("CREATE DATABASE sales;")).unwrap();
    let planned_b = plan_request(&other).unwrap();
    match (planned_a, planned_b) {
        (
            Plan::CreateDatabase { conn_string: a, .. },
            Plan::CreateDatabase { conn_string: b, .. },
        ) => assert_eq!(a, b),
        _ => panic!("creation statement planned as generic"),
    }
}

#[test]
fn three_token_create_without_semicolon_keeps_the_name() {
    let plan = plan_request(&request("create database x")).unwrap();
    match plan {
        Plan::CreateDatabase { db_name, command, .. } => {
            assert_eq!(db_name, "x");
            assert_eq!(command, "CREATE DATABASE x");
        }
        Plan::Generic { .. } => panic!("creation statement planned as generic"),
    }
}

#[test]
fn two_token_create_database_is_invalid() {
    let planned = plan_request(&request("create database"));
    assert!(matches!(planned, Err(SqlError::InvalidStatement)));
}

#[test]
fn padded_two_token_create_database_is_invalid() {
    let planned = plan_request(&request("  CREATE DATABASE  "));
    assert!(matches!(planned, Err(SqlError::InvalidStatement)));
}

#[test]
fn generic_success_reports_driver_row_count() {
    let plan = plan_request(&request("DELETE FROM t")).unwrap();
    let resp = execute_succeeded(&plan, 7);
    assert!(resp.success);
    assert_eq!(resp.rows_affected, Some(7));
    assert_eq!(resp.message, "SQL executed successfully. Rows affected: 7");
}

#[test]
fn create_success_reports_fixed_row_count() {
    let plan = plan_request(&request("CREATE DATABASE sales;")).unwrap();
    let resp = execute_succeeded(&plan, 0);
    assert!(resp.success);
    assert_eq!(resp.rows_affected, Some(1));
    assert_eq!(resp.message, "Database 'sales' created successfully");
}

#[test]
fn connect_failure_names_the_phase() {
    let generic = plan_request(&request("DELETE FROM t")).unwrap();
    let e = connect_failed(&generic, String::from("no route to host"));
    assert_eq!(e.message(), "Failed to connect to database: no route to host");

    let create = plan_request(&request("CREATE DATABASE sales;")).unwrap();
    let e = connect_failed(&create, String::from("no route to host"));
    assert_eq!(
        e.message(),
        "Failed to connect to postgres database: no route to host"
    );
}

#[test]
fn execute_failure_names_the_phase_and_database() {
    let generic = plan_request(&request("DELETE FROM t")).unwrap();
    let e = execute_failed(&generic, String::from("syntax error"));
    assert_eq!(e.message(), "Failed to execute SQL query: syntax error");

    let create = plan_request(&request("CREATE DATABASE sales;")).unwrap();
    let e = execute_failed(&create, String::from("already exists"));
    assert_eq!(
        e.message(),
        "Failed to create database 'sales': already exists"
    );
}

#[test]
fn invalid_statement_has_its_own_message() {
    assert_eq!(
        SqlError::InvalidStatement.message(),
        "Invalid CREATE DATABASE statement"
    );
}
