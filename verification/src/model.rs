//! The data carried through one request: the connection parameters, the
//! request itself, the result reported back, and the error taxonomy.

use vstd::prelude::*;
use vstd::string::StringExecFns;

verus! {

/// Where and as whom to connect. Supplied per request and used for at most
/// one connection attempt.
pub struct ConnectionInfo {
    pub host: String,
    pub port: u16,
    pub user: String,
    pub password: String,
    pub database: String,
}

/// One inbound call: the raw SQL statement and the target connection.
pub struct ExecuteSqlRequest {
    pub sql: String,
    pub connection: ConnectionInfo,
}

/// What a finished execution reports back.
pub struct ExecuteSqlResponse {
    pub success: bool,
    pub message: String,
    pub rows_affected: Option<u64>,
}

/// How a statement is dispatched: database creation is special-cased,
/// everything else runs as given.
#[derive(Clone, Copy, Debug, PartialEq, Eq, Structural)]
pub enum StatementClass {
    CreateDatabase,
    Generic,
}

/// Every way a dispatched request can fail. Each failure is terminal for
/// its request: nothing is retried.
#[derive(Debug)]
pub enum SqlError {
    /// A creation statement with too few tokens to name the database.
    InvalidStatement,
    /// The connection to the target database could not be opened.
    ConnectFailed { detail: String },
    /// The connection to the bootstrap database could not be opened.
    BootstrapConnectFailed { detail: String },
    /// The connection stood but the statement failed.
    ExecuteFailed { detail: String },
    /// The creation command failed; names the attempted database.
    CreateFailed { db_name: String, detail: String },
}

/// The human-readable message for each failure, naming the phase that
/// failed and, for a failed creation, the attempted database.
pub open spec fn error_message(e: SqlError) -> Seq<char> {
    match e {
        SqlError::InvalidStatement => "Invalid CREATE DATABASE statement"@,
        SqlError::ConnectFailed { detail } => "Failed to connect to database: "@ + detail@,
        SqlError::BootstrapConnectFailed { detail } => "Failed to connect to postgres database: "@
            + detail@,
        SqlError::ExecuteFailed { detail } => "Failed to execute SQL query: "@ + detail@,
        SqlError::CreateFailed { db_name, detail } => "Failed to create database '"@ + db_name@
            + "': "@ + detail@,
    }
}

impl SqlError {
    /// Renders the failure for the response envelope.
    pub fn message(&self) -> (m: String)
        ensures
            m@ == error_message(*self),
    {
        match self {
            SqlError::InvalidStatement => {
                let m = String::from_str("Invalid CREATE DATABASE statement");
                assert(m@ =~= error_message(*self));
                m
            },
            SqlError::ConnectFailed { detail } => {
                let mut m = String::from_str("Failed to connect to database: ");
                m.append(detail.as_str());
                assert(m@ =~= error_message(*self));
                m
            },
            SqlError::BootstrapConnectFailed { detail } => {
                let mut m = String::from_str("Failed to connect to postgres database: ");
                m.append(detail.as_str());
                assert(m@ =~= error_message(*self));
                m
            },
            SqlError::ExecuteFailed { detail } => {
                let mut m = String::from_str("Failed to execute SQL query: ");
                m.append(detail.as_str());
                assert(m@ =~= error_message(*self));
                m
            },
            SqlError::CreateFailed { db_name, detail } => {
                let mut m = String::from_str("Failed to create database '");
                m.append(db_name.as_str());
                m.append("': ");
                m.append(detail.as_str());
                assert(m@ =~= error_message(*self));
                m
            },
        }
    }
}

} // verus!
