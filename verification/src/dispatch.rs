//! Statement classification and execution planning.
//!
//! A statement whose trimmed, lower-cased text starts with the literal
//! prefix "create database" is special-cased: its database name is the
//! third whitespace-separated token of the normalized text (one trailing
//! ';' stripped), the connection targets the fixed bootstrap database
//! "postgres", and a fresh `CREATE DATABASE <name>` command is run. Every
//! other statement runs as given, against the database the caller named.
//! This is a textual prefix test only, not SQL parsing, and the extracted
//! name is inserted verbatim into the new command, with no quoting.
//!
//! The functions here make every decision of a request; opening the
//! connection and running the command are the caller's two calls, and
//! their outcomes come back in through [`execute_succeeded`],
//! [`connect_failed`] and [`execute_failed`].

use vstd::prelude::*;
use vstd::string::StringExecFns;

use crate::model::{ConnectionInfo, ExecuteSqlRequest, ExecuteSqlResponse, SqlError, StatementClass};
use crate::text::{
    chars_string, dec_digits, normalize_chars, normalized, split_tokens, str_chars, tokens,
    u64_string,
};

verus! {

/// The prefix that marks a statement as database creation, as characters.
pub open spec fn create_database_prefix() -> Seq<char> {
    seq!['c', 'r', 'e', 'a', 't', 'e', ' ', 'd', 'a', 't', 'a', 'b', 'a', 's', 'e']
}

/// Whether the trimmed, lower-cased statement starts with the literal
/// prefix "create database".
pub open spec fn is_create_database(s: Seq<char>) -> bool {
    &&& normalized(s).len() >= create_database_prefix().len()
    &&& normalized(s).subrange(0, create_database_prefix().len() as int)
        == create_database_prefix()
}

/// How a statement is dispatched.
pub open spec fn classification(s: Seq<char>) -> StatementClass {
    if is_create_database(s) {
        StatementClass::CreateDatabase
    } else {
        StatementClass::Generic
    }
}

/// Drops one trailing ';', if there is one.
pub open spec fn strip_one_semicolon(t: Seq<char>) -> Seq<char> {
    if t.len() > 0 && t.last() == ';' {
        t.drop_last()
    } else {
        t
    }
}

/// The database name a creation statement asks for: the third token of
/// the normalized text, one trailing ';' stripped.
pub open spec fn extracted_db_name(s: Seq<char>) -> Seq<char> {
    strip_one_semicolon(tokens(normalized(s))[2])
}

/// The command run for a creation request; the name goes in verbatim.
pub open spec fn create_command(name: Seq<char>) -> Seq<char> {
    "CREATE DATABASE "@ + name
}

/// The connection string in keyword form, with the given target database.
pub open spec fn conn_string_of(
    host: Seq<char>,
    port: u16,
    user: Seq<char>,
    password: Seq<char>,
    dbname: Seq<char>,
) -> Seq<char> {
    "host="@ + host + " port="@ + dec_digits(port as int) + " user="@ + user + " password="@
        + password + " dbname="@ + dbname
}

/// The connection string of the generic path: the database the caller named.
pub open spec fn generic_conn_string(c: ConnectionInfo) -> Seq<char> {
    conn_string_of(c.host@, c.port, c.user@, c.password@, c.database@)
}

/// The connection string of the creation path: always the bootstrap
/// database "postgres", since the named database does not exist yet.
pub open spec fn bootstrap_conn_string(c: ConnectionInfo) -> Seq<char> {
    conn_string_of(c.host@, c.port, c.user@, c.password@, "postgres"@)
}

/// The creation path never looks at the descriptor's own `database` field:
/// two descriptors that agree on everything else get the same bootstrap
/// connection string.
pub proof fn lemma_bootstrap_ignores_database(a: ConnectionInfo, b: ConnectionInfo)
    requires
        a.host == b.host,
        a.port == b.port,
        a.user == b.user,
        a.password == b.password,
    ensures
        bootstrap_conn_string(a) == bootstrap_conn_string(b),
{
}

/// Everything the caller must do for one request: connect with
/// `conn_string`, then run `command`.
pub enum Plan {
    Generic { conn_string: String, command: String },
    CreateDatabase { conn_string: String, command: String, db_name: String },
}

/// The connection string of a plan.
pub open spec fn plan_conn_string(p: Plan) -> Seq<char> {
    match p {
        Plan::Generic { conn_string, .. } => conn_string@,
        Plan::CreateDatabase { conn_string, .. } => conn_string@,
    }
}

/// The command of a plan.
pub open spec fn plan_command(p: Plan) -> Seq<char> {
    match p {
        Plan::Generic { command, .. } => command@,
        Plan::CreateDatabase { command, .. } => command@,
    }
}

impl Plan {
    /// The string to connect with.
    pub fn conn_string(&self) -> (s: &String)
        ensures
            s@ == plan_conn_string(*self),
    {
        match self {
            Plan::Generic { conn_string, .. } => conn_string,
            Plan::CreateDatabase { conn_string, .. } => conn_string,
        }
    }

    /// The statement to execute.
    pub fn command(&self) -> (s: &String)
        ensures
            s@ == plan_command(*self),
    {
        match self {
            Plan::Generic { command, .. } => command,
            Plan::CreateDatabase { command, .. } => command,
        }
    }
}

/// The prefix that marks a statement as database creation, as a vector.
fn create_database_prefix_chars() -> (v: Vec<char>)
    ensures
        v@ == create_database_prefix(),
{
    let v = str_chars("create database");
    proof {
        reveal_strlit("create database");
        assert(v@ =~= create_database_prefix());
    }
    v
}

/// Whether `s` starts with `pre`.
fn starts_with(s: &Vec<char>, pre: &Vec<char>) -> (r: bool)
    ensures
        r == (s@.len() >= pre@.len() && s@.subrange(0, pre@.len() as int) == pre@),
{
    if s.len() < pre.len() {
        return false;
    }
    let mut j: usize = 0;
    while j < pre.len()
        invariant
            j <= pre@.len() <= s@.len(),
            forall|k: int| 0 <= k < j ==> s@[k] == pre@[k],
        decreases pre@.len() - j,
    {
        if s[j] != pre[j] {
            assert(s@.subrange(0, pre@.len() as int)[j as int] != pre@[j as int]);
            return false;
        }
        j = j + 1;
    }
    assert(s@.subrange(0, pre@.len() as int) =~= pre@);
    true
}

/// Classifies a statement: database creation exactly when the trimmed,
/// lower-cased text starts with "create database", generic otherwise.
pub fn classify(sql: &str) -> (c: StatementClass)
    ensures
        c == classification(sql@),
{
    let chars = str_chars(sql);
    let norm = normalize_chars(&chars);
    let pre = create_database_prefix_chars();
    if starts_with(&norm, &pre) {
        StatementClass::CreateDatabase
    } else {
        StatementClass::Generic
    }
}

/// Drops one trailing ';' from a token, if there is one.
fn strip_semicolon(t: &Vec<char>) -> (r: Vec<char>)
    ensures
        r@ == strip_one_semicolon(t@),
{
    let keep: usize = if t.len() > 0 && t[t.len() - 1] == ';' {
        t.len() - 1
    } else {
        t.len()
    };
    let mut r: Vec<char> = Vec::new();
    let mut i: usize = 0;
    while i < keep
        invariant
            keep <= t@.len(),
            i <= keep,
            r@ == t@.take(keep as int).take(i as int),
        decreases keep - i,
    {
        r.push(t[i]);
        i = i + 1;
        assert(r@ =~= t@.take(keep as int).take(i as int));
    }
    assert(r@ =~= t@.take(keep as int));
    assert(r@ =~= strip_one_semicolon(t@));
    r
}

/// Builds a keyword-form connection string.
fn build_conn_string(
    host: &String,
    port: u16,
    user: &String,
    password: &String,
    dbname: &str,
) -> (s: String)
    ensures
        s@ == conn_string_of(host@, port, user@, password@, dbname@),
{
    let mut s = String::from_str("host=");
    s.append(host.as_str());
    s.append(" port=");
    let p = u64_string(port as u64);
    s.append(p.as_str());
    s.append(" user=");
    s.append(user.as_str());
    s.append(" password=");
    s.append(password.as_str());
    s.append(" dbname=");
    s.append(dbname);
    assert(s@ =~= conn_string_of(host@, port, user@, password@, dbname@));
    s
}

/// Decides everything about a request before any connection is opened.
///
/// A generic statement gets a plan that connects to the database the
/// caller named and runs the statement exactly as given, un-normalized. A
/// creation statement gets a plan that connects to the bootstrap database
/// and runs a fresh `CREATE DATABASE <name>` command — unless it has fewer
/// than three tokens, in which case the request fails here and no
/// connection is ever attempted.
pub fn plan_request(req: &ExecuteSqlRequest) -> (r: Result<Plan, SqlError>)
    ensures
        r is Err <==> is_create_database(req.sql@) && tokens(normalized(req.sql@)).len() < 3,
        r is Err ==> r == Err::<Plan, SqlError>(SqlError::InvalidStatement),
        !is_create_database(req.sql@) ==> (r matches Ok(p) && p matches Plan::Generic {
            conn_string,
            command,
        } && conn_string@ == generic_conn_string(req.connection) && command@ == req.sql@),
        is_create_database(req.sql@) && tokens(normalized(req.sql@)).len() >= 3 ==> (r matches Ok(p)
            && p matches Plan::CreateDatabase { conn_string, command, db_name }
            && conn_string@ == bootstrap_conn_string(req.connection)
            && db_name@ == extracted_db_name(req.sql@)
            && command@ == create_command(extracted_db_name(req.sql@))),
{
    let chars = str_chars(req.sql.as_str());
    let norm = normalize_chars(&chars);
    let pre = create_database_prefix_chars();
    if starts_with(&norm, &pre) {
        let toks = split_tokens(&norm);
        if toks.len() < 3 {
            Err(SqlError::InvalidStatement)
        } else {
            let name = strip_semicolon(&toks[2]);
            let db_name = chars_string(&name);
            let mut command = String::from_str("CREATE DATABASE ");
            command.append(db_name.as_str());
            let conn_string = build_conn_string(
                &req.connection.host,
                req.connection.port,
                &req.connection.user,
                &req.connection.password,
                "postgres",
            );
            assert(command@ =~= create_command(extracted_db_name(req.sql@)));
            Ok(Plan::CreateDatabase { conn_string, command, db_name })
        }
    } else {
        let conn_string = build_conn_string(
            &req.connection.host,
            req.connection.port,
            &req.connection.user,
            &req.connection.password,
            req.connection.database.as_str(),
        );
        let command = req.sql.clone();
        Ok(Plan::Generic { conn_string, command })
    }
}

/// The message reported for a successful generic execution; it embeds the
/// affected-row count.
pub open spec fn generic_success_message(rows: u64) -> Seq<char> {
    "SQL executed successfully. Rows affected: "@ + dec_digits(rows as int)
}

/// The message reported for a successful creation; it names the database.
pub open spec fn create_success_message(name: Seq<char>) -> Seq<char> {
    "Database '"@ + name + "' created successfully"@
}

/// Shapes the response once the plan's command has run.
///
/// A generic execution reports the row count the driver gave back. A
/// creation reports a fixed count of one, whatever the driver reported:
/// creation statements carry no natural row count.
pub fn execute_succeeded(plan: &Plan, rows: u64) -> (resp: ExecuteSqlResponse)
    ensures
        resp.success == true,
        *plan matches Plan::Generic { .. } ==> resp.rows_affected == Some(rows) && resp.message@
            == generic_success_message(rows),
        *plan matches Plan::CreateDatabase { db_name, .. } ==> resp.rows_affected == Some(1u64)
            && resp.message@ == create_success_message(db_name@),
{
    match plan {
        Plan::Generic { .. } => {
            let mut m = String::from_str("SQL executed successfully. Rows affected: ");
            let digits = u64_string(rows);
            m.append(digits.as_str());
            assert(m@ =~= generic_success_message(rows));
            ExecuteSqlResponse { success: true, message: m, rows_affected: Some(rows) }
        },
        Plan::CreateDatabase { db_name, .. } => {
            let mut m = String::from_str("Database '");
            m.append(db_name.as_str());
            m.append("' created successfully");
            assert(m@ =~= create_success_message(db_name@));
            ExecuteSqlResponse { success: true, message: m, rows_affected: Some(1) }
        },
    }
}

/// Wraps a failed connection attempt in the error of its path: the
/// generic path names the target database's connection, the creation path
/// names the bootstrap connection.
pub fn connect_failed(plan: &Plan, detail: String) -> (e: SqlError)
    ensures
        *plan matches Plan::Generic { .. } ==> e == (SqlError::ConnectFailed { detail }),
        *plan matches Plan::CreateDatabase { .. } ==> e == (SqlError::BootstrapConnectFailed {
            detail,
        }),
{
    match plan {
        Plan::Generic { .. } => SqlError::ConnectFailed { detail },
        Plan::CreateDatabase { .. } => SqlError::BootstrapConnectFailed { detail },
    }
}

/// Wraps a failed execution in the error of its path: the creation path
/// names the database it tried to create.
pub fn execute_failed(plan: &Plan, detail: String) -> (e: SqlError)
    ensures
        *plan matches Plan::Generic { .. } ==> e == (SqlError::ExecuteFailed { detail }),
        *plan matches Plan::CreateDatabase { db_name, .. } ==> e == (SqlError::CreateFailed {
            db_name,
            detail,
        }),
{
    match plan {
        Plan::Generic { .. } => SqlError::ExecuteFailed { detail },
        Plan::CreateDatabase { db_name, .. } => SqlError::CreateFailed {
            db_name: db_name.clone(),
            detail,
        },
    }
}

} // verus!
