//! The database file, its schema and the decisions of its migration.
use crate::text::path_is_absolute;
use vstd::prelude::*;

verus! {

/// The library whose tables are meant.
#[derive(Clone, Copy, Debug, PartialEq, Eq, Structural)]
pub enum DBClient {
    LibCloudflare,
    LibNginx,
}

/// The tables of the Cloudflare zones: pending zones and active zones.
pub const CLOUDFLARE_TABLES: &'static str = "CREATE TABLE tblCloudflarePending (\n                ServerName VARCHAR(100) NOT NULL UNIQUE PRIMARY KEY,\n                NewDNS JSON NOT NULL,\n                OldDNS JSON,\n                Registra VARCHAR(100),\n                LastCheck VARCHAR(100) NOT NULL\n            );\n            CREATE TABLE tblCloudflareData (\n                ServerName VARCHAR(100) NOT NULL UNIQUE PRIMARY KEY,\n                ZoneID VARCHAR(100) NOT NULL UNIQUE\n            );";
/// The table of the nginx sites.
pub const NGINX_TABLES: &'static str = "CREATE TABLE tblNginxConf(\n                ServerName VARCHAR(100) NOT NULL UNIQUE PRIMARY KEY,\n                Target JSON,\n                Feature VARCHAR(100) NOT NULL\n            );";
/// All tables, created when no client is named.
pub const ALL_TABLES: &'static str = "CREATE TABLE tblNginxConf(\n            ServerName VARCHAR(100) NOT NULL UNIQUE PRIMARY KEY,\n            Target JSON,\n            Feature VARCHAR(100) NOT NULL\n        );\n        CREATE TABLE tblCloudflarePending (\n            ServerName VARCHAR(100) NOT NULL UNIQUE PRIMARY KEY,\n            NewDNS JSON NOT NULL,\n            OldDNS JSON,\n            Registra VARCHAR(100)\n        );\n        CREATE TABLE tblCloudflareData (\n            ServerName VARCHAR(100) NOT NULL UNIQUE PRIMARY KEY,\n            ZoneID VARCHAR(100) NOT NULL UNIQUE\n        );";

/// The database file: the configured path where it is absolute, else the
/// path under the directory of the running program.
pub open spec fn database_file(database: Seq<char>, exe_dir: Seq<char>) -> Seq<char> {
    if database.len() > 0 && database[0] == '/' {
        database
    } else {
        exe_dir + "/"@ + database
    }
}

/// Where the database file is (see `database_file`).
pub fn database_path(database: &str, exe_dir: &str) -> (r: String)
    ensures
        r@ == database_file(database@, exe_dir@),
{
    if path_is_absolute(database) {
        String::from_str(database)
    } else {
        let mut s = String::from_str(exe_dir);
        s.append("/");
        s.append(database);
        s
    }
}

/// The settings file beside the running program.
pub fn dotenv_path(exe_dir: &str) -> (r: String)
    ensures
        r@ == exe_dir@ + "/.env"@,
{
    let mut s = String::from_str(exe_dir);
    s.append("/.env");
    s
}

/// The statements that create the tables of a client (all tables where no
/// client is named).
pub open spec fn tables_of(db: Option<DBClient>) -> Seq<char> {
    match db {
        Some(DBClient::LibCloudflare) => CLOUDFLARE_TABLES@,
        Some(DBClient::LibNginx) => NGINX_TABLES@,
        None => ALL_TABLES@,
    }
}

/// The batch that creates the tables of a client in one transaction: the
/// words `BEGIN;`, the statements and `COMMIT;`, joined by single spaces.
pub fn create_tables_batch(db: Option<DBClient>) -> (r: String)
    ensures
        r@ == "BEGIN;"@ + " "@ + tables_of(db) + " "@ + "COMMIT;"@,
{
    let tables: &str = match db {
        Some(DBClient::LibCloudflare) => CLOUDFLARE_TABLES,
        Some(DBClient::LibNginx) => NGINX_TABLES,
        None => ALL_TABLES,
    };
    let mut s = String::from_str("BEGIN;");
    s.append(" ");
    s.append(tables);
    s.append(" ");
    s.append("COMMIT;");
    s
}

/// The batch that drops the tables of a client.
pub open spec fn drop_text(db: DBClient) -> Seq<char> {
    match db {
        DBClient::LibCloudflare => "BEGIN; DROP TABLE tblCloudflarePending; DROP TABLE tblCloudflareData; COMMIT;"@,
        DBClient::LibNginx => "BEGIN; DROP TABLE tblNginxConf; COMMIT;"@,
    }
}

/// The batch that drops the tables of a client, for a forced migration.
pub fn drop_tables_batch(db: DBClient) -> (r: &'static str)
    ensures
        r@ == drop_text(db),
{
    match db {
        DBClient::LibCloudflare => "BEGIN; DROP TABLE tblCloudflarePending; DROP TABLE tblCloudflareData; COMMIT;",
        DBClient::LibNginx => "BEGIN; DROP TABLE tblNginxConf; COMMIT;",
    }
}

/// The query that counts a client's tables, with its parameters: the
/// names of the tables.
pub open spec fn count_query_text(db: DBClient) -> (Seq<char>, Seq<Seq<char>>) {
    match db {
        DBClient::LibCloudflare => (
            "SELECT COUNT(name) FROM sqlite_master WHERE type='table' AND name=?1 OR name=?2;"@,
            seq!["tblCloudflarePending"@, "tblCloudflareData"@],
        ),
        DBClient::LibNginx => (
            "SELECT COUNT(name) FROM sqlite_master WHERE type='table' AND name=?1"@,
            seq!["tblNginxConf"@],
        ),
    }
}

/// The query that counts the tables of a client, and its parameters.
pub fn table_count_query(db: DBClient) -> (r: (&'static str, Vec<&'static str>))
    ensures
        r.0@ == count_query_text(db).0,
        r.1@.map_values(|n: &'static str| n@) == count_query_text(db).1,
{
    match db {
        DBClient::LibCloudflare => {
            let names: Vec<&'static str> = vec!["tblCloudflarePending", "tblCloudflareData"];
            assert(names@.map_values(|n: &'static str| n@) =~= count_query_text(db).1);
            ("SELECT COUNT(name) FROM sqlite_master WHERE type='table' AND name=?1 OR name=?2;", names)
        },
        DBClient::LibNginx => {
            let names: Vec<&'static str> = vec!["tblNginxConf"];
            assert(names@.map_values(|n: &'static str| n@) =~= count_query_text(db).1);
            ("SELECT COUNT(name) FROM sqlite_master WHERE type='table' AND name=?1", names)
        },
    }
}

/// How many tables a client has.
pub open spec fn table_total(db: DBClient) -> nat {
    match db {
        DBClient::LibCloudflare => 2,
        DBClient::LibNginx => 1,
    }
}

/// The outcome of a migration once the client's tables were counted: where
/// the count is not the client's number of tables, the tables are created
/// and the outcome is `Some(0)`; otherwise nothing is done and it is `None`.
pub fn migration_outcome(db: DBClient, count: usize) -> (r: Option<u8>)
    ensures
        r == (if count != table_total(db) { Some(0u8) } else { None::<u8> }),
{
    let total: usize = match db {
        DBClient::LibCloudflare => 2,
        DBClient::LibNginx => 1,
    };
    if count != total {
        Some(0)
    } else {
        None
    }
}

} // verus!
