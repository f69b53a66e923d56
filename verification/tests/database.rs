use hosting_helper::database::{
    create_tables_batch, database_path, dotenv_path, drop_tables_batch, migration_outcome, table_count_query, DBClient,
    ALL_TABLES, NGINX_TABLES,
};

#[test]
fn table_batches() {
    let b = create_tables_batch(Some(DBClient::LibNginx));
    assert_eq!(b, format!("BEGIN; {} COMMIT;", NGINX_TABLES));
    assert!(b.contains("CREATE TABLE tblNginxConf("));
    let all = create_tables_batch(None);
    assert_eq!(all, format!("BEGIN; {} COMMIT;", ALL_TABLES));
    assert!(create_tables_batch(Some(DBClient::LibCloudflare)).contains("LastCheck VARCHAR(100) NOT NULL"));
    assert_eq!(drop_tables_batch(DBClient::LibNginx), "BEGIN; DROP TABLE tblNginxConf; COMMIT;");
    assert_eq!(
        drop_tables_batch(DBClient::LibCloudflare),
        "BEGIN; DROP TABLE tblCloudflarePending; DROP TABLE tblCloudflareData; COMMIT;"
    );
}

#[test]
fn migration_decisions() {
    let (q, names) = table_count_query(DBClient::LibCloudflare);
    assert!(q.starts_with("SELECT COUNT(name) FROM sqlite_master"));
    assert_eq!(names, vec!["tblCloudflarePending", "tblCloudflareData"]);
    assert_eq!(table_count_query(DBClient::LibNginx).1, vec!["tblNginxConf"]);
    assert_eq!(migration_outcome(DBClient::LibCloudflare, 2), None);
    assert_eq!(migration_outcome(DBClient::LibCloudflare, 1), Some(0));
    assert_eq!(migration_outcome(DBClient::LibNginx, 1), None);
    assert_eq!(migration_outcome(DBClient::LibNginx, 0), Some(0));
}

#[test]
fn file_locations() {
    assert_eq!(database_path("/var/lib/hh.db", "/opt/hh"), "/var/lib/hh.db");
    assert_eq!(database_path("hh.db", "/opt/hh"), "/opt/hh/hh.db");
    assert_eq!(dotenv_path("/opt/hh"), "/opt/hh/.env");
}
