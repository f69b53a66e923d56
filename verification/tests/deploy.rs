use hosting_helper::command::{
    certbot_delete_args, certbot_install_args, certbot_reinstall_args, compose_args, default_cert_args, ComposeAction,
    CommandOutput,
};
use hosting_helper::deploy::env::{build_env_file, env_file, env_map, port_from_env, update_env_file};
use hosting_helper::deploy::log::{log_dir, log_entry, log_file_path, log_search_step, read_log, timed_log_entry, LogSearch};
use hosting_helper::deploy::pipeline::{deploy_step, failure_text, DeployStage};
use hosting_helper::deploy::table::{
    query_existence_from_tbl_deploydata, select_all_ports_from_tbl_deploydata, select_themedata_from_tbl_deploydata,
    DeployRow,
};
use hosting_helper::deploy::themes::{
    combined_logs, existing_site_reply, file_destination, log_reply, missing_site_reply, site_dir, FilesData,
    ThemesData,
};
use hosting_helper::deploy::tools::{
    cloned_project, clone_path, docker_log_reply, docker_reply, existing_project, project_name, tool_check,
};

fn pairs(ps: &[(&str, &str)]) -> Vec<(String, String)> {
    ps.iter().map(|(k, v)| (k.to_string(), v.to_string())).collect()
}

#[test]
fn environment_file_of_new_site() {
    let env = build_env_file(&pairs(&[("A", "1"), ("B", "2"), ("A", "3")]), "themes/x", "/base", "x.com", "proj", "p", 8080);
    assert_eq!(
        env,
        "A=3\nB=2\nTHEMEPATH=themes/x\nBASEPATH=/base\nCONTAINER_NAME=x.com\nROOTPROJ=proj\nROOTPROJNAME=p\nPORT_NUMBER=8080"
    );
    assert_eq!(port_from_env(env.as_str()), Some(8080));
}

#[test]
fn port_round_trip_with_own_port_key() {
    let env = build_env_file(&pairs(&[("PORT_NUMBER", "1"), ("HOST", "h")]), "t", "b", "c", "r", "n", 65535);
    assert!(env.starts_with("PORT_NUMBER=65535\nHOST=h"));
    assert_eq!(port_from_env(env.as_str()), Some(65535));
}

#[test]
fn port_reading_edges() {
    assert_eq!(port_from_env("X=1\nPORT_NUMBER=3000\n"), Some(3000));
    assert_eq!(port_from_env("X=1"), None);
    assert_eq!(port_from_env("PORT_NUMBER=70000"), None);
    assert_eq!(port_from_env("PORT_NUMBER=+12"), Some(12));
}

#[test]
fn environment_maps_and_updates() {
    let m = env_map(&pairs(&[("K", "1"), ("L", "2"), ("K", "9")]));
    assert_eq!(m, pairs(&[("K", "9"), ("L", "2")]));
    assert_eq!(env_file(&m), "K=9\nL=2");
    let updated = update_env_file("  ROOTPROJ=old\nK=1\nOTHER=x\n", &pairs(&[("K", "5")]), "dir", "name");
    assert_eq!(updated, "ROOTPROJ=dir\nK=5\nOTHER=x");
    assert_eq!(update_env_file("A=1\nB=2", &Vec::new(), "d", "n"), "\n");
}

#[test]
fn log_files() {
    assert_eq!(log_file_path("/srv/x", 3), "/srv/x/install.log-3");
    assert!(matches!(log_search_step(0, true, true), LogSearch::Next(1)));
    assert!(matches!(log_search_step(4, true, false), LogSearch::Found));
    assert!(matches!(log_search_step(4, false, true), LogSearch::Found));
    assert!(matches!(log_search_step(0, false, false), LogSearch::NotFound));
    assert_eq!(log_dir("/srv/x/install.log-0"), "/srv/x");
    assert_eq!(log_entry("t1", "cloned", false, false), "t1\tcloned\n");
    assert_eq!(log_entry("t2", "deployed", true, false), "t2\tdeployed\n===\nOk");
    assert_eq!(log_entry("t2", "failed", true, true), "t2\tfailed\n===\nError");
}

#[test]
fn log_written_then_read() {
    let mut log = log_entry("2024-01-01 10:00", "Cloned Project Complete", false, false);
    let running = read_log(Some(log.clone()));
    assert_eq!((running.0, running.1), (false, false));
    log.push_str(&log_entry("2024-01-01 10:05", "Deployed the Server", true, false));
    let done = read_log(Some(log.clone()));
    assert_eq!((done.0, done.1), (true, false));
    assert_eq!(done.2, "2024-01-01 10:00\tCloned Project Complete\n2024-01-01 10:05\tDeployed the Server");
    let mut failed = log_entry("2024-01-01 10:00", "Cloned Project Complete", false, false);
    failed.push_str(&log_entry("2024-01-01 10:01", "Error 500: boom", true, true));
    let f = read_log(Some(failed));
    assert_eq!((f.0, f.1), (true, true));
    assert_eq!(f.2, "2024-01-01 10:00\tCloned Project Complete\n2024-01-01 10:01\tError 500: boom\nError");
    assert_eq!(read_log(None), (true, true, String::from("Not Found!")));
    assert_eq!(read_log(Some(String::new())), (false, false, String::from("Starting Up!")));
}

#[test]
fn pipeline_steps() {
    let s = deploy_step(DeployStage::Clone, &Ok(()), false);
    assert_eq!(s.log.message, "Cloned Project Complete");
    assert_eq!(s.next, Some(DeployStage::CopyCompose));
    assert!(!s.log.finished && !s.log.error);
    assert_eq!(deploy_step(DeployStage::CopyDocker, &Ok(()), true).next, Some(DeployStage::StopServer));
    assert_eq!(deploy_step(DeployStage::CopyDocker, &Ok(()), false).next, Some(DeployStage::Build));
    let last = deploy_step(DeployStage::Deploy, &Ok(()), false);
    assert_eq!(last.next, None);
    assert!(last.log.finished && !last.log.error);
    let fail = deploy_step(DeployStage::Build, &Err((500, String::from("npm failed"))), false);
    assert_eq!(fail.log.message, "Error 500: npm failed");
    assert!(fail.log.finished && fail.log.error);
    assert_eq!(fail.next, None);
    assert_eq!(failure_text(404, "x"), "Error 404: x");
}

#[test]
fn site_paths_and_replies() {
    assert_eq!(site_dir("/opt", "themes", "a.com"), "/opt/themes/a.com");
    assert_eq!(missing_site_reply("a.com"), (400, String::from("Server Name 'a.com' does not exists!")));
    assert_eq!(existing_site_reply("a.com"), (400, String::from("Server Name 'a.com' already existed!")));
    let f = FilesData::new(String::from("x.json"), Some(String::from("conf")), String::from("{}"));
    assert_eq!(file_destination("/s", &f), (Some(String::from("/s/conf")), String::from("/s/conf/x.json")));
    let g = FilesData::new(String::from("y"), None, String::new());
    assert_eq!(file_destination("/s", &g), (None, String::from("/s/y")));
    let t = ThemesData::new(String::from("a.com"), String::from("git@x:y/z.git"), pairs(&[("K", "V")]), vec![g]);
    assert_eq!(t.get_server_name(), "a.com");
    assert_eq!(t.get_theme_link(), "git@x:y/z.git");
    assert_eq!(t.get_env().len(), 1);
    assert_eq!(t.get_files()[0].get_filename(), "y");
    assert_eq!(log_reply(true, false, String::from("l")), None);
    assert_eq!(log_reply(true, true, String::from("l")), Some((500, String::from("l"))));
    assert_eq!(log_reply(false, false, String::from("l")), Some((202, String::from("l"))));
    assert_eq!(combined_logs("a", "b"), "a/nb");
}

fn out(code: Option<i32>, stdout: &str, stderr: &str) -> CommandOutput {
    CommandOutput { code, stdout: stdout.as_bytes().to_vec(), stderr: stderr.as_bytes().to_vec() }
}

#[test]
fn git_and_docker_outcomes() {
    assert_eq!(project_name("git@github.com:org/site.git"), "site");
    assert_eq!(project_name("https://host/org/site"), "site");
    assert_eq!(clone_path("/b", "projects", "site"), "/b/projects/site");
    assert_eq!(existing_project("projects", "site"), "projects/site");
    assert_eq!(cloned_project("/b/projects/site/.git/", "/b"), "projects/site");
    assert_eq!(
        tool_check(&Ok(out(Some(0), "Docker version 24.0\n", "")), "docker"),
        Ok(String::from("Your docker version is Docker version 24.0"))
    );
    assert_eq!(
        tool_check(&Ok(out(Some(1), "", "")), "docker compose"),
        Err((500, String::from("Your docker compose has problem. Please reinstall or recheck if usable")))
    );
    assert_eq!(
        tool_check(&Err(String::from("not found")), "docker"),
        Err((500, String::from("Your docker has problem. Please reinstall or recheck if usable")))
    );
    assert_eq!(docker_reply(&Ok(out(Some(0), "", ""))), Ok(()));
    assert_eq!(docker_reply(&Ok(out(Some(1), "", "no such service"))), Err((500, String::from("no such service"))));
    assert_eq!(docker_reply(&Err(String::from("spawn failed"))), Err((500, String::from("spawn failed"))));
    assert_eq!(docker_log_reply(&Ok(out(Some(0), "line\n", ""))), Ok(String::from("line\n")));
    assert_eq!(docker_log_reply(&Ok(out(Some(1), "", "gone"))), Err((500, String::from("gone"))));
}

#[test]
fn program_arguments() {
    assert_eq!(
        certbot_install_args("a.com"),
        vec!["--nginx", "--agree-tos", "-m", "pi@koompi.com", "--reinstall", "--expand", "-d", "a.com"]
    );
    assert_eq!(
        certbot_reinstall_args("a.com"),
        vec!["--nginx", "--agree-tos", "--reinstall", "--expand", "--quiet", "-d", "a.com"]
    );
    assert_eq!(certbot_delete_args("a.com"), vec!["delete", "-n", "--cert-name", "a.com"]);
    let c = default_cert_args("/cert", "hh");
    assert_eq!(c[10], "/cert/hh.key");
    assert_eq!(c[12], "/cert/hh.crt");
    assert_eq!(c.len(), 13);
    assert_eq!(compose_args("/s", ComposeAction::Up), vec!["compose", "-f", "/s/docker-compose.yaml", "up", "-d"]);
    assert_eq!(compose_args("/s", ComposeAction::Build), vec!["compose", "-f", "/s/docker-compose.yaml", "build"]);
    assert_eq!(compose_args("/s", ComposeAction::Down), vec!["compose", "-f", "/s/docker-compose.yaml", "down"]);
}

#[test]
fn deployment_table() {
    let rows: Vec<DeployRow> = vec![
        (8080, String::from("themes/a"), String::from("a.com")),
        (65536 + 80, String::from("themes/b"), String::from("b.com")),
    ];
    assert!(query_existence_from_tbl_deploydata(&rows, "b.com"));
    assert!(!query_existence_from_tbl_deploydata(&rows, "c.com"));
    assert_eq!(select_all_ports_from_tbl_deploydata(&rows), vec![8080, 80]);
    assert_eq!(select_themedata_from_tbl_deploydata(&rows, "b.com"), "themes/b");
}

#[test]
fn redeploy_keeps_port() {
    let env = build_env_file(&pairs(&[("HOST", "h")]), "themes/x", "/base", "x.com", "proj/site", "site", 4321);
    let updated = update_env_file(&env, &pairs(&[("HOST", "k")]), "proj/site2", "site2");
    assert_eq!(port_from_env(&updated), Some(4321));
    assert!(updated.contains("HOST=k"));
    assert!(updated.contains("ROOTPROJ=proj/site2"));
    let wiped = update_env_file(&env, &Vec::new(), "proj/site2", "site2");
    assert_eq!(port_from_env(&wiped), None);
}

#[test]
fn added_deploy_row_is_selected() {
    let mut rows: Vec<DeployRow> = vec![(3001, String::from("/srv/themes/a"), String::from("a.com"))];
    assert!(!query_existence_from_tbl_deploydata(&rows, "b.com"));
    rows.push((3002, String::from("/srv/themes/b"), String::from("b.com")));
    assert!(query_existence_from_tbl_deploydata(&rows, "b.com"));
    assert_eq!(select_themedata_from_tbl_deploydata(&rows, "b.com"), "/srv/themes/b");
    assert_eq!(select_themedata_from_tbl_deploydata(&rows, "a.com"), "/srv/themes/a");
}

#[test]
fn timed_entries_read_back() {
    let first = timed_log_entry("Cloned Project Complete", false, false);
    assert!(first.chars().next().map_or(false, |c| c.is_ascii_digit() || c == '+' || c == '-'));
    assert!(first.ends_with("\tCloned Project Complete\n"));
    let mut log = first.clone();
    log.push_str(&timed_log_entry("Deployed the Server", true, true));
    let (finished, failed, text) = read_log(Some(log));
    assert!(finished && failed);
    let lines: Vec<&str> = text.lines().collect();
    assert_eq!(lines.len(), 3);
    assert!(lines[0].ends_with("\tCloned Project Complete"));
    assert!(lines[1].ends_with("\tDeployed the Server"));
    assert_eq!(lines[2], "Error");
    assert!(lines.iter().all(|l| *l != "===" && *l != "Ok"));
}
