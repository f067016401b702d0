use servmgr::backup::{artifact_file_name, backup_minecraft_server, PROBE, SAVE_OFF, SAVE_ON};
use servmgr::config::ServerConfig;
use servmgr::plan::{passes_gate, step, Command, Gate, Run};
use servmgr::timestamp::Timestamp;

fn stamp() -> Timestamp {
    Timestamp::new(2024, 3, 5, 7, 8, 9).unwrap()
}

/// Issues the run's commands, answering each with `answer`, and returns them
/// as text in the order issued.
fn drive(run: &mut Run, mut answer: impl FnMut(usize, &Command) -> bool) -> Vec<String> {
    let mut seen = Vec::new();
    while let Some(cmd) = run.current() {
        let ok = answer(seen.len(), cmd);
        seen.push(format!("{:?}", cmd));
        run.advance(ok);
    }
    seen
}

#[test]
fn all_steps_succeed_completes_with_one_archive() {
    let config = ServerConfig::standard();
    let mut run = backup_minecraft_server(&config, "pw", &stamp());
    let mut archives = Vec::new();
    let seen = drive(&mut run, |_, c| {
        if let Command::Archive { dest, source } = c {
            archives.push((dest.clone(), source.clone()));
        }
        true
    });
    assert_eq!(run.outcome(), Some(true));
    assert_eq!(seen.len(), 15);
    assert_eq!(run.issued_count(), 15);
    assert_eq!(archives.len(), 1);
    assert_eq!(
        archives[0].0,
        "/home/mcadmin/minecraft_server/backups/world_backup_2024-03-05_07-08-09.tar.gz"
    );
    assert!(archives[0].0.starts_with("/home/mcadmin/minecraft_server/backups/"));
    assert_eq!(archives[0].1, "/home/mcadmin/minecraft_server/world");
    assert!(seen.last().unwrap().contains("Backup complete: world_backup_2024-03-05_07-08-09.tar.gz"));
}

#[test]
fn autosave_disable_failure_stops_before_flush() {
    let config = ServerConfig::standard();
    let mut run = backup_minecraft_server(&config, "pw", &stamp());
    let mut texts = Vec::new();
    let seen = drive(&mut run, |_, c| match c {
        Command::Rcon { text, .. } => {
            texts.push(text.clone());
            text != SAVE_OFF
        }
        _ => true,
    });
    assert_eq!(run.outcome(), Some(false));
    assert_eq!(seen.len(), 3);
    assert_eq!(texts[0], PROBE);
    let after_probe: Vec<&String> = texts.iter().skip(1).collect();
    assert_eq!(after_probe.len(), 2);
    assert!(after_probe[0].contains("Creating Server Backup..."));
    assert_eq!(after_probe[1], SAVE_OFF);
    assert!(!texts.iter().any(|t| t == "save-all" || t == SAVE_ON));
    assert!(!seen.iter().any(|c| c.starts_with("Archive") || c.starts_with("Pause")));
}

#[test]
fn probe_failure_issues_nothing_else() {
    let config = ServerConfig::standard();
    let mut run = backup_minecraft_server(&config, "pw", &stamp());
    let seen = drive(&mut run, |_, _| false);
    assert_eq!(run.outcome(), Some(false));
    assert_eq!(seen.len(), 1);
    assert!(seen[0].contains("\"list\""));
    assert!(run.current().is_none());
}

#[test]
fn failure_at_each_step_truncates_there() {
    let config = ServerConfig::standard();
    for fail_at in 0..15 {
        let mut run = backup_minecraft_server(&config, "pw", &stamp());
        let seen = drive(&mut run, |i, _| i != fail_at);
        assert_eq!(run.outcome(), Some(false));
        assert_eq!(seen.len(), fail_at + 1);
        assert_eq!(run.issued_count(), fail_at + 1);
    }
}

#[test]
fn backup_steps_in_order() {
    let config = ServerConfig::standard();
    let mut run = backup_minecraft_server(&config, "secret", &stamp());
    let mut kinds = Vec::new();
    drive(&mut run, |_, c| {
        kinds.push(match c {
            Command::Rcon { password, text } => {
                assert_eq!(password, "secret");
                if text.starts_with("execute") { "notice".to_string() } else { text.clone() }
            }
            Command::Pause { seconds } => format!("pause {}", seconds),
            Command::MakeDir { path } => format!("mkdir {}", path),
            Command::Archive { .. } => "archive".to_string(),
            other => panic!("unexpected {:?}", other),
        });
        true
    });
    let expected = vec![
        "list", "notice", "save-off", "notice", "notice", "save-all", "pause 10", "notice",
        "mkdir /home/mcadmin/minecraft_server/backups", "notice", "archive", "notice", "save-on",
        "notice", "notice",
    ];
    assert_eq!(kinds, expected);
}

#[test]
fn artifact_name_has_fixed_shape() {
    assert_eq!(artifact_file_name(&stamp()), "world_backup_2024-03-05_07-08-09.tar.gz");
    let early = Timestamp::new(999, 12, 31, 23, 59, 59).unwrap();
    assert_eq!(artifact_file_name(&early), "world_backup_0999-12-31_23-59-59.tar.gz");
    let zero = Timestamp::new(0, 1, 1, 0, 0, 0).unwrap();
    assert_eq!(artifact_file_name(&zero), "world_backup_0000-01-01_00-00-00.tar.gz");
    assert_eq!(artifact_file_name(&zero).len(), 39);
}

#[test]
fn timestamp_rejects_times_that_do_not_exist() {
    assert!(Timestamp::new(2023, 2, 29, 0, 0, 0).is_none());
    assert!(Timestamp::new(2024, 2, 29, 0, 0, 0).is_some());
    assert!(Timestamp::new(1900, 2, 29, 0, 0, 0).is_none());
    assert!(Timestamp::new(2000, 2, 29, 0, 0, 0).is_some());
    assert!(Timestamp::new(2024, 4, 31, 0, 0, 0).is_none());
    assert!(Timestamp::new(2024, 13, 1, 0, 0, 0).is_none());
    assert!(Timestamp::new(2024, 0, 1, 0, 0, 0).is_none());
    assert!(Timestamp::new(2024, 1, 0, 0, 0, 0).is_none());
    assert!(Timestamp::new(2024, 1, 1, 24, 0, 0).is_none());
    assert!(Timestamp::new(2024, 1, 1, 0, 60, 0).is_none());
    assert!(Timestamp::new(2024, 1, 1, 0, 0, 60).is_none());
    assert!(Timestamp::new(10000, 1, 1, 0, 0, 0).is_none());
    assert!(Timestamp::new(-1, 1, 1, 0, 0, 0).is_none());
    assert_eq!(Timestamp::new(2024, 3, 5, 7, 8, 9).unwrap().format(), "2024-03-05_07-08-09");
}

#[test]
fn gates_decide_on_the_reported_outcome() {
    assert!(passes_gate(Gate::OnSuccess, true));
    assert!(!passes_gate(Gate::OnSuccess, false));
    assert!(passes_gate(Gate::OnFailure, false));
    assert!(!passes_gate(Gate::OnFailure, true));
    assert!(passes_gate(Gate::Always, true));
    assert!(passes_gate(Gate::Always, false));
}

#[test]
fn empty_run_has_completed() {
    let run = Run::new(Vec::new());
    assert_eq!(run.outcome(), Some(true));
    assert!(run.current().is_none());
}

#[test]
fn ended_run_ignores_further_results() {
    let mut run = Run::new(vec![
        step(Command::Pause { seconds: 1 }, Gate::OnSuccess),
        step(Command::Pause { seconds: 2 }, Gate::OnSuccess),
    ]);
    run.advance(false);
    assert_eq!(run.outcome(), Some(false));
    run.advance(true);
    assert_eq!(run.outcome(), Some(false));
    assert_eq!(run.issued_count(), 1);
}
