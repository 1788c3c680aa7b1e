use ani_scheduler::cron_clock::MAX_CRON_INSTANT_MILLIS;
use ani_scheduler::records::AniItemResult;
use ani_scheduler::task::build_tasks_from_meta;
use ani_scheduler::task::resolve_cmd;
use ani_scheduler::task::schedulable_tasks;
use ani_scheduler::task::CmdKind;
use ani_scheduler::task::Task;
use ani_scheduler::task::TaskBuildError;
use ani_scheduler::task::TaskMeta;
use ani_scheduler::task::TaskResult;

fn meta(name: &str, cron_expr: &str, cmd: &str, arg: &str, retry_times: u8) -> TaskMeta {
    TaskMeta {
        name: name.to_string(),
        cron_expr: cron_expr.to_string(),
        cmd: cmd.to_string(),
        arg: arg.to_string(),
        retry_times,
    }
}

#[test]
fn task_round_trips_its_descriptor() {
    let task = Task::new(
        "哔哩哔哩国创".to_string(),
        "0 30 8,9,10,11,12,16,17,18,19,20,21,22,23 * * * *".to_string(),
        "fetch_bilibili_ani_data".to_string(),
        "https://api.bilibili.com/pgc/web/timeline?types=4&before=6&after=6".to_string(),
        3,
    )
    .unwrap();
    assert_eq!(task.name, "哔哩哔哩国创");
    assert_eq!(
        task.cron_expr,
        "0 30 8,9,10,11,12,16,17,18,19,20,21,22,23 * * * *"
    );
    assert_eq!(task.retry_times, 3);
    assert_eq!(task.cmd, CmdKind::FetchBilibiliAniData);
    assert_eq!(
        task.arg,
        "https://api.bilibili.com/pgc/web/timeline?types=4&before=6&after=6"
    );
}

#[test]
fn invalid_cron_expression_is_rejected() {
    let r = Task::new(
        "broken".to_string(),
        "not a cron expression".to_string(),
        "fetch_bilibili_ani_data".to_string(),
        "http://example.com".to_string(),
        1,
    );
    match r {
        Err(TaskBuildError::InvalidCronExpr { name, cron_expr }) => {
            assert_eq!(name, "broken");
            assert_eq!(cron_expr, "not a cron expression");
        }
        Ok(_) => panic!("a malformed cron expression must be rejected"),
    }
}

#[test]
fn unknown_command_degrades_to_fallback() {
    let task = Task::new(
        "任务B".to_string(),
        "0/15 * * * * * *".to_string(),
        "unknown_cmd".to_string(),
        "https://example.com/b".to_string(),
        0,
    )
    .unwrap();
    assert_eq!(task.cmd, CmdKind::Fallback);
}

#[test]
fn every_registry_command_resolves() {
    assert_eq!(resolve_cmd("fetch_bilibili_ani_data"), CmdKind::FetchBilibiliAniData);
    assert_eq!(resolve_cmd("fetch_iqiyi_ani_data"), CmdKind::FetchIqiyiAniData);
    assert_eq!(resolve_cmd("fetch_mikanani_ani_data"), CmdKind::FetchMikananiAniData);
    assert_eq!(resolve_cmd("fetch_agedm_ani_data"), CmdKind::FetchAgedmAniData);
    assert_eq!(resolve_cmd("fetch_youku_ani_data"), CmdKind::FetchYoukuAniData);
    assert_eq!(resolve_cmd("fetch_qq_ani_data"), CmdKind::FetchQqAniData);
    assert_eq!(resolve_cmd(""), CmdKind::Fallback);
}

#[test]
fn build_keeps_good_tasks_and_reports_bad_ones() {
    let metas = vec![
        meta("任务A", "0/10 * * * * * *", "fetch_agedm_ani_data", "https://example.com/a", 1),
        meta("坏任务", "every ten seconds", "fetch_agedm_ani_data", "https://example.com/x", 1),
        meta("任务B", "0/15 * * * * * *", "unknown_cmd", "https://example.com/b", 0),
    ];
    let built = build_tasks_from_meta(&metas);
    assert_eq!(built.len(), 3);
    assert!(built[0].is_ok());
    assert!(built[1].is_err());
    assert!(built[2].is_ok());

    let tasks = schedulable_tasks(&built);
    assert_eq!(tasks.len(), 2);
    assert_eq!(tasks[0].name, "任务A");
    assert_eq!(tasks[1].name, "任务B");
    assert_eq!(tasks[1].cmd, CmdKind::Fallback);
}

#[test]
fn schedule_parses_exactly_for_valid_expressions() {
    let task = meta_task("0/10 * * * * * *");
    assert!(task.schedule().is_some());
}

fn meta_task(expr: &str) -> Task {
    Task::new(
        "t".to_string(),
        expr.to_string(),
        "fetch_agedm_ani_data".to_string(),
        "http://example.com".to_string(),
        0,
    )
    .unwrap()
}

#[test]
fn next_fire_is_in_the_future_for_a_recurring_schedule() {
    let task = meta_task("0/10 * * * * * *");
    let now: i64 = 1_700_000_000_000;
    let fire = task.next_fire(now).unwrap();
    assert!(fire > now);
    assert_eq!(fire % 10_000, 0);
    assert!(fire - now <= 10_000);
}

#[test]
fn next_fire_past_the_cron_range_is_none() {
    let task = meta_task("0/10 * * * * * *");
    assert_eq!(task.next_fire(MAX_CRON_INSTANT_MILLIS), None);
    assert_eq!(task.next_fire(i64::MAX), None);
}

#[test]
fn success_result_carries_name_and_payload() {
    let payload = AniItemResult { entries: vec![("星期一".to_string(), vec![])] };
    let r = TaskResult::success("任务A".to_string(), payload.clone());
    assert_eq!(r.name, "任务A");
    assert_eq!(r.result, Some(payload));
}
