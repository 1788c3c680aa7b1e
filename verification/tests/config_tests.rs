use ani_scheduler::config::AppConfig;
use ani_scheduler::config::ConfigError;
use ani_scheduler::config::DataSource;
use ani_scheduler::config::SourceCategory;

fn source(name: &str, url: &str, cmd: &str, cron_expr: &str, retry_times: u8) -> DataSource {
    DataSource {
        name: name.to_string(),
        url: url.to_string(),
        cmd: cmd.to_string(),
        cron_expr: cron_expr.to_string(),
        retry_times,
    }
}

fn anime_sources() -> Vec<DataSource> {
    vec![
        source(
            "哔哩哔哩国创",
            "https://api.bilibili.com/pgc/web/timeline?types=4&before=6&after=6",
            "fetch_bilibili_ani_data",
            "0 30 8,9,10,11,12,16,17,18,19,20,21,22,23 * * * *",
            3,
        ),
        source(
            "爱奇艺",
            "https://mesh.if.iqiyi.com/portal/lw/v7/channel/cartoon",
            "fetch_iqiyi_ani_data",
            "0 30 8,9,10,11,12,16,17,18,19,20,21,22,23 * * * *",
            3,
        ),
        source(
            "蜜柑计划",
            "https://mikanani.me",
            "fetch_mikanani_ani_data",
            "0 30 8,9,10,11,12,16,17,18,19,20,21,22,23 * * * *",
            3,
        ),
        source(
            "AGE动漫",
            "https://www.agedm.vip/update",
            "fetch_agedm_ani_data",
            "0 30 8,9,10,11,12,16,17,18,19,20,21,22,23 * * * *",
            3,
        ),
        source(
            "优酷动漫",
            "https://www.youku.com/ku/webcomic",
            "fetch_youku_ani_data",
            "0 30 8,9,10,11,12,16,17,18,19,20,21,22,23 * * * *",
            3,
        ),
        source(
            "腾讯视频",
            "https://v.qq.com/channel/cartoon",
            "fetch_qq_ani_data",
            "0 30 8,9,10,11,12,16,17,18,19,20,21,22,23 * * * *",
            3,
        ),
    ]
}

fn full_config() -> AppConfig {
    AppConfig {
        datasource: vec![
            SourceCategory { category: "anime".to_string(), sources: anime_sources() },
            SourceCategory {
                category: "drama".to_string(),
                sources: vec![source(
                    "腾讯视频",
                    "https://v.qq.com/channel/tv",
                    "fetch_qq_ani_data",
                    "0 30 8 * * * *",
                    1,
                )],
            },
        ],
    }
}

#[test]
fn startup_test_get_task_metas() {
    let config = full_config();
    let task_metas = ani_scheduler::config::load_timer_tasks_config(&config).unwrap();
    assert_eq!(task_metas.len(), 6);
    assert_eq!(task_metas[0].name, "哔哩哔哩国创");
    assert_eq!(task_metas[0].cmd, "fetch_bilibili_ani_data");
    assert_eq!(
        task_metas[0].cron_expr,
        "0 30 8,9,10,11,12,16,17,18,19,20,21,22,23 * * * *"
    );
    assert_eq!(
        task_metas[0].arg,
        "https://api.bilibili.com/pgc/web/timeline?types=4&before=6&after=6"
    );
}

#[test]
fn tasks_test_get_task_metas() {
    let config = full_config();
    let task_metas = ani_scheduler::config::load_timer_tasks_config(&config).unwrap();
    assert_eq!(task_metas.len(), 6);
    assert_eq!(task_metas[0].name, "哔哩哔哩国创");
    assert_eq!(task_metas[0].cmd, "fetch_bilibili_ani_data");
    assert_eq!(
        task_metas[0].cron_expr,
        "0 30 8,9,10,11,12,16,17,18,19,20,21,22,23 * * * *"
    );
    assert_eq!(
        task_metas[0].arg,
        "https://api.bilibili.com/pgc/web/timeline?types=4&before=6&after=6"
    );
}

#[test]
fn missing_anime_category_is_an_error() {
    let config = AppConfig {
        datasource: vec![SourceCategory {
            category: "drama".to_string(),
            sources: vec![source("a", "http://x", "c", "* * * * * *", 0)],
        }],
    };
    let r = ani_scheduler::config::load_timer_tasks_config(&config);
    assert_eq!(r, Err(ConfigError::MissingAnimeCategory));
}

#[test]
fn empty_anime_category_gives_no_metas() {
    let config = AppConfig {
        datasource: vec![SourceCategory { category: "anime".to_string(), sources: vec![] }],
    };
    let metas = ani_scheduler::config::load_timer_tasks_config(&config).unwrap();
    assert!(metas.is_empty());
}

#[test]
fn get_finds_the_right_category() {
    let config = full_config();
    assert_eq!(config.get("anime").unwrap().len(), 6);
    assert_eq!(config.get("drama").unwrap().len(), 1);
    assert!(config.get("movie").is_none());
}

#[test]
fn meta_carries_the_source_url_as_argument() {
    let config = full_config();
    let metas = ani_scheduler::config::load_timer_tasks_config(&config).unwrap();
    for (meta, src) in metas.iter().zip(anime_sources().iter()) {
        assert_eq!(meta.name, src.name);
        assert_eq!(meta.cron_expr, src.cron_expr);
        assert_eq!(meta.cmd, src.cmd);
        assert_eq!(meta.arg, src.url);
        assert_eq!(meta.retry_times, src.retry_times);
    }
}
