use std::collections::BTreeSet;

use tcad::{
    classify, is_series_name, join_path, local_path_of, mirror_plan, progress_view, run_log_line,
    same_text, starts_with, strip_prefix, Action, Category, Config, EntryDriver, FileNode,
    NodeKind, ParseError, Phase, ProgressView, RawNode, RunEvent, HEAD_LINES, TAIL_LINES,
};

fn raw(kind: &str, url: &str, download: Option<&str>, childs: Option<Vec<RawNode>>) -> RawNode {
    RawNode {
        name: url.rsplit('/').next().unwrap().to_string(),
        kind: kind.to_string(),
        url: url.to_string(),
        download: download.map(|d| d.to_string()),
        childs,
        mtime: "2019-10-01".to_string(),
        size: 10,
        locked: false,
        download_count: 0,
    }
}

fn leaf(url: &str, download: &str) -> FileNode {
    FileNode {
        name: url.rsplit('/').next().unwrap().to_string(),
        url: url.to_string(),
        kind: NodeKind::Leaf { download: download.to_string() },
        mtime: String::new(),
        size: 1,
        locked: false,
        download_count: 0,
    }
}

fn folder(url: &str, children: Vec<FileNode>) -> FileNode {
    FileNode {
        name: url.rsplit('/').next().unwrap().to_string(),
        url: url.to_string(),
        kind: NodeKind::Folder { children },
        mtime: String::new(),
        size: 0,
        locked: false,
        download_count: 0,
    }
}

fn sample_entry() -> FileNode {
    folder(
        "/folder/Show",
        vec![
            leaf("/folder/Show/a.mkv", "/download/Show/a.mkv"),
            folder("/folder/Show/Extras", vec![]),
            folder(
                "/folder/Show/Season1",
                vec![leaf("/folder/Show/Season1/e1.mkv", "/download/Show/Season1/e1.mkv")],
            ),
        ],
    )
}

fn lines(n: usize) -> Vec<String> {
    (1..=n).map(|i| format!("line {}", i)).collect()
}

#[test]
fn prefix_is_stripped_under_any_root() {
    assert_eq!(strip_prefix("/folder/Movies/Show", "/folder/"), Some("Movies/Show".to_string()));
    assert_eq!(
        local_path_of("/folder/Movies/Show", "/folder/", "/data"),
        Some("/data/Movies/Show".to_string())
    );
    assert_eq!(
        local_path_of("/folder/Movies/Show", "/folder/", "/mnt/media/"),
        Some("/mnt/media/Movies/Show".to_string())
    );
    assert_eq!(local_path_of("/folder/Movies/Show", "/folder/", ""), Some("Movies/Show".to_string()));
}

#[test]
fn url_without_prefix_has_no_local_path() {
    assert_eq!(strip_prefix("/files/Movies", "/folder/"), None);
    assert_eq!(local_path_of("/fold", "/folder/", "/data"), None);
    assert!(starts_with("/folder/x", "/folder/"));
    assert!(!starts_with("/folder", "/folder/"));
    assert!(same_text("abc", "abc"));
    assert!(!same_text("abc", "abd"));
    assert!(!same_text("abc", "ab"));
}

#[test]
fn join_path_places_one_separator() {
    assert_eq!(join_path("/data", "x/y"), "/data/x/y");
    assert_eq!(join_path("/data/", "x/y"), "/data/x/y");
    assert_eq!(join_path("", "x"), "x");
}

#[test]
fn classifier_fixtures() {
    assert_eq!(classify("Peaky.Blinders.S05E01.Black.Tuesday.1080p.AMZN.WEBRip"), Category::Series);
    assert_eq!(classify("Daybreak.2019.S01.COMPLETE.720p.NF.WEBRip"), Category::Series);
    assert_eq!(classify("Money Heist season 1 complete English x264"), Category::Series);
    assert_eq!(
        classify("The Art of Racing in the Rain (2019) [BluRay] [720p] [YTS.LT]"),
        Category::Other
    );
    assert_eq!(
        classify("A Good Woman Is Hard to Find (2019) [WEBRip] [720p] [YTS.LT]"),
        Category::Other
    );
}

#[test]
fn classifier_needs_word_boundaries() {
    assert!(!is_series_name("Seasoned.Chef.2019"));
    assert!(!is_series_name("Incomplete.Story.2019"));
    assert!(!is_series_name("Class01.Reunion"));
    assert!(!is_series_name(""));
    assert!(is_series_name("show s02"));
    assert!(is_series_name("Show_Season-12_x"));
    assert!(is_series_name("show.s1e2"));
}

#[test]
fn progress_empty_log_is_idle() {
    assert!(matches!(progress_view(&vec![], HEAD_LINES, TAIL_LINES), ProgressView::Idle));
}

#[test]
fn progress_long_log_shows_head_and_tail() {
    let all = lines(12);
    match progress_view(&all, 7, 3) {
        ProgressView::Lines(v) => {
            let mut want: Vec<String> = all[0..7].to_vec();
            want.extend_from_slice(&all[9..12]);
            assert_eq!(v, want);
            assert!(!v.contains(&"line 8".to_string()));
            assert!(!v.contains(&"line 9".to_string()));
        },
        ProgressView::Idle => panic!("expected lines"),
    }
}

#[test]
fn progress_short_log_shows_everything() {
    let all = lines(5);
    match progress_view(&all, HEAD_LINES, TAIL_LINES) {
        ProgressView::Lines(v) => assert_eq!(v, all),
        ProgressView::Idle => panic!("expected lines"),
    }
    let exact = lines(10);
    match progress_view(&exact, 7, 3) {
        ProgressView::Lines(v) => assert_eq!(v, exact),
        ProgressView::Idle => panic!("expected lines"),
    }
}

#[test]
fn mirror_plan_lists_every_folder_once() {
    let plan = mirror_plan(&sample_entry(), "/folder/", "/data");
    assert_eq!(plan, vec!["/data/Show", "/data/Show/Extras", "/data/Show/Season1"]);
    assert!(mirror_plan(&leaf("/folder/a.mkv", "/download/a.mkv"), "/folder/", "/data").is_empty());
}

#[test]
fn mirror_twice_gives_same_directory_set() {
    let node = sample_entry();
    let mut dirs: BTreeSet<String> = BTreeSet::new();
    dirs.insert("/data".to_string());
    for d in mirror_plan(&node, "/folder/", "/data") {
        dirs.insert(d);
    }
    let once = dirs.clone();
    for d in mirror_plan(&node, "/folder/", "/data") {
        dirs.insert(d);
    }
    assert_eq!(dirs, once);
    assert_eq!(once.len(), 4);
}

fn run(driver: &mut EntryDriver, outcomes: &[bool]) -> Vec<String> {
    let mut trace = Vec::new();
    let mut last_ok = true;
    let mut k = 0;
    loop {
        let a = driver.step(last_ok);
        last_ok = true;
        let t = match a {
            Action::Transfer { source, target } => {
                last_ok = outcomes[k];
                k += 1;
                format!("get {} -> {}", source, target)
            },
            Action::DeleteRemote { url } => format!("delete {}", url),
            Action::TruncateLog => "truncate".to_string(),
            Action::Notify { name, dest } => format!("notify {} {}", name, dest),
            Action::Finished => break,
        };
        trace.push(t);
    }
    trace
}

#[test]
fn driver_transfers_leaves_in_order_and_cleans_up() {
    let mut d = EntryDriver::new(&sample_entry(), "http://cloud", "/folder/", "/data");
    assert_eq!(d.jobs.len(), 2);
    assert_eq!(d.phase, Phase::Ready);
    let trace = run(&mut d, &[true, true]);
    assert_eq!(
        trace,
        vec![
            "get http://cloud/download/Show/a.mkv -> /data/Show/a.mkv",
            "delete http://cloud/folder/Show/a.mkv",
            "truncate",
            "get http://cloud/download/Show/Season1/e1.mkv -> /data/Show/Season1/e1.mkv",
            "delete http://cloud/folder/Show/Season1/e1.mkv",
            "truncate",
            "delete http://cloud/folder/Show",
            "notify Show /data",
        ]
    );
    assert!(matches!(d.step(true), Action::Finished));
}

#[test]
fn log_is_truncated_between_transfers() {
    let mut d = EntryDriver::new(&sample_entry(), "http://cloud", "/folder/", "/data");
    let trace = run(&mut d, &[true, false]);
    let mut dirty = false;
    for t in &trace {
        if t.starts_with("get ") {
            assert!(!dirty);
            dirty = true;
        } else if t == "truncate" {
            dirty = false;
        }
    }
    assert!(!dirty);
}

#[test]
fn failed_transfer_keeps_remote_copies() {
    let mut d = EntryDriver::new(&sample_entry(), "http://cloud", "/folder/", "/data");
    let trace = run(&mut d, &[false, true]);
    assert_eq!(
        trace,
        vec![
            "get http://cloud/download/Show/a.mkv -> /data/Show/a.mkv",
            "truncate",
            "get http://cloud/download/Show/Season1/e1.mkv -> /data/Show/Season1/e1.mkv",
            "delete http://cloud/folder/Show/Season1/e1.mkv",
            "truncate",
        ]
    );
    assert!(!d.all_ok);
    assert_eq!(d.phase, Phase::Done);
}

#[test]
fn single_file_entry() {
    let mut d = EntryDriver::new(&leaf("/folder/movie.mp4", "/download/movie.mp4"), "http://c", "/folder/", "/m");
    let trace = run(&mut d, &[true]);
    assert_eq!(
        trace,
        vec![
            "get http://c/download/movie.mp4 -> /m/movie.mp4",
            "delete http://c/folder/movie.mp4",
            "truncate",
            "delete http://c/folder/movie.mp4",
            "notify movie.mp4 /m",
        ]
    );
}

#[test]
fn from_raw_builds_the_tree() {
    let r = raw(
        "folder",
        "/folder/Show",
        None,
        Some(vec![
            raw("file", "/folder/Show/a.mkv", Some("/download/Show/a.mkv"), None),
            raw("folder", "/folder/Show/Empty", None, None),
        ]),
    );
    let node = FileNode::from_raw(&r, "/folder/").unwrap();
    assert_eq!(node.url, "/folder/Show");
    match &node.kind {
        NodeKind::Folder { children } => {
            assert_eq!(children.len(), 2);
            assert!(matches!(&children[0].kind, NodeKind::Leaf { download } if download == "/download/Show/a.mkv"));
            assert!(matches!(&children[1].kind, NodeKind::Folder { children } if children.is_empty()));
        },
        NodeKind::Leaf { .. } => panic!("expected a folder"),
    }
}

#[test]
fn from_raw_reports_each_error() {
    let p = "/folder/";
    assert_eq!(FileNode::from_raw(&raw("link", "/folder/x", None, None), p).err(), Some(ParseError::UnknownKind));
    assert_eq!(
        FileNode::from_raw(&raw("folder", "/folder/x", Some("/d"), None), p).err(),
        Some(ParseError::FolderWithDownload)
    );
    assert_eq!(
        FileNode::from_raw(&raw("file", "/folder/x", None, None), p).err(),
        Some(ParseError::LeafWithoutDownload)
    );
    assert_eq!(
        FileNode::from_raw(
            &raw("file", "/folder/x", Some("/d"), Some(vec![raw("file", "/folder/y", Some("/e"), None)])),
            p
        )
        .err(),
        Some(ParseError::LeafWithChildren)
    );
    assert_eq!(
        FileNode::from_raw(&raw("file", "/files/x", Some("/d"), None), p).err(),
        Some(ParseError::UrlWithoutPrefix)
    );
    let nested = raw("folder", "/folder/a", None, Some(vec![raw("file", "/folder/a/b", None, None)]));
    assert_eq!(FileNode::from_raw(&nested, p).err(), Some(ParseError::LeafWithoutDownload));
}

fn config(series: Option<&str>) -> Config {
    Config {
        base_url: "http://cloud".to_string(),
        url_prefix: "/folder/".to_string(),
        download_dir: "/data".to_string(),
        series_dir: series.map(|s| s.to_string()),
        log_dir: "/var/log/tcad".to_string(),
    }
}

#[test]
fn config_paths_and_urls() {
    let c = config(None);
    assert_eq!(c.listing_url(), "http://cloud/folder");
    assert_eq!(c.remote_url("/folder/a"), "http://cloud/folder/a");
    assert_eq!(c.transfer_log_path(), "/var/log/tcad/wget.log");
    assert_eq!(c.run_log_path(), "/var/log/tcad/tcad.log");
    assert_eq!(c.lock_path(), "/var/log/tcad/.tcad.lock");
}

#[test]
fn destination_follows_the_classifier() {
    assert_eq!(config(None).destination_for("Daybreak.2019.S01.COMPLETE"), "/data");
    let c = config(Some("/tv"));
    assert_eq!(c.destination_for("Daybreak.2019.S01.COMPLETE"), "/tv");
    assert_eq!(c.destination_for("A Good Woman Is Hard to Find (2019)"), "/data");
}

#[test]
fn run_log_lines() {
    assert_eq!(run_log_line("t0", &RunEvent::Started), "[t0] Active Instance");
    assert_eq!(
        run_log_line("t1", &RunEvent::Downloading { name: "Show".to_string() }),
        "[t1] Downloading Show"
    );
    assert_eq!(
        run_log_line("t2", &RunEvent::Finished { name: "Show".to_string() }),
        "[t2] Finished download: Show"
    );
    assert_eq!(run_log_line("t3", &RunEvent::Notifying), "[t3] Sending notification");
    assert_eq!(run_log_line("t4", &RunEvent::Exiting), "[t4] Exiting..");
}
