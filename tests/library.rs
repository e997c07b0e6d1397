use duanju_dl::{
    action_for, book_path, build_url, check_envelope, completion_label, episode_file_path,
    episode_titles, failure_line, is_blank, is_forbidden, menu_options, next_page, page_after,
    prev_page, sanitize_filename, search_path, summary_lines, video_path, base_api, ApiError,
    Batch, DetailData, DetailModel, DownloadOutcome, EpisodeResult, ProgressUnit, ResultData,
    ResultModel, SearchAction, SearchData, SearchModel, UnitMode,
};

fn episode(id: &str, title: &str) -> ResultData {
    ResultData { video_id: id.to_string(), title: title.to_string(), ..Default::default() }
}

fn series(title: &str) -> SearchData {
    SearchData { title: title.to_string(), ..Default::default() }
}

#[test]
fn sanitize_replaces_forbidden_characters() {
    assert_eq!(sanitize_filename("A/B:C"), "A_B_C");
    assert_eq!(sanitize_filename("a\\b*c?d\"e<f>g|h"), "a_b_c_d_e_f_g_h");
    assert_eq!(sanitize_filename("第1集 正常"), "第1集 正常");
}

#[test]
fn sanitize_empty_is_underscore() {
    assert_eq!(sanitize_filename(""), "_");
}

#[test]
fn sanitize_is_idempotent() {
    for x in ["", "A/B:C", "plain", "<<>>", "_", "x|y"] {
        let once = sanitize_filename(x);
        assert_eq!(sanitize_filename(&once), once);
    }
}

#[test]
fn forbidden_set() {
    for c in ['/', '\\', ':', '*', '?', '"', '<', '>', '|'] {
        assert!(is_forbidden(c));
    }
    assert!(!is_forbidden('_'));
    assert!(!is_forbidden('a'));
}

#[test]
fn file_path_of_episode() {
    assert_eq!(episode_file_path("My_Show", "Ep:1"), "My_Show/Ep_1.mp4");
    assert_eq!(episode_file_path("d", ""), "d/_.mp4");
}

#[test]
fn request_paths() {
    assert_eq!(search_path("abc", 3), "/api/duanju/api.php?name=abc&page=3&showRawParams=false");
    assert_eq!(search_path("x", 127), "/api/duanju/api.php?name=x&page=127&showRawParams=false");
    assert_eq!(book_path("42"), "/api/duanju/api.php?book_id=42&showRawParams=false");
    assert_eq!(
        video_path("v9"),
        "/api/duanju/api.php?video_id=v9&type=json&showRawParams=false"
    );
    assert_eq!(build_url(base_api(), "/p"), "https://api.cenguigui.cn/p");
}

#[test]
fn envelope_success_and_error() {
    assert_eq!(check_envelope(200, 7u8), Ok(7u8));
    assert_eq!(check_envelope(500, 7u8), Err(ApiError { code: 500 }));
    let m = SearchModel { code: 200, data: vec![series("S")], ..Default::default() };
    assert_eq!(m.into_data().unwrap()[0].title, "S");
    let m = ResultModel { code: 404, ..Default::default() };
    assert_eq!(m.into_data(), Err(ApiError { code: 404 }));
    let d = DetailModel {
        code: 200,
        data: DetailData { url: "http://m/1.mp4".to_string(), ..Default::default() },
        ..Default::default()
    };
    assert_eq!(d.into_data().unwrap().url, "http://m/1.mp4");
}

#[test]
fn menu_and_actions() {
    let items = vec![series("One"), series("Two")];
    let opts = menu_options(&items);
    assert_eq!(opts, vec!["One", "Two", "下一页", "上一页", "重新搜索", "退出"]);
    assert_eq!(action_for(1, 2), Some(SearchAction::Selected(1)));
    assert_eq!(action_for(2, 2), Some(SearchAction::NextPage));
    assert_eq!(action_for(3, 2), Some(SearchAction::PrevPage));
    assert_eq!(action_for(4, 2), Some(SearchAction::NewSearch));
    assert_eq!(action_for(5, 2), Some(SearchAction::Quit));
    assert_eq!(action_for(6, 2), None);
    assert_eq!(action_for(0, 0), Some(SearchAction::NextPage));
}

#[test]
fn paging_bounds() {
    assert_eq!(next_page(1), 2);
    assert_eq!(next_page(i8::MAX), i8::MAX);
    assert_eq!(prev_page(1), 1);
    assert_eq!(prev_page(5), 4);
    assert_eq!(page_after(3, SearchAction::NextPage), 4);
    assert_eq!(page_after(3, SearchAction::PrevPage), 2);
    assert_eq!(page_after(3, SearchAction::Quit), 3);
}

#[test]
fn blank_keywords() {
    assert!(is_blank(""));
    assert!(is_blank(" \t\n"));
    assert!(!is_blank(" a "));
}

#[test]
fn titles_of_episodes() {
    let eps = vec![episode("1", "Ep1"), episode("2", "Ep2")];
    assert_eq!(episode_titles(&eps), vec!["Ep1", "Ep2"]);
}

#[test]
fn unit_with_length_becomes_determinate_before_counting() {
    let mut u = ProgressUnit::new("Ep");
    assert_eq!(u.mode(), UnitMode::Indeterminate);
    u.on_content_length(Some(100));
    assert_eq!(u.mode(), UnitMode::Determinate(100));
    assert_eq!(u.bytes_done(), 0);
    u.on_chunk_written(60);
    u.on_chunk_written(40);
    assert_eq!(u.bytes_done(), 100);
    assert_eq!(u.label(), "Ep");
    u.finish();
    assert!(u.is_finished());
    assert_eq!(u.label(), "完成: Ep");
    assert_eq!(u.mode(), UnitMode::Determinate(100));
}

#[test]
fn unit_without_length_stays_indeterminate() {
    for len in [None, Some(0)] {
        let mut u = ProgressUnit::new("Ep");
        u.on_content_length(len);
        assert!(!u.is_determinate());
        u.on_chunk_written(10);
        u.on_chunk_written(0);
        u.on_chunk_written(5);
        assert_eq!(u.mode(), UnitMode::Indeterminate);
        assert_eq!(u.bytes_done(), 15);
    }
}

#[test]
fn unit_ignores_length_after_counting() {
    let mut u = ProgressUnit::new("Ep");
    u.on_chunk_written(3);
    u.on_content_length(Some(50));
    assert_eq!(u.mode(), UnitMode::Indeterminate);
}

#[test]
fn bytes_done_is_monotone_sum() {
    let mut u = ProgressUnit::new("Ep");
    let chunks = [5u64, 0, 7, 1];
    let mut last = 0;
    for c in chunks {
        u.on_chunk_written(c);
        assert!(u.bytes_done() >= last);
        last = u.bytes_done();
    }
    assert_eq!(last, 13);
}

#[test]
fn pool_never_exceeds_concurrency() {
    let mut b = Batch::new(5, 2);
    assert_eq!(b.start_next(), Some(0));
    assert_eq!(b.start_next(), Some(1));
    assert_eq!(b.start_next(), None);
    assert_eq!(b.active(), 2);
    b.record(1, EpisodeResult::Success("b".to_string()));
    assert_eq!(b.start_next(), Some(2));
    assert_eq!(b.start_next(), None);
    assert!(b.active() <= b.concurrency());
}

fn drive(titles: &[&str], concurrency: usize, fails: &[usize], finish_order: &[usize]) -> Batch {
    let mut b = Batch::new(titles.len(), concurrency);
    let mut pending: Vec<usize> = finish_order.to_vec();
    while !b.is_done() {
        while let Some(_) = b.start_next() {}
        assert!(b.active() <= concurrency);
        let pos = pending.iter().position(|&i| b.is_running(i)).unwrap();
        let i = pending.remove(pos);
        let r = if fails.contains(&i) {
            EpisodeResult::Failure(format!("chunk 2 of 5 of {}", titles[i]))
        } else {
            EpisodeResult::Success(titles[i].to_string())
        };
        b.record(i, r);
    }
    b
}

#[test]
fn every_episode_gets_one_outcome() {
    let titles = ["a", "b", "c", "d", "e", "f", "g"];
    let b = drive(&titles, 3, &[], &[6, 2, 0, 5, 1, 3, 4]);
    let out = b.ordered_outcomes();
    assert_eq!(out.len(), 7);
    for (i, o) in out.iter().enumerate() {
        assert_eq!(o.sequence_index, i);
    }
    assert_eq!(b.active(), 0);
}

#[test]
fn order_is_series_order_whatever_completes_first() {
    let titles = ["a", "b", "c", "d"];
    let b1 = drive(&titles, 2, &[], &[0, 1, 2, 3]);
    let b2 = drive(&titles, 2, &[], &[3, 1, 2, 0]);
    assert_eq!(b1.ordered_outcomes(), b2.ordered_outcomes());
    let lines = summary_lines(&b2.ordered_outcomes());
    assert_eq!(lines, vec!["✅a", "✅b", "✅c", "✅d"]);
}

#[test]
fn one_failure_does_not_stop_the_others() {
    let titles = ["e1", "e2", "e3", "e4", "e5"];
    let b = drive(&titles, 3, &[1], &[4, 1, 0, 2, 3]);
    let out = b.ordered_outcomes();
    let ok = out.iter().filter(|o| matches!(o.result, EpisodeResult::Success(_))).count();
    assert_eq!(ok, 4);
    assert!(matches!(out[1].result, EpisodeResult::Failure(_)));
}

#[test]
fn three_episodes_with_middle_failure() {
    let titles = ["Ep1", "Ep2", "Ep3"];
    let mut b = Batch::new(3, 2);
    assert_eq!(b.start_next(), Some(0));
    assert_eq!(b.start_next(), Some(1));
    assert_eq!(b.start_next(), None);
    let err = "connection reset";
    assert_eq!(failure_line(err), "下载失败: connection reset");
    b.record(1, EpisodeResult::Failure(err.to_string()));
    assert_eq!(b.start_next(), Some(2));
    b.record(2, EpisodeResult::Success(titles[2].to_string()));
    b.record(0, EpisodeResult::Success(titles[0].to_string()));
    assert!(b.is_done());
    let out = b.ordered_outcomes();
    assert_eq!(
        out[1],
        DownloadOutcome { sequence_index: 1, result: EpisodeResult::Failure(err.to_string()) }
    );
    let lines = summary_lines(&out);
    assert_eq!(lines, vec!["✅Ep1", "下载失败: connection reset", "✅Ep3"]);
}

#[test]
fn empty_batch_is_done() {
    let mut b = Batch::new(0, 3);
    assert!(b.is_done());
    assert_eq!(b.start_next(), None);
    assert!(b.ordered_outcomes().is_empty());
}

#[test]
fn labels() {
    assert_eq!(completion_label("Ep1"), "完成: Ep1");
    assert_eq!(series("T").display_text(), "T");
    assert_eq!(episode("1", "E").display_text(), "E");
}
