use media_helper::setup::{
    binary_file_name, download_source, provision_plan, task_message, FetchMeter, Platform,
    SetupStep, SetupTask, Tool, DOWNLOADER_SHARE_END, FULL_PROGRESS, MUXER_SHARE_END,
};

#[test]
fn plan_with_both_present_fetches_nothing() {
    let plan = provision_plan(true, true);
    assert_eq!(
        plan,
        vec![SetupStep::CreateBinDir, SetupStep::Progress(FULL_PROGRESS), SetupStep::Done]
    );
}

#[test]
fn plan_twice_is_the_same_when_present() {
    assert_eq!(provision_plan(true, true), provision_plan(true, true));
}

#[test]
fn plan_with_nothing_present_fetches_both() {
    let plan = provision_plan(false, false);
    assert_eq!(
        plan,
        vec![
            SetupStep::CreateBinDir,
            SetupStep::Announce(SetupTask::FetchDownloader),
            SetupStep::FetchDownloader { start: 0, end: 1200 },
            SetupStep::MarkExecutable(Tool::Downloader),
            SetupStep::Announce(SetupTask::FetchMuxer),
            SetupStep::FetchMuxerArchive { start: 1200, end: 9300 },
            SetupStep::Announce(SetupTask::ExtractMuxer),
            SetupStep::Progress(9300),
            SetupStep::ExtractMuxer,
            SetupStep::MarkExecutable(Tool::Muxer),
            SetupStep::Progress(10000),
            SetupStep::Done,
        ]
    );
}

#[test]
fn plan_skips_present_downloader() {
    let plan = provision_plan(true, false);
    assert_eq!(plan.len(), 9);
    assert!(!plan.iter().any(|s| matches!(s, SetupStep::FetchDownloader { .. })));
}

#[test]
fn equal_chunks_progress_rises_to_end_of_share() {
    let mut meter = FetchMeter::new(0, DOWNLOADER_SHARE_END, 100);
    let mut seen = Vec::new();
    for _ in 0..4 {
        seen.push(meter.record_chunk(25).unwrap());
    }
    assert_eq!(seen, vec![300, 600, 900, 1200]);
}

#[test]
fn muxer_share_progress_is_exact() {
    let mut meter = FetchMeter::new(DOWNLOADER_SHARE_END, MUXER_SHARE_END, 3);
    assert_eq!(meter.record_chunk(1), Some(3900));
    assert_eq!(meter.record_chunk(1), Some(6600));
    assert_eq!(meter.record_chunk(1), Some(9300));
}

#[test]
fn unknown_size_reports_nothing() {
    let mut meter = FetchMeter::new(0, DOWNLOADER_SHARE_END, 0);
    assert_eq!(meter.record_chunk(10), None);
    assert_eq!(meter.received, 10);
}

#[test]
fn bytes_beyond_total_stay_at_end_of_share() {
    let mut meter = FetchMeter::new(0, DOWNLOADER_SHARE_END, 10);
    assert_eq!(meter.record_chunk(15), Some(DOWNLOADER_SHARE_END));
}

#[test]
fn received_count_saturates() {
    let mut meter = FetchMeter::new(0, FULL_PROGRESS, 0);
    meter.record_chunk(u64::MAX);
    meter.record_chunk(5);
    assert_eq!(meter.received, u64::MAX);
}

#[test]
fn largest_size_does_not_overflow() {
    let mut meter = FetchMeter::new(0, FULL_PROGRESS, u64::MAX);
    assert_eq!(meter.record_chunk(u64::MAX / 2), Some(4999));
    assert_eq!(meter.record_chunk(u64::MAX), Some(FULL_PROGRESS));
}

#[test]
fn file_names_per_platform() {
    assert_eq!(binary_file_name(Platform::Windows, Tool::Downloader), "yt-dlp.exe");
    assert_eq!(binary_file_name(Platform::Unix, Tool::Downloader), "yt-dlp");
    assert_eq!(binary_file_name(Platform::Windows, Tool::Muxer), "ffmpeg.exe");
    assert_eq!(binary_file_name(Platform::Unix, Tool::Muxer), "ffmpeg");
}

#[test]
fn sources_per_platform() {
    assert_eq!(
        download_source(Platform::Unix, Tool::Muxer),
        "https://evermeet.cx/ffmpeg/getrelease/zip"
    );
    assert!(download_source(Platform::Windows, Tool::Downloader).ends_with("yt-dlp.exe"));
}

#[test]
fn status_lines() {
    assert_eq!(task_message(SetupTask::FetchDownloader), "Downloading yt-dlp\u{2026}");
    assert_eq!(task_message(SetupTask::ExtractMuxer), "Extracting ffmpeg\u{2026}");
}

#[test]
fn executable_mode_per_platform() {
    assert_eq!(media_helper::setup::make_executable(Platform::Unix), Some(0o755));
    assert_eq!(media_helper::setup::make_executable(Platform::Windows), None);
}
