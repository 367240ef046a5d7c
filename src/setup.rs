use vstd::arithmetic::div_mod::{lemma_div_by_multiple, lemma_div_is_ordered};
use vstd::arithmetic::mul::lemma_mul_inequality;
use vstd::prelude::*;

verus! {

/// Progress is counted in ten-thousandths of the whole provisioning run.
pub const FULL_PROGRESS: u64 = 10000;

/// Where the downloader's fetch ends on the overall progress bar.
pub const DOWNLOADER_SHARE_END: u64 = 1200;

/// Where the muxer's fetch ends; extraction takes the rest.
pub const MUXER_SHARE_END: u64 = 9300;

/// The platform decides file names and download sources.
#[derive(Clone, Copy, Debug, PartialEq, Eq, Structural)]
pub enum Platform {
    Windows,
    /// Every other platform: the downloads are the macOS builds, and files
    /// carry Unix permission bits.
    Unix,
}

/// The two executables that the helper provisions.
#[derive(Clone, Copy, Debug, PartialEq, Eq, Structural)]
pub enum Tool {
    Downloader,
    Muxer,
}

/// What a status line shown to the user announces.
#[derive(Clone, Copy, Debug, PartialEq, Eq, Structural)]
pub enum SetupTask {
    FetchDownloader,
    FetchMuxer,
    ExtractMuxer,
}

/// One step of provisioning, to be carried out in order; the first step that
/// fails aborts the rest.
#[derive(Clone, Copy, Debug, PartialEq, Eq, Structural)]
pub enum SetupStep {
    /// Create the directory that holds both executables.
    CreateBinDir,
    /// Show a status line.
    Announce(SetupTask),
    /// Download the downloader executable to its place, reporting progress
    /// from `start` to `end` through a `FetchMeter`.
    FetchDownloader { start: u64, end: u64 },
    /// Download the muxer's archive next to the executables, reporting
    /// progress from `start` to `end` through a `FetchMeter`.
    FetchMuxerArchive { start: u64, end: u64 },
    /// Report overall progress, in ten-thousandths.
    Progress(u64),
    /// Copy the muxer out of its archive, then delete the archive.
    ExtractMuxer,
    /// Set the executable permission bit where the platform has one.
    MarkExecutable(Tool),
    /// Signal that provisioning is complete.
    Done,
}

pub open spec fn downloader_steps() -> Seq<SetupStep> {
    seq![
        SetupStep::Announce(SetupTask::FetchDownloader),
        SetupStep::FetchDownloader { start: 0, end: DOWNLOADER_SHARE_END },
        SetupStep::MarkExecutable(Tool::Downloader),
    ]
}

pub open spec fn muxer_steps() -> Seq<SetupStep> {
    seq![
        SetupStep::Announce(SetupTask::FetchMuxer),
        SetupStep::FetchMuxerArchive { start: DOWNLOADER_SHARE_END, end: MUXER_SHARE_END },
        SetupStep::Announce(SetupTask::ExtractMuxer),
        SetupStep::Progress(MUXER_SHARE_END),
        SetupStep::ExtractMuxer,
        SetupStep::MarkExecutable(Tool::Muxer),
    ]
}

/// The steps of provisioning, given which executables are already present.
pub open spec fn setup_plan(downloader_present: bool, muxer_present: bool) -> Seq<SetupStep> {
    seq![SetupStep::CreateBinDir]
        + (if downloader_present { Seq::empty() } else { downloader_steps() })
        + (if muxer_present { Seq::empty() } else { muxer_steps() })
        + seq![SetupStep::Progress(FULL_PROGRESS), SetupStep::Done]
}

/// Decides the provisioning steps; an executable that is already present is
/// neither fetched nor touched again.
pub fn provision_plan(downloader_present: bool, muxer_present: bool) -> (r: Vec<SetupStep>)
    ensures
        r@ == setup_plan(downloader_present, muxer_present),
{
    let mut steps: Vec<SetupStep> = Vec::new();
    steps.push(SetupStep::CreateBinDir);
    if !downloader_present {
        steps.push(SetupStep::Announce(SetupTask::FetchDownloader));
        steps.push(SetupStep::FetchDownloader { start: 0, end: DOWNLOADER_SHARE_END });
        steps.push(SetupStep::MarkExecutable(Tool::Downloader));
    }
    if !muxer_present {
        steps.push(SetupStep::Announce(SetupTask::FetchMuxer));
        steps.push(
            SetupStep::FetchMuxerArchive { start: DOWNLOADER_SHARE_END, end: MUXER_SHARE_END },
        );
        steps.push(SetupStep::Announce(SetupTask::ExtractMuxer));
        steps.push(SetupStep::Progress(MUXER_SHARE_END));
        steps.push(SetupStep::ExtractMuxer);
        steps.push(SetupStep::MarkExecutable(Tool::Muxer));
    }
    steps.push(SetupStep::Progress(FULL_PROGRESS));
    steps.push(SetupStep::Done);
    assert(steps@ =~= setup_plan(downloader_present, muxer_present));
    steps
}

/// Overall progress after `received` of `total` bytes of a fetch that covers
/// `start..end` of the bar; bytes beyond the announced total count as the total.
pub open spec fn progress_at(start: int, end: int, received: int, total: int) -> int {
    let got = if received < total { received } else { total };
    start + (got * (end - start)) / total
}

/// The lowest progress value that a step may report, if it reports any.
pub open spec fn step_floor(s: SetupStep) -> Option<int> {
    match s {
        SetupStep::FetchDownloader { start, end } => Some(start as int),
        SetupStep::FetchMuxerArchive { start, end } => Some(start as int),
        SetupStep::Progress(v) => Some(v as int),
        _ => None,
    }
}

/// The highest progress value that a step may report, if it reports any.
pub open spec fn step_ceiling(s: SetupStep) -> Option<int> {
    match s {
        SetupStep::FetchDownloader { start, end } => Some(end as int),
        SetupStep::FetchMuxerArchive { start, end } => Some(end as int),
        SetupStep::Progress(v) => Some(v as int),
        _ => None,
    }
}

/// Counts the bytes of one fetch and turns them into overall progress.
pub struct FetchMeter {
    pub start: u64,
    pub end: u64,
    pub total: u64,
    pub received: u64,
}

impl FetchMeter {
    pub open spec fn wf(&self) -> bool {
        self.start <= self.end <= FULL_PROGRESS
    }

    /// A meter for a fetch that covers `start..end` of the bar; `total` is the
    /// announced size, zero when the size is unknown.
    pub fn new(start: u64, end: u64, total: u64) -> (r: FetchMeter)
        requires
            start <= end <= FULL_PROGRESS,
        ensures
            r.wf(),
            r.start == start,
            r.end == end,
            r.total == total,
            r.received == 0,
    {
        FetchMeter { start, end, total, received: 0 }
    }

    /// Counts a chunk of `len` bytes and returns the progress to report, none
    /// when the total size is unknown.
    pub fn record_chunk(&mut self, len: u64) -> (r: Option<u64>)
        requires
            old(self).wf(),
        ensures
            final(self).wf(),
            final(self).start == old(self).start,
            final(self).end == old(self).end,
            final(self).total == old(self).total,
            final(self).received == if old(self).received + len <= u64::MAX {
                old(self).received + len
            } else {
                u64::MAX as int
            },
            old(self).total == 0 ==> r is None,
            old(self).total > 0 ==> r == Some(
                progress_at(
                    final(self).start as int,
                    final(self).end as int,
                    final(self).received as int,
                    final(self).total as int,
                ) as u64,
            ),
            old(self).total > 0 ==> old(self).start <= r->0 <= old(self).end,
    {
        self.received = self.received.saturating_add(len);
        if self.total == 0 {
            return None;
        }
        let got: u64 = if self.received < self.total {
            self.received
        } else {
            self.total
        };
        let span: u64 = self.end - self.start;
        assert(got as int * span as int <= u64::MAX as int * FULL_PROGRESS as int) by (nonlinear_arith)
            requires got <= u64::MAX, span <= FULL_PROGRESS;
        let q: u128 = (got as u128 * span as u128) / self.total as u128;
        proof {
            lemma_share_bounds(got as int, self.total as int, span as int);
        }
        Some(self.start + q as u64)
    }
}

proof fn lemma_share_bounds(got: int, total: int, span: int)
    requires
        0 <= got <= total,
        0 < total,
        0 <= span,
    ensures
        0 <= (got * span) / total <= span,
{
    lemma_mul_inequality(got, total, span);
    assert(got * span <= span * total) by (nonlinear_arith)
        requires got * span <= total * span;
    lemma_div_is_ordered(got * span, span * total, total);
    lemma_div_by_multiple(span, total);
    assert(0 <= got * span) by (nonlinear_arith)
        requires 0 <= got, 0 <= span;
    lemma_div_is_ordered(0, got * span, total);
}

/// Within one fetch, reported progress never goes down as bytes arrive, stays
/// within the fetch's share of the bar, and reaches the end of that share once
/// every announced byte has arrived.
pub proof fn lemma_fetch_progress_monotone(start: int, end: int, total: int, r1: int, r2: int)
    requires
        0 <= start <= end,
        0 < total,
        0 <= r1 <= r2,
    ensures
        progress_at(start, end, r1, total) <= progress_at(start, end, r2, total),
        start <= progress_at(start, end, r1, total) <= end,
        r1 >= total ==> progress_at(start, end, r1, total) == end,
{
    let g1 = if r1 < total { r1 } else { total };
    let g2 = if r2 < total { r2 } else { total };
    let span = end - start;
    lemma_mul_inequality(g1, g2, span);
    lemma_div_is_ordered(g1 * span, g2 * span, total);
    lemma_share_bounds(g1, total, span);
    if r1 >= total {
        assert(total * span == span * total) by (nonlinear_arith);
        lemma_div_by_multiple(span, total);
    }
}

/// A fetch of `n` equal chunks of `c` bytes each, whose announced size is
/// their sum, reports non-decreasing progress after each chunk and ends at
/// the end of its share.
pub proof fn lemma_equal_chunks_progress(start: int, end: int, c: int, n: int, k1: int, k2: int)
    requires
        0 <= start <= end,
        0 < c,
        0 < n,
        0 <= k1 <= k2 <= n,
    ensures
        progress_at(start, end, k1 * c, n * c) <= progress_at(start, end, k2 * c, n * c),
        progress_at(start, end, n * c, n * c) == end,
{
    assert(0 <= k1 * c <= k2 * c) by (nonlinear_arith)
        requires 0 <= k1 <= k2, 0 < c;
    assert(0 < n * c) by (nonlinear_arith)
        requires 0 < n, 0 < c;
    lemma_fetch_progress_monotone(start, end, n * c, k1 * c, k2 * c);
    lemma_fetch_progress_monotone(start, end, n * c, n * c, n * c);
}

/// In every provisioning plan, each step that reports progress reports no less
/// than any earlier step could, and the last report before completion is the
/// full bar.
pub proof fn lemma_plan_progress_monotone(downloader_present: bool, muxer_present: bool)
    ensures
        ({
            let p = setup_plan(downloader_present, muxer_present);
            &&& forall|i: int, j: int|
                0 <= i < j < p.len() && (#[trigger] step_ceiling(p[i])) is Some && (
                #[trigger] step_floor(p[j])) is Some ==> step_ceiling(p[i])->0 <= step_floor(
                    p[j],
                )->0
            &&& forall|i: int|
                0 <= i < p.len() ==> (#[trigger] step_floor(p[i])) is Some ==> 0 <= step_floor(
                    p[i],
                )->0 <= step_ceiling(p[i])->0 <= FULL_PROGRESS
            &&& p.len() >= 2
            &&& p[p.len() - 2] == SetupStep::Progress(FULL_PROGRESS)
            &&& p[p.len() - 1] == SetupStep::Done
        }),
{
}

/// When both executables are present, provisioning fetches nothing and still
/// reports the full bar and completion.
pub proof fn lemma_plan_idempotent()
    ensures
        setup_plan(true, true) == seq![
            SetupStep::CreateBinDir,
            SetupStep::Progress(FULL_PROGRESS),
            SetupStep::Done,
        ],
        forall|i: int|
            0 <= i < setup_plan(true, true).len() ==> match #[trigger] setup_plan(true, true)[i] {
                SetupStep::FetchDownloader { .. } | SetupStep::FetchMuxerArchive { .. }
                | SetupStep::ExtractMuxer => false,
                _ => true,
            },
{
    assert(setup_plan(true, true) =~= seq![
        SetupStep::CreateBinDir,
        SetupStep::Progress(FULL_PROGRESS),
        SetupStep::Done,
    ]);
}

/// Name of the directory, under the application's data directory, that holds
/// both executables.
pub const BIN_DIR_NAME: &'static str = "bin";

/// File name of the muxer's archive while it is being unpacked.
pub const MUXER_ARCHIVE_NAME: &'static str = "ffmpeg.zip";

/// File name of an executable on a platform; the muxer's archive holds the
/// muxer under the same name.
pub fn binary_file_name(platform: Platform, tool: Tool) -> (r: &'static str)
    ensures
        r@ == match (platform, tool) {
            (Platform::Windows, Tool::Downloader) => "yt-dlp.exe"@,
            (Platform::Unix, Tool::Downloader) => "yt-dlp"@,
            (Platform::Windows, Tool::Muxer) => "ffmpeg.exe"@,
            (Platform::Unix, Tool::Muxer) => "ffmpeg"@,
        },
{
    match (platform, tool) {
        (Platform::Windows, Tool::Downloader) => "yt-dlp.exe",
        (Platform::Unix, Tool::Downloader) => "yt-dlp",
        (Platform::Windows, Tool::Muxer) => "ffmpeg.exe",
        (Platform::Unix, Tool::Muxer) => "ffmpeg",
    }
}

/// Where a tool is fetched from: the downloader executable itself, or an
/// archive that holds the muxer.
pub fn download_source(platform: Platform, tool: Tool) -> (r: &'static str)
    ensures
        r@ == match (platform, tool) {
            (Platform::Windows, Tool::Downloader) =>
                "https://github.com/yt-dlp/yt-dlp/releases/latest/download/yt-dlp.exe"@,
            (Platform::Unix, Tool::Downloader) =>
                "https://github.com/yt-dlp/yt-dlp/releases/latest/download/yt-dlp_macos"@,
            (Platform::Windows, Tool::Muxer) =>
                "https://github.com/BtbN/ffmpeg-builds/releases/latest/download/ffmpeg-master-latest-win64-gpl.zip"@,
            (Platform::Unix, Tool::Muxer) => "https://evermeet.cx/ffmpeg/getrelease/zip"@,
        },
{
    match (platform, tool) {
        (Platform::Windows, Tool::Downloader) =>
            "https://github.com/yt-dlp/yt-dlp/releases/latest/download/yt-dlp.exe",
        (Platform::Unix, Tool::Downloader) =>
            "https://github.com/yt-dlp/yt-dlp/releases/latest/download/yt-dlp_macos",
        (Platform::Windows, Tool::Muxer) =>
            "https://github.com/BtbN/ffmpeg-builds/releases/latest/download/ffmpeg-master-latest-win64-gpl.zip",
        (Platform::Unix, Tool::Muxer) => "https://evermeet.cx/ffmpeg/getrelease/zip",
    }
}

/// The status line shown for a task.
pub fn task_message(task: SetupTask) -> (r: &'static str)
    ensures
        r@ == match task {
            SetupTask::FetchDownloader => "Downloading yt-dlp\u{2026}"@,
            SetupTask::FetchMuxer => "Downloading ffmpeg\u{2026}"@,
            SetupTask::ExtractMuxer => "Extracting ffmpeg\u{2026}"@,
        },
{
    match task {
        SetupTask::FetchDownloader => "Downloading yt-dlp\u{2026}",
        SetupTask::FetchMuxer => "Downloading ffmpeg\u{2026}",
        SetupTask::ExtractMuxer => "Extracting ffmpeg\u{2026}",
    }
}

/// Permission bits of a provisioned executable: everyone may read and run it,
/// its owner may also write it.
pub const EXECUTABLE_MODE: u32 = 0o755;

/// The permission mode to give a provisioned executable; none on a platform
/// without an executable bit, where marking it is a no-op.
pub fn make_executable(platform: Platform) -> (r: Option<u32>)
    ensures
        r == match platform {
            Platform::Windows => None,
            Platform::Unix => Some(EXECUTABLE_MODE),
        },
{
    match platform {
        Platform::Windows => None,
        Platform::Unix => Some(EXECUTABLE_MODE),
    }
}

} // verus!
