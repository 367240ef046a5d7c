use vstd::prelude::*;
use vstd::string::*;

verus! {

/// The text of one decimal digit.
pub open spec fn digit_char(d: int) -> char {
    if d == 0 { '0' }
    else if d == 1 { '1' }
    else if d == 2 { '2' }
    else if d == 3 { '3' }
    else if d == 4 { '4' }
    else if d == 5 { '5' }
    else if d == 6 { '6' }
    else if d == 7 { '7' }
    else if d == 8 { '8' }
    else { '9' }
}

/// Decimal digits of a natural number, most significant first.
pub open spec fn nat_text(n: nat) -> Seq<char>
    decreases n,
{
    if n < 10 {
        seq![digit_char(n as int)]
    } else {
        nat_text(n / 10) + seq![digit_char((n % 10) as int)]
    }
}

/// Decimal text of an integer, with a leading `-` when it is negative.
pub open spec fn int_text(n: int) -> Seq<char> {
    if n < 0 {
        seq!['-'] + nat_text((-n) as nat)
    } else {
        nat_text(n as nat)
    }
}

fn digit_str(d: u32) -> (r: &'static str)
    requires
        d < 10,
    ensures
        r@ == seq![digit_char(d as int)],
{
    proof {
        reveal_strlit("0");
        reveal_strlit("1");
        reveal_strlit("2");
        reveal_strlit("3");
        reveal_strlit("4");
        reveal_strlit("5");
        reveal_strlit("6");
        reveal_strlit("7");
        reveal_strlit("8");
        reveal_strlit("9");
    }
    if d == 0 { "0" }
    else if d == 1 { "1" }
    else if d == 2 { "2" }
    else if d == 3 { "3" }
    else if d == 4 { "4" }
    else if d == 5 { "5" }
    else if d == 6 { "6" }
    else if d == 7 { "7" }
    else if d == 8 { "8" }
    else { "9" }
}

fn append_nat(s: &mut String, n: u32)
    ensures
        final(s)@ == old(s)@ + nat_text(n as nat),
    decreases n,
{
    if n >= 10 {
        append_nat(s, n / 10);
    }
    s.append(digit_str(n % 10));
    assert(final(s)@ =~= old(s)@ + nat_text(n as nat));
}

/// Writes an integer in decimal.
pub fn int_to_text(n: i32) -> (r: String)
    ensures
        r@ == int_text(n as int),
{
    let mut s = String::new();
    if n < 0 {
        s.append("-");
        proof {
            reveal_strlit("-");
        }
        let m: u32 = (-(n as i64)) as u32;
        append_nat(&mut s, m);
        assert(s@ =~= int_text(n as int));
    } else {
        append_nat(&mut s, n as u32);
        assert(s@ =~= int_text(n as int));
    }
    s
}

/// Name of the folder, inside the user's download directory, that downloads go
/// to unless the user picks another.
pub const DEFAULT_OUTPUT_FOLDER: &'static str = "DownloadedVideos";

/// The texts of a list of strings.
pub open spec fn texts(v: Seq<String>) -> Seq<Seq<char>> {
    v.map_values(|s: String| s@)
}

/// A browser name asks for its cookies unless it is empty or `none`.
pub open spec fn wants_cookies(browser: Seq<char>) -> bool {
    browser.len() > 0 && browser != "none"@
}

pub open spec fn cookie_args(browser: Seq<char>) -> Seq<Seq<char>> {
    if wants_cookies(browser) {
        seq!["--cookies-from-browser"@, browser]
    } else {
        Seq::empty()
    }
}

/// The fixed part of the downloader's arguments: stream preference, output
/// container, where the muxer lives, line-by-line output, the output
/// directory, and the address last.
pub open spec fn policy_args(muxer_dir: Seq<char>, output_dir: Seq<char>, url: Seq<char>) -> Seq<
    Seq<char>,
> {
    seq![
        "-S"@,
        "vcodec:h264,res,fps,br"@,
        "--merge-output-format"@,
        "mp4"@,
        "--ffmpeg-location"@,
        muxer_dir,
        "--newline"@,
        "-P"@,
        output_dir,
        url,
    ]
}

/// Whether the browser name asks for its cookies.
pub fn uses_cookie_browser(browser: &String) -> (r: bool)
    ensures
        r == wants_cookies(browser@),
{
    let none = String::from_str("none");
    let is_none = *browser == none;
    !is_none && browser.as_str().unicode_len() > 0
}

/// The downloader's argument list: the caller's format arguments, the cookie
/// source when one is named, then the fixed arguments.
pub fn build_args(
    format_args: Vec<String>,
    cookie_browser: String,
    muxer_dir: String,
    output_dir: String,
    url: String,
) -> (r: Vec<String>)
    ensures
        texts(r@) == texts(format_args@) + cookie_args(cookie_browser@) + policy_args(
            muxer_dir@,
            output_dir@,
            url@,
        ),
{
    let mut args = format_args;
    let ghost head = args@;
    if uses_cookie_browser(&cookie_browser) {
        args.push(String::from_str("--cookies-from-browser"));
        args.push(cookie_browser);
    }
    let ghost with_cookies = args@;
    assert(texts(with_cookies) =~= texts(head) + cookie_args(cookie_browser@));
    args.push(String::from_str("-S"));
    args.push(String::from_str("vcodec:h264,res,fps,br"));
    args.push(String::from_str("--merge-output-format"));
    args.push(String::from_str("mp4"));
    args.push(String::from_str("--ffmpeg-location"));
    args.push(muxer_dir);
    args.push(String::from_str("--newline"));
    args.push(String::from_str("-P"));
    args.push(output_dir);
    args.push(url);
    assert(texts(args@) =~= texts(with_cookies) + policy_args(muxer_dir@, output_dir@, url@));
    args
}

/// How waiting for the downloader process ended.
#[derive(Debug)]
pub enum WaitOutcome {
    /// The process exited, with its exit code when the platform gives one.
    Exited(Option<i32>),
    /// Waiting failed; the text describes why.
    WaitFailed(String),
}

/// The terminal event of a job.
#[derive(Debug)]
pub enum JobEvent {
    Complete,
    Failed(String),
}

/// The message of a job whose process exited with a non-zero code.
pub open spec fn exit_message(code: int) -> Seq<char> {
    "yt-dlp exited with code "@ + int_text(code)
}

/// The text that a terminal event carries: none for completion, the message
/// for a failure.
pub open spec fn event_text(e: JobEvent) -> Option<Seq<char>> {
    match e {
        JobEvent::Complete => None,
        JobEvent::Failed(m) => Some(m@),
    }
}

/// The terminal event owed for how a process ended: completion for exit code
/// zero, otherwise a failure that names the code (`-1` when there is none) or
/// tells why waiting failed.
pub open spec fn outcome_text(o: WaitOutcome) -> Option<Seq<char>> {
    match o {
        WaitOutcome::Exited(Some(c)) => if c == 0 {
            None
        } else {
            Some(exit_message(c as int))
        },
        WaitOutcome::Exited(None) => Some(exit_message(-1)),
        WaitOutcome::WaitFailed(e) => Some(e@),
    }
}

/// Turns how the process ended into the job's terminal event.
pub fn exit_event(outcome: WaitOutcome) -> (r: JobEvent)
    ensures
        event_text(r) == outcome_text(outcome),
{
    match outcome {
        WaitOutcome::Exited(code) => {
            let c: i32 = match code {
                Some(c) => c,
                None => -1,
            };
            if c == 0 {
                JobEvent::Complete
            } else {
                let mut m = String::from_str("yt-dlp exited with code ");
                let digits = int_to_text(c);
                m.append(digits.as_str());
                JobEvent::Failed(m)
            }
        },
        WaitOutcome::WaitFailed(e) => JobEvent::Failed(e),
    }
}

/// What a job's supervising task can observe.
#[derive(Clone, Copy, Debug, PartialEq, Eq, Structural)]
pub enum SupervisorInput {
    /// The process's wait resolved (with an exit status or a wait error).
    ProcessEnded,
    /// The job's cancellation signal arrived.
    CancelSignal,
}

/// Where a job's supervision stands.
#[derive(Clone, Copy, Debug, PartialEq, Eq, Structural)]
pub enum JobPhase {
    Running,
    Cancelled,
    Finished,
}

/// What the supervising task does in answer to an input.
#[derive(Clone, Copy, Debug, PartialEq, Eq, Structural)]
pub enum SupervisorAction {
    /// Emit the terminal event for how the process ended.
    Report,
    /// Kill the process, ignoring any error in doing so.
    Kill,
    /// Nothing: the job is already settled.
    Ignore,
}

/// One transition of the supervision of a job.
pub open spec fn supervise(phase: JobPhase, input: SupervisorInput) -> (JobPhase, SupervisorAction) {
    match phase {
        JobPhase::Running => match input {
            SupervisorInput::ProcessEnded => (JobPhase::Finished, SupervisorAction::Report),
            SupervisorInput::CancelSignal => (JobPhase::Cancelled, SupervisorAction::Kill),
        },
        _ => (phase, SupervisorAction::Ignore),
    }
}

/// The actions taken for a sequence of inputs, from a phase.
pub open spec fn supervise_all(phase: JobPhase, inputs: Seq<SupervisorInput>) -> Seq<SupervisorAction>
    decreases inputs.len(),
{
    if inputs.len() == 0 {
        Seq::empty()
    } else {
        let (next, action) = supervise(phase, inputs[0]);
        seq![action] + supervise_all(next, inputs.drop_first())
    }
}

/// How many terminal events a sequence of actions emits.
pub open spec fn reports(actions: Seq<SupervisorAction>) -> nat
    decreases actions.len(),
{
    if actions.len() == 0 {
        0
    } else {
        (if actions[0] == SupervisorAction::Report { 1nat } else { 0nat }) + reports(
            actions.drop_first(),
        )
    }
}

/// The supervision of one job: the process's end and the job's cancellation
/// race, and the first to arrive settles the job.
pub struct Supervisor {
    pub phase: JobPhase,
}

impl Supervisor {
    pub fn new() -> (r: Supervisor)
        ensures
            r.phase == JobPhase::Running,
    {
        Supervisor { phase: JobPhase::Running }
    }

    /// Takes one input and says what to do.
    pub fn on_input(&mut self, input: SupervisorInput) -> (r: SupervisorAction)
        ensures
            (final(self).phase, r) == supervise(old(self).phase, input),
    {
        match self.phase {
            JobPhase::Running => match input {
                SupervisorInput::ProcessEnded => {
                    self.phase = JobPhase::Finished;
                    SupervisorAction::Report
                },
                SupervisorInput::CancelSignal => {
                    self.phase = JobPhase::Cancelled;
                    SupervisorAction::Kill
                },
            },
            _ => SupervisorAction::Ignore,
        }
    }
}

proof fn lemma_settled_is_silent(phase: JobPhase, inputs: Seq<SupervisorInput>)
    requires
        phase != JobPhase::Running,
    ensures
        reports(supervise_all(phase, inputs)) == 0,
        forall|i: int|
            0 <= i < inputs.len() ==> #[trigger] supervise_all(phase, inputs)[i]
                == SupervisorAction::Ignore,
        supervise_all(phase, inputs).len() == inputs.len(),
    decreases inputs.len(),
{
    if inputs.len() > 0 {
        lemma_settled_is_silent(phase, inputs.drop_first());
        let all = supervise_all(phase, inputs);
        let rest = supervise_all(phase, inputs.drop_first());
        assert(all == seq![SupervisorAction::Ignore] + rest);
        assert(all.drop_first() =~= rest);
        assert forall|i: int| 0 <= i < inputs.len() implies #[trigger] all[i]
            == SupervisorAction::Ignore by {
            if i > 0 {
                assert(all[i] == rest[i - 1]);
            }
        }
    }
}

/// A job emits at most one terminal event, whatever it observes.
pub proof fn lemma_at_most_one_report(inputs: Seq<SupervisorInput>)
    ensures
        reports(supervise_all(JobPhase::Running, inputs)) <= 1,
{
    if inputs.len() > 0 {
        let (next, action) = supervise(JobPhase::Running, inputs[0]);
        lemma_settled_is_silent(next, inputs.drop_first());
        let all = supervise_all(JobPhase::Running, inputs);
        assert(all.drop_first() =~= supervise_all(next, inputs.drop_first()));
    }
}

/// A job whose process ends before any cancellation emits exactly one terminal
/// event, right then.
pub proof fn lemma_exit_reported_once(rest: Seq<SupervisorInput>)
    ensures
        ({
            let all = supervise_all(JobPhase::Running, seq![SupervisorInput::ProcessEnded] + rest);
            &&& reports(all) == 1
            &&& all[0] == SupervisorAction::Report
        }),
{
    let inputs = seq![SupervisorInput::ProcessEnded] + rest;
    assert(inputs.drop_first() =~= rest);
    lemma_settled_is_silent(JobPhase::Finished, rest);
    let all = supervise_all(JobPhase::Running, inputs);
    assert(all.drop_first() =~= supervise_all(JobPhase::Finished, rest));
}

/// A job that is cancelled before its process ends kills the process and never
/// emits a terminal event.
pub proof fn lemma_cancelled_job_is_silent(rest: Seq<SupervisorInput>)
    ensures
        ({
            let all = supervise_all(JobPhase::Running, seq![SupervisorInput::CancelSignal] + rest);
            &&& reports(all) == 0
            &&& all[0] == SupervisorAction::Kill
        }),
{
    let inputs = seq![SupervisorInput::CancelSignal] + rest;
    assert(inputs.drop_first() =~= rest);
    lemma_settled_is_silent(JobPhase::Cancelled, rest);
    let all = supervise_all(JobPhase::Running, inputs);
    assert(all.drop_first() =~= supervise_all(JobPhase::Cancelled, rest));
}

/// The single job slot: holds the cancellation signal of the active job, if
/// any.
pub struct JobSlot<T> {
    pub signal: Option<T>,
}

impl<T> JobSlot<T> {
    /// An empty slot: no job is active.
    pub fn new() -> (r: JobSlot<T>)
        ensures
            r.signal is None,
    {
        JobSlot { signal: None }
    }

    /// Empties the slot and hands back the signal that was in it, for the
    /// caller to fire. Starting a job and cancelling both begin with this.
    pub fn take_signal(&mut self) -> (r: Option<T>)
        ensures
            r == old(self).signal,
            final(self).signal is None,
    {
        self.signal.take()
    }

    /// Stores the signal of a newly launched job.
    pub fn install(&mut self, signal: T)
        ensures
            final(self).signal == Some(signal),
    {
        self.signal = Some(signal);
    }

    /// Whether a job is active.
    pub fn is_active(&self) -> (r: bool)
        ensures
            r == self.signal is Some,
    {
        self.signal.is_some()
    }
}

} // verus!
