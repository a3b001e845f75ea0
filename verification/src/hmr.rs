//! Decision logic of the HMR driver.
//!
//! The orchestrator's run loop alternates outside work — waiting on protocol
//! notifications, change batches, file reads, the engine's replies — with
//! decisions.  The decisions live here as verified functions from state and
//! event to next state and requested action; the surrounding program performs
//! each action and feeds the outcome back.

use vstd::prelude::*;
use vstd::string::StrSliceExecFns;
use vstd::string::StringExecFns;

use crate::cdp::ExceptionDetails;
use crate::cdp::Notification;
use crate::cdp::SetScriptSourceResponse;
use crate::cdp::Status;
use crate::cdp::spec_description;
use crate::cdp::spec_message;
use crate::sync::MaybeDashMap;
use crate::urls::is_canonical_path;
use crate::urls::spec_path_of_url;
use crate::urls::spec_url_of_path;
use crate::urls::url_from_file_path;
use crate::urls::url_to_file_path;

verus! {

/// Human-readable explanation of a swap response, shown to the user when a
/// swap is rejected: the engine's message for compile errors, a fixed string
/// naming the blocking condition otherwise.
pub open spec fn spec_explain(resp: SetScriptSourceResponse) -> Seq<char> {
    match resp.status {
        Status::Accepted => "OK"@,
        Status::CompileError => match resp.exception_details {
            Option::Some(d) => "compile error: "@ + spec_message(d) + (
            if spec_description(d) == "undefined"@ {
                Seq::<char>::empty()
            } else {
                " - "@ + spec_description(d)
            }),
            Option::None => "compile error: No exception details available"@,
        },
        Status::BlockedByActiveGenerator => "blocked by active generator"@,
        Status::BlockedByActiveFunction => "blocked by active function"@,
        Status::BlockedByTopLevelEsModuleChange => "blocked by top-level ES module change"@,
    }
}

/// Builds the user-facing explanation of a swap response.
pub fn explain(response: &SetScriptSourceResponse) -> (r: String)
    ensures
        r@ == spec_explain(*response),
{
    match response.status {
        Status::Accepted => String::from_str("OK"),
        Status::CompileError => match &response.exception_details {
            Option::Some(details) => {
                let (message, description) = details.get_message_and_description();
                let undefined_placeholder = String::from_str("undefined");
                let mut r = String::from_str("compile error: ");
                r.append(message.as_str());
                if !(description == undefined_placeholder) {
                    r.append(" - ");
                    r.append(description.as_str());
                }
                proof {
                    assert(r@ =~= spec_explain(*response));
                }
                r
            },
            Option::None => String::from_str("compile error: No exception details available"),
        },
        Status::BlockedByActiveGenerator => String::from_str("blocked by active generator"),
        Status::BlockedByActiveFunction => String::from_str("blocked by active function"),
        Status::BlockedByTopLevelEsModuleChange => String::from_str(
            "blocked by top-level ES module change",
        ),
    }
}

/// Index of the last occurrence of `c` in `p`, or -1 when `c` is absent.
pub open spec fn spec_last_index(p: Seq<char>, c: char) -> int
    decreases p.len(),
{
    if p.len() == 0 {
        -1
    } else if p.last() == c {
        p.len() - 1
    } else {
        spec_last_index(p.drop_last(), c)
    }
}

/// The extension of a path: what follows the final `.` of the path's last
/// component, provided that dot is neither absent nor the component's first
/// character.
pub open spec fn spec_extension(p: Seq<char>) -> Option<Seq<char>> {
    let dot = spec_last_index(p, '.');
    if dot > spec_last_index(p, '/') + 1 {
        Option::Some(p.skip(dot + 1))
    } else {
        Option::None
    }
}

/// The source-file extensions recognized as hot-swappable, compared exactly.
pub open spec fn spec_recognized_extension(e: Seq<char>) -> bool {
    ||| e == seq!['j', 's']
    ||| e == seq!['t', 's']
    ||| e == seq!['j', 's', 'x']
    ||| e == seq!['t', 's', 'x']
}

/// Whether a changed path's extension marks it as a hot-swap candidate.
pub open spec fn spec_is_swap_candidate(p: Seq<char>) -> bool {
    match spec_extension(p) {
        Option::Some(e) => spec_recognized_extension(e),
        Option::None => false,
    }
}

/// A last-occurrence index is -1 or a position inside the sequence.
proof fn lemma_last_index_bounds(p: Seq<char>, c: char)
    ensures
        -1 <= spec_last_index(p, c) < p.len(),
    decreases p.len(),
{
    if p.len() > 0 {
        lemma_last_index_bounds(p.drop_last(), c);
    }
}

fn last_index_of(s: &str, n: usize, c: char) -> (r: Option<usize>)
    requires
        n == s@.len(),
    ensures
        match r {
            Option::Some(k) => k < n && spec_last_index(s@, c) == k,
            Option::None => spec_last_index(s@, c) == -1,
        },
{
    proof {
        assert(s@.take(n as int) =~= s@);
    }
    let mut i: usize = n;
    while i > 0
        invariant
            i <= n,
            n == s@.len(),
            spec_last_index(s@, c) == spec_last_index(s@.take(i as int), c),
        decreases i,
    {
        i = i - 1;
        proof {
            assert(s@.take(i + 1).drop_last() =~= s@.take(i as int));
            assert(s@.take(i + 1).last() == s@[i as int]);
        }
        if s.get_char(i) == c {
            return Option::Some(i);
        }
    }
    proof {
        assert(s@.take(0) =~= Seq::<char>::empty());
    }
    Option::None
}

/// Executable form of [`spec_is_swap_candidate`].
pub fn is_swap_candidate(path: &String) -> (r: bool)
    ensures
        r == spec_is_swap_candidate(path@),
{
    let s = path.as_str();
    let n = s.unicode_len();
    proof {
        lemma_last_index_bounds(path@, '.');
        lemma_last_index_bounds(path@, '/');
    }
    let dot = match last_index_of(s, n, '.') {
        Option::Some(d) => d,
        Option::None => {
            return false;
        },
    };
    let past_component_start = match last_index_of(s, n, '/') {
        Option::Some(k) => dot > k + 1,
        Option::None => dot > 0,
    };
    if !past_component_start {
        return false;
    }
    let ext = s.substring_char(dot + 1, n).to_owned();
    let r = ext == String::from_str("js") || ext == String::from_str("ts") || ext
        == String::from_str("jsx") || ext == String::from_str("tsx");
    proof {
        reveal_strlit("js");
        reveal_strlit("ts");
        reveal_strlit("jsx");
        reveal_strlit("tsx");
        assert("js"@ =~= seq!['j', 's']);
        assert("ts"@ =~= seq!['t', 's']);
        assert("jsx"@ =~= seq!['j', 's', 'x']);
        assert("tsx"@ =~= seq!['t', 's', 'x']);
        assert(ext@ =~= spec_extension(path@).unwrap());
    }
    r
}

/// The hot-swap candidates of a change batch: its paths with a recognized
/// source extension, in their original order.
pub open spec fn spec_swap_candidates(paths: Seq<String>) -> Seq<String>
    decreases paths.len(),
{
    if paths.len() == 0 {
        Seq::empty()
    } else {
        let rest = spec_swap_candidates(paths.drop_last());
        if spec_is_swap_candidate(paths.last()@) {
            rest.push(paths.last())
        } else {
            rest
        }
    }
}

/// What the change handler decides for one change batch.
#[derive(Debug)]
pub enum BatchPlan {
    /// Request exactly one forced full restart and stop processing the event.
    ForceRestart,
    /// Handle each of these paths in order, each to completion, before the
    /// next.
    AttemptSwaps(Vec<String>),
}

/// Decides what one change event amounts to.  An absent batch (the watcher
/// had nothing usable) forces a restart outright, without consulting any
/// other state; so does a batch left empty once the unrecognized extensions
/// are dropped, since such a change cannot be reasoned about in the live
/// program.
pub fn plan_change_batch(changed_paths: Option<Vec<String>>) -> (plan: BatchPlan)
    ensures
        match changed_paths {
            Option::None => plan is ForceRestart,
            Option::Some(ps) => {
                if spec_swap_candidates(ps@).len() == 0 {
                    plan is ForceRestart
                } else {
                    plan matches BatchPlan::AttemptSwaps(kept) && kept@ == spec_swap_candidates(
                        ps@,
                    )
                }
            },
        },
{
    let paths = match changed_paths {
        Option::Some(ps) => ps,
        Option::None => {
            return BatchPlan::ForceRestart;
        },
    };
    let n = paths.len();
    proof {
        assert(paths@.take(n as int) =~= paths@);
    }
    let mut kept: Vec<String> = Vec::new();
    let mut i: usize = 0;
    while i < n
        invariant
            i <= n,
            n == paths@.len(),
            kept@ == spec_swap_candidates(paths@.take(i as int)),
        decreases n - i,
    {
        proof {
            assert(paths@.take(i + 1).drop_last() =~= paths@.take(i as int));
            assert(paths@.take(i + 1).last() == paths@[i as int]);
        }
        if is_swap_candidate(&paths[i]) {
            kept.push(paths[i].clone());
        }
        i = i + 1;
    }
    if kept.len() == 0 {
        BatchPlan::ForceRestart
    } else {
        BatchPlan::AttemptSwaps(kept)
    }
}

/// Law: a batch whose every path has an unrecognized extension yields no
/// swap candidates, so by [`plan_change_batch`]'s contract the handler
/// requests exactly one forced restart and attempts zero swaps for it.
pub proof fn lemma_irrelevant_batch_has_no_candidates(paths: Seq<String>)
    requires
        forall|i: int| 0 <= i < paths.len() ==> !spec_is_swap_candidate((#[trigger] paths[i])@),
    ensures
        spec_swap_candidates(paths).len() == 0,
    decreases paths.len(),
{
    if paths.len() > 0 {
        lemma_irrelevant_batch_has_no_candidates(paths.drop_last());
    }
}

/// The fatal message of an uncaught exception: its message and description,
/// separated by one space.
pub open spec fn spec_fatal_message(d: ExceptionDetails) -> Seq<char> {
    spec_message(d) + " "@ + spec_description(d)
}

/// What the notification handler asks its caller to do next.
#[derive(Debug)]
pub enum NotificationStep {
    /// Terminate the run with this fatal error message: an uncaught
    /// exception in the running program is not recoverable by a hot swap.
    Fatal(String),
    /// Canonicalize `path` against the filesystem (resolving symlinks and
    /// relative segments) and report the outcome back through
    /// [`HmrOrchestrator::on_script_canonicalized`] together with
    /// `script_id`.
    Canonicalize { path: String, script_id: String },
    /// Nothing: the notification is not the driver's business.
    Ignore,
}

/// What the change handler decides for one changed path.
#[derive(Debug)]
pub enum PathStep {
    /// The path cannot be hot-swapped — it has no canonical file URL, or the
    /// engine never reported parsing it: request a forced restart and move
    /// on to the next path.
    ForceRestart,
    /// Read the file at the changed path, emit swap-ready source for
    /// `module_url`, and start a swap attempt against `script_id`.
    EmitAndSwap { module_url: String, script_id: String },
}

/// The orchestrator's own state: the registry of scripts the engine has
/// reported parsing, keyed by canonical module URL.
#[derive(Debug)]
pub struct HmrOrchestrator {
    script_ids: MaybeDashMap,
}

impl View for HmrOrchestrator {
    type V = Map<Seq<char>, Seq<char>>;

    /// The registry's contents: canonical module URL to script identifier.
    closed spec fn view(&self) -> Map<Seq<char>, Seq<char>> {
        self.script_ids@
    }
}

impl HmrOrchestrator {
    /// The registry's invariant holds.
    pub closed spec fn wf(&self) -> bool {
        self.script_ids.wf()
    }

    /// A fresh orchestrator with an empty registry; scripts parsed from here
    /// on populate it incrementally for the orchestrator's lifetime.
    pub fn new() -> (r: Self)
        ensures
            r.wf(),
            r@ == Map::<Seq<char>, Seq<char>>::empty(),
    {
        HmrOrchestrator { script_ids: MaybeDashMap::default() }
    }

    /// Decides what one decoded notification amounts to.  An uncaught
    /// exception is fatal; a parsed script with a canonical file URL is a
    /// registry candidate once its path is canonicalized; everything else —
    /// unknown methods, foreign schemes — is ignored.
    pub fn on_notification(&self, notification: &Notification) -> (step: NotificationStep)
        ensures
            match *notification {
                Notification::ExceptionThrown { details } => step matches NotificationStep::Fatal(
                    m,
                ) && m@ == spec_fatal_message(details),
                Notification::ScriptParsed { script_id, url } => match spec_path_of_url(url@) {
                    Option::Some(p) => step matches NotificationStep::Canonicalize {
                        path,
                        script_id: sid,
                    } && path@ == p && sid@ == script_id@,
                    Option::None => step is Ignore,
                },
                Notification::Unrecognized => step is Ignore,
            },
    {
        match notification {
            Notification::ExceptionThrown { details } => {
                let (message, description) = details.get_message_and_description();
                let mut m = message;
                m.append(" ");
                m.append(description.as_str());
                NotificationStep::Fatal(m)
            },
            Notification::ScriptParsed { script_id, url } => match url_to_file_path(url) {
                Option::Some(path) => NotificationStep::Canonicalize {
                    path,
                    script_id: script_id.clone(),
                },
                Option::None => NotificationStep::Ignore,
            },
            Notification::Unrecognized => NotificationStep::Ignore,
        }
    }

    /// Records a parsed script under its canonical URL, given the outcome of
    /// canonicalizing the path of a [`NotificationStep::Canonicalize`] step.
    /// A later record for the same URL overwrites the earlier identifier: the
    /// engine may re-parse a script and assign a new one.  A failed
    /// canonicalization (the file no longer exists) or a path without a
    /// canonical URL is silently ignored — no such script can be a swap
    /// target.
    pub fn on_script_canonicalized(&mut self, script_id: String, canonical_path: Option<String>)
        requires
            old(self).wf(),
        ensures
            final(self).wf(),
            match canonical_path {
                Option::Some(p) => {
                    if is_canonical_path(p@) {
                        final(self)@ == old(self)@.insert(spec_url_of_path(p@), script_id@)
                    } else {
                        final(self)@ == old(self)@
                    }
                },
                Option::None => final(self)@ == old(self)@,
            },
    {
        if let Option::Some(path) = canonical_path {
            if let Option::Some(url) = url_from_file_path(&path) {
                self.script_ids.insert(url, script_id);
            }
        }
    }

    /// The script identifier recorded for a module URL, if any.
    pub fn lookup_script_id(&self, url: &String) -> (r: Option<&String>)
        requires
            self.wf(),
        ensures
            match r {
                Option::Some(id) => self@.contains_key(url@) && self@[url@] == id@,
                Option::None => !self@.contains_key(url@),
            },
    {
        self.script_ids.get(url)
    }

    /// Decides what to do for one changed path that survived filtering: a
    /// path whose URL the registry knows is worth a swap attempt; one whose
    /// URL it does not know — or that has no canonical URL at all — forces a
    /// restart instead.
    pub fn plan_path_swap(&self, path: &String) -> (step: PathStep)
        requires
            self.wf(),
        ensures
            ({
                if !is_canonical_path(path@) {
                    step is ForceRestart
                } else if self@.contains_key(spec_url_of_path(path@)) {
                    step matches PathStep::EmitAndSwap { module_url, script_id }
                        && module_url@ == spec_url_of_path(path@) && script_id@ == self@[
                        spec_url_of_path(path@)]
                } else {
                    step is ForceRestart
                }
            }),
    {
        let module_url = match url_from_file_path(path) {
            Option::Some(u) => u,
            Option::None => {
                return PathStep::ForceRestart;
            },
        };
        match self.script_ids.get(&module_url) {
            Option::Some(id) => {
                let script_id = id.clone();
                PathStep::EmitAndSwap { module_url, script_id }
            },
            Option::None => PathStep::ForceRestart,
        }
    }
}

/// The success line reported after a replaced module.
pub open spec fn spec_success_line(url: Seq<char>) -> Seq<char> {
    "Replaced changed module "@ + url
}

/// The failure line reported when the engine rejects a swap.
pub open spec fn spec_failure_line(url: Seq<char>, resp: SetScriptSourceResponse) -> Seq<char> {
    "Failed to reload module "@ + url + ": "@ + spec_explain(resp) + "."@
}

/// The script evaluated inside the running program after a successful swap:
/// it dispatches a custom event named `hmr` carrying the swapped module's
/// URL, the program's only signal that a module was replaced.
pub open spec fn spec_hmr_notify_expression(url: Seq<char>) -> Seq<char> {
    "dispatchEvent(new CustomEvent(\"hmr\", { detail: { path: \""@ + url + "\" } }));"@
}

/// What the swap loop does after one response from the engine.
#[derive(Debug)]
pub enum SwapStep {
    /// The engine accepted the edit: evaluate `notify_expression` inside the
    /// running program (a failure to deliver it propagates as fatal — the
    /// swap already took effect), then print `log_line`.
    Replaced { notify_expression: String, log_line: String },
    /// Print `log_line`, wait `delay_ms` milliseconds, then send the same
    /// swap request once more.
    RetryAfterDelay { log_line: String, delay_ms: u64 },
    /// Print `log_line`, request a forced restart, and give this path up.
    GiveUp { log_line: String },
}

/// One in-progress swap: the target module, the script identifier the
/// request addresses, and the number of the attempt under way.
#[derive(Debug)]
pub struct SwapAttempt {
    /// Canonical URL of the module being replaced.
    pub module_url: String,
    /// Identifier of the script whose source is being replaced.
    pub script_id: String,
    /// Number of the attempt currently under way, starting at 1.
    pub tries: u8,
}

impl SwapAttempt {
    /// Number of the attempt currently under way, starting at 1.
    pub open spec fn spec_tries(&self) -> int {
        self.tries as int
    }

    /// An attempt never runs past the total budget of 3 tries.
    pub open spec fn wf(&self) -> bool {
        1 <= self.tries <= 3
    }

    /// Starts the first attempt at replacing `module_url`'s source.
    pub fn begin(module_url: String, script_id: String) -> (a: SwapAttempt)
        ensures
            a.wf(),
            a.spec_tries() == 1,
            a.module_url == module_url,
            a.script_id == script_id,
    {
        SwapAttempt { module_url, script_id, tries: 1 }
    }

    /// Decides what follows one swap response.  Success dispatches the HMR
    /// event and reports one success line; a retryable rejection still under
    /// the budget of 2 retries waits 100 ms and retries; any other rejection
    /// gives the path up.  Either way the response earns exactly one printed
    /// line.
    pub fn on_response(&mut self, response: &SetScriptSourceResponse) -> (step: SwapStep)
        requires
            old(self).wf(),
        ensures
            final(self).wf(),
            final(self).module_url == old(self).module_url,
            final(self).script_id == old(self).script_id,
            response.status is Accepted ==> {
                &&& step matches SwapStep::Replaced { notify_expression, log_line }
                    && notify_expression@ == spec_hmr_notify_expression(old(self).module_url@)
                    && log_line@ == spec_success_line(old(self).module_url@)
                &&& final(self).spec_tries() == old(self).spec_tries()
            },
            !(response.status is Accepted) && spec_should_retry(response.status) && old(
                self,
            ).spec_tries() <= 2 ==> {
                &&& step matches SwapStep::RetryAfterDelay { log_line, delay_ms }
                    && log_line@ == spec_failure_line(old(self).module_url@, *response)
                    && delay_ms == 100
                &&& final(self).spec_tries() == old(self).spec_tries() + 1
            },
            !(response.status is Accepted) && !(spec_should_retry(response.status) && old(
                self,
            ).spec_tries() <= 2) ==> {
                &&& step matches SwapStep::GiveUp { log_line } && log_line@ == spec_failure_line(
                    old(self).module_url@,
                    *response,
                )
                &&& final(self).spec_tries() == old(self).spec_tries()
            },
    {
        if matches!(response.status, Status::Accepted) {
            let mut notify_expression = String::from_str(
                "dispatchEvent(new CustomEvent(\"hmr\", { detail: { path: \"",
            );
            notify_expression.append(self.module_url.as_str());
            notify_expression.append("\" } }));");
            let mut log_line = String::from_str("Replaced changed module ");
            log_line.append(self.module_url.as_str());
            return SwapStep::Replaced { notify_expression, log_line };
        }
        let explanation = explain(response);
        let mut log_line = String::from_str("Failed to reload module ");
        log_line.append(self.module_url.as_str());
        log_line.append(": ");
        log_line.append(explanation.as_str());
        log_line.append(".");
        if should_retry(&response.status) && self.tries <= 2 {
            self.tries = self.tries + 1;
            SwapStep::RetryAfterDelay { log_line, delay_ms: 100 }
        } else {
            SwapStep::GiveUp { log_line }
        }
    }
}

/// Whether a rejected swap with this status is worth retrying: only the two
/// "blocked by active ..." conditions can clear on their own a moment later.
pub open spec fn spec_should_retry(status: Status) -> bool {
    match status {
        Status::BlockedByActiveGenerator => true,
        Status::BlockedByActiveFunction => true,
        _ => false,
    }
}

/// Executable form of [`spec_should_retry`].
pub fn should_retry(status: &Status) -> (r: bool)
    ensures
        r == spec_should_retry(*status),
{
    match status {
        Status::BlockedByActiveGenerator => true,
        Status::BlockedByActiveFunction => true,
        _ => false,
    }
}

} // verus!
