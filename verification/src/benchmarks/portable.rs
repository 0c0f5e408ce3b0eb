use vstd::prelude::*;

use crate::json::json_document;
use crate::protocol::{parse_strict, strict_reading, Output, ProtocolError, Reading};
use crate::text::str_eq;
use vstd::string::StringExecFns;

verus! {

/// A group of portable benchmarks.
#[derive(Clone, Copy, Debug, PartialEq, Eq, Structural)]
pub enum BenchGroup {
    Protocol,
    Dispatch,
    Memory,
    E2e,
}

/// The groups that a preset runs, in order. `core`, and every name that is
/// not a preset, runs protocol, dispatch and memory.
pub open spec fn preset_groups(preset: Seq<char>) -> Seq<BenchGroup> {
    if preset == "protocol"@ {
        seq![BenchGroup::Protocol]
    } else if preset == "dispatch"@ {
        seq![BenchGroup::Dispatch]
    } else if preset == "memory"@ {
        seq![BenchGroup::Memory]
    } else if preset == "e2e"@ {
        seq![BenchGroup::E2e]
    } else if preset == "all"@ {
        seq![BenchGroup::Protocol, BenchGroup::Dispatch, BenchGroup::Memory, BenchGroup::E2e]
    } else {
        seq![BenchGroup::Protocol, BenchGroup::Dispatch, BenchGroup::Memory]
    }
}

/// The note that the `all` preset closes its report with.
pub open spec fn startup_note_text() -> Seq<char> {
    "Startup benchmark is separate (use `startup` command)."@
}

/// What a preset runs and how its report is headed and closed.
pub struct PresetPlan {
    /// The report's title.
    pub title: String,
    /// The benchmark groups, in the order they run.
    pub groups: Vec<BenchGroup>,
    /// A note that follows the notes of the groups.
    pub closing_note: Option<String>,
}

/// Plans the portable run of `preset`.
pub fn plan_preset(preset: &str) -> (p: PresetPlan)
    ensures
        p.title@ == "FemtoClaw Bench ("@ + preset@ + ")"@,
        p.groups@ == preset_groups(preset@),
        p.closing_note is Some <==> preset@ == "all"@,
        p.closing_note matches Some(note) ==> note@ == startup_note_text(),
{
    let mut title = "FemtoClaw Bench (".to_owned();
    title.append(preset);
    title.append(")");
    let mut groups: Vec<BenchGroup> = Vec::new();
    let mut closing_note: Option<String> = None;
    proof {
        reveal_strlit("protocol");
        reveal_strlit("dispatch");
        reveal_strlit("memory");
        reveal_strlit("e2e");
        reveal_strlit("all");
        assert("all"@.len() == 3);
        assert("all"@ != "protocol"@);
        assert("all"@ != "dispatch"@);
        assert("all"@ != "memory"@);
        assert("all"@[0] != "e2e"@[0]);
    }
    if str_eq(preset, "protocol") {
        groups.push(BenchGroup::Protocol);
    } else if str_eq(preset, "dispatch") {
        groups.push(BenchGroup::Dispatch);
    } else if str_eq(preset, "memory") {
        groups.push(BenchGroup::Memory);
    } else if str_eq(preset, "e2e") {
        groups.push(BenchGroup::E2e);
    } else if str_eq(preset, "all") {
        groups.push(BenchGroup::Protocol);
        groups.push(BenchGroup::Dispatch);
        groups.push(BenchGroup::Memory);
        groups.push(BenchGroup::E2e);
        closing_note = Some("Startup benchmark is separate (use `startup` command).".to_owned());
    } else {
        groups.push(BenchGroup::Protocol);
        groups.push(BenchGroup::Dispatch);
        groups.push(BenchGroup::Memory);
    }
    assert(groups@ =~= preset_groups(preset@));
    PresetPlan { title, groups, closing_note }
}

/// A name that is not a preset runs what `core` runs.
pub proof fn unknown_preset_runs_core(preset: Seq<char>)
    requires
        preset != "protocol"@,
        preset != "dispatch"@,
        preset != "memory"@,
        preset != "e2e"@,
        preset != "all"@,
    ensures
        preset_groups(preset) == preset_groups("core"@),
{
    reveal_strlit("core");
    reveal_strlit("protocol");
    reveal_strlit("dispatch");
    reveal_strlit("memory");
    reveal_strlit("e2e");
    reveal_strlit("all");
    assert("core"@.len() == 4);
    assert("core"@ != "all"@);
    assert("core"@ != "e2e"@);
    assert("core"@ != "protocol"@);
    assert("core"@ != "memory"@);
    assert("core"@ != "dispatch"@);
}

/// The capacity of the short-term memory: the number of messages it keeps.
pub const STM_CAPACITY: usize = 24;

/// The number of rounds of the short-term memory benchmark for `iters`
/// iterations: a tenth of them, and at least one.
pub fn stm_rounds(iters: u64) -> (r: u64)
    ensures
        r == if iters / 10 == 0 { 1 } else { iters / 10 },
{
    let rounds = iters / 10;
    if rounds == 0 {
        1
    } else {
        rounds
    }
}

/// The note that a report carries when the resident set cannot be read.
pub open spec fn rss_unavailable_text() -> Seq<char> {
    "RSS memory overhead metric unavailable on this platform/runtime."@
}

/// The note that a report carries when the resident set cannot be read.
pub fn rss_unavailable_note() -> (r: String)
    ensures
        r@ == rss_unavailable_text(),
{
    "RSS memory overhead metric unavailable on this platform/runtime.".to_owned()
}

/// The number of messages allocated to measure the growth of the resident set.
pub const RSS_SAMPLES: usize = 4096;

/// The size of the padding in each of those messages, in bytes.
pub const PAYLOAD_BYTES: usize = 128;

/// The last `n` items of `s` (all of them when it has no more than `n`).
pub open spec fn last_n<T>(s: Seq<T>, n: nat) -> Seq<T> {
    if s.len() > n {
        s.subrange(s.len() - n, s.len() as int)
    } else {
        s
    }
}

/// Appends `item` to the short-term memory `buf` and evicts its oldest
/// entries until at most `max` are left.
pub fn stm_push<T>(buf: &mut Vec<T>, item: T, max: usize)
    ensures
        final(buf)@ == last_n(old(buf)@.push(item), max as nat),
        final(buf)@.len() <= max,
{
    buf.push(item);
    if buf.len() > max {
        let at = buf.len() - max;
        let kept = buf.split_off(at);
        *buf = kept;
    }
}

/// The buffer after `stm_push` of each item of `items`, one after another.
pub open spec fn push_each<T>(buf: Seq<T>, items: Seq<T>, max: nat) -> Seq<T>
    decreases items.len(),
{
    if items.len() == 0 {
        buf
    } else {
        push_each(last_n(buf.push(items[0]), max), items.drop_first(), max)
    }
}

/// Whatever was pushed, a short-term memory that holds at most `max` items
/// holds the last `max` items of what it held and what was pushed since,
/// oldest first; so it never holds more than `max`.
pub proof fn stm_keeps_the_latest<T>(buf: Seq<T>, items: Seq<T>, max: nat)
    requires
        buf.len() <= max,
    ensures
        push_each(buf, items, max) =~= last_n(buf + items, max),
        push_each(buf, items, max).len() <= max,
    decreases items.len(),
{
    if items.len() == 0 {
        assert(buf + items =~= buf);
    } else {
        let x = items[0];
        let rest = items.drop_first();
        stm_keeps_the_latest(last_n(buf.push(x), max), rest, max);
        last_n_push_concat(buf, x, rest, max);
        assert(buf.push(x) + rest =~= buf + items);
    }
}

/// Evicting before appending keeps the same window as evicting after it.
proof fn last_n_push_concat<T>(s: Seq<T>, x: T, rest: Seq<T>, max: nat)
    ensures
        last_n(last_n(s.push(x), max) + rest, max) =~= last_n(s.push(x) + rest, max),
{
}

/// Resident-set readings around an allocation burst, in KiB.
#[derive(Clone, Copy, Debug, PartialEq, Eq)]
pub struct RssReading {
    pub before_kib: u64,
    pub after_kib: u64,
    pub delta_kib: u64,
}

/// Combines the reading before the burst with the one after it (which may
/// have failed, and then counts as unchanged) into before, after and growth.
pub fn rss_reading(before_kib: u64, after_kib: Option<u64>) -> (r: RssReading)
    ensures
        r.before_kib == before_kib,
        r.after_kib == match after_kib {
            Some(a) => a,
            None => before_kib,
        },
        r.delta_kib == if r.after_kib >= before_kib {
            r.after_kib - before_kib
        } else {
            0
        },
{
    let after = match after_kib {
        Some(a) => a,
        None => before_kib,
    };
    let delta = after.saturating_sub(before_kib);
    RssReading { before_kib, after_kib: after, delta_kib: delta }
}

/// Why a simulated agent step failed.
#[derive(Debug, PartialEq)]
pub enum StepError {
    /// The brain output was rejected.
    Protocol(ProtocolError),
    /// The brain output is a message, not a tool call.
    NotToolCall,
    /// The tool call names another tool than `shell`.
    UnexpectedTool,
}

/// One simulated agent step: read the brain output, dispatch it to the
/// `shell` tool, and mediate the result.
pub fn simulated_step(text: &str) -> (r: Result<(), StepError>)
    ensures
        match json_document(text@) {
            Err(detail) => r matches Err(StepError::Protocol(ProtocolError::InvalidJson(d)))
                && d@ == detail,
            Ok(doc) => match strict_reading(doc) {
                Reading::Rejected(e) => r == Err::<(), StepError>(StepError::Protocol(e)),
                Reading::Message(_) => r == Err::<(), StepError>(StepError::NotToolCall),
                Reading::ToolCall(name, _) => r == if name == "shell"@ {
                    Ok::<(), StepError>(())
                } else {
                    Err(StepError::UnexpectedTool)
                },
            },
        },
{
    match parse_strict(text) {
        Ok(Output::ToolCall { tool, .. }) => {
            if str_eq(tool.as_str(), "shell") {
                Ok(())
            } else {
                Err(StepError::UnexpectedTool)
            }
        },
        Ok(Output::Message { .. }) => Err(StepError::NotToolCall),
        Err(e) => Err(StepError::Protocol(e)),
    }
}

} // verus!
