use femtoclaw_bench::benchmarks::portable::{plan_preset, simulated_step, BenchGroup, StepError};
use femtoclaw_bench::protocol::ProtocolError;
use femtoclaw_bench::text::{char_is_white_space, is_blank, str_eq};
use femtoclaw_bench::benchmarks::portable::{rss_unavailable_note, stm_rounds};
use femtoclaw_bench::util::{bench_iters, warmup_runs};

use BenchGroup::{Dispatch, E2e, Memory, Protocol};

#[test]
fn presets_select_their_groups() {
    assert_eq!(plan_preset("protocol").groups, vec![Protocol]);
    assert_eq!(plan_preset("dispatch").groups, vec![Dispatch]);
    assert_eq!(plan_preset("memory").groups, vec![Memory]);
    assert_eq!(plan_preset("e2e").groups, vec![E2e]);
    assert_eq!(plan_preset("all").groups, vec![Protocol, Dispatch, Memory, E2e]);
    assert_eq!(plan_preset("core").groups, vec![Protocol, Dispatch, Memory]);
}

#[test]
fn unknown_preset_runs_core() {
    assert_eq!(plan_preset("bogus").groups, plan_preset("core").groups);
    assert_eq!(plan_preset("").groups, vec![Protocol, Dispatch, Memory]);
    assert_eq!(plan_preset("ALL").groups, vec![Protocol, Dispatch, Memory]);
}

#[test]
fn preset_title_and_closing_note() {
    let all = plan_preset("all");
    assert_eq!(all.title, "FemtoClaw Bench (all)");
    assert_eq!(
        all.closing_note.as_deref(),
        Some("Startup benchmark is separate (use `startup` command).")
    );
    let core = plan_preset("core");
    assert_eq!(core.title, "FemtoClaw Bench (core)");
    assert_eq!(core.closing_note, None);
}

#[test]
fn simulated_step_accepts_the_shell_call() {
    let tc = r#"{"tool_call":{"tool":"shell","args":{"bin":"ls","argv":["-la"]}}}"#;
    assert_eq!(simulated_step(tc), Ok(()));
}

#[test]
fn simulated_step_rejects_other_outputs() {
    assert_eq!(
        simulated_step(r#"{"tool_call":{"tool":"web_get"}}"#),
        Err(StepError::UnexpectedTool)
    );
    assert_eq!(
        simulated_step(r#"{"message":{"content":"ok"}}"#),
        Err(StepError::NotToolCall)
    );
    assert_eq!(
        simulated_step(r#"{}"#),
        Err(StepError::Protocol(ProtocolError::NotExactlyOne))
    );
    assert!(matches!(
        simulated_step("nope"),
        Err(StepError::Protocol(ProtocolError::InvalidJson(_)))
    ));
}

#[test]
fn white_space_follows_std() {
    for c in ['\t', '\n', '\u{b}', '\u{c}', '\r', ' ', '\u{85}', '\u{a0}', '\u{1680}', '\u{2000}',
              '\u{200a}', '\u{2028}', '\u{2029}', '\u{202f}', '\u{205f}', '\u{3000}', 'a', '\u{200b}',
              '\u{180e}', '\u{feff}', '0', '\u{1f600}'] {
        assert_eq!(char_is_white_space(c), c.is_whitespace(), "{:?}", c);
    }
}

#[test]
fn blank_means_trims_to_nothing() {
    for t in ["", " ", "\t \n", "\u{3000}", " a ", "x", "\u{200b}"] {
        assert_eq!(is_blank(t), t.trim().is_empty(), "{:?}", t);
    }
}

#[test]
fn text_equality() {
    assert!(str_eq("shell", "shell"));
    assert!(!str_eq("shell", "shel"));
    assert!(!str_eq("a", "b"));
    assert!(str_eq("", ""));
}

#[test]
fn bench_iters_runs_the_body_each_time() {
    let mut count = 0u64;
    let _ = bench_iters(|| count += 1, 7);
    // one warm-up run, then the seven timed ones
    assert_eq!(count, 8);
    let _ = bench_iters(|| count += 1, 0);
    assert_eq!(count, 8);
    let _ = bench_iters(|| count += 1, 20);
    assert_eq!(count, 30);
}

#[test]
fn warmup_is_a_tenth_rounded_up() {
    assert_eq!(warmup_runs(0), 0);
    assert_eq!(warmup_runs(1), 1);
    assert_eq!(warmup_runs(10), 1);
    assert_eq!(warmup_runs(11), 2);
    assert_eq!(warmup_runs(1000), 100);
    assert_eq!(warmup_runs(u64::MAX), u64::MAX / 10 + 1);
}

#[test]
fn stm_rounds_are_a_tenth_and_at_least_one() {
    assert_eq!(stm_rounds(0), 1);
    assert_eq!(stm_rounds(9), 1);
    assert_eq!(stm_rounds(1000), 100);
    assert_eq!(stm_rounds(1005), 100);
}

#[test]
fn rss_unavailable_note_text() {
    assert_eq!(
        rss_unavailable_note(),
        "RSS memory overhead metric unavailable on this platform/runtime."
    );
}
