use input_server::bridge::{launch_candidates, worker_environment, LaunchSpec, HEALTH_TIMEOUT_SECS, REQUEST_TIMEOUT_SECS};
use input_server::request::{
    availability, frame_line, furigana_from_response, furigana_request, health_request, needs_spawn, settle,
    tokenize_request, tokens_from_response, unframe_line, BridgeStatus, RequestOutcome, WorkerOp, WorkerReply,
    WorkerRequest,
};
use input_server::spawn::{AttemptOutcome, AttemptVerdict, SpawnSearch};
use input_server::text::is_blank;
use input_server::tokens::{fallback_furigana, fallback_tokens, FuriganaSegment, Token};

fn spec(program: &str, args: &[&str]) -> LaunchSpec {
    LaunchSpec { program: program.to_string(), args: args.iter().map(|a| a.to_string()).collect() }
}

fn builtin() -> Vec<LaunchSpec> {
    vec![spec("python", &[]), spec("py", &["-3"]), spec("python3", &[])]
}

fn token(word: &str, start: usize, end: usize) -> Token {
    Token { word: word.to_string(), start, end }
}

#[test]
fn timeouts_are_three_and_five_seconds() {
    assert_eq!(HEALTH_TIMEOUT_SECS, 3);
    assert_eq!(REQUEST_TIMEOUT_SECS, 5);
}

#[test]
fn candidates_without_override() {
    assert_eq!(launch_candidates(None), builtin());
}

#[test]
fn candidates_with_override_first() {
    let mut expected = vec![spec("/opt/py/bin/python", &[])];
    expected.extend(builtin());
    assert_eq!(launch_candidates(Some("/opt/py/bin/python")), expected);
}

#[test]
fn blank_override_is_passed_over() {
    assert_eq!(launch_candidates(Some("")), builtin());
    assert_eq!(launch_candidates(Some("   ")), builtin());
    assert_eq!(launch_candidates(Some(" \t\n")), builtin());
}

#[test]
fn override_is_kept_as_written() {
    let got = launch_candidates(Some("  my python "));
    assert_eq!(got.len(), 4);
    assert_eq!(got[0], spec("  my python ", &[]));
}

#[test]
fn is_blank_looks_at_white_space_only() {
    assert!(is_blank(""));
    assert!(is_blank(" \u{a0}\u{3000}\r\n"));
    assert!(!is_blank(" a "));
    assert!(!is_blank("\u{8d8a}"));
}

#[test]
fn command_line_appends_the_shared_arguments() {
    assert_eq!(spec("python", &[]).command_line("bridge.py"), vec!["-X", "utf8", "-u", "bridge.py"]);
    assert_eq!(spec("py", &["-3"]).command_line("/x/bridge.py"), vec!["-3", "-X", "utf8", "-u", "/x/bridge.py"]);
}

#[test]
fn environment_asks_for_utf8() {
    assert_eq!(
        worker_environment(),
        vec![
            ("PYTHONUTF8".to_string(), "1".to_string()),
            ("PYTHONIOENCODING".to_string(), "utf-8".to_string()),
        ]
    );
}

#[test]
fn search_starts_at_the_first_candidate() {
    let search = SpawnSearch::begin(Some("custom"));
    assert_eq!(search.position, 0);
    assert_eq!(search.last_error, "no python candidates attempted");
    assert!(!search.exhausted());
    assert_eq!(search.current(), Some(&spec("custom", &[])));
    assert_eq!(search.candidates.len(), 4);
}

#[test]
fn healthy_candidate_is_adopted() {
    let mut search = SpawnSearch::begin(None);
    assert_eq!(search.record(&AttemptOutcome::HealthReplied), Some(AttemptVerdict::Adopt));
    assert_eq!(search.position, 0);
    assert_eq!(search.last_error, "no python candidates attempted");
    assert_eq!(search.current(), Some(&spec("python", &[])));
}

#[test]
fn each_failure_leaves_its_error_and_moves_on() {
    let mut search = SpawnSearch::begin(Some("custom"));
    let v = search.record(&AttemptOutcome::SpawnFailed("No such file or directory (os error 2)".to_string()));
    assert_eq!(v, Some(AttemptVerdict::Continue));
    assert_eq!(search.last_error, "custom: No such file or directory (os error 2)");
    assert_eq!(search.current(), Some(&spec("python", &[])));
    let v = search.record(&AttemptOutcome::NoStdin);
    assert_eq!(v, Some(AttemptVerdict::KillAndContinue));
    assert_eq!(search.last_error, "python: no stdin pipe");
    assert_eq!(search.current(), Some(&spec("py", &["-3"])));
    let v = search.record(&AttemptOutcome::HealthFailed("expected value at line 1 column 1".to_string()));
    assert_eq!(v, Some(AttemptVerdict::KillAndContinue));
    assert_eq!(search.last_error, "py: health request failed: expected value at line 1 column 1");
    assert_eq!(search.current(), Some(&spec("python3", &[])));
    let v = search.record(&AttemptOutcome::HealthTimedOut);
    assert_eq!(v, Some(AttemptVerdict::KillAndContinue));
    assert_eq!(search.last_error, "python3: health request timed out");
    assert!(search.exhausted());
    assert_eq!(search.current(), None);
    assert_eq!(search.into_error(), "python3: health request timed out");
}

#[test]
fn missing_output_pipe_is_reported() {
    let mut search = SpawnSearch::begin(None);
    assert_eq!(search.record(&AttemptOutcome::NoStdout), Some(AttemptVerdict::KillAndContinue));
    assert_eq!(search.last_error, "python: no stdout pipe");
    assert_eq!(search.position, 1);
}

#[test]
fn nothing_is_recorded_once_exhausted() {
    let mut search = SpawnSearch::begin(None);
    for _ in 0..3 {
        search.record(&AttemptOutcome::HealthTimedOut);
    }
    assert!(search.exhausted());
    assert_eq!(search.record(&AttemptOutcome::HealthReplied), None);
    assert_eq!(search.record(&AttemptOutcome::NoStdin), None);
    assert_eq!(search.position, 3);
    assert_eq!(search.last_error, "python3: health request timed out");
}

#[test]
fn later_candidate_can_be_adopted() {
    let mut search = SpawnSearch::begin(None);
    search.record(&AttemptOutcome::SpawnFailed("nope".to_string()));
    assert_eq!(search.record(&AttemptOutcome::HealthReplied), Some(AttemptVerdict::Adopt));
    assert_eq!(search.current(), Some(&spec("py", &["-3"])));
    assert_eq!(search.last_error, "python: nope");
}

#[test]
fn timeout_forces_a_full_respawn() {
    let settled = settle(RequestOutcome::<u8>::TimedOut);
    assert_eq!(settled.status, BridgeStatus::NoWorker);
    assert!(settled.kill_worker);
    assert_eq!(settled.result, Err("mecab bridge request timed out".to_string()));
    assert!(needs_spawn(settled.status));
    let search = SpawnSearch::begin(Some("custom"));
    assert_eq!(search.position, 0);
    let mut expected = vec![spec("custom", &[])];
    expected.extend(builtin());
    assert_eq!(search.candidates, expected);
}

#[test]
fn reply_keeps_the_worker() {
    let settled = settle(RequestOutcome::Replied(5u8));
    assert_eq!(settled.status, BridgeStatus::Healthy);
    assert!(!settled.kill_worker);
    assert_eq!(settled.result, Ok(5));
    assert!(!needs_spawn(settled.status));
}

#[test]
fn failure_kills_the_worker() {
    let settled = settle(RequestOutcome::<u8>::Failed("broken pipe".to_string()));
    assert_eq!(settled.status, BridgeStatus::NoWorker);
    assert!(settled.kill_worker);
    assert_eq!(settled.result, Err("broken pipe".to_string()));
}

#[test]
fn unavailable_worker_surfaces_the_search_error() {
    let settled = settle(RequestOutcome::<u8>::Unavailable("python3: health request timed out".to_string()));
    assert_eq!(settled.status, BridgeStatus::NoWorker);
    assert!(!settled.kill_worker);
    assert_eq!(settled.result, Err("python3: health request timed out".to_string()));
}

#[test]
fn requests_name_their_operation() {
    assert_eq!(health_request(), WorkerRequest { op: WorkerOp::Health, text: None });
    assert_eq!(tokenize_request("ab"), WorkerRequest { op: WorkerOp::Tokenize, text: Some("ab".to_string()) });
    assert_eq!(furigana_request("ab"), WorkerRequest { op: WorkerOp::GetFurigana, text: Some("ab".to_string()) });
    assert_eq!(WorkerOp::Health.name(), "health");
    assert_eq!(WorkerOp::Tokenize.name(), "tokenize");
    assert_eq!(WorkerOp::GetFurigana.name(), "get_furigana");
}

#[test]
fn request_line_ends_with_a_newline() {
    assert_eq!(frame_line("{\"op\":\"health\"}"), "{\"op\":\"health\"}\n");
    assert_eq!(frame_line(""), "\n");
}

#[test]
fn reply_line_is_trimmed() {
    assert_eq!(unframe_line("  {\"ok\":true}\r\n", 16), Ok("{\"ok\":true}"));
    assert_eq!(unframe_line("\n", 1), Ok(""));
    assert_eq!(unframe_line("a b", 3), Ok("a b"));
}

#[test]
fn closed_output_is_an_error() {
    assert_eq!(unframe_line("", 0), Err("mecab bridge closed stdout".to_string()));
    assert_eq!(unframe_line("ignored", 0), Err("mecab bridge closed stdout".to_string()));
}

#[test]
fn fallback_tokens_of_empty_text() {
    assert_eq!(fallback_tokens(""), vec![]);
}

#[test]
fn fallback_tokens_one_per_character() {
    assert_eq!(fallback_tokens("ab"), vec![token("a", 0, 1), token("b", 1, 2)]);
}

#[test]
fn fallback_tokens_skip_white_space_but_count_it() {
    assert_eq!(fallback_tokens(" a\tb \n"), vec![token("a", 1, 2), token("b", 3, 4)]);
    assert_eq!(fallback_tokens("   "), vec![]);
}

#[test]
fn fallback_tokens_count_characters_not_bytes() {
    assert_eq!(
        fallback_tokens("\u{65e5}\u{672c}\u{3000}\u{8a9e}"),
        vec![token("\u{65e5}", 0, 1), token("\u{672c}", 1, 2), token("\u{8a9e}", 3, 4)]
    );
}

#[test]
fn fallback_furigana_is_one_segment() {
    assert_eq!(
        fallback_furigana("\u{65e5}\u{672c}\u{8a9e} ok"),
        vec![FuriganaSegment {
            text: "\u{65e5}\u{672c}\u{8a9e} ok".to_string(),
            start: 0,
            end: 6,
            has_reading: false,
            reading: None,
        }]
    );
    assert_eq!(
        fallback_furigana(""),
        vec![FuriganaSegment { text: String::new(), start: 0, end: 0, has_reading: false, reading: None }]
    );
}

#[test]
fn availability_defaults_to_false() {
    assert!(availability(Some(true)));
    assert!(!availability(Some(false)));
    assert!(!availability(None));
}

#[test]
fn tokens_come_from_the_reply_when_it_has_them() {
    let reply = WorkerReply { available: Some(true), items: Some(vec![token("ab", 0, 2)]) };
    assert_eq!(tokens_from_response(Ok(reply), "ab"), (vec![token("ab", 0, 2)], true));
    let empty = WorkerReply { available: Some(true), items: Some(vec![]) };
    assert_eq!(tokens_from_response(Ok(empty), "ab"), (vec![], true));
}

#[test]
fn tokens_fall_back_when_the_reply_has_none() {
    let reply = WorkerReply::<Token> { available: Some(true), items: None };
    assert_eq!(tokens_from_response(Ok(reply), "ab"), (vec![token("a", 0, 1), token("b", 1, 2)], true));
    let bare = WorkerReply::<Token> { available: None, items: None };
    assert_eq!(tokens_from_response(Ok(bare), "a"), (vec![token("a", 0, 1)], false));
}

#[test]
fn tokens_fall_back_without_a_worker() {
    assert_eq!(
        tokens_from_response(Err("python3: health request timed out".to_string()), "ab"),
        (vec![token("a", 0, 1), token("b", 1, 2)], false)
    );
}

#[test]
fn segments_come_from_the_reply_or_fall_back() {
    let seg = FuriganaSegment {
        text: "\u{65e5}".to_string(),
        start: 0,
        end: 1,
        has_reading: true,
        reading: Some("\u{306b}".to_string()),
    };
    let reply = WorkerReply { available: Some(false), items: Some(vec![seg.clone()]) };
    assert_eq!(furigana_from_response(Ok(reply), "\u{65e5}"), (vec![seg], false));
    let none = WorkerReply::<FuriganaSegment> { available: Some(true), items: None };
    assert_eq!(furigana_from_response(Ok(none), "xy"), (fallback_furigana("xy"), true));
    assert_eq!(furigana_from_response(Err("gone".to_string()), "xy"), (fallback_furigana("xy"), false));
}

#[test]
fn search_well_formedness_is_decidable() {
    let mut search = SpawnSearch::begin(None);
    assert!(search.is_well_formed());
    search.position = 3;
    assert!(search.is_well_formed());
    search.position = 4;
    assert!(!search.is_well_formed());
}
