//! Supervision of the external text-analysis worker: the ordered launch
//! candidates, the health-gated search for one that works, the line framing
//! of its protocol, and what becomes of the worker after each request.
//!
//! Starting processes and moving bytes is left to the caller. The caller
//! reports what happened; the decisions are taken here.

use vstd::prelude::*;
use crate::text::{blank, is_blank, trim, trimmed};

verus! {

/// Seconds to wait for the reply to the health check of a new worker.
pub const HEALTH_TIMEOUT_SECS: u64 = 3;

/// Seconds to wait for the reply to a request.
pub const REQUEST_TIMEOUT_SECS: u64 = 5;

/// One way to launch the worker: a program and the arguments that precede
/// the ones every launch shares.
#[derive(Clone, Debug, PartialEq, Eq)]
pub struct LaunchSpec {
    pub program: String,
    pub args: Vec<String>,
}

/// The mathematical content of a `LaunchSpec`.
pub struct LaunchModel {
    pub program: Seq<char>,
    pub args: Seq<Seq<char>>,
}

impl View for LaunchSpec {
    type V = LaunchModel;

    open spec fn view(&self) -> LaunchModel {
        LaunchModel { program: self.program@, args: self.args.deep_view() }
    }
}

/// The contents of a list of launch candidates.
pub open spec fn launch_models(list: Seq<LaunchSpec>) -> Seq<LaunchModel> {
    Seq::new(list.len(), |i: int| list[i]@)
}

/// The candidates that are tried whatever the operator configured, in order.
pub open spec fn builtin_candidates() -> Seq<LaunchModel> {
    seq![
        LaunchModel { program: "python"@, args: Seq::empty() },
        LaunchModel { program: "py"@, args: seq!["-3"@] },
        LaunchModel { program: "python3"@, args: Seq::empty() },
    ]
}

/// The launch candidates, in the order in which they are tried: the
/// operator's override first, unless it is absent or blank, then the
/// built-in ones.
pub open spec fn candidate_models(custom: Option<Seq<char>>) -> Seq<LaunchModel> {
    match custom {
        Some(program) if !blank(program) => seq![LaunchModel { program, args: Seq::empty() }]
            + builtin_candidates(),
        _ => builtin_candidates(),
    }
}

/// The arguments of a launch: the candidate's own, then the switches for
/// UTF-8 and unbuffered streams, then the worker script.
pub open spec fn command_line_model(spec: LaunchModel, script: Seq<char>) -> Seq<Seq<char>> {
    spec.args + seq!["-X"@, "utf8"@, "-u"@, script]
}

/// The environment variables that every launch sets, each with its value.
pub open spec fn environment_model() -> Seq<(Seq<char>, Seq<char>)> {
    seq![("PYTHONUTF8"@, "1"@), ("PYTHONIOENCODING"@, "utf-8"@)]
}

/// Builds the ordered list of launch candidates from the operator's
/// override, if one is configured.
pub fn launch_candidates(custom: Option<&str>) -> (r: Vec<LaunchSpec>)
    ensures
        r@.len() == 3 || r@.len() == 4,
        launch_models(r@) == candidate_models(
            match custom {
                Some(c) => Some(c@),
                None => None,
            },
        ),
{
    let mut out: Vec<LaunchSpec> = Vec::new();
    if let Some(program) = custom {
        if !is_blank(program) {
            out.push(LaunchSpec { program: String::from_str(program), args: Vec::new() });
        }
    }
    out.push(LaunchSpec { program: String::from_str("python"), args: Vec::new() });
    let mut py_args: Vec<String> = Vec::new();
    py_args.push(String::from_str("-3"));
    assert(py_args.deep_view() =~= seq!["-3"@]);
    out.push(LaunchSpec { program: String::from_str("py"), args: py_args });
    out.push(LaunchSpec { program: String::from_str("python3"), args: Vec::new() });
    proof {
        assert forall|i: int| 0 <= i < out@.len() && i != out@.len() - 2 implies (#[trigger] out@[i])@.args
            =~= Seq::<Seq<char>>::empty() by {}
    }
    out
}

impl LaunchSpec {
    /// Returns the full argument list of a launch of this candidate with the
    /// given worker script.
    pub fn command_line(&self, script: &str) -> (r: Vec<String>)
        ensures
            r.deep_view() == command_line_model(self@, script@),
    {
        let mut out: Vec<String> = Vec::new();
        let mut i: usize = 0;
        while i < self.args.len()
            invariant
                i <= self.args.len(),
                out.deep_view() == self.args.deep_view().take(i as int),
            decreases self.args.len() - i,
        {
            out.push(self.args[i].clone());
            assert(self.args.deep_view().take(i + 1) =~= self.args.deep_view().take(i as int).push(self.args[i as int]@));
            i = i + 1;
        }
        let ghost own = out.deep_view();
        out.push(String::from_str("-X"));
        out.push(String::from_str("utf8"));
        out.push(String::from_str("-u"));
        out.push(String::from_str(script));
        assert(out.deep_view() =~= own + seq!["-X"@, "utf8"@, "-u"@, script@]);
        out
    }
}

/// Returns the environment variables that every launch sets.
pub fn worker_environment() -> (r: Vec<(String, String)>)
    ensures
        r@.len() == 2,
        r@[0].0@ == "PYTHONUTF8"@,
        r@[0].1@ == "1"@,
        r@[1].0@ == "PYTHONIOENCODING"@,
        r@[1].1@ == "utf-8"@,
{
    let mut out: Vec<(String, String)> = Vec::new();
    out.push((String::from_str("PYTHONUTF8"), String::from_str("1")));
    out.push((String::from_str("PYTHONIOENCODING"), String::from_str("utf-8")));
    out
}

} // verus!
