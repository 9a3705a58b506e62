//! Health checks: the trait a tool implements to contribute its own checks,
//! and the report printed from their results.

use vstd::prelude::*;

use crate::output::{rule, rule_of};
use crate::text::{join2, join3, owned};
use crate::types::{DoctorCheck, RepoInfo};

verus! {

/// Implemented by a tool that takes part in the health check.
pub trait DoctorChecks {
    /// Where the tool's releases live.
    fn repo_info() -> RepoInfo;

    /// The version of the running tool.
    fn current_version() -> &'static str;

    /// The tool's own checks; none by default.
    fn tool_checks(&self) -> Vec<DoctorCheck> {
        Vec::new()
    }
}

/// The report lines for one check: its name with a mark, and for a failed
/// check its message, indented.
pub open spec fn check_lines(c: DoctorCheck) -> Seq<Seq<char>> {
    if c.passed {
        seq!["  ✅ "@ + c.name@]
    } else {
        match c.message {
            Some(m) => seq!["  ❌ "@ + c.name@, "     "@ + m@],
            None => seq!["  ❌ "@ + c.name@],
        }
    }
}

/// The report lines for a list of checks, in order.
pub open spec fn checks_lines(cs: Seq<DoctorCheck>) -> Seq<Seq<char>>
    decreases cs.len(),
{
    if cs.len() == 0 {
        Seq::empty()
    } else {
        checks_lines(cs.drop_last()) + check_lines(cs.last())
    }
}

/// Some check failed.
pub open spec fn any_failed(cs: Seq<DoctorCheck>) -> bool {
    exists|i: int| 0 <= i < cs.len() && !(#[trigger] cs[i]).passed
}

/// The whole report for tool `name` (whose UTF-8 length is `name_len`): a
/// title over a rule, the checks when there are any, and a verdict.
pub open spec fn report_of(name: Seq<char>, name_len: nat, cs: Seq<DoctorCheck>) -> Seq<Seq<char>> {
    seq!["🏥 "@ + name + " health check"@, rule_of(name_len + 14), Seq::empty()] + (if cs.len()
        == 0 {
        Seq::empty()
    } else {
        seq!["Configuration:"@] + checks_lines(cs) + seq![Seq::<char>::empty()]
    }) + seq![
        if any_failed(cs) {
            "❌ Issues found - see above for details"@
        } else {
            "✨ Everything looks healthy!"@
        },
    ]
}

/// The exit status of a health check: 1 when some check failed, else 0.
pub open spec fn doctor_code_of(cs: Seq<DoctorCheck>) -> i32 {
    if any_failed(cs) {
        1
    } else {
        0
    }
}

/// The views of a list of lines.
pub open spec fn lines_view(v: Seq<String>) -> Seq<Seq<char>> {
    v.map_values(|s: String| s@)
}

fn push_line(lines: &mut Vec<String>, s: String)
    ensures
        lines_view(final(lines)@) == lines_view(old(lines)@) + seq![s@],
{
    lines.push(s);
    assert(lines_view(lines@) =~= lines_view(old(lines)@) + seq![s@]);
}

/// The health-check report for `tool_name` over `checks`, as lines to print,
/// and the exit status.
pub fn doctor_report(tool_name: &str, checks: &Vec<DoctorCheck>) -> (r: (Vec<String>, i32))
    requires
        tool_name.len() + 14 <= usize::MAX,
    ensures
        lines_view(r.0@) == report_of(tool_name@, tool_name.len() as nat, checks@),
        r.1 == doctor_code_of(checks@),
{
    let mut lines: Vec<String> = Vec::new();
    push_line(&mut lines, join3("🏥 ", tool_name, " health check"));
    push_line(&mut lines, rule(tool_name.len() + 14));
    push_line(&mut lines, String::new());
    let ghost head = lines_view(lines@);
    let mut has_errors = false;
    let n = checks.len();
    if n > 0 {
        push_line(&mut lines, owned("Configuration:"));
        let ghost start = lines_view(lines@);
        let mut i: usize = 0;
        while i < n
            invariant
                i <= n,
                n == checks@.len(),
                lines_view(lines@) == start + checks_lines(checks@.subrange(0, i as int)),
                has_errors == any_failed(checks@.subrange(0, i as int)),
            decreases n - i,
        {
            let c = &checks[i];
            let ghost before = lines_view(lines@);
            if c.passed {
                push_line(&mut lines, join2("  ✅ ", c.name.as_str()));
            } else {
                push_line(&mut lines, join2("  ❌ ", c.name.as_str()));
                match &c.message {
                    Some(m) => {
                        push_line(&mut lines, join2("     ", m.as_str()));
                    },
                    None => {},
                }
                has_errors = true;
            }
            proof {
                let next = checks@.subrange(0, i + 1);
                assert(next.drop_last() =~= checks@.subrange(0, i as int));
                assert(next.last() == checks@[i as int]);
                assert(lines_view(lines@) =~= before + check_lines(checks@[i as int]));
                if !checks@[i as int].passed {
                    assert(!next[i as int].passed);
                }
                if any_failed(checks@.subrange(0, i as int)) {
                    let k = choose|k: int| 0 <= k < i && !(#[trigger] checks@.subrange(0, i as int)[k]).passed;
                    assert(!next[k].passed);
                }
                if any_failed(next) {
                    let k = choose|k: int| 0 <= k < i + 1 && !(#[trigger] next[k]).passed;
                    if k < i {
                        assert(!checks@.subrange(0, i as int)[k].passed);
                    }
                }
            }
            i = i + 1;
        }
        push_line(&mut lines, String::new());
    }
    assert(checks@.subrange(0, n as int) =~= checks@);
    let verdict = if has_errors {
        owned("❌ Issues found - see above for details")
    } else {
        owned("✨ Everything looks healthy!")
    };
    push_line(&mut lines, verdict);
    let code = if has_errors {
        1
    } else {
        0
    };
    proof {
        if n == 0 {
            assert(!any_failed(checks@));
        }
        assert(lines_view(lines@) =~= report_of(tool_name@, tool_name.len() as nat, checks@));
    }
    (lines, code)
}

} // verus!
