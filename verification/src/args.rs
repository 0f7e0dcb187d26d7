//! Command-line argument handling for the matcher front end: domain
//! detection, flag parsing and context assembly. The front end itself only
//! reads files and prints; everything it decides is computed here.

use vstd::prelude::*;

verus! {

use crate::claude::HookContext;
use crate::http::HttpRequest;
use crate::http::first_pos;
use crate::kvmap::KvMap;
use crate::strings::str_eq;
use crate::strings::str_starts_with;
use crate::testing::TestContext;
use vstd::string::StrSliceExecFns;
use vstd::string::StringExecFns;

/// The domain a command applies to.
#[derive(Debug, Clone, Copy, PartialEq, Eq, Structural)]
pub enum Domain {
    /// The key-value test domain.
    Test,
    /// The HTTP domain.
    Http,
    /// The hook-event domain.
    Claude,
}

/// Detect the domain from the first argument. Returns the domain and the
/// index at which the remaining arguments start.
pub fn detect_domain(args: &Vec<String>) -> (r: (Domain, usize))
    ensures
        args@.len() > 0 && args@[0]@ == "http"@ ==> r == (Domain::Http, 1usize),
        args@.len() > 0 && args@[0]@ == "hooks"@ ==> r == (Domain::Claude, 1usize),
        (args@.len() == 0 || (args@[0]@ != "http"@ && args@[0]@ != "hooks"@)) ==> r == (
            Domain::Test,
            0usize,
        ),
{
    if args.len() > 0 {
        if str_eq(args[0].as_str(), "http") {
            proof {
                reveal_strlit("http");
                reveal_strlit("hooks");
                assert("http"@ != "hooks"@) by {
                    assert("http"@.len() != "hooks"@.len());
                }
            }
            return (Domain::Http, 1);
        }
        if str_eq(args[0].as_str(), "hooks") {
            return (Domain::Claude, 1);
        }
    }
    (Domain::Test, 0)
}

/// Parsed HTTP flags.
pub struct HttpArgs {
    /// The HTTP method.
    pub method: String,
    /// The request path.
    pub path: String,
    /// Headers, in order of appearance.
    pub headers: Vec<(String, String)>,
    /// Query parameters, in order of appearance.
    pub query_params: Vec<(String, String)>,
}

impl Default for HttpArgs {
    /// Empty flags.
    fn default() -> (r: Self)
        ensures
            r.method@.len() == 0,
            r.path@.len() == 0,
            r.headers@.len() == 0,
            r.query_params@.len() == 0,
    {
        HttpArgs {
            method: String::new(),
            path: String::new(),
            headers: Vec::new(),
            query_params: Vec::new(),
        }
    }
}

/// Parsed hook-domain flags.
pub struct ClaudeArgs {
    /// The event name.
    pub event: String,
    /// The tool name.
    pub tool: String,
    /// Tool arguments, in order of appearance.
    pub arguments: Vec<(String, String)>,
    /// The working directory, when given.
    pub cwd: Option<String>,
    /// The git branch, when given.
    pub branch: Option<String>,
    /// The session identifier, when given.
    pub session_id: Option<String>,
}

impl Default for ClaudeArgs {
    /// Empty flags.
    fn default() -> (r: Self)
        ensures
            r.event@.len() == 0,
            r.tool@.len() == 0,
            r.arguments@.len() == 0,
            r.cwd is None,
            r.branch is None,
            r.session_id is None,
    {
        ClaudeArgs {
            event: String::new(),
            tool: String::new(),
            arguments: Vec::new(),
            cwd: None,
            branch: None,
            session_id: None,
        }
    }
}

/// Get the argument at the given position, or the error naming the flag
/// that needed it.
pub fn next_value(args: &Vec<String>, i: usize, flag: &str) -> (r: Result<String, String>)
    ensures
        i < args@.len() ==> (r matches Ok(v) && v@ == args@[i as int]@),
        i >= args@.len() ==> (r matches Err(e) && e@ == flag@ + " requires a value"@),
{
    if i < args.len() {
        Ok(args[i].clone())
    } else {
        let mut msg = flag.to_owned();
        msg.append(" requires a value");
        Err(msg)
    }
}

/// Split a `key=value` pair at its first `=`, or report the flag the pair
/// belonged to.
pub fn split_kv(pair: &str, flag: &str) -> (r: Result<(String, String), String>)
    ensures
        first_pos(pair@, '=') >= 0 ==> (r matches Ok(kv) && kv.0@ == pair@.take(
            first_pos(pair@, '='),
        ) && kv.1@ == pair@.skip(first_pos(pair@, '=') + 1)),
        first_pos(pair@, '=') < 0 ==> r is Err,
{
    proof {
        crate::http::lemma_first_pos_range(pair@, '=');
    }
    match crate::http::find_char(pair, '=') {
        Some(e) => {
            let n = pair.unicode_len();
            let k = pair.substring_char(0, e);
            let v = pair.substring_char(e + 1, n);
            proof {
                assert(k@ =~= pair@.take(e as int));
                assert(v@ =~= pair@.skip(e + 1));
            }
            Ok((k.to_owned(), v.to_owned()))
        },
        None => {
            let mut msg = "invalid ".to_owned();
            msg.append(flag);
            msg.append(" pair, expected key=value");
            Err(msg)
        },
    }
}

/// Parse the HTTP flags: `--method` and `--path` are required; `--header`
/// and `--query` repeat, each with a `key=value` pair.
pub fn parse_http_args(args: &Vec<String>) -> (r: Result<HttpArgs, String>)
    ensures
        r matches Ok(a) ==> a.method@.len() > 0 && a.path@.len() > 0,
{
    let mut result = HttpArgs::default();
    let mut i: usize = 0;
    while i < args.len()
        invariant
            i <= args@.len(),
        decreases args@.len() - i,
    {
        if str_eq(args[i].as_str(), "--method") {
            i += 1;
            result.method = match next_value(args, i, "--method") {
                Ok(v) => v,
                Err(e) => {
                    return Err(e);
                },
            };
            i += 1;
        } else if str_eq(args[i].as_str(), "--path") {
            i += 1;
            result.path = match next_value(args, i, "--path") {
                Ok(v) => v,
                Err(e) => {
                    return Err(e);
                },
            };
            i += 1;
        } else if str_eq(args[i].as_str(), "--header") {
            i += 1;
            let pair = match next_value(args, i, "--header") {
                Ok(v) => v,
                Err(e) => {
                    return Err(e);
                },
            };
            let kv = match split_kv(pair.as_str(), "--header") {
                Ok(kv) => kv,
                Err(e) => {
                    return Err(e);
                },
            };
            result.headers.push(kv);
            i += 1;
        } else if str_eq(args[i].as_str(), "--query") {
            i += 1;
            let pair = match next_value(args, i, "--query") {
                Ok(v) => v,
                Err(e) => {
                    return Err(e);
                },
            };
            let kv = match split_kv(pair.as_str(), "--query") {
                Ok(kv) => kv,
                Err(e) => {
                    return Err(e);
                },
            };
            result.query_params.push(kv);
            i += 1;
        } else {
            let mut msg = "unexpected argument ".to_owned();
            msg.append(args[i].as_str());
            return Err(msg);
        }
    }
    if result.method.unicode_len() == 0 {
        return Err("--method is required for http domain".to_owned());
    }
    if result.path.unicode_len() == 0 {
        return Err("--path is required for http domain".to_owned());
    }
    Ok(result)
}

/// Parse the hook-domain flags: `--event` is required; `--tool`, `--cwd`,
/// `--branch` and `--session` are single-valued, `--arg` repeats with a
/// `key=value` pair.
pub fn parse_claude_args(args: &Vec<String>) -> (r: Result<ClaudeArgs, String>)
    ensures
        r matches Ok(a) ==> a.event@.len() > 0,
{
    let mut result = ClaudeArgs::default();
    let mut i: usize = 0;
    while i < args.len()
        invariant
            i <= args@.len(),
        decreases args@.len() - i,
    {
        if str_eq(args[i].as_str(), "--event") {
            i += 1;
            result.event = match next_value(args, i, "--event") {
                Ok(v) => v,
                Err(e) => {
                    return Err(e);
                },
            };
            i += 1;
        } else if str_eq(args[i].as_str(), "--tool") {
            i += 1;
            result.tool = match next_value(args, i, "--tool") {
                Ok(v) => v,
                Err(e) => {
                    return Err(e);
                },
            };
            i += 1;
        } else if str_eq(args[i].as_str(), "--arg") {
            i += 1;
            let pair = match next_value(args, i, "--arg") {
                Ok(v) => v,
                Err(e) => {
                    return Err(e);
                },
            };
            let kv = match split_kv(pair.as_str(), "--arg") {
                Ok(kv) => kv,
                Err(e) => {
                    return Err(e);
                },
            };
            result.arguments.push(kv);
            i += 1;
        } else if str_eq(args[i].as_str(), "--cwd") {
            i += 1;
            result.cwd = match next_value(args, i, "--cwd") {
                Ok(v) => Some(v),
                Err(e) => {
                    return Err(e);
                },
            };
            i += 1;
        } else if str_eq(args[i].as_str(), "--branch") {
            i += 1;
            result.branch = match next_value(args, i, "--branch") {
                Ok(v) => Some(v),
                Err(e) => {
                    return Err(e);
                },
            };
            i += 1;
        } else if str_eq(args[i].as_str(), "--session") {
            i += 1;
            result.session_id = match next_value(args, i, "--session") {
                Ok(v) => Some(v),
                Err(e) => {
                    return Err(e);
                },
            };
            i += 1;
        } else {
            let mut msg = "unexpected argument ".to_owned();
            msg.append(args[i].as_str());
            return Err(msg);
        }
    }
    if result.event.unicode_len() == 0 {
        return Err("--event is required for the hook domain".to_owned());
    }
    Ok(result)
}

/// Parse `--context key=value...` pairs for the test domain.
pub fn parse_context_pairs(args: &Vec<String>) -> (r: Result<KvMap, String>)
    ensures
        r matches Ok(m) ==> m.wf(),
        args@.len() == 0 ==> (r matches Ok(m) && (forall|k: Seq<char>|
            #[trigger] m.spec_get(k) is None)),
{
    let mut map = KvMap::new();
    if args.len() == 0 {
        return Ok(map);
    }
    let mut i: usize = 0;
    while i < args.len()
        invariant
            i <= args@.len(),
            map.wf(),
        decreases args@.len() - i,
    {
        if str_eq(args[i].as_str(), "--context") {
            i += 1;
            let ghost i_entry = i as int;
            while i < args.len() && !str_starts_with(args[i].as_str(), "--", false)
                invariant
                    i_entry <= i,
                    i <= args@.len(),
                    map.wf(),
                decreases args@.len() - i,
            {
                let kv = match split_kv(args[i].as_str(), "--context") {
                    Ok(kv) => kv,
                    Err(e) => {
                        return Err(e);
                    },
                };
                map.insert(kv.0, kv.1);
                i += 1;
            }
        } else {
            let mut msg = "unexpected argument ".to_owned();
            msg.append(args[i].as_str());
            return Err(msg);
        }
    }
    Ok(map)
}

/// Assemble a test context from key-value pairs.
pub fn build_test_context(pairs: &Vec<(String, String)>) -> (r: TestContext)
    ensures
        r.wf(),
{
    let mut ctx = TestContext::new();
    let mut i: usize = 0;
    while i < pairs.len()
        invariant
            i <= pairs@.len(),
            ctx.wf(),
        decreases pairs@.len() - i,
    {
        ctx = ctx.with(pairs[i].0.as_str(), pairs[i].1.as_str());
        i += 1;
    }
    ctx
}

/// Assemble an HTTP request context from parsed flags.
pub fn build_http_context(args: &HttpArgs) -> (r: HttpRequest)
    ensures
        r.wf(),
        r.method@ == args.method@,
        r.path@ == args.path@,
{
    let mut builder = HttpRequest::builder().method(args.method.as_str()).path(
        args.path.as_str(),
    );
    let mut i: usize = 0;
    while i < args.headers.len()
        invariant
            i <= args.headers@.len(),
            builder.request.wf(),
            builder.request.method@ == args.method@,
            builder.request.path@ == args.path@,
        decreases args.headers@.len() - i,
    {
        builder = builder.header(args.headers[i].0.as_str(), args.headers[i].1.as_str());
        i += 1;
    }
    let mut j: usize = 0;
    while j < args.query_params.len()
        invariant
            j <= args.query_params@.len(),
            builder.request.wf(),
            builder.request.method@ == args.method@,
            builder.request.path@ == args.path@,
        decreases args.query_params@.len() - j,
    {
        builder = builder.query_param(
            args.query_params[j].0.as_str(),
            args.query_params[j].1.as_str(),
        );
        j += 1;
    }
    builder.build()
}

/// Assemble a hook context from parsed flags. An unknown event name is
/// rejected with a message listing the valid events.
pub fn build_claude_context(args: &ClaudeArgs) -> (r: Result<HookContext, String>)
    ensures
        r matches Ok(c) ==> c.wf(),
{
    let mut ctx = if str_eq(args.event.as_str(), "PreToolUse") {
        HookContext::pre_tool_use(args.tool.as_str())
    } else if str_eq(args.event.as_str(), "PostToolUse") {
        HookContext::post_tool_use(args.tool.as_str())
    } else if str_eq(args.event.as_str(), "Stop") {
        HookContext::stop()
    } else if str_eq(args.event.as_str(), "SubagentStop") {
        HookContext::subagent_stop()
    } else if str_eq(args.event.as_str(), "UserPromptSubmit") {
        HookContext::user_prompt_submit()
    } else if str_eq(args.event.as_str(), "SessionStart") {
        HookContext::session_start()
    } else if str_eq(args.event.as_str(), "SessionEnd") {
        HookContext::session_end()
    } else if str_eq(args.event.as_str(), "PreCompact") {
        HookContext::pre_compact()
    } else if str_eq(args.event.as_str(), "Notification") {
        HookContext::notification()
    } else {
        let mut msg = "unknown event ".to_owned();
        msg.append(args.event.as_str());
        msg.append(
            ". Valid events: PreToolUse, PostToolUse, Stop, SubagentStop, UserPromptSubmit, SessionStart, SessionEnd, PreCompact, Notification",
        );
        return Err(msg);
    };
    let mut i: usize = 0;
    while i < args.arguments.len()
        invariant
            i <= args.arguments@.len(),
            ctx.wf(),
        decreases args.arguments@.len() - i,
    {
        ctx = ctx.with_arg(args.arguments[i].0.as_str(), args.arguments[i].1.as_str());
        i += 1;
    }
    match &args.cwd {
        Some(cwd) => {
            ctx = ctx.with_cwd(cwd.as_str());
        },
        None => {},
    }
    match &args.branch {
        Some(branch) => {
            ctx = ctx.with_git_branch(branch.as_str());
        },
        None => {},
    }
    match &args.session_id {
        Some(session) => {
            ctx = ctx.with_session_id(session.as_str());
        },
        None => {},
    }
    Ok(ctx)
}

} // verus!
