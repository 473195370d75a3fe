use vstd::prelude::*;

verus! {

/// The version of the Model Context Protocol the server speaks.
pub const PROTOCOL_VERSION: &'static str = "2024-11-05";
/// The name under which the server introduces itself.
pub const SERVER_NAME: &'static str = "sysmon-mcp";
/// The JSON-RPC version of every request answered and every reply sent.
pub const JSONRPC_VERSION: &'static str = "2.0";
/// JSON-RPC error code: the line is not valid JSON for a request.
pub const PARSE_ERROR: i32 = -32700;
/// JSON-RPC error code: the method is not one the server knows.
pub const METHOD_NOT_FOUND: i32 = -32601;
/// JSON-RPC error code: a tool call names no tool, or an unknown one.
pub const INVALID_PARAMS: i32 = -32602;

/// Whether two texts are equal, character for character.
pub fn same_text(a: &str, b: &str) -> (r: bool)
    ensures
        r == (a@ == b@),
{
    let n = a.unicode_len();
    let m = b.unicode_len();
    if n != m {
        return false;
    }
    let mut i: usize = 0;
    while i < n
        invariant
            n == a@.len(),
            m == b@.len(),
            n == m,
            0 <= i <= n,
            forall|k: int| 0 <= k < i ==> a@[k] == b@[k],
        decreases n - i,
    {
        if a.get_char(i) != b.get_char(i) {
            return false;
        }
        i = i + 1;
    }
    assert(a@ =~= b@);
    true
}

/// `c` has the Unicode `White_Space` property, which is what `char::is_whitespace`
/// and `str::trim` go by.
pub open spec fn is_white_space(c: char) -> bool {
    ||| '\u{9}' <= c <= '\u{d}'
    ||| c == ' '
    ||| c == '\u{85}'
    ||| c == '\u{a0}'
    ||| c == '\u{1680}'
    ||| '\u{2000}' <= c <= '\u{200a}'
    ||| c == '\u{2028}'
    ||| c == '\u{2029}'
    ||| c == '\u{202f}'
    ||| c == '\u{205f}'
    ||| c == '\u{3000}'
}

/// `line` is empty once trimmed: every character of it is white space.
pub open spec fn is_blank_spec(line: Seq<char>) -> bool {
    forall|i: int| 0 <= i < line.len() ==> is_white_space(#[trigger] line[i])
}

/// Whether `c` is white space in the sense of `char::is_whitespace`.
pub fn is_white_space_char(c: char) -> (r: bool)
    ensures
        r == is_white_space(c),
{
    ('\u{9}' <= c && c <= '\u{d}') || c == ' ' || c == '\u{85}' || c == '\u{a0}' || c
        == '\u{1680}' || ('\u{2000}' <= c && c <= '\u{200a}') || c == '\u{2028}' || c
        == '\u{2029}' || c == '\u{202f}' || c == '\u{205f}' || c == '\u{3000}'
}

/// Whether `line` holds nothing but white space (`line.trim().is_empty()`).
pub fn is_blank(line: &str) -> (r: bool)
    ensures
        r == is_blank_spec(line@),
{
    let mut blank = true;
    for c in it: line.chars()
        invariant
            it.seq() == line@,
            blank == (forall|k: int| 0 <= k < it.index() ==> is_white_space(#[trigger] line@[k])),
    {
        if !is_white_space_char(c) {
            blank = false;
        }
    }
    blank
}

/// CPU usage, in percent, above which the busy check calls the CPU busy when the
/// client gives no threshold.
pub const DEFAULT_CPU_BUSY_PERCENT: u32 = 80;
/// Memory usage, in percent, above which the busy check calls memory busy when
/// the client gives no threshold.
pub const DEFAULT_MEMORY_BUSY_PERCENT: u32 = 85;

/// A numeric tool parameter: its name, what the tool list says of it, and the
/// percentage used when a call leaves it out.
#[derive(Debug, Clone, Copy, PartialEq, Eq)]
pub struct ToolParameter {
    pub name: &'static str,
    pub description: &'static str,
    pub default_percent: u32,
}

impl ToolParameter {
    /// The parameter as (name, description, default percentage).
    pub open spec fn view_triple(self) -> (Seq<char>, Seq<char>, u32) {
        (self.name@, self.description@, self.default_percent)
    }
}

/// The tools the server offers.
#[derive(Debug, Clone, Copy, PartialEq, Eq, Structural)]
pub enum Tool {
    GetMetrics,
    GetCpu,
    GetMemory,
    GetDisk,
    GetLoad,
    IsSystemBusy,
}

impl Tool {
    /// The name by which a client calls the tool.
    pub open spec fn name_spec(self) -> Seq<char> {
        match self {
            Tool::GetMetrics => "get_metrics"@,
            Tool::GetCpu => "get_cpu"@,
            Tool::GetMemory => "get_memory"@,
            Tool::GetDisk => "get_disk"@,
            Tool::GetLoad => "get_load"@,
            Tool::IsSystemBusy => "is_system_busy"@,
        }
    }

    /// The name by which a client calls the tool.
    pub fn name(&self) -> (n: &'static str)
        ensures
            n@ == self.name_spec(),
    {
        match self {
            Tool::GetMetrics => "get_metrics",
            Tool::GetCpu => "get_cpu",
            Tool::GetMemory => "get_memory",
            Tool::GetDisk => "get_disk",
            Tool::GetLoad => "get_load",
            Tool::IsSystemBusy => "is_system_busy",
        }
    }

    /// What the tool list tells a client about the tool.
    pub open spec fn description_spec(self) -> Seq<char> {
        match self {
            Tool::GetMetrics => "Get current system resource metrics. Returns only numerical values \u{2014} no process names, file paths, usernames, or other personally identifiable information. Safe to share with AI assistants."@,
            Tool::GetCpu => "Get CPU usage percentage and logical core count."@,
            Tool::GetMemory => "Get memory usage: total, used, available bytes and usage percentage."@,
            Tool::GetDisk => "Get disk usage: total, free bytes and usage percentage."@,
            Tool::GetLoad => "Get system load averages (1m, 5m, 15m), uptime, and process count."@,
            Tool::IsSystemBusy => "Quick check: returns whether the system is under heavy load. Useful for AI assistants to decide whether to run resource-intensive tasks."@,
        }
    }

    /// What the tool list tells a client about the tool.
    pub fn description(&self) -> (d: &'static str)
        ensures
            d@ == self.description_spec(),
    {
        match self {
            Tool::GetMetrics => "Get current system resource metrics. Returns only numerical values \u{2014} no process names, file paths, usernames, or other personally identifiable information. Safe to share with AI assistants.",
            Tool::GetCpu => "Get CPU usage percentage and logical core count.",
            Tool::GetMemory => "Get memory usage: total, used, available bytes and usage percentage.",
            Tool::GetDisk => "Get disk usage: total, free bytes and usage percentage.",
            Tool::GetLoad => "Get system load averages (1m, 5m, 15m), uptime, and process count.",
            Tool::IsSystemBusy => "Quick check: returns whether the system is under heavy load. Useful for AI assistants to decide whether to run resource-intensive tasks.",
        }
    }

    /// The numeric parameters a client may pass to the tool, as (name,
    /// description, default percentage); only the busy check takes any.
    pub open spec fn parameters_spec(self) -> Seq<(Seq<char>, Seq<char>, u32)> {
        match self {
            Tool::IsSystemBusy => seq![
                (
                    "cpu_threshold"@,
                    "CPU usage percentage threshold (default: 80)"@,
                    DEFAULT_CPU_BUSY_PERCENT,
                ),
                (
                    "memory_threshold"@,
                    "Memory usage percentage threshold (default: 85)"@,
                    DEFAULT_MEMORY_BUSY_PERCENT,
                ),
            ],
            _ => Seq::empty(),
        }
    }

    /// The numeric parameters a client may pass to the tool, each with its
    /// description and the percentage used when the client leaves it out.
    pub fn parameters(&self) -> (ps: Vec<ToolParameter>)
        ensures
            ps@.map_values(|p: ToolParameter| p.view_triple()) == self.parameters_spec(),
    {
        let mut ps: Vec<ToolParameter> = Vec::new();
        match self {
            Tool::IsSystemBusy => {
                ps.push(
                    ToolParameter {
                        name: "cpu_threshold",
                        description: "CPU usage percentage threshold (default: 80)",
                        default_percent: DEFAULT_CPU_BUSY_PERCENT,
                    },
                );
                ps.push(
                    ToolParameter {
                        name: "memory_threshold",
                        description: "Memory usage percentage threshold (default: 85)",
                        default_percent: DEFAULT_MEMORY_BUSY_PERCENT,
                    },
                );
            },
            _ => {},
        }
        assert(ps@.map_values(|p: ToolParameter| p.view_triple()) =~= self.parameters_spec());
        ps
    }

    /// Every tool, in the order of the tool list.
    pub open spec fn all_spec() -> Seq<Tool> {
        seq![
            Tool::GetMetrics,
            Tool::GetCpu,
            Tool::GetMemory,
            Tool::GetDisk,
            Tool::GetLoad,
            Tool::IsSystemBusy,
        ]
    }

    /// Every tool, in the order of the tool list.
    pub fn all() -> (tools: Vec<Tool>)
        ensures
            tools@ == Tool::all_spec(),
    {
        let tools = vec![
            Tool::GetMetrics,
            Tool::GetCpu,
            Tool::GetMemory,
            Tool::GetDisk,
            Tool::GetLoad,
            Tool::IsSystemBusy,
        ];
        assert(tools@ =~= Tool::all_spec());
        tools
    }

    /// The tool a client means by `name`, if any.
    pub open spec fn named(name: Seq<char>) -> Option<Tool> {
        if name == "get_metrics"@ {
            Some(Tool::GetMetrics)
        } else if name == "get_cpu"@ {
            Some(Tool::GetCpu)
        } else if name == "get_memory"@ {
            Some(Tool::GetMemory)
        } else if name == "get_disk"@ {
            Some(Tool::GetDisk)
        } else if name == "get_load"@ {
            Some(Tool::GetLoad)
        } else if name == "is_system_busy"@ {
            Some(Tool::IsSystemBusy)
        } else {
            None
        }
    }

    /// The tool a client means by `name`, if any.
    pub fn from_name(name: &str) -> (t: Option<Tool>)
        ensures
            t == Tool::named(name@),
    {
        if same_text(name, "get_metrics") {
            Some(Tool::GetMetrics)
        } else if same_text(name, "get_cpu") {
            Some(Tool::GetCpu)
        } else if same_text(name, "get_memory") {
            Some(Tool::GetMemory)
        } else if same_text(name, "get_disk") {
            Some(Tool::GetDisk)
        } else if same_text(name, "get_load") {
            Some(Tool::GetLoad)
        } else if same_text(name, "is_system_busy") {
            Some(Tool::IsSystemBusy)
        } else {
            None
        }
    }
}

/// A JSON-RPC request, as read from one line, reduced to what the server looks
/// at: the protocol version, the id (absent for a notification), the method, and
/// for a tool call the `name` of the tool when the parameters give it as text.
pub struct Request<I> {
    pub jsonrpc: String,
    pub id: Option<I>,
    pub method: String,
    pub tool_name: Option<String>,
}

/// What a successful reply carries out.
#[derive(Debug, Clone, Copy, PartialEq, Eq, Structural)]
pub enum Call {
    /// Introduce the server: protocol version, capabilities, name and version.
    Initialize,
    /// List every tool with its description and input schema.
    ListTools,
    /// Answer with an empty object.
    Ping,
    /// Run a tool on a fresh sample of the system.
    Tool(Tool),
}

/// A JSON-RPC error object.
pub struct RpcError {
    pub code: i32,
    pub message: String,
}

/// The reply to one line: the id it answers (`None` stands for JSON `null`), its
/// result or error, and whether answering it takes a fresh sample of the system.
pub struct Reply<I> {
    pub id: Option<I>,
    pub outcome: Result<Call, RpcError>,
    pub samples_metrics: bool,
}

/// A reply's outcome with the error message as text.
pub open spec fn outcome_view(o: Result<Call, RpcError>) -> Result<Call, (i32, Seq<char>)> {
    match o {
        Ok(c) => Ok(c),
        Err(e) => Err((e.code, e.message@)),
    }
}

/// An optional string as optional text.
pub open spec fn text_of(s: Option<String>) -> Option<Seq<char>> {
    match s {
        Some(t) => Some(t@),
        None => None,
    }
}

/// The outcome of a request for `method`, naming the tool `tool_name` (if any).
pub open spec fn answer(method: Seq<char>, tool_name: Option<Seq<char>>) -> Result<Call, (i32, Seq<char>)> {
    if method == "initialize"@ {
        Ok(Call::Initialize)
    } else if method == "tools/list"@ {
        Ok(Call::ListTools)
    } else if method == "tools/call"@ {
        match tool_name {
            None => Err((INVALID_PARAMS, "missing tool name"@)),
            Some(name) => match Tool::named(name) {
                Some(t) => Ok(Call::Tool(t)),
                None => Err((INVALID_PARAMS, "unknown tool: "@ + name)),
            },
        }
    } else if method == "ping"@ {
        Ok(Call::Ping)
    } else {
        Err((METHOD_NOT_FOUND, "Method not found: "@ + method))
    }
}

/// `r` is how the server answers `req`: a JSON-RPC 2.0 request with an id gets a
/// reply to that id with the outcome `answer` gives, sampling the system for a
/// tool call that names a tool; anything else (another version, a notification)
/// gets none.
pub open spec fn answers<I>(req: Request<I>, r: Option<Reply<I>>) -> bool {
    if req.jsonrpc@ == "2.0"@ && req.id is Some {
        &&& r is Some
        &&& r->0.id == req.id
        &&& outcome_view(r->0.outcome) == answer(req.method@, text_of(req.tool_name))
        &&& r->0.samples_metrics == (req.method@ == "tools/call"@ && req.tool_name is Some)
    } else {
        r is None
    }
}

/// `prefix` followed by `rest`, as a new string.
fn joined(prefix: &str, rest: &str) -> (s: String)
    ensures
        s@ == prefix@ + rest@,
{
    let mut s = String::new();
    s.append(prefix);
    s.append(rest);
    assert(s@ =~= prefix@ + rest@);
    s
}

/// The outcome of a request for `method` naming the tool `tool_name`.
fn resolve(method: &str, tool_name: &Option<String>) -> (o: Result<Call, RpcError>)
    ensures
        outcome_view(o) == answer(method@, text_of(*tool_name)),
{
    if same_text(method, "initialize") {
        Ok(Call::Initialize)
    } else if same_text(method, "tools/list") {
        Ok(Call::ListTools)
    } else if same_text(method, "tools/call") {
        match tool_name {
            None => {
                let mut message = String::new();
                message.append("missing tool name");
                assert(message@ =~= "missing tool name"@);
                Err(RpcError { code: INVALID_PARAMS, message })
            },
            Some(name) => match Tool::from_name(name.as_str()) {
                Some(t) => Ok(Call::Tool(t)),
                None => Err(RpcError { code: INVALID_PARAMS, message: joined("unknown tool: ", name.as_str()) }),
            },
        }
    } else if same_text(method, "ping") {
        Ok(Call::Ping)
    } else {
        Err(RpcError { code: METHOD_NOT_FOUND, message: joined("Method not found: ", method) })
    }
}

/// Answers a parsed request: none for another protocol version or a notification
/// (no id), else a reply to its id.
pub fn dispatch<I>(req: Request<I>) -> (r: Option<Reply<I>>)
    ensures
        answers(req, r),
{
    let Request { jsonrpc, id, method, tool_name } = req;
    if !same_text(jsonrpc.as_str(), JSONRPC_VERSION) {
        return None;
    }
    match id {
        None => None,
        Some(id) => {
            let outcome = resolve(method.as_str(), &tool_name);
            let samples_metrics = same_text(method.as_str(), "tools/call") && tool_name.is_some();
            Some(Reply { id: Some(id), outcome, samples_metrics })
        },
    }
}

/// The reply to a line that is not a valid request: a parse error for the `null`
/// id, whose message carries the parser's description `detail`.
pub fn parse_error<I>(detail: &str) -> (r: Reply<I>)
    ensures
        r.id is None,
        outcome_view(r.outcome) == Err::<Call, (i32, Seq<char>)>((PARSE_ERROR, "Parse error: "@ + detail@)),
        !r.samples_metrics,
{
    Reply {
        id: None,
        outcome: Err(RpcError { code: PARSE_ERROR, message: joined("Parse error: ", detail) }),
        samples_metrics: false,
    }
}

/// Answers one input line, given what parsing it as a request gave (`Err` holds
/// the parser's description of the failure): nothing for a blank line, a parse
/// error for a line that is not a request, else as `dispatch` answers.
pub fn handle_request<I>(line: &str, parsed: Result<Request<I>, String>) -> (r: Option<Reply<I>>)
    ensures
        is_blank_spec(line@) ==> r is None,
        !is_blank_spec(line@) ==> match parsed {
            Err(detail) => r is Some && r->0.id is None && outcome_view(r->0.outcome) == Err::<
                Call,
                (i32, Seq<char>),
            >((PARSE_ERROR, "Parse error: "@ + detail@)) && !r->0.samples_metrics,
            Ok(req) => answers(req, r),
        },
{
    if is_blank(line) {
        return None;
    }
    match parsed {
        Err(detail) => Some(parse_error(detail.as_str())),
        Ok(req) => dispatch(req),
    }
}

/// The advice given with a busy check, from whether CPU and memory are over
/// their thresholds.
pub open spec fn recommendation_spec(cpu_busy: bool, memory_busy: bool) -> Seq<char> {
    if cpu_busy && memory_busy {
        "System is under heavy load. Defer resource-intensive tasks."@
    } else if cpu_busy {
        "CPU is busy. Consider waiting before running builds or heavy computation."@
    } else if memory_busy {
        "Memory is low. Avoid spawning many parallel processes."@
    } else {
        "System resources are available. Safe to proceed with tasks."@
    }
}

/// The advice given with a busy check.
pub fn busy_recommendation(cpu_busy: bool, memory_busy: bool) -> (r: &'static str)
    ensures
        r@ == recommendation_spec(cpu_busy, memory_busy),
{
    if cpu_busy && memory_busy {
        "System is under heavy load. Defer resource-intensive tasks."
    } else if cpu_busy {
        "CPU is busy. Consider waiting before running builds or heavy computation."
    } else if memory_busy {
        "Memory is low. Avoid spawning many parallel processes."
    } else {
        "System resources are available. Safe to proceed with tasks."
    }
}

/// The verdict of a busy check: busy when CPU or memory is over its threshold,
/// with the advice that goes with it.
pub fn busy_verdict(cpu_busy: bool, memory_busy: bool) -> (v: (bool, &'static str))
    ensures
        v.0 == (cpu_busy || memory_busy),
        v.1@ == recommendation_spec(cpu_busy, memory_busy),
{
    (cpu_busy || memory_busy, busy_recommendation(cpu_busy, memory_busy))
}

/// Whole hours in an uptime given in seconds, as the load report shows it.
pub fn uptime_hours(uptime_secs: u64) -> (h: u64)
    ensures
        h == uptime_secs / 3600,
{
    uptime_secs / 3600
}

/// Every tool is found again under its own name.
pub proof fn lemma_tool_names_round_trip(t: Tool)
    ensures
        Tool::named(t.name_spec()) == Some(t),
{
    reveal_strlit("get_metrics");
    reveal_strlit("get_cpu");
    reveal_strlit("get_memory");
    reveal_strlit("get_disk");
    reveal_strlit("get_load");
    reveal_strlit("is_system_busy");
    let m = "get_metrics"@;
    let c = "get_cpu"@;
    let e = "get_memory"@;
    let d = "get_disk"@;
    let l = "get_load"@;
    let b = "is_system_busy"@;
    assert(m.len() == 11 && c.len() == 7 && e.len() == 10 && d.len() == 8 && l.len() == 8
        && b.len() == 14);
    assert(d[4] != l[4]);
}

/// The tool table as the server publishes it: each tool is called by its own
/// name (`get_metrics` for the full snapshot, `get_cpu` for CPU usage,
/// `get_memory` for memory, `get_disk` for the disk, `get_load` for load and
/// uptime, `is_system_busy` for the busy check), a request naming it runs that
/// tool, and the tool list describes it with its own text.
pub proof fn lemma_tool_table()
    ensures
        Tool::named("get_metrics"@) == Some(Tool::GetMetrics),
        Tool::named("get_cpu"@) == Some(Tool::GetCpu),
        Tool::named("get_memory"@) == Some(Tool::GetMemory),
        Tool::named("get_disk"@) == Some(Tool::GetDisk),
        Tool::named("get_load"@) == Some(Tool::GetLoad),
        Tool::named("is_system_busy"@) == Some(Tool::IsSystemBusy),
        Tool::GetMetrics.name_spec() == "get_metrics"@,
        Tool::GetCpu.name_spec() == "get_cpu"@,
        Tool::GetMemory.name_spec() == "get_memory"@,
        Tool::GetDisk.name_spec() == "get_disk"@,
        Tool::GetLoad.name_spec() == "get_load"@,
        Tool::IsSystemBusy.name_spec() == "is_system_busy"@,
        Tool::GetMetrics.description_spec()
            == "Get current system resource metrics. Returns only numerical values \u{2014} no process names, file paths, usernames, or other personally identifiable information. Safe to share with AI assistants."@,
        Tool::GetCpu.description_spec() == "Get CPU usage percentage and logical core count."@,
        Tool::GetMemory.description_spec()
            == "Get memory usage: total, used, available bytes and usage percentage."@,
        Tool::GetDisk.description_spec() == "Get disk usage: total, free bytes and usage percentage."@,
        Tool::GetLoad.description_spec()
            == "Get system load averages (1m, 5m, 15m), uptime, and process count."@,
        Tool::IsSystemBusy.description_spec()
            == "Quick check: returns whether the system is under heavy load. Useful for AI assistants to decide whether to run resource-intensive tasks."@,
        forall|t: Tool|
            answer("tools/call"@, Some(#[trigger] t.name_spec())) == Ok::<
                Call,
                (i32, Seq<char>),
            >(Call::Tool(t)),
{
    lemma_tool_names_round_trip(Tool::GetMetrics);
    lemma_tool_names_round_trip(Tool::GetCpu);
    lemma_tool_names_round_trip(Tool::GetMemory);
    lemma_tool_names_round_trip(Tool::GetDisk);
    lemma_tool_names_round_trip(Tool::GetLoad);
    lemma_tool_names_round_trip(Tool::IsSystemBusy);
    lemma_answer_errors("tools/call"@, None);
}

/// The tool list names every tool exactly once.
pub proof fn lemma_tool_list_complete(t: Tool)
    ensures
        Tool::all_spec().contains(t),
        Tool::all_spec().len() == 6,
        Tool::all_spec().no_duplicates(),
{
    let all = Tool::all_spec();
    let k: int = match t {
        Tool::GetMetrics => 0,
        Tool::GetCpu => 1,
        Tool::GetMemory => 2,
        Tool::GetDisk => 3,
        Tool::GetLoad => 4,
        Tool::IsSystemBusy => 5,
    };
    assert(all[k] == t);
}

/// A request that is answered fails exactly when its method is unknown, with
/// `METHOD_NOT_FOUND`, or when it calls a tool it does not name or that does not
/// exist, with `INVALID_PARAMS`; a call of a tool by its name runs that tool.
pub proof fn lemma_answer_errors(method: Seq<char>, tool_name: Option<Seq<char>>)
    ensures
        answer(method, tool_name) matches Err((code, _)) ==> {
            ||| code == METHOD_NOT_FOUND && method != "initialize"@ && method != "tools/list"@
                && method != "tools/call"@ && method != "ping"@
            ||| code == INVALID_PARAMS && method == "tools/call"@ && (tool_name is None || Tool::named(
                tool_name->0,
            ) is None)
        },
        method == "tools/call"@ && tool_name is Some && Tool::named(tool_name->0) is Some
            ==> answer(method, tool_name) == Ok::<Call, (i32, Seq<char>)>(
            Call::Tool(Tool::named(tool_name->0)->0),
        ),
        method == "tools/call"@ ==> forall|t: Tool|
            answer(method, Some(#[trigger] t.name_spec())) == Ok::<Call, (i32, Seq<char>)>(
                Call::Tool(t),
            ),
{
    reveal_strlit("initialize");
    reveal_strlit("tools/list");
    reveal_strlit("tools/call");
    reveal_strlit("ping");
    assert("initialize"@[0] != "tools/call"@[0]);
    assert("tools/list"@[6] != "tools/call"@[6]);
    assert forall|t: Tool| method == "tools/call"@ implies answer(method, Some(#[trigger] t.name_spec()))
        == Ok::<Call, (i32, Seq<char>)>(Call::Tool(t)) by {
        lemma_tool_names_round_trip(t);
    }
}

} // verus!
