//! The command-line client's argument handling: the `--url` flag, and the
//! HTTP request that each `<entity> <action> [args]` command stands for.
//! Sending the request and printing the reply is the caller's part.

use vstd::prelude::*;
use crate::json::{json_body, serde_json_body};
use crate::text::{owned, str_eq};

verus! {

/// The server the client talks to when no `--url` is given.
pub open spec fn default_base_url() -> Seq<char> {
    "http://localhost:8080"@
}

/// `args[i]`, when there is one.
pub open spec fn arg(args: Seq<Seq<char>>, i: int) -> Option<Seq<char>> {
    if 0 <= i < args.len() {
        Some(args[i])
    } else {
        None
    }
}

/// Splits `args[i..]` into the value of the last `--url VALUE` pair (a
/// `--url` with nothing after it is an ordinary argument) and the other
/// arguments in order.
pub open spec fn scan_args(args: Seq<Seq<char>>, i: int) -> (Option<Seq<char>>, Seq<Seq<char>>)
    decreases args.len() - i,
{
    if i >= args.len() || i < 0 {
        (None, Seq::empty())
    } else if args[i] == "--url"@ && i + 1 < args.len() {
        let (b, rest) = scan_args(args, i + 2);
        (
            if b is Some {
                b
            } else {
                Some(args[i + 1])
            },
            rest,
        )
    } else {
        let (b, rest) = scan_args(args, i + 1);
        (b, seq![args[i]] + rest)
    }
}

pub open spec fn strings_view(v: Seq<String>) -> Seq<Seq<char>> {
    v.map_values(|s: String| s@)
}

/// The base URL and the command words of a command line (`args[0]` is the
/// program name).
pub fn split_url_flag(args: &Vec<String>) -> (r: (String, Vec<String>))
    ensures
        ({
            let (b, rest) = scan_args(strings_view(args@), 1);
            &&& r.0@ == (match b {
                Some(u) => u,
                None => default_base_url(),
            })
            &&& strings_view(r.1@) == rest
        }),
{
    let ghost a = strings_view(args@);
    let mut base: Option<String> = None;
    let mut cmd: Vec<String> = Vec::new();
    let mut i: usize = 1;
    let n = args.len();
    while i < n
        invariant
            n == args@.len(),
            a == strings_view(args@),
            1 <= i <= n + 1,
            ({
                let (b, rest) = scan_args(a, i as int);
                let (b1, rest1) = scan_args(a, 1);
                &&& b1 == (match b {
                    Some(u) => Some(u),
                    None => match base {
                        Some(x) => Some(x@),
                        None => None,
                    },
                })
                &&& rest1 == strings_view(cmd@) + rest
            }),
        decreases n + 1 - i,
    {
        proof {
            assert(a[i as int] == args@[i as int]@);
        }
        if str_eq(args[i].as_str(), "--url") && i + 1 < n {
            proof {
                assert(a[i + 1] == args@[i + 1]@);
            }
            base = Some(owned(args[i + 1].as_str()));
            i = i + 2;
        } else {
            let ghost before = strings_view(cmd@);
            cmd.push(owned(args[i].as_str()));
            proof {
                assert(strings_view(cmd@) =~= before.push(a[i as int]));
                let (b, rest) = scan_args(a, i + 1);
                assert(before + (seq![a[i as int]] + rest) =~= before.push(a[i as int]) + rest);
            }
            i = i + 1;
        }
    }
    proof {
        let (b, rest) = scan_args(a, i as int);
        assert(rest =~= Seq::<Seq<char>>::empty());
        assert(strings_view(cmd@) + rest =~= strings_view(cmd@));
    }
    let url = match base {
        Some(u) => u,
        None => owned("http://localhost:8080"),
    };
    (url, cmd)
}

/// HTTP verb of a request.
#[derive(PartialEq, Eq, Structural, Clone, Copy, Debug)]
pub enum Method {
    Get,
    Post,
    Put,
    Delete,
}

/// How the reply to a request is shown.
pub enum Report {
    /// Pretty-printed JSON on success; `error {status}: {body}` otherwise.
    Json,
    /// A delete of `entity/id` through the generic CRUD API: `deleted
    /// {entity}/{id}` for an empty body, the body otherwise.
    Deleted { entity: String, id: String },
    /// The given message on success; `error: {status}` otherwise.
    Message(String),
}

/// One request of the client.
pub struct Request {
    pub method: Method,
    pub url: String,
    /// JSON text to send, as serde_json re-encodes the argument.
    pub body: Option<String>,
    pub report: Report,
}

/// What a command line asks for.
pub enum Command {
    Help,
    Send(Request),
}

/// Spec view of a report.
pub enum ReportView {
    Json,
    Deleted(Seq<char>, Seq<char>),
    Message(Seq<char>),
}

pub open spec fn report_view(r: Report) -> ReportView {
    match r {
        Report::Json => ReportView::Json,
        Report::Deleted { entity, id } => ReportView::Deleted(entity@, id@),
        Report::Message(m) => ReportView::Message(m@),
    }
}

/// Spec view of a command: `None` for help, else method, URL, body, report.
pub open spec fn command_view(c: Command) -> Option<
    (Method, Seq<char>, Option<Seq<char>>, ReportView),
> {
    match c {
        Command::Help => None,
        Command::Send(r) => Some(
            (
                r.method,
                r.url@,
                match r.body {
                    Some(b) => Some(b@),
                    None => None,
                },
                report_view(r.report),
            ),
        ),
    }
}

pub type PlanView = Result<Option<(Method, Seq<char>, Option<Seq<char>>, ReportView)>, Seq<char>>;

pub open spec fn send(m: Method, url: Seq<char>, body: Option<Seq<char>>, rep: ReportView) -> PlanView {
    Ok(Some((m, url, body, rep)))
}

/// A request whose body is the JSON argument `j`: refused with serde_json's
/// message when `j` is not JSON, else sent with `j` as serde_json encodes it.
pub open spec fn send_json(m: Method, url: Seq<char>, j: Seq<char>) -> PlanView {
    match serde_json_body(j) {
        Ok(b) => send(m, url, Some(b), ReportView::Json),
        Err(e) => Err(e),
    }
}

pub open spec fn is_crud_entity(e: Seq<char>) -> bool {
    e == "accounts"@ || e == "assets"@ || e == "income"@ || e == "expenses"@ || e == "targets"@
        || e == "categories"@ || e == "labels"@
}

/// Commands on the seven entities with a full CRUD API.
pub open spec fn plan_crud(base: Seq<char>, a: Seq<Seq<char>>, e: Seq<char>, act: Seq<char>) -> PlanView {
    let path = base + "/api/v1/"@ + e;
    if act == "list"@ || act == "ls"@ {
        send(Method::Get, path, None, ReportView::Json)
    } else if act == "get"@ {
        match arg(a, 2) {
            None => Err("missing <id>"@),
            Some(id) => send(Method::Get, path + "/"@ + id, None, ReportView::Json),
        }
    } else if act == "create"@ || act == "add"@ {
        match arg(a, 2) {
            None => Err("missing <json>"@),
            Some(j) => send_json(Method::Post, path, j),
        }
    } else if act == "update"@ || act == "edit"@ {
        match arg(a, 2) {
            None => Err("missing <id>"@),
            Some(id) => match arg(a, 3) {
                None => Err("missing <json>"@),
                Some(j) => send_json(Method::Put, path + "/"@ + id, j),
            },
        }
    } else if act == "delete"@ || act == "rm"@ {
        match arg(a, 2) {
            None => Err("missing <id>"@),
            Some(id) => send(Method::Delete, path + "/"@ + id, None, ReportView::Deleted(e, id)),
        }
    } else {
        Err("unknown action: "@ + act + ". Use list/get/create/update/delete"@)
    }
}

/// The date filter of `snapshots list`: `--date D` or a bare `D`.
pub open spec fn snapshot_date(a: Seq<Seq<char>>) -> Option<Seq<char>> {
    match arg(a, 2) {
        None => None,
        Some(x) => if x == "--date"@ {
            arg(a, 3)
        } else {
            Some(x)
        },
    }
}

pub open spec fn plan_snapshots(base: Seq<char>, a: Seq<Seq<char>>, act: Seq<char>) -> PlanView {
    let path = base + "/api/v1/snapshots"@;
    if act == "list"@ || act == "ls"@ {
        match snapshot_date(a) {
            Some(d) => send(Method::Get, path + "?as_of="@ + d, None, ReportView::Json),
            None => send(Method::Get, path, None, ReportView::Json),
        }
    } else if act == "create"@ || act == "add"@ {
        match arg(a, 2) {
            None => Err("missing <json>"@),
            Some(j) => send_json(Method::Post, path, j),
        }
    } else if act == "delete"@ || act == "rm"@ {
        match arg(a, 2) {
            None => Err("missing <id>"@),
            Some(id) => send(
                Method::Delete,
                path + "/"@ + id,
                None,
                ReportView::Message("deleted snapshot "@ + id),
            ),
        }
    } else if act == "trigger"@ {
        send(Method::Post, path + "/trigger"@, None, ReportView::Json)
    } else {
        Err("unknown action: "@ + act + ". Use list/create/delete/trigger"@)
    }
}

pub open spec fn plan_positions(base: Seq<char>, a: Seq<Seq<char>>, act: Seq<char>) -> PlanView {
    let path = base + "/api/v1/positions"@;
    if act == "list"@ || act == "ls"@ {
        send(Method::Get, path, None, ReportView::Json)
    } else if act == "upsert"@ || act == "create"@ || act == "add"@ {
        match arg(a, 2) {
            None => Err("missing <json>"@),
            Some(j) => send_json(Method::Post, path, j),
        }
    } else if act == "delete"@ || act == "rm"@ {
        match arg(a, 2) {
            None => Err("missing <acct_id>"@),
            Some(acct) => match arg(a, 3) {
                None => Err("missing <asset_id>"@),
                Some(asset) => send(
                    Method::Delete,
                    path + "/"@ + acct + "/"@ + asset,
                    None,
                    ReportView::Message("deleted position "@ + acct + "/"@ + asset),
                ),
            },
        }
    } else {
        Err("unknown action: "@ + act + ". Use list/upsert/delete"@)
    }
}

pub open spec fn unknown_entity_message(e: Seq<char>) -> Seq<char> {
    "unknown entity: "@ + e
        + ". Use accounts/assets/snapshots/positions/income/expenses/targets/categories/labels/networth/adjustments/apy"@
}

/// The request that the command words `a` stand for against server `base`;
/// help for no words or `help`; an error message for a missing argument or
/// an unknown entity or action. The action defaults to `list`.
pub open spec fn plan_spec(base: Seq<char>, a: Seq<Seq<char>>) -> PlanView {
    if a.len() == 0 {
        Ok(None)
    } else {
        let e = a[0];
        let act = match arg(a, 1) {
            Some(x) => x,
            None => "list"@,
        };
        if e == "help"@ || e == "--help"@ || e == "-h"@ {
            Ok(None)
        } else if e == "networth"@ {
            send(Method::Get, base + "/api/networth"@, None, ReportView::Json)
        } else if e == "adjustments"@ {
            send(Method::Get, base + "/api/allocation/adjustments"@, None, ReportView::Json)
        } else if e == "apy"@ {
            send(Method::Get, base + "/api/stables/apy"@, None, ReportView::Json)
        } else if is_crud_entity(e) {
            plan_crud(base, a, e, act)
        } else if e == "snapshots"@ {
            plan_snapshots(base, a, act)
        } else if e == "positions"@ {
            plan_positions(base, a, act)
        } else {
            Err(unknown_entity_message(e))
        }
    }
}

pub open spec fn plan_result_view(r: Result<Command, String>) -> PlanView {
    match r {
        Ok(c) => Ok(command_view(c)),
        Err(m) => Err(m@),
    }
}

fn get_arg(a: &Vec<String>, i: usize) -> (r: Option<&String>)
    ensures
        match r {
            Some(s) => arg(strings_view(a@), i as int) == Some(s@),
            None => arg(strings_view(a@), i as int) is None,
        },
{
    if i < a.len() {
        Some(&a[i])
    } else {
        None
    }
}

fn join2(a: &str, b: &str) -> (r: String)
    ensures
        r@ == a@ + b@,
{
    crate::text::concat2(a, b)
}

fn join3(a: &str, b: &str, c: &str) -> (r: String)
    ensures
        r@ == a@ + b@ + c@,
{
    crate::text::concat3(a, b, c)
}

fn get_json(url: String) -> (r: Result<Command, String>)
    ensures
        plan_result_view(r) == send(Method::Get, url@, None, ReportView::Json),
{
    Ok(Command::Send(Request { method: Method::Get, url, body: None, report: Report::Json }))
}

fn json_request(method: Method, url: String, j: &str) -> (r: Result<Command, String>)
    ensures
        plan_result_view(r) == send_json(method, url@, j@),
{
    match json_body(j) {
        Ok(b) => Ok(Command::Send(Request { method, url, body: Some(b), report: Report::Json })),
        Err(e) => Err(e),
    }
}

fn err(msg: String) -> (r: Result<Command, String>)
    ensures
        plan_result_view(r) == Err::<Option<(Method, Seq<char>, Option<Seq<char>>, ReportView)>, Seq<char>>(msg@),
{
    Err(msg)
}

fn plan_crud_exec(base: &str, a: &Vec<String>, e: &str, act: &str) -> (r: Result<Command, String>)
    requires
        a@.len() >= 1,
    ensures
        plan_result_view(r) == plan_crud(base@, strings_view(a@), e@, act@),
{
    let path = join3(base, "/api/v1/", e);
    if str_eq(act, "list") || str_eq(act, "ls") {
        get_json(path)
    } else if str_eq(act, "get") {
        match get_arg(a, 2) {
            None => err(owned("missing <id>")),
            Some(id) => get_json(join3(path.as_str(), "/", id.as_str())),
        }
    } else if str_eq(act, "create") || str_eq(act, "add") {
        match get_arg(a, 2) {
            None => err(owned("missing <json>")),
            Some(j) => json_request(Method::Post, path, j.as_str()),
        }
    } else if str_eq(act, "update") || str_eq(act, "edit") {
        match get_arg(a, 2) {
            None => err(owned("missing <id>")),
            Some(id) => match get_arg(a, 3) {
                None => err(owned("missing <json>")),
                Some(j) => json_request(Method::Put, join3(path.as_str(), "/", id.as_str()), j.as_str()),
            },
        }
    } else if str_eq(act, "delete") || str_eq(act, "rm") {
        match get_arg(a, 2) {
            None => err(owned("missing <id>")),
            Some(id) => Ok(
                Command::Send(
                    Request {
                        method: Method::Delete,
                        url: join3(path.as_str(), "/", id.as_str()),
                        body: None,
                        report: Report::Deleted { entity: owned(e), id: owned(id.as_str()) },
                    },
                ),
            ),
        }
    } else {
        err(join3("unknown action: ", act, ". Use list/get/create/update/delete"))
    }
}

fn plan_snapshots_exec(base: &str, a: &Vec<String>, act: &str) -> (r: Result<Command, String>)
    requires
        a@.len() >= 1,
    ensures
        plan_result_view(r) == plan_snapshots(base@, strings_view(a@), act@),
{
    let path = join2(base, "/api/v1/snapshots");
    if str_eq(act, "list") || str_eq(act, "ls") {
        let date: Option<&String> = match get_arg(a, 2) {
            None => None,
            Some(x) => if str_eq(x.as_str(), "--date") {
                get_arg(a, 3)
            } else {
                Some(x)
            },
        };
        match date {
            Some(d) => get_json(join3(path.as_str(), "?as_of=", d.as_str())),
            None => get_json(path),
        }
    } else if str_eq(act, "create") || str_eq(act, "add") {
        match get_arg(a, 2) {
            None => err(owned("missing <json>")),
            Some(j) => json_request(Method::Post, path, j.as_str()),
        }
    } else if str_eq(act, "delete") || str_eq(act, "rm") {
        match get_arg(a, 2) {
            None => err(owned("missing <id>")),
            Some(id) => Ok(
                Command::Send(
                    Request {
                        method: Method::Delete,
                        url: join3(path.as_str(), "/", id.as_str()),
                        body: None,
                        report: Report::Message(join2("deleted snapshot ", id.as_str())),
                    },
                ),
            ),
        }
    } else if str_eq(act, "trigger") {
        Ok(
            Command::Send(
                Request {
                    method: Method::Post,
                    url: join2(path.as_str(), "/trigger"),
                    body: None,
                    report: Report::Json,
                },
            ),
        )
    } else {
        err(join3("unknown action: ", act, ". Use list/create/delete/trigger"))
    }
}

fn plan_positions_exec(base: &str, a: &Vec<String>, act: &str) -> (r: Result<Command, String>)
    requires
        a@.len() >= 1,
    ensures
        plan_result_view(r) == plan_positions(base@, strings_view(a@), act@),
{
    let path = join2(base, "/api/v1/positions");
    if str_eq(act, "list") || str_eq(act, "ls") {
        get_json(path)
    } else if str_eq(act, "upsert") || str_eq(act, "create") || str_eq(act, "add") {
        match get_arg(a, 2) {
            None => err(owned("missing <json>")),
            Some(j) => json_request(Method::Post, path, j.as_str()),
        }
    } else if str_eq(act, "delete") || str_eq(act, "rm") {
        match get_arg(a, 2) {
            None => err(owned("missing <acct_id>")),
            Some(acct) => match get_arg(a, 3) {
                None => err(owned("missing <asset_id>")),
                Some(asset) => {
                    let mut url = join3(path.as_str(), "/", acct.as_str());
                    url.append("/");
                    url.append(asset.as_str());
                    let mut msg = join3("deleted position ", acct.as_str(), "/");
                    msg.append(asset.as_str());
                    Ok(
                        Command::Send(
                            Request {
                                method: Method::Delete,
                                url,
                                body: None,
                                report: Report::Message(msg),
                            },
                        ),
                    )
                },
            },
        }
    } else {
        err(join3("unknown action: ", act, ". Use list/upsert/delete"))
    }
}

/// The request (or help, or error message) of the command words `a`
/// against server `base`, as `plan_spec` states it.
pub fn plan_command(base: &str, a: &Vec<String>) -> (r: Result<Command, String>)
    ensures
        plan_result_view(r) == plan_spec(base@, strings_view(a@)),
{
    if a.len() == 0 {
        return Ok(Command::Help);
    }
    let e = a[0].as_str();
    proof {
        assert(strings_view(a@)[0] == a@[0]@);
    }
    let act: &str = match get_arg(a, 1) {
        Some(x) => x.as_str(),
        None => "list",
    };
    if str_eq(e, "help") || str_eq(e, "--help") || str_eq(e, "-h") {
        Ok(Command::Help)
    } else if str_eq(e, "networth") {
        get_json(join2(base, "/api/networth"))
    } else if str_eq(e, "adjustments") {
        get_json(join2(base, "/api/allocation/adjustments"))
    } else if str_eq(e, "apy") {
        get_json(join2(base, "/api/stables/apy"))
    } else if str_eq(e, "accounts") || str_eq(e, "assets") || str_eq(e, "income") || str_eq(
        e,
        "expenses",
    ) || str_eq(e, "targets") || str_eq(e, "categories") || str_eq(e, "labels") {
        plan_crud_exec(base, a, e, act)
    } else if str_eq(e, "snapshots") {
        plan_snapshots_exec(base, a, act)
    } else if str_eq(e, "positions") {
        plan_positions_exec(base, a, act)
    } else {
        let mut m = owned("unknown entity: ");
        m.append(e);
        m.append(
            ". Use accounts/assets/snapshots/positions/income/expenses/targets/categories/labels/networth/adjustments/apy",
        );
        err(m)
    }
}


/// Every request a command stands for goes to the chosen server: its URL
/// starts with the base URL.
pub proof fn law_requests_go_to_base(base: Seq<char>, a: Seq<Seq<char>>)
    ensures
        match plan_spec(base, a) {
            Ok(Some(req)) => base.len() <= req.1.len() && req.1.subrange(0, base.len() as int)
                == base,
            _ => true,
        },
{
    assert forall|x: Seq<char>| #[trigger] (base + x).subrange(0, base.len() as int) == base by {
        assert((base + x).subrange(0, base.len() as int) =~= base);
    }
    assert forall|x: Seq<char>, y: Seq<char>| #[trigger] ((base + x) + y).subrange(0, base.len() as int) == base by {
        assert(((base + x) + y).subrange(0, base.len() as int) =~= base);
    }
    assert forall|x: Seq<char>, y: Seq<char>, z: Seq<char>| #[trigger] (((base + x) + y) + z).subrange(0, base.len() as int) == base by {
        assert((((base + x) + y) + z).subrange(0, base.len() as int) =~= base);
    }
    assert forall|x: Seq<char>, y: Seq<char>, z: Seq<char>, w: Seq<char>| #[trigger] ((((base + x) + y) + z) + w).subrange(0, base.len() as int) == base by {
        assert(((((base + x) + y) + z) + w).subrange(0, base.len() as int) =~= base);
    }
}

/// A command without an action lists: `<entity>` means `<entity> list`.
pub proof fn law_action_defaults_to_list(base: Seq<char>, e: Seq<char>)
    ensures
        plan_spec(base, seq![e]) == plan_spec(base, seq![e, "list"@]),
{
    let a1 = seq![e];
    let a2 = seq![e, "list"@];
    assert(arg(a1, 2) is None && arg(a2, 2) is None);
    assert(arg(a1, 3) is None && arg(a2, 3) is None);
    assert(a1[0] == e && a2[0] == e);
    assert(snapshot_date(a1) == snapshot_date(a2));
}


/// The first characters of the words a command line is read by: enough to
/// tell the entity and action words apart.
proof fn lemma_word_heads()
    ensures
        "help"@[0] == 'h',
        "--help"@[0] == '-',
        "-h"@[0] == '-',
        "networth"@[0] == 'n',
        "adjustments"@[0] == 'a' && "adjustments"@[1] == 'd',
        "apy"@[0] == 'a' && "apy"@[1] == 'p',
        "accounts"@[0] == 'a' && "accounts"@[1] == 'c',
        "assets"@[0] == 'a' && "assets"@[1] == 's',
        "income"@[0] == 'i',
        "expenses"@[0] == 'e',
        "targets"@[0] == 't',
        "categories"@[0] == 'c',
        "labels"@[0] == 'l',
        "snapshots"@[0] == 's',
        "positions"@[0] == 'p',
        "delete"@[0] == 'd',
        "rm"@[0] == 'r',
        "list"@[0] == 'l',
        "ls"@[0] == 'l',
        "get"@[0] == 'g',
        "create"@[0] == 'c',
        "add"@[0] == 'a',
        "update"@[0] == 'u',
        "edit"@[0] == 'e',
        "upsert"@[0] == 'u',
{
    reveal_strlit("help");
    reveal_strlit("--help");
    reveal_strlit("-h");
    reveal_strlit("networth");
    reveal_strlit("adjustments");
    reveal_strlit("apy");
    reveal_strlit("accounts");
    reveal_strlit("assets");
    reveal_strlit("income");
    reveal_strlit("expenses");
    reveal_strlit("targets");
    reveal_strlit("categories");
    reveal_strlit("labels");
    reveal_strlit("snapshots");
    reveal_strlit("positions");
    reveal_strlit("delete");
    reveal_strlit("rm");
    reveal_strlit("list");
    reveal_strlit("ls");
    reveal_strlit("get");
    reveal_strlit("create");
    reveal_strlit("add");
    reveal_strlit("update");
    reveal_strlit("edit");
    reveal_strlit("upsert");
}

/// The entity word `e` names none of the commands without an entity
/// (help, networth, adjustments, apy).
proof fn lemma_not_report_word(e: Seq<char>)
    requires
        e.len() >= 2,
        e[0] != 'h' && e[0] != '-' && e[0] != 'n',
        e[0] == 'a' ==> e[1] != 'd' && e[1] != 'p',
    ensures
        e != "help"@ && e != "--help"@ && e != "-h"@,
        e != "networth"@ && e != "adjustments"@ && e != "apy"@,
{
    lemma_word_heads();
}

/// Every delete of the generic CRUD entities and of snapshots is an HTTP
/// DELETE of `{base}/api/v1/{entity}/{id}` with no body.
pub proof fn law_delete_is_http_delete(base: Seq<char>, a: Seq<Seq<char>>)
    requires
        a.len() >= 3,
        is_crud_entity(a[0]) || a[0] == "snapshots"@,
        a[1] == "delete"@ || a[1] == "rm"@,
    ensures
        plan_spec(base, a) matches Ok(Some(req)) && req.0 == Method::Delete && req.1 == base
            + "/api/v1/"@ + a[0] + "/"@ + a[2] && req.2 is None,
{
    lemma_word_heads();
    reveal_strlit("accounts");
    reveal_strlit("assets");
    reveal_strlit("income");
    reveal_strlit("expenses");
    reveal_strlit("targets");
    reveal_strlit("categories");
    reveal_strlit("labels");
    reveal_strlit("snapshots");
    reveal_strlit("delete");
    reveal_strlit("rm");
    reveal_strlit("/api/v1/");
    reveal_strlit("/api/v1/snapshots");
    let e = a[0];
    let act = a[1];
    assert(arg(a, 1) == Some(act));
    assert(arg(a, 2) == Some(a[2]));
    assert(e.len() >= 2);
    lemma_not_report_word(e);
    assert(act[0] == 'd' || act[0] == 'r');
    assert(act != "list"@ && act != "ls"@ && act != "get"@ && act != "create"@ && act != "add"@);
    assert(act != "update"@ && act != "edit"@);
    if e == "snapshots"@ {
        assert(e[0] == 's');
        assert(!is_crud_entity(e));
        assert(base + "/api/v1/snapshots"@ =~= base + "/api/v1/"@ + e);
    }
}

/// Deleting a position is an HTTP DELETE of
/// `{base}/api/v1/positions/{account}/{asset}` with no body.
pub proof fn law_position_delete_is_http_delete(base: Seq<char>, a: Seq<Seq<char>>)
    requires
        a.len() >= 4,
        a[0] == "positions"@,
        a[1] == "delete"@ || a[1] == "rm"@,
    ensures
        plan_spec(base, a) matches Ok(Some(req)) && req.0 == Method::Delete && req.1 == base
            + "/api/v1/positions/"@ + a[2] + "/"@ + a[3] && req.2 is None,
{
    lemma_word_heads();
    reveal_strlit("positions");
    reveal_strlit("delete");
    reveal_strlit("rm");
    reveal_strlit("/api/v1/positions");
    reveal_strlit("/api/v1/positions/");
    reveal_strlit("/");
    let e = a[0];
    let act = a[1];
    assert(arg(a, 1) == Some(act));
    assert(arg(a, 2) == Some(a[2]));
    assert(arg(a, 3) == Some(a[3]));
    assert(e.len() >= 2 && e[0] == 'p');
    lemma_not_report_word(e);
    assert(!is_crud_entity(e) && e != "snapshots"@);
    assert(act[0] == 'd' || act[0] == 'r');
    assert(act != "list"@ && act != "ls"@ && act != "upsert"@ && act != "create"@ && act != "add"@);
    assert(base + "/api/v1/positions"@ + "/"@ + a[2] =~= base + "/api/v1/positions/"@ + a[2]);
}


/// The HTTP method of a request follows its action word: only `delete` /
/// `rm` delete, only `update` / `edit` put, only `create` / `add` /
/// `upsert` / `trigger` post; and only a put or a post carries a body.
pub proof fn law_request_methods(base: Seq<char>, a: Seq<Seq<char>>)
    ensures
        plan_spec(base, a) matches Ok(Some(req)) ==> {
            &&& req.0 == Method::Delete ==> a.len() >= 2 && (a[1] == "delete"@ || a[1] == "rm"@)
            &&& req.0 == Method::Put ==> a.len() >= 2 && (a[1] == "update"@ || a[1] == "edit"@)
            &&& req.0 == Method::Post ==> a.len() >= 2 && (a[1] == "create"@ || a[1] == "add"@
                || a[1] == "upsert"@ || a[1] == "trigger"@)
            &&& req.2 is Some ==> req.0 == Method::Post || req.0 == Method::Put
        },
{
    lemma_word_heads();
    reveal_strlit("trigger");
    assert("trigger"@[0] == 't');
    if a.len() == 1 {
        assert(arg(a, 1) is None);
        assert("list"@ != "delete"@ && "list"@ != "rm"@);
        assert("list"@ != "update"@ && "list"@ != "edit"@);
        assert("list"@ != "create"@ && "list"@ != "add"@ && "list"@ != "upsert"@ && "list"@
            != "trigger"@);
    } else if a.len() >= 2 {
        assert(arg(a, 1) == Some(a[1]));
    }
}

} // verus!
