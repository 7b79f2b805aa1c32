//! The startup plan: a linear, fail-fast sequence of decisions.
//! Configuration is read first; a missing connection string aborts
//! before any network activity. A failed pool connection exits with
//! status 1. Only a loaded configuration followed by a successful
//! connection leads to binding the listener and serving.
use vstd::prelude::*;
use crate::config::MAX_DB_CONNECTIONS;

verus! {

/// What a runner of the bootstrap must do next.
#[derive(Debug)]
pub enum BootAction {
    /// Open the database pool on this connection string, bounded by
    /// this many concurrently open connections.
    OpenPool { url: String, max_connections: u32 },
    /// Bind the TCP listener on this address and serve indefinitely.
    BindAndServe { addr: String },
    /// Abort: the required connection string is missing from the
    /// environment. No network activity may have happened yet.
    ExitConfigMissing,
    /// Exit the process with this status: the database rejected the
    /// initial connection. No retry is attempted.
    ExitConnectFailed { code: i32 },
}

/// The mathematical form of a `BootAction`.
pub enum BootActionModel {
    OpenPool { url: Seq<char>, max_connections: u32 },
    BindAndServe { addr: Seq<char> },
    ExitConfigMissing,
    ExitConnectFailed { code: i32 },
}

impl View for BootAction {
    type V = BootActionModel;

    open spec fn view(&self) -> BootActionModel {
        match self {
            BootAction::OpenPool { url, max_connections } => BootActionModel::OpenPool {
                url: url@,
                max_connections: *max_connections,
            },
            BootAction::BindAndServe { addr } => BootActionModel::BindAndServe { addr: addr@ },
            BootAction::ExitConfigMissing => BootActionModel::ExitConfigMissing,
            BootAction::ExitConnectFailed { code } => BootActionModel::ExitConnectFailed {
                code: *code,
            },
        }
    }
}

/// The view of an optional connection string.
pub open spec fn spec_config(url: Option<String>) -> Option<Seq<char>> {
    match url {
        Some(u) => Some(u@),
        None => None,
    }
}

/// The whole startup, as the sequence of actions a compliant runner
/// performs, determined by the two outside outcomes: whether the
/// environment held a connection string, and whether the initial
/// pool connection succeeded.
pub open spec fn spec_boot_plan(url: Option<Seq<char>>, connect_ok: bool) -> Seq<BootActionModel> {
    match url {
        None => seq![BootActionModel::ExitConfigMissing],
        Some(u) => if connect_ok {
            seq![
                BootActionModel::OpenPool { url: u, max_connections: MAX_DB_CONNECTIONS },
                BootActionModel::BindAndServe { addr: "0.0.0.0:8080"@ },
            ]
        } else {
            seq![
                BootActionModel::OpenPool { url: u, max_connections: MAX_DB_CONNECTIONS },
                BootActionModel::ExitConnectFailed { code: 1 },
            ]
        },
    }
}

/// Whether a plan ever binds the listening socket.
pub open spec fn spec_plan_binds(plan: Seq<BootActionModel>) -> bool {
    exists|i: int| 0 <= i < plan.len() && plan[i] is BindAndServe
}

/// Whether a plan ever opens a database pool.
pub open spec fn spec_plan_opens_pool(plan: Seq<BootActionModel>) -> bool {
    exists|i: int| 0 <= i < plan.len() && plan[i] is OpenPool
}

/// First decision: what to do once the environment has been consulted
/// for the connection string. A present value leads to opening the
/// pool with the fixed bound; an absent one aborts at once.
pub fn plan_after_config(url: Option<String>) -> (r: BootAction)
    ensures
        r@ == spec_boot_plan(spec_config(url), true)[0],
        r@ == spec_boot_plan(spec_config(url), false)[0],
        url matches Some(u) ==> r@ == (BootActionModel::OpenPool {
            url: u@,
            max_connections: MAX_DB_CONNECTIONS,
        }),
        url is None ==> r@ == BootActionModel::ExitConfigMissing,
{
    match url {
        Some(u) => BootAction::OpenPool { url: u, max_connections: MAX_DB_CONNECTIONS },
        None => BootAction::ExitConfigMissing,
    }
}

/// Second decision: what to do once the initial pool connection has
/// been attempted. Success leads to binding and serving on the fixed
/// address; failure exits with status 1.
pub fn plan_after_connect(connect_ok: bool) -> (r: BootAction)
    ensures
        forall|u: Seq<char>| r@ == spec_boot_plan(Some(u), connect_ok)[1],
        connect_ok ==> r@ == (BootActionModel::BindAndServe { addr: "0.0.0.0:8080"@ }),
        !connect_ok ==> r@ == (BootActionModel::ExitConnectFailed { code: 1 }),
{
    if connect_ok {
        BootAction::BindAndServe { addr: bind_address_string() }
    } else {
        BootAction::ExitConnectFailed { code: 1 }
    }
}

/// The listen address as an owned string for the serve action.
fn bind_address_string() -> (r: String)
    ensures
        r@ == "0.0.0.0:8080"@,
{
    let addr: &'static str = crate::config::bind_address();
    addr.to_owned()
}

/// Laws of the startup plan, for every pair of outside outcomes.
///
/// The listener is bound exactly when the configuration was present
/// and the connection succeeded. A missing configuration exits before
/// any network activity: its plan is the lone abort action. A failed
/// connection exits with status 1 and never binds. Every pool the
/// plan opens is bounded by `MAX_DB_CONNECTIONS` connections, and any
/// pool is opened before the listener is bound.
pub proof fn lemma_boot_plan_laws(url: Option<Seq<char>>, connect_ok: bool)
    ensures
        spec_plan_binds(spec_boot_plan(url, connect_ok)) <==> (url is Some && connect_ok),
        url is None ==> spec_boot_plan(url, connect_ok) =~= seq![BootActionModel::ExitConfigMissing],
        url is None ==> !spec_plan_opens_pool(spec_boot_plan(url, connect_ok)),
        (url is Some && !connect_ok) ==> spec_boot_plan(url, connect_ok).last()
            == (BootActionModel::ExitConnectFailed { code: 1 }),
        forall|i: int|
            0 <= i < spec_boot_plan(url, connect_ok).len() && spec_boot_plan(url, connect_ok)[i]
                is OpenPool ==> spec_boot_plan(url, connect_ok)[i]->OpenPool_max_connections
                == MAX_DB_CONNECTIONS,
        forall|i: int, j: int|
            0 <= i < spec_boot_plan(url, connect_ok).len() && 0 <= j < spec_boot_plan(
                url,
                connect_ok,
            ).len() && spec_boot_plan(url, connect_ok)[i] is OpenPool && spec_boot_plan(
                url,
                connect_ok,
            )[j] is BindAndServe ==> i < j,
{
    let plan = spec_boot_plan(url, connect_ok);
    if url is Some && connect_ok {
        assert(plan[1] is BindAndServe);
        assert(spec_plan_binds(plan));
    }
    if spec_plan_binds(plan) {
        let i = choose|i: int| 0 <= i < plan.len() && plan[i] is BindAndServe;
        assert(url is Some && connect_ok);
    }
}

} // verus!
