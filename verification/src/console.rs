//! The test console's engine selection: which engine a connect request
//! names, with what endpoint and credential, or why it is refused.

use vstd::prelude::*;
use crate::text::{push_str, str_eq};

verus! {

/// The Mem0 Cloud API endpoint. A Mem0 request with no deployment named is
/// treated as Cloud exactly when it targets this endpoint.
pub const MEM0_API_ENDPOINT: &'static str = "https://api.mem0.ai";

/// A connect request as the console receives it.
#[derive(Debug)]
pub struct ConnectRequest {
    pub engine: String,
    pub deployment: Option<String>,
    pub endpoint: Option<String>,
    pub api_key: Option<String>,
}

/// The engine a connect request selects.
#[derive(Debug)]
pub enum EnginePlan {
    /// The in-process engine over an in-memory store.
    Local,
    Supermemory { endpoint: String, api_key: Option<String> },
    /// Mem0; `cloud` selects the hosted API, which always carries a key.
    Mem0 { endpoint: String, api_key: Option<String>, cloud: bool },
    /// Cognee; `cloud` selects the hosted API, which always carries a key.
    Cognee { endpoint: String, api_key: Option<String>, cloud: bool },
}

/// A value that is present and not empty.
pub open spec fn present(o: Option<String>) -> Option<Seq<char>> {
    match o {
        Some(s) => if s@.len() > 0 {
            Some(s@)
        } else {
            None
        },
        None => None,
    }
}

pub open spec fn opt_view(o: Option<String>) -> Option<Seq<char>> {
    match o {
        Some(s) => Some(s@),
        None => None,
    }
}

/// The plan a request selects, or the bad-request message it is refused
/// with. Every check that can be made without contacting an engine is made
/// here, in this order: the engine name, its endpoint, its deployment, and
/// the key a Cloud deployment requires.
pub open spec fn plan_ok(req: ConnectRequest, r: Result<EnginePlan, String>) -> bool {
    let engine = req.engine@;
    let endpoint = present(req.endpoint);
    let key = present(req.api_key);
    if engine == "local"@ {
        r matches Ok(EnginePlan::Local)
    } else if engine == "supermemory"@ {
        match endpoint {
            None => r matches Err(m) && m@ == "supermemory requires an endpoint URL"@,
            Some(e) => r matches Ok(EnginePlan::Supermemory { endpoint: pe, api_key: pk })
                && pe@ == e && opt_view(pk) == key,
        }
    } else if engine == "mem0"@ {
        match endpoint {
            None => r matches Err(m) && m@ == "mem0 requires an endpoint URL"@,
            Some(e) => match opt_view(req.deployment) {
                Some(d) => if d == "cloud"@ {
                    mem0_plan(e, key, true, r)
                } else if d == "self_hosted"@ {
                    mem0_plan(e, key, false, r)
                } else {
                    r matches Err(m) && m@ == "unknown Mem0 deployment: "@ + d
                },
                None => mem0_plan(e, key, e == MEM0_API_ENDPOINT@, r),
            },
        }
    } else if engine == "cognee"@ {
        match endpoint {
            None => r matches Err(m) && m@ == "cognee requires an endpoint URL"@,
            Some(e) => match opt_view(req.deployment) {
                Some(d) => if d == "cloud"@ {
                    cognee_plan(e, key, true, r)
                } else if d == "self_hosted"@ {
                    cognee_plan(e, key, false, r)
                } else {
                    r matches Err(m) && m@ == "unknown Cognee deployment: "@ + d
                },
                None => cognee_plan(e, key, false, r),
            },
        }
    } else {
        r matches Err(m) && m@ == "unknown engine: "@ + engine
    }
}

pub open spec fn mem0_plan(
    endpoint: Seq<char>,
    key: Option<Seq<char>>,
    cloud: bool,
    r: Result<EnginePlan, String>,
) -> bool {
    if cloud && key is None {
        r matches Err(m) && m@ == "Mem0 Cloud requires an API key"@
    } else {
        r matches Ok(EnginePlan::Mem0 { endpoint: pe, api_key: pk, cloud: pc }) && pe@ == endpoint
            && opt_view(pk) == key && pc == cloud
    }
}

pub open spec fn cognee_plan(
    endpoint: Seq<char>,
    key: Option<Seq<char>>,
    cloud: bool,
    r: Result<EnginePlan, String>,
) -> bool {
    if cloud && key is None {
        r matches Err(m) && m@ == "Cognee Cloud requires an API key"@
    } else {
        r matches Ok(EnginePlan::Cognee { endpoint: pe, api_key: pk, cloud: pc }) && pe@
            == endpoint && opt_view(pk) == key && pc == cloud
    }
}

/// The value when present and not empty.
fn non_empty(o: &Option<String>) -> (r: Option<String>)
    ensures
        opt_view(r) == present(*o),
{
    match o {
        Some(s) => if s.as_str().is_empty() {
            None
        } else {
            Some(s.clone())
        },
        None => None,
    }
}

fn prefixed(prefix: &str, rest: &str) -> (r: String)
    ensures
        r@ == prefix@ + rest@,
{
    let mut m = prefix.to_owned();
    push_str(&mut m, rest);
    m
}

fn mem0_or_cognee(
    mem0: bool,
    endpoint: String,
    api_key: Option<String>,
    cloud: bool,
) -> (r: Result<EnginePlan, String>)
    ensures
        mem0 ==> mem0_plan(endpoint@, opt_view(api_key), cloud, r),
        !mem0 ==> cognee_plan(endpoint@, opt_view(api_key), cloud, r),
{
    if cloud && api_key.is_none() {
        if mem0 {
            Err("Mem0 Cloud requires an API key".to_owned())
        } else {
            Err("Cognee Cloud requires an API key".to_owned())
        }
    } else if mem0 {
        Ok(EnginePlan::Mem0 { endpoint, api_key, cloud })
    } else {
        Ok(EnginePlan::Cognee { endpoint, api_key, cloud })
    }
}

/// Decide which engine a connect request selects.
pub fn plan_connection(req: &ConnectRequest) -> (r: Result<EnginePlan, String>)
    ensures
        plan_ok(*req, r),
{
    let engine = req.engine.as_str();
    if str_eq(engine, "local") {
        return Ok(EnginePlan::Local);
    }
    let is_supermemory = str_eq(engine, "supermemory");
    let is_mem0 = str_eq(engine, "mem0");
    let is_cognee = str_eq(engine, "cognee");
    if !is_supermemory && !is_mem0 && !is_cognee {
        return Err(prefixed("unknown engine: ", engine));
    }
    let endpoint = match non_empty(&req.endpoint) {
        Some(e) => e,
        None => {
            return Err(
                if is_supermemory {
                    "supermemory requires an endpoint URL".to_owned()
                } else if is_mem0 {
                    "mem0 requires an endpoint URL".to_owned()
                } else {
                    "cognee requires an endpoint URL".to_owned()
                },
            );
        },
    };
    let api_key = non_empty(&req.api_key);
    if is_supermemory {
        return Ok(EnginePlan::Supermemory { endpoint, api_key });
    }
    let cloud = match &req.deployment {
        Some(d) => if str_eq(d.as_str(), "cloud") {
            true
        } else if str_eq(d.as_str(), "self_hosted") {
            false
        } else if is_mem0 {
            return Err(prefixed("unknown Mem0 deployment: ", d.as_str()));
        } else {
            return Err(prefixed("unknown Cognee deployment: ", d.as_str()));
        },
        None => is_mem0 && str_eq(endpoint.as_str(), MEM0_API_ENDPOINT),
    };
    mem0_or_cognee(is_mem0, endpoint, api_key, cloud)
}

/// What the console reports about the bound engine.
#[derive(Debug)]
pub struct EngineStatus {
    pub connected: bool,
    pub driver_id: Option<String>,
    pub engine: Option<String>,
    pub has_graph: bool,
}

/// The status after a disconnect: nothing bound.
pub fn disconnected_status() -> (r: EngineStatus)
    ensures
        !r.connected,
        r.driver_id is None,
        r.engine is None,
        !r.has_graph,
{
    EngineStatus { connected: false, driver_id: None, engine: None, has_graph: false }
}

/// The status of the console: `bound` is the bound engine's driver id and
/// whether it serves the graph family, `None` when nothing is bound.
pub fn engine_status(bound: Option<(String, bool)>) -> (r: EngineStatus)
    ensures
        r.connected == bound is Some,
        r.driver_id == match bound {
            Some(b) => Some(b.0),
            None => None::<String>,
        },
        r.engine is None,
        r.has_graph == (bound matches Some(b) && b.1),
{
    match bound {
        Some((driver_id, has_graph)) => EngineStatus {
            connected: true,
            driver_id: Some(driver_id),
            engine: None,
            has_graph,
        },
        None => disconnected_status(),
    }
}

/// The status a successful connect answers: connected, to the engine the
/// request named, through the bound provider's driver.
pub fn connected_status(engine: String, driver_id: String, has_graph: bool) -> (r: EngineStatus)
    ensures
        r.connected,
        r.driver_id == Some(driver_id),
        r.engine == Some(engine),
        r.has_graph == has_graph,
{
    EngineStatus {
        connected: true,
        driver_id: Some(driver_id),
        engine: Some(engine),
        has_graph,
    }
}

proof fn lemma_engine_names_differ()
    ensures
        "mem0"@ != "local"@,
        "mem0"@ != "supermemory"@,
        "cognee"@ != "local"@,
        "cognee"@ != "supermemory"@,
        "cognee"@ != "mem0"@,
        "cloud"@ != "self_hosted"@,
{
    reveal_strlit("mem0");
    reveal_strlit("local");
    reveal_strlit("supermemory");
    reveal_strlit("cognee");
    reveal_strlit("cloud");
    reveal_strlit("self_hosted");
    assert("mem0"@[0] == 'm' && "local"@[0] == 'l' && "supermemory"@[0] == 's');
    assert("cognee"@[0] == 'c' && "cloud"@[1] == 'l' && "self_hosted"@[0] == 's');
    assert("cognee"@[1] == 'o');
}

/// A Mem0 connection is the hosted API exactly when the request names the
/// `cloud` deployment, or names none and points at the hosted endpoint; a
/// hosted connection always carries a key, and a `cloud` request with an
/// endpoint connects exactly when it has one.
pub proof fn law_mem0_cloud_is_the_requested_deployment(
    req: ConnectRequest,
    r: Result<EnginePlan, String>,
)
    requires
        plan_ok(req, r),
        req.engine@ == "mem0"@,
    ensures
        r matches Ok(p) ==> p is Mem0,
        r matches Ok(EnginePlan::Mem0 { endpoint, api_key, cloud }) ==> {
            &&& cloud == match opt_view(req.deployment) {
                Some(d) => d == "cloud"@,
                None => endpoint@ == MEM0_API_ENDPOINT@,
            }
            &&& cloud ==> api_key is Some
        },
        opt_view(req.deployment) == Some("cloud"@) && present(req.endpoint) is Some ==> (r is Ok
            <==> present(req.api_key) is Some),
        opt_view(req.deployment) == Some("self_hosted"@) ==> (r matches Ok(EnginePlan::Mem0 {
            cloud,
            ..
        }) ==> !cloud),
{
    lemma_engine_names_differ();
}

/// A Cognee connection is the hosted API exactly when the request names the
/// `cloud` deployment, and then always carries a key.
pub proof fn law_cognee_cloud_is_the_requested_deployment(
    req: ConnectRequest,
    r: Result<EnginePlan, String>,
)
    requires
        plan_ok(req, r),
        req.engine@ == "cognee"@,
    ensures
        r matches Ok(p) ==> p is Cognee,
        r matches Ok(EnginePlan::Cognee { api_key, cloud, .. }) ==> {
            &&& cloud == (opt_view(req.deployment) == Some("cloud"@))
            &&& cloud ==> api_key is Some
        },
{
    lemma_engine_names_differ();
}

} // verus!
