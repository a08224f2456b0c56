//! The request-scoped health report and its JSON serialization.

use vstd::prelude::*;
use vstd::string::StringExecFns;

verus! {

/// Liveness of the database dependency as seen by one probe.
#[derive(Clone, Copy, PartialEq, Eq, Structural, Debug)]
pub enum DatabaseStatus {
    Connected,
    Disconnected,
}

/// The database status reported for one probe outcome.
pub open spec fn spec_db_status(probe_ok: bool) -> DatabaseStatus {
    if probe_ok {
        DatabaseStatus::Connected
    } else {
        DatabaseStatus::Disconnected
    }
}

/// The wire label of a database status.
pub open spec fn spec_db_label(db: DatabaseStatus) -> Seq<char> {
    match db {
        DatabaseStatus::Connected => "connected"@,
        DatabaseStatus::Disconnected => "disconnected"@,
    }
}

impl DatabaseStatus {
    /// The label this status serializes to.
    pub fn label(&self) -> (r: &'static str)
        ensures
            r@ == spec_db_label(*self),
    {
        match self {
            DatabaseStatus::Connected => "connected",
            DatabaseStatus::Disconnected => "disconnected",
        }
    }
}

/// One health report, created fresh per request and serialized into a
/// single response. `status` reports process liveness and is always
/// the literal `"ok"`; only `database` varies with the probe.
pub struct HealthStatus {
    pub status: String,
    pub service: String,
    pub database: DatabaseStatus,
    pub version: String,
}

impl HealthStatus {
    /// The fixed fields hold their fixed values: `status` is `"ok"`,
    /// `service` and `version` name this service and its version.
    pub open spec fn wf(self) -> bool {
        &&& self.status@ == "ok"@
        &&& self.service@ == "Rust Wedding Backend"@
        &&& self.version@ == "0.1.0"@
    }
}

/// Builds the health report for one probe outcome. The `status` field
/// is `"ok"` whatever the outcome; only `database` depends on it.
pub fn health_check(probe_ok: bool) -> (h: HealthStatus)
    ensures
        h.wf(),
        h.status@ == "ok"@,
        h.database == spec_db_status(probe_ok),
{
    HealthStatus {
        status: "ok".to_owned(),
        service: "Rust Wedding Backend".to_owned(),
        database: if probe_ok {
            DatabaseStatus::Connected
        } else {
            DatabaseStatus::Disconnected
        },
        version: "0.1.0".to_owned(),
    }
}

/// The JSON body of a health response, as a function of the database
/// status alone (every other field is fixed).
pub open spec fn spec_health_body(db: DatabaseStatus) -> Seq<char> {
    "{\"status\":\""@ + "ok"@ + "\",\"service\":\""@ + "Rust Wedding Backend"@
        + "\",\"database\":\""@ + spec_db_label(db) + "\",\"version\":\""@ + "0.1.0"@ + "\"}"@
}

/// Serializes a health report to its JSON body.
pub fn health_body(h: &HealthStatus) -> (r: String)
    requires
        h.wf(),
    ensures
        r@ == spec_health_body(h.database),
{
    let mut out = String::new();
    out.append("{\"status\":\"");
    out.append(h.status.as_str());
    out.append("\",\"service\":\"");
    out.append(h.service.as_str());
    out.append("\",\"database\":\"");
    out.append(h.database.label());
    out.append("\",\"version\":\"");
    out.append(h.version.as_str());
    out.append("\"}");
    proof {
        assert(out@ =~= spec_health_body(h.database));
    }
    out
}

/// The `status` field of the serialized body is the literal `"ok"`
/// whatever the database status: process liveness is reported
/// independently of dependency liveness.
pub proof fn lemma_status_always_ok(db: DatabaseStatus)
    ensures
        spec_health_body(db).subrange(0, 15) == "{\"status\":\"ok\","@,
{
    reveal_strlit("{\"status\":\"");
    reveal_strlit("ok");
    reveal_strlit("\",\"service\":\"");
    reveal_strlit("Rust Wedding Backend");
    reveal_strlit("\",\"database\":\"");
    reveal_strlit("connected");
    reveal_strlit("disconnected");
    reveal_strlit("\",\"version\":\"");
    reveal_strlit("0.1.0");
    reveal_strlit("\"}");
    reveal_strlit("{\"status\":\"ok\",");
    assert(spec_health_body(db).subrange(0, 15) =~= "{\"status\":\"ok\","@);
}

} // verus!
