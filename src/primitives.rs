use vstd::prelude::*;

verus! {

/// The deployment tier that a signed payload belongs to.
#[derive(Clone, Copy, Debug, PartialEq, Eq, Structural)]
pub enum Environment {
    Sandbox,
    Production,
}

/// The wire name of an environment, as it appears in a decoded payload.
pub open spec fn environment_name(e: Environment) -> Seq<char> {
    match e {
        Environment::Sandbox => "Sandbox"@,
        Environment::Production => "Production"@,
    }
}

/// The environment whose wire name is `s`, if any.
pub open spec fn environment_from_name(s: Seq<char>) -> Option<Environment> {
    if s == environment_name(Environment::Sandbox) {
        Some(Environment::Sandbox)
    } else if s == environment_name(Environment::Production) {
        Some(Environment::Production)
    } else {
        None
    }
}

impl Environment {
    /// Reads an environment from its wire name; any other text gives `None`.
    pub fn from_wire_name(s: &str) -> (r: Option<Environment>)
        ensures
            r == environment_from_name(s@),
    {
        let sandbox = String::from_str("Sandbox");
        let production = String::from_str("Production");
        let given = String::from_str(s);
        proof {
            reveal_strlit("Sandbox");
            reveal_strlit("Production");
        }
        if given == sandbox {
            Some(Environment::Sandbox)
        } else if given == production {
            Some(Environment::Production)
        } else {
            None
        }
    }
}

/// The decoded claims of a signed transaction that the pipeline inspects.
#[derive(Clone, Debug)]
pub struct JWSTransactionDecodedPayload {
    pub bundle_id: Option<String>,
    pub environment: Option<Environment>,
    pub transaction_id: Option<String>,
    pub product_id: Option<String>,
}

/// The identity-bearing record of a notification about a single transaction.
#[derive(Clone, Debug)]
pub struct NotificationData {
    pub bundle_id: Option<String>,
    pub app_apple_id: Option<i64>,
    pub environment: Option<Environment>,
    pub signed_transaction_info: Option<String>,
}

/// The identity-bearing record of a notification that summarises renewals.
#[derive(Clone, Debug)]
pub struct NotificationSummary {
    pub bundle_id: Option<String>,
    pub app_apple_id: Option<i64>,
    pub environment: Option<Environment>,
    pub signed_transaction_info: Option<String>,
}

/// The decoded claims of a signed notification.
#[derive(Clone, Debug)]
pub struct ResponseBodyV2DecodedPayload {
    pub notification_type: Option<String>,
    pub subtype: Option<String>,
    pub data: Option<NotificationData>,
    pub summary: Option<NotificationSummary>,
}

/// The identity fields of a notification: those of `data` where it is
/// present, else those of `summary`, else `None`.
pub open spec fn notification_identity(
    n: ResponseBodyV2DecodedPayload,
) -> Option<(Option<String>, Option<i64>, Option<Environment>)> {
    match n.data {
        Some(d) => Some((d.bundle_id, d.app_apple_id, d.environment)),
        None => match n.summary {
            Some(s) => Some((s.bundle_id, s.app_apple_id, s.environment)),
            None => None,
        },
    }
}

} // verus!
