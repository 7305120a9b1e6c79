//! License records, the license authority's answer, and the rules that decide
//! what is reported, what is persisted and what is read back.
use vstd::prelude::*;
use vstd::string::*;

verus! {

/// Path of the validation endpoint below the authority's base URL.
pub open spec fn validation_path() -> Seq<char> {
    "/functions/v1/validate-desktop-license"@
}

/// Outcome of a license check, as reported to the caller.
#[derive(Debug)]
pub struct LicenseValidation {
    pub valid: bool,
    pub plan_tier: Option<String>,
    pub error: Option<String>,
}

/// The durable entitlement record: which plan a code grants, when it was
/// activated, and on which machine.
#[derive(Debug, Clone)]
pub struct StoredLicense {
    pub code: String,
    pub plan_tier: String,
    pub activated_at: String,
    pub machine_id: String,
}

pub ghost struct ValidationView {
    pub valid: bool,
    pub plan_tier: Option<Seq<char>>,
    pub error: Option<Seq<char>>,
}

pub ghost struct StoredLicenseView {
    pub code: Seq<char>,
    pub plan_tier: Seq<char>,
    pub activated_at: Seq<char>,
    pub machine_id: Seq<char>,
}

pub open spec fn opt_view(o: Option<String>) -> Option<Seq<char>> {
    match o {
        Some(s) => Some(s@),
        None => None,
    }
}

impl View for LicenseValidation {
    type V = ValidationView;

    open spec fn view(&self) -> ValidationView {
        ValidationView {
            valid: self.valid,
            plan_tier: opt_view(self.plan_tier),
            error: opt_view(self.error),
        }
    }
}

impl View for StoredLicense {
    type V = StoredLicenseView;

    open spec fn view(&self) -> StoredLicenseView {
        StoredLicenseView {
            code: self.code@,
            plan_tier: self.plan_tier@,
            activated_at: self.activated_at@,
            machine_id: self.machine_id@,
        }
    }
}

pub open spec fn opt_record_view(o: Option<StoredLicense>) -> Option<StoredLicenseView> {
    match o {
        Some(r) => Some(r@),
        None => None,
    }
}

/// What came back from one request to the license authority.
pub enum AuthorityReply {
    /// The request never completed (DNS, connect, TLS, timeout); holds the cause.
    Unreachable(String),
    /// The authority answered with a failure status; holds the response body,
    /// empty where it could not be read.
    Rejected(String),
    /// The authority answered with a success status but the body did not
    /// decode; holds the cause.
    Undecodable(String),
    /// The authority answered with a success status and this decoded body.
    Decoded(LicenseValidation),
}

/// A failed check carrying `message`.
pub open spec fn failed_view(message: Seq<char>) -> ValidationView {
    ValidationView { valid: false, plan_tier: None, error: Some(message) }
}

/// What a check reports for a reply of the authority.
pub open spec fn reply_outcome(reply: AuthorityReply) -> ValidationView {
    match reply {
        AuthorityReply::Unreachable(cause) => failed_view("Network error: "@ + cause@),
        AuthorityReply::Rejected(body) => failed_view("Validation failed: "@ + body@),
        AuthorityReply::Undecodable(cause) => failed_view("Parse error: "@ + cause@),
        AuthorityReply::Decoded(v) => v@,
    }
}

/// A check grants a license exactly when it is valid and names a plan.
pub open spec fn grants(v: ValidationView) -> bool {
    v.valid && v.plan_tier is Some
}

/// The record that a granting check persists.
pub open spec fn granted_record(
    v: ValidationView,
    code: Seq<char>,
    machine_id: Seq<char>,
    activated_at: Seq<char>,
) -> Option<StoredLicenseView> {
    if grants(v) {
        Some(
            StoredLicenseView {
                code,
                plan_tier: v.plan_tier->0,
                activated_at,
                machine_id,
            },
        )
    } else {
        None
    }
}

/// A stored record as seen from the device `current`: the record where it was
/// activated on `current`, none otherwise.
pub open spec fn visible_record(record: Option<StoredLicenseView>, current: Seq<char>) -> Option<
    StoredLicenseView,
> {
    match record {
        Some(r) => if r.machine_id == current {
            Some(r)
        } else {
            None
        },
        None => None,
    }
}

fn prefixed(prefix: &str, rest: String) -> (r: String)
    ensures
        r@ == prefix@ + rest@,
{
    let mut m = String::from_str(prefix);
    m.append(rest.as_str());
    m
}

/// URL of the validation endpoint of the authority at `base_url`.
pub fn validation_url(base_url: &str) -> (r: String)
    ensures
        r@ == base_url@ + validation_path(),
{
    let mut url = String::from_str(base_url);
    url.append("/functions/v1/validate-desktop-license");
    url
}

/// What to report for a reply of the authority. Transport, status and decoding
/// failures become an invalid result with a message; a decoded body is
/// reported as it is.
pub fn interpret_reply(reply: AuthorityReply) -> (r: LicenseValidation)
    ensures
        r@ == reply_outcome(reply),
{
    match reply {
        AuthorityReply::Unreachable(cause) => LicenseValidation {
            valid: false,
            plan_tier: None,
            error: Some(prefixed("Network error: ", cause)),
        },
        AuthorityReply::Rejected(body) => LicenseValidation {
            valid: false,
            plan_tier: None,
            error: Some(prefixed("Validation failed: ", body)),
        },
        AuthorityReply::Undecodable(cause) => LicenseValidation {
            valid: false,
            plan_tier: None,
            error: Some(prefixed("Parse error: ", cause)),
        },
        AuthorityReply::Decoded(v) => v,
    }
}

/// The record to persist after `validation`: one binding `code` to
/// `machine_id` where the check granted a plan, none otherwise.
pub fn activation_record(
    validation: &LicenseValidation,
    code: String,
    machine_id: String,
    activated_at: String,
) -> (r: Option<StoredLicense>)
    ensures
        opt_record_view(r) == granted_record(validation@, code@, machine_id@, activated_at@),
{
    if validation.valid {
        match &validation.plan_tier {
            Some(plan_tier) => Some(
                StoredLicense { code, plan_tier: plan_tier.clone(), activated_at, machine_id },
            ),
            None => None,
        }
    } else {
        None
    }
}

/// The license that applies to the device `current_machine_id`, given what a
/// read of the store gave. A read error is passed on; a record activated on
/// another machine is filtered out (and left where it is).
pub fn applicable_license(
    read: Result<Option<StoredLicense>, String>,
    current_machine_id: &str,
) -> (r: Result<Option<StoredLicense>, String>)
    ensures
        match read {
            Err(e) => r == Err::<Option<StoredLicense>, String>(e),
            Ok(record) => r is Ok && opt_record_view(r->Ok_0) == visible_record(
                opt_record_view(record),
                current_machine_id@,
            ),
        },
{
    match read {
        Err(e) => Err(e),
        Ok(None) => Ok(None),
        Ok(Some(record)) => {
            let current = String::from_str(current_machine_id);
            if record.machine_id == current {
                Ok(Some(record))
            } else {
                Ok(None)
            }
        },
    }
}

} // verus!
