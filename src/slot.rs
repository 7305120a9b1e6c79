//! The single license slot of the local store, held in memory, and the
//! lifecycle operations over it: read for this machine, record a check, clear.
use vstd::prelude::*;
use crate::license::{
    activation_record, granted_record, grants, interpret_reply, opt_record_view, reply_outcome,
    visible_record, AuthorityReply, LicenseValidation, StoredLicense, StoredLicenseView,
    ValidationView,
};

verus! {

/// The slot after a check `v` of `code` on `machine_id` at `activated_at`: the
/// granted record replaces whatever was there; otherwise nothing changes.
pub open spec fn slot_after_check(
    slot: Option<StoredLicenseView>,
    v: ValidationView,
    code: Seq<char>,
    machine_id: Seq<char>,
    activated_at: Seq<char>,
) -> Option<StoredLicenseView> {
    match granted_record(v, code, machine_id, activated_at) {
        Some(r) => Some(r),
        None => slot,
    }
}

/// The message reported when a license was granted but the system clock could
/// not give its activation time.
pub open spec fn clock_failure_message() -> Seq<char> {
    "Clock error: the system time is before 1970 or out of range"@
}

/// Relies on std's SystemTime::now and SystemTime::duration_since(UNIX_EPOCH):
/// the time since the Unix epoch as whole seconds and nanoseconds, none where
/// the clock reads earlier than the epoch. The value depends on the clock.
#[verifier::external_body]
fn clock_since_epoch() -> (r: Option<(u64, u32)>) {
    std::time::SystemTime::now().duration_since(std::time::UNIX_EPOCH).ok().map(
        |d| (d.as_secs(), d.subsec_nanos()),
    )
}

/// Relies on chrono::DateTime::from_timestamp and DateTime::to_rfc3339: the UTC
/// time `secs` seconds and `nanos` nanoseconds after the epoch as RFC 3339
/// text, none where chrono cannot represent it. The text holds at least a
/// four-digit year, `-MM-DD`, `T`, `HH:MM:SS` and a `+00:00` offset.
#[verifier::external_body]
fn rfc3339_at(secs: i64, nanos: u32) -> (r: Option<String>)
    ensures
        r matches Some(s) ==> s@.len() >= 25,
{
    chrono::DateTime::from_timestamp(secs, nanos).map(|t| t.to_rfc3339())
}

/// The current UTC time as RFC 3339 text, none where the clock is unusable.
fn now_rfc3339() -> (r: Option<String>)
    ensures
        r matches Some(s) ==> s@.len() >= 25,
{
    match clock_since_epoch() {
        Some((secs, nanos)) => if secs <= i64::MAX as u64 {
            rfc3339_at(secs as i64, nanos)
        } else {
            None
        },
        None => None,
    }
}

/// The record to persist after `validation`, stamped with the current time.
/// The clock is read only for a granting check; where it is unusable the
/// result is the clock failure.
pub fn activation_record_now(validation: &LicenseValidation, code: String, machine_id: String) -> (r:
    Result<Option<StoredLicense>, String>)
    ensures
        !grants(validation@) ==> r matches Ok(None),
        grants(validation@) ==> match r {
            Ok(Some(rec)) => exists|at: Seq<char>|
                at.len() >= 25 && Some(rec@) == #[trigger] granted_record(
                    validation@,
                    code@,
                    machine_id@,
                    at,
                ),
            Ok(None) => false,
            Err(e) => e@ == clock_failure_message(),
        },
{
    if !(validation.valid && validation.plan_tier.is_some()) {
        return Ok(None);
    }
    match now_rfc3339() {
        Some(at) => Ok(activation_record(validation, code, machine_id, at)),
        None => Err(String::from_str("Clock error: the system time is before 1970 or out of range")),
    }
}

/// One persisted slot holding at most one license record.
pub struct LicenseSlot {
    record: Option<StoredLicense>,
}

impl View for LicenseSlot {
    type V = Option<StoredLicenseView>;

    closed spec fn view(&self) -> Option<StoredLicenseView> {
        opt_record_view(self.record)
    }
}

impl LicenseSlot {
    /// An empty slot.
    pub fn new() -> (r: LicenseSlot)
        ensures
            r@ is None,
    {
        LicenseSlot { record: None }
    }

    /// The raw record, whatever machine it was activated on.
    pub fn read_record(&self) -> (r: Option<&StoredLicense>)
        ensures
            match r {
                Some(rec) => self@ == Some(rec@),
                None => self@ is None,
            },
    {
        match &self.record {
            Some(rec) => Some(rec),
            None => None,
        }
    }

    /// Stores `record`, replacing any record already there.
    pub fn write_record(&mut self, record: StoredLicense)
        ensures
            final(self)@ == Some(record@),
    {
        self.record = Some(record);
    }

    /// Removes the record; removing from an empty slot is no error.
    pub fn delete_record(&mut self)
        ensures
            final(self)@ is None,
    {
        self.record = None;
    }

    /// Takes the record out, leaving the slot empty.
    pub fn take_record(&mut self) -> (r: Option<StoredLicense>)
        ensures
            opt_record_view(r) == old(self)@,
            final(self)@ is None,
    {
        self.record.take()
    }

    /// The license that applies on the device `current_machine_id`: the record
    /// where it was activated there, none otherwise. The slot is left as it is.
    pub fn stored_license(&self, current_machine_id: &str) -> (r: Option<&StoredLicense>)
        ensures
            match r {
                Some(rec) => visible_record(self@, current_machine_id@) == Some(rec@),
                None => visible_record(self@, current_machine_id@) is None,
            },
    {
        match &self.record {
            Some(rec) => {
                let current = String::from_str(current_machine_id);
                if rec.machine_id == current {
                    Some(rec)
                } else {
                    None
                }
            },
            None => None,
        }
    }

    /// Clears the slot on logout or deactivation. Clearing an empty slot is
    /// no error and leaves it empty; the call never fails.
    pub fn clear_license(&mut self)
        ensures
            final(self)@ is None,
    {
        self.delete_record();
    }

    /// Reports the reply of the authority to a check of `code` from
    /// `machine_id`, and persists the record activated at `activated_at`
    /// where the check granted a plan.
    pub fn record_check_at(
        &mut self,
        reply: AuthorityReply,
        code: String,
        machine_id: String,
        activated_at: String,
    ) -> (r: LicenseValidation)
        ensures
            r@ == reply_outcome(reply),
            final(self)@ == slot_after_check(old(self)@, r@, code@, machine_id@, activated_at@),
    {
        let validation = interpret_reply(reply);
        match activation_record(&validation, code, machine_id, activated_at) {
            Some(record) => self.write_record(record),
            None => {},
        }
        validation
    }

    /// As `record_check_at`, with the record stamped at the current time.
    /// Fails, leaving the slot as it was, only where the check granted a plan
    /// and the clock is unusable.
    pub fn record_check(&mut self, reply: AuthorityReply, code: String, machine_id: String) -> (r:
        Result<LicenseValidation, String>)
        ensures
            match r {
                Ok(v) => {
                    &&& v@ == reply_outcome(reply)
                    &&& !grants(v@) ==> final(self)@ == old(self)@
                    &&& grants(v@) ==> exists|at: Seq<char>|
                        at.len() >= 25 && final(self)@ == #[trigger] slot_after_check(
                            old(self)@,
                            v@,
                            code@,
                            machine_id@,
                            at,
                        )
                },
                Err(e) => {
                    &&& grants(reply_outcome(reply))
                    &&& e@ == clock_failure_message()
                    &&& final(self)@ == old(self)@
                },
            },
    {
        let validation = interpret_reply(reply);
        let ghost code_v = code@;
        let ghost machine_v = machine_id@;
        match activation_record_now(&validation, code, machine_id) {
            Ok(Some(record)) => {
                proof {
                    let at = choose|at: Seq<char>|
                        at.len() >= 25 && Some(record@) == #[trigger] granted_record(
                            validation@,
                            code_v,
                            machine_v,
                            at,
                        );
                    assert(slot_after_check(self@, validation@, code_v, machine_v, at) == Some(
                        record@,
                    ));
                }
                self.write_record(record);
            },
            Ok(None) => {},
            Err(e) => return Err(e),
        }
        Ok(validation)
    }
}

/// A stored record is returned on a device exactly when it was activated on
/// that device; on any other device the read gives none.
pub proof fn lemma_binding(record: StoredLicenseView, current: Seq<char>)
    ensures
        visible_record(Some(record), current) == Some(record) <==> record.machine_id == current,
        record.machine_id != current ==> visible_record(Some(record), current) is None,
{
}

/// Two granting checks in a row leave one record: the one of the second check,
/// with its code and its activation time.
pub proof fn lemma_reactivation_overwrites(
    slot: Option<StoredLicenseView>,
    v1: ValidationView,
    code1: Seq<char>,
    at1: Seq<char>,
    v2: ValidationView,
    code2: Seq<char>,
    at2: Seq<char>,
    machine_id: Seq<char>,
)
    requires
        grants(v1),
        grants(v2),
    ensures
        ({
            let after = slot_after_check(
                slot_after_check(slot, v1, code1, machine_id, at1),
                v2,
                code2,
                machine_id,
                at2,
            );
            &&& after is Some
            &&& after->0.code == code2
            &&& after->0.activated_at == at2
            &&& after->0.plan_tier == v2.plan_tier->0
            &&& after->0.machine_id == machine_id
        }),
{
}

/// A check that grants nothing leaves the slot as it was.
pub proof fn lemma_failed_check_keeps_slot(
    slot: Option<StoredLicenseView>,
    v: ValidationView,
    code: Seq<char>,
    machine_id: Seq<char>,
    at: Seq<char>,
)
    requires
        !grants(v),
    ensures
        slot_after_check(slot, v, code, machine_id, at) == slot,
{
}

/// A record activated on another machine is hidden from this one while it
/// stays in the slot, and the read stays empty after a clear.
pub proof fn lemma_foreign_record_hidden(record: StoredLicenseView, current: Seq<char>)
    requires
        record.machine_id != current,
    ensures
        visible_record(Some(record), current) is None,
        visible_record(None, current) is None,
{
}

} // verus!
